//! The remote Item object: its address, and what each of its operations sends
//! and makes of the reply.
use std::collections::HashMap;
use vstd::prelude::*;

use crate::error::ItemError;
use crate::property::{Property, PropertyWrite, Timestamp, Value};
use crate::path::{is_object_path, is_root, is_root_path, is_valid_object_path};

verus! {

/// A remote Item, addressed by its object path on the Secret Service.
///
/// Nothing of the item's remote state is kept here: every read goes to the
/// service again.
#[derive(Debug, Clone)]
pub struct Item {
    path: String,
}

impl View for Item {
    type V = Seq<char>;

    /// The item's object path.
    closed spec fn view(&self) -> Seq<char> {
        self.path@
    }
}

impl Item {
    /// The item is addressed by a well-formed object path.
    pub open spec fn wf(&self) -> bool {
        is_object_path(self@)
    }

    /// The item at `object_path`. A malformed path is refused with an address
    /// error that names it; no remote call is made.
    pub fn new(object_path: &str) -> (r: Result<Item, ItemError>)
        ensures
            r is Ok <==> is_object_path(object_path@),
            r matches Ok(item) ==> item.wf() && item@ == object_path@,
            r matches Err(e) ==> e matches ItemError::Address(p) && p@ == object_path@,
    {
        if is_valid_object_path(object_path) {
            Ok(Item { path: object_path.to_string() })
        } else {
            Err(ItemError::Address(object_path.to_string()))
        }
    }

    /// The item's object path.
    pub fn path(&self) -> (r: &str)
        ensures
            r@ == self@,
    {
        self.path.as_str()
    }

    /// The name of the interface that the item's properties and methods belong to.
    pub fn interface(&self) -> (r: &'static str)
        ensures
            r@ == "org.freedesktop.Secret.Item"@,
    {
        "org.freedesktop.Secret.Item"
    }

    /// The well-known name of the service that holds the item.
    pub fn destination(&self) -> (r: &'static str)
        ensures
            r@ == "org.freedesktop.secrets"@,
    {
        "org.freedesktop.secrets"
    }

    /// What the reply of the item's `Delete` method means. A reply that is not
    /// a well-formed object path is a decode error that names it; the root path
    /// `/` means the item is gone with no prompt; any other path is the prompt
    /// that the caller must drive to finish the deletion.
    pub fn delete(&self, reply: &str) -> (r: Result<Option<Prompt>, ItemError>)
        ensures
            r is Ok <==> is_object_path(reply@),
            r matches Ok(p) ==> match p {
                Some(prompt) => delete_outcome(reply@) == Some(prompt@),
                None => delete_outcome(reply@) is None,
            },
            r matches Err(e) ==> e matches ItemError::Decode(m) && m@ == reply@,
    {
        if !is_valid_object_path(reply) {
            Err(ItemError::Decode(reply.to_string()))
        } else if is_root(reply) {
            Ok(None)
        } else {
            Ok(Some(Prompt { path: reply.to_string() }))
        }
    }

    /// The write that sets the item's label to `label`: one write of the
    /// `Label` property, with `label` as it is.
    pub fn set_label(&self, label: &str) -> (r: PropertyWrite)
        ensures
            r.property == Property::Label,
            r.value matches Value::Text(t) && t@ == label@,
    {
        PropertyWrite { property: Property::Label, value: Value::Text(label.to_string()) }
    }

    /// The write that sets the item's attributes to `attributes`: one write of
    /// the `Attributes` property, with the map as it is.
    pub fn set_attributes(&self, attributes: HashMap<String, String>) -> (r: PropertyWrite)
        ensures
            r.property == Property::Attributes,
            r.value == Value::Attributes(attributes),
    {
        PropertyWrite { property: Property::Attributes, value: Value::Attributes(attributes) }
    }

    /// The creation time of the item, from the `Created` value that the
    /// service reported: `secs` whole seconds after the epoch.
    pub fn created(&self, secs: u64) -> (r: Timestamp)
        ensures
            r.wf(),
            r.secs() == secs,
            r.nanos() == 0,
    {
        Timestamp::from_secs(secs)
    }

    /// The last modification time of the item, from the `Modified` value that
    /// the service reported: `secs` whole seconds after the epoch.
    pub fn modified(&self, secs: u64) -> (r: Timestamp)
        ensures
            r.wf(),
            r.secs() == secs,
            r.nanos() == 0,
    {
        Timestamp::from_secs(secs)
    }
}

/// A pending user interaction that the service asks for before an operation
/// completes, addressed by its object path.
#[derive(Debug, Clone)]
pub struct Prompt {
    path: String,
}

impl View for Prompt {
    type V = Seq<char>;

    /// The prompt's object path.
    closed spec fn view(&self) -> Seq<char> {
        self.path@
    }
}

impl Prompt {
    /// The prompt's object path.
    pub fn path(&self) -> (r: &str)
        ensures
            r@ == self@,
    {
        self.path.as_str()
    }
}

/// What a remote `Delete` reply means: `None` where the service returned the
/// root path, a prompt at the returned path otherwise.
pub open spec fn delete_outcome(reply: Seq<char>) -> Option<Seq<char>> {
    if is_root_path(reply) {
        None
    } else {
        Some(reply)
    }
}

} // verus!
