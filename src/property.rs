//! The item's properties, and the values written to them.
use std::collections::HashMap;
use vstd::prelude::*;

verus! {

/// A property of the remote Item interface.
#[derive(Debug, Clone, Copy, PartialEq, Eq, Structural)]
pub enum Property {
    /// Whether the item's secret is locked (boolean).
    Locked,
    /// The item's display label (string, writable).
    Label,
    /// When the item was created (u64 seconds since the epoch).
    Created,
    /// When the item was last modified (u64 seconds since the epoch).
    Modified,
    /// The item's lookup attributes (string-to-string map, writable).
    Attributes,
}

/// The name under which the service publishes a property.
pub open spec fn property_name(p: Property) -> Seq<char> {
    match p {
        Property::Locked => "Locked"@,
        Property::Label => "Label"@,
        Property::Created => "Created"@,
        Property::Modified => "Modified"@,
        Property::Attributes => "Attributes"@,
    }
}

impl Property {
    /// The name under which the service publishes the property.
    pub fn name(&self) -> (r: &'static str)
        ensures
            r@ == property_name(*self),
    {
        match self {
            Property::Locked => "Locked",
            Property::Label => "Label",
            Property::Created => "Created",
            Property::Modified => "Modified",
            Property::Attributes => "Attributes",
        }
    }
}

/// A value written to a property.
#[derive(Debug, Clone, PartialEq, Eq)]
pub enum Value {
    /// A string, for the label.
    Text(String),
    /// Key/value pairs with unique keys, for the attributes.
    Attributes(HashMap<String, String>),
}

/// One remote property write: the property and the value it is set to.
#[derive(Debug, Clone, PartialEq, Eq)]
pub struct PropertyWrite {
    pub property: Property,
    pub value: Value,
}

/// Time since the Unix epoch, at nanosecond resolution.
#[derive(Debug, Clone, Copy, PartialEq, Eq, Structural)]
pub struct Timestamp {
    secs: u64,
    nanos: u32,
}

impl Timestamp {
    /// Whole seconds of the timestamp.
    pub closed spec fn secs(&self) -> nat {
        self.secs as nat
    }

    /// The part below one second, in nanoseconds.
    pub closed spec fn nanos(&self) -> nat {
        self.nanos as nat
    }

    /// The sub-second part is below one second.
    pub closed spec fn wf(&self) -> bool {
        self.nanos < 1_000_000_000
    }

    /// The timestamp `secs` whole seconds after the epoch.
    pub fn from_secs(secs: u64) -> (r: Timestamp)
        ensures
            r.wf(),
            r.secs() == secs,
            r.nanos() == 0,
    {
        Timestamp { secs, nanos: 0 }
    }

    /// Whole seconds of the timestamp.
    pub fn as_secs(&self) -> (r: u64)
        ensures
            r == self.secs(),
    {
        self.secs
    }

    /// The part below one second, in nanoseconds.
    pub fn subsec_nanos(&self) -> (r: u32)
        ensures
            r == self.nanos(),
    {
        self.nanos
    }
}

} // verus!
