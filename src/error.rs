//! The single error surface of the binding.
use vstd::prelude::*;

verus! {

/// Every failure of an item operation, by where it arose.
#[derive(Debug, Clone, PartialEq, Eq)]
pub enum ItemError {
    /// The object path or destination could not address a remote object.
    Address(String),
    /// The connection failed to send the request or to receive the reply.
    Transport(String),
    /// The remote side answered with an explicit fault.
    Remote { name: String, message: String },
    /// The reply could not be read as the expected type.
    Decode(String),
}

impl ItemError {
    /// The error's message.
    pub fn message(&self) -> (r: &str)
        ensures
            r@ == match self {
                ItemError::Address(m) => m@,
                ItemError::Transport(m) => m@,
                ItemError::Remote { message, .. } => message@,
                ItemError::Decode(m) => m@,
            },
    {
        match self {
            ItemError::Address(m) => m.as_str(),
            ItemError::Transport(m) => m.as_str(),
            ItemError::Remote { message, .. } => message.as_str(),
            ItemError::Decode(m) => m.as_str(),
        }
    }
}

} // verus!
