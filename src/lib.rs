//! Client-side binding for the Item object of the freedesktop.org Secret Service.
//!
//! The library holds the rules of the binding: which object paths address an
//! item, what the reply of `Delete` means, what each property write carries and
//! how remote timestamps read. The bus calls themselves are made by the caller.
pub mod error;
pub mod item;
pub mod path;
pub mod property;
