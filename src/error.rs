//! The single error kind of the library.
use vstd::prelude::*;

verus! {

/// A failure of any kind (transport, decoding, rejected login), carried as
/// a human-readable message.
#[derive(Debug, Clone)]
pub struct Error(pub String);

impl Error {
    /// The message that describes the failure.
    pub fn message(&self) -> (r: &String)
        ensures
            r == &self.0,
    {
        &self.0
    }
}

} // verus!
