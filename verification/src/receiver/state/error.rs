//! Why a step of the receiver failed.

use vstd::prelude::*;

verus! {

/// Why a step of the receiver failed.
#[derive(Clone, Copy, PartialEq, Eq, Structural, Debug)]
pub enum ReceiverError {
    /// Binding, accepting or writing failed.
    SocketError,
    /// Reading failed.
    RecvError,
}

impl ReceiverError {
    /// The name of the error.
    pub open spec fn name(self) -> Seq<char> {
        match self {
            ReceiverError::SocketError => "SocketError"@,
            ReceiverError::RecvError => "RecvError"@,
        }
    }

    pub fn to_string(&self) -> (name: String)
        ensures
            name@ == self.name(),
    {
        match self {
            ReceiverError::SocketError => String::from_str("SocketError"),
            ReceiverError::RecvError => String::from_str("RecvError"),
        }
    }
}

} // verus!
