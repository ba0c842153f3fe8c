//! Why the creation of a socket failed.

use vstd::prelude::*;

use crate::os::OsError;

verus! {

/// Error detailing why socket creation failed.
#[derive(Clone, Copy, Debug)]
pub struct SocketCreateError {
    pub reason: &'static str,
    pub err: OsError,
}

impl SocketCreateError {
    /// This error has the given reason and the given error code behind it.
    pub open spec fn says(self, reason: Seq<char>, code: int) -> bool {
        self.reason@ == reason && self.err.code == code
    }

    /// The text shown to a user: the reason.
    pub fn to_string(&self) -> (text: String)
        ensures
            text@ == self.reason@,
    {
        self.reason.to_owned()
    }

    /// The error behind this one. There always is one.
    pub fn source(&self) -> (source: Option<&OsError>)
        ensures
            source == Some(&self.err),
    {
        Some(&self.err)
    }
}

} // verus!
