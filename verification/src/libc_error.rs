//! The typed failure of an OS-level change: a structured wrapper around the
//! error code that the failed system call left behind.

use vstd::prelude::*;

verus! {

/// A failed system call, carrying the OS error code that it set. The caller
/// that issued the call reads the code and hands it in.
#[derive(Clone, Copy, Debug, PartialEq, Eq, Structural)]
pub struct LibCError {
    pub errno: i32,
}

impl LibCError {
    /// An error with no code recorded.
    pub fn new() -> (r: LibCError)
        ensures
            r == (LibCError { errno: 0 }),
    {
        LibCError { errno: 0 }
    }

    /// The error that a system call which set the given `errno` amounts to.
    pub fn from_errno(errno: i32) -> (r: LibCError)
        ensures
            r == (LibCError { errno }),
    {
        LibCError { errno }
    }

    /// A short rendering of the failure for report lines.
    pub fn description(&self) -> (r: &'static str)
        ensures
            r@ == "ERROR"@,
    {
        "ERROR"
    }
}

} // verus!
