//! One path named on the command line, together with the snapshot captured
//! for it — or nothing, when the path did not resolve to an existing,
//! fully-describable file. A missing snapshot is the uniform "target
//! missing" signal, never a fault.

use vstd::prelude::*;
use crate::file::File;

verus! {

/// A named target: the path as the user gave it, and its snapshot when one
/// could be captured.
#[derive(Debug)]
pub struct Target {
    pub name: String,
    pub file: Option<File>,
}

impl Target {
    /// Pair a path with the snapshot captured for it. The capture itself is
    /// the caller's: it hands in nothing when the path does not resolve or
    /// its metadata cannot be fully described.
    pub fn new(name: String, file: Option<File>) -> (r: Target)
        ensures
            r == (Target { name, file }),
    {
        Target { name, file }
    }

    /// What `long_name` returns: the snapshot's canonical path when there
    /// is one, else the as-given name.
    pub open spec fn spec_long_name(self) -> Seq<char> {
        match self.file {
            Some(file) => file.abs_path@,
            None => self.name@,
        }
    }

    /// The most precise name known for this target: the canonical path of
    /// its snapshot when the target was found, else the name as given.
    pub fn long_name(&self) -> (r: &str)
        ensures
            r@ == self.spec_long_name(),
    {
        if let Some(file) = &self.file {
            file.abs_path.as_str()
        } else {
            self.short_name()
        }
    }

    /// The target's name as the user supplied it.
    pub fn short_name(&self) -> (r: &str)
        ensures
            r@ == self.name@,
    {
        self.name.as_str()
    }
}

} // verus!
