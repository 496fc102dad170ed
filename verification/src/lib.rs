//! Core engine of a `chown`/`chmod`-style utility: given a snapshot of a
//! file's current owner, group and permission bits and a requested
//! configuration, compute the minimal set of concrete changes, decide which
//! OS mutations they call for (none under dry-run), and collect per-change
//! outcomes into renderable report lines.
//!
//! The library itself performs no I/O: capturing a snapshot, issuing the
//! `chmod`/`chown` system calls and printing the report lines are left to a
//! thin unverified shell around it.

pub mod changes;
pub mod file;
pub mod libc_error;
pub mod mode;
pub mod options;
pub mod report;
pub mod target;
