//! The requested configuration for one run: an optional target owner, an
//! optional target group, an optional mode transformation, a dry-run switch
//! and a verbosity level. Any absent property is left alone on every file.

use vstd::prelude::*;
use crate::mode::ModeChange;

verus! {

/// A user identity: a numeric id together with the name it resolved from.
#[derive(Debug)]
pub struct User {
    pub uid: u32,
    pub name: String,
}

impl Clone for User {
    fn clone(&self) -> (r: User)
        ensures
            r == *self,
    {
        User { uid: self.uid, name: self.name.clone() }
    }
}

/// A group identity: a numeric id together with the name it resolved from.
#[derive(Debug)]
pub struct Group {
    pub gid: u32,
    pub name: String,
}

impl Clone for Group {
    fn clone(&self) -> (r: Group)
        ensures
            r == *self,
    {
        Group { gid: self.gid, name: self.name.clone() }
    }
}

/// The configuration requested for a whole run, shared read-only across all
/// files: each property is optional, and an absent property is never
/// touched.
#[derive(Debug)]
pub struct Options {
    pub group: Option<Group>,
    pub mode_change: Option<ModeChange>,
    pub owner: Option<User>,
    pub dry_run: bool,
    pub verbose: u8,
}

impl Options {
    /// Assemble a configuration from its parts.
    pub fn new(
        owner: Option<User>,
        group: Option<Group>,
        mode_change: Option<ModeChange>,
        dry_run: bool,
        verbose: u8,
    ) -> (r: Options)
        ensures
            r == (Options { group, mode_change, owner, dry_run, verbose }),
    {
        Options { group, mode_change, owner, dry_run, verbose }
    }
}

/// The error message for a user name that resolved to no known user.
pub open spec fn illegal_user_message(name: Seq<char>) -> Seq<char> {
    name + ": illegal user name"@
}

/// The error message for a group name that resolved to no known group.
pub open spec fn illegal_group_message(name: Seq<char>) -> Seq<char> {
    name + ": illegal group name"@
}

/// The error message for a string that is no valid mode.
pub open spec fn invalid_mode_message(name: Seq<char>) -> Seq<char> {
    name + ": invalid mode"@
}

/// Accept the user that `user_name` resolved to, or explain in a message
/// that the name is illegal when it resolved to none. The resolution itself
/// is the caller's: it queries the system user database.
pub fn get_user(user_name: &str, resolved: Option<User>) -> (r: Result<User, String>)
    ensures
        match resolved {
            Some(user) => r == Ok::<User, String>(user),
            None => r matches Err(m) && m@ == illegal_user_message(user_name@),
        },
{
    if let Some(user) = resolved {
        Ok(user)
    } else {
        let message = String::from_str(user_name).concat(": illegal user name");
        Err(message)
    }
}

/// Accept the group that `group_name` resolved to, or explain in a message
/// that the name is illegal when it resolved to none. The resolution itself
/// is the caller's: it queries the system group database.
pub fn get_group(group_name: &str, resolved: Option<Group>) -> (r: Result<Group, String>)
    ensures
        match resolved {
            Some(group) => r == Ok::<Group, String>(group),
            None => r matches Err(m) && m@ == illegal_group_message(group_name@),
        },
{
    if let Some(group) = resolved {
        Ok(group)
    } else {
        let message = String::from_str(group_name).concat(": illegal group name");
        Err(message)
    }
}

/// Parse `mode_name` into a mode transformation, or explain in a message
/// that it is no valid mode.
pub fn get_mode_change(mode_name: &str) -> (r: Result<ModeChange, String>)
    ensures
        match ModeChange::spec_new(mode_name@) {
            Some(mode_change) => r == Ok::<ModeChange, String>(mode_change),
            None => r matches Err(m) && m@ == invalid_mode_message(mode_name@),
        },
{
    if let Some(mode_change) = ModeChange::new(mode_name) {
        Ok(mode_change)
    } else {
        let message = String::from_str(mode_name).concat(": invalid mode");
        Err(message)
    }
}

} // verus!
