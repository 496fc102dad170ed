//! The snapshot of one file: its as-given name, canonical path, owner,
//! group and mode bits, captured exactly once at discovery time. All later
//! change computation works against this record, never against a fresh
//! re-query of the filesystem.

use vstd::prelude::*;
use crate::changes::{ChMod, ChOwn, Change};
use crate::options::{Group, Options, User};

verus! {

/// An immutable record of one path's location and metadata, captured once.
/// `abs_path` is the canonicalized form that change system calls are issued
/// against; `name` is the path as the user supplied it.
#[derive(Debug)]
pub struct File {
    pub name: String,
    pub abs_path: String,
    pub owner: User,
    pub group: Group,
    pub mode: u32,
}

impl File {
    /// Assemble a snapshot from the metadata that the caller captured. The
    /// capture itself is the caller's: it resolves the canonical path,
    /// queries the file's uid, gid and mode, and resolves the ids to names.
    pub fn new(name: String, abs_path: String, owner: User, group: Group, mode: u32) -> (r: File)
        ensures
            r == (File { name, abs_path, owner, group, mode }),
    {
        File { name, abs_path, owner, group, mode }
    }

    /// The concrete changes that `options` calls for against this snapshot:
    /// the combined ownership change when one is needed, then the mode
    /// change when one is needed, and nothing else.
    pub open spec fn spec_changes(self, options: Options) -> Seq<Change> {
        let ownership_part = match ChOwn::spec_new(self, options) {
            Some(chown) => seq![Change::Owner(chown)],
            None => Seq::<Change>::empty(),
        };
        match ChMod::spec_new(self, options) {
            Some(chmod) => ownership_part.push(Change::Mode(chmod)),
            None => ownership_part,
        }
    }

    /// Compute the non-redundant list of changes needed to bring this
    /// snapshot to the requested configuration: at most one combined
    /// ownership change followed by at most one mode change, each present
    /// exactly when the corresponding property differs. An empty list means
    /// there is nothing to do.
    pub fn changes(&self, options: &Options) -> (r: Vec<Change>)
        ensures
            r@ == self.spec_changes(*options),
    {
        let mut changes: Vec<Change> = Vec::new();

        if let Some(chown) = ChOwn::new(self, options) {
            changes.push(Change::Owner(chown));
        }
        if let Some(chmod) = ChMod::new(self, options) {
            changes.push(Change::Mode(chmod));
        }

        proof {
            assert(changes@ =~= self.spec_changes(*options));
        }
        changes
    }
}

/// A snapshot whose owner, group and mode already equal every requested
/// value needs zero changes: nothing that is already correct is touched.
pub proof fn lemma_no_difference_no_changes(file: File, options: Options)
    requires
        options.owner matches Some(owner) ==> owner.uid == file.owner.uid,
        options.group matches Some(group) ==> group.gid == file.group.gid,
        options.mode_change matches Some(mode_change) ==> mode_change.spec_apply(file.mode)
            == file.mode,
    ensures
        file.spec_changes(options).len() == 0,
{
}

/// A configuration that requests only a group change, to a gid that
/// differs from the snapshot's, yields exactly one change: an ownership
/// change carrying the new gid and no owner, with no spurious owner or
/// mode entries.
pub proof fn lemma_group_change_alone_is_one_change(file: File, options: Options)
    requires
        options.owner is None,
        options.mode_change is None,
        options.group matches Some(group) && group.gid != file.group.gid,
    ensures
        file.spec_changes(options).len() == 1,
        file.spec_changes(options)[0] == Change::Owner(
            ChOwn {
                owner: None,
                uid: file.owner.uid,
                group: options.group,
                gid: options.group->0.gid,
            },
        ),
{
}

/// Requesting both an owner and a group change, each differing from the
/// snapshot, yields one combined ownership change carrying both new
/// identities — never two separate ownership changes. Any further entry in
/// the change list is a mode change.
pub proof fn lemma_ownership_changes_combine(file: File, options: Options)
    requires
        options.owner matches Some(owner) && owner.uid != file.owner.uid,
        options.group matches Some(group) && group.gid != file.group.gid,
    ensures
        file.spec_changes(options).len() >= 1,
        file.spec_changes(options)[0] == Change::Owner(
            ChOwn {
                owner: options.owner,
                uid: options.owner->0.uid,
                group: options.group,
                gid: options.group->0.gid,
            },
        ),
        forall|i: int|
            1 <= i < file.spec_changes(options).len() ==> !(file.spec_changes(options)[i]
                is Owner),
{
}

} // verus!
