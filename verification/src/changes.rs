//! Concrete, non-redundant property changes for one file: the diff
//! computation that decides which changes are needed, the OS mutation each
//! change calls for, and the pairing of a change with its outcome. A change
//! is only ever constructed when it represents an actual difference from
//! the snapshot.

use vstd::prelude::*;
use crate::file::File;
use crate::libc_error::LibCError;
use crate::options::{Group, Options, User};

verus! {

/// A change of a file's permission bits to `mode`, which differs from the
/// snapshot's mode.
#[derive(Clone, Copy, Debug, PartialEq, Eq, Structural)]
pub struct ChMod {
    pub mode: u32,
}

/// A combined change of a file's ownership: the uid and gid to set, with
/// the requested identities recorded for the properties that actually
/// differ (at least one does).
#[derive(Debug)]
pub struct ChOwn {
    pub owner: Option<User>,
    pub uid: u32,
    pub group: Option<Group>,
    pub gid: u32,
}

impl Clone for ChOwn {
    fn clone(&self) -> (r: ChOwn)
        ensures
            r == *self,
    {
        let owner = match &self.owner {
            Some(user) => Some(user.clone()),
            None => None,
        };
        let group = match &self.group {
            Some(group) => Some(group.clone()),
            None => None,
        };
        ChOwn { owner, uid: self.uid, group, gid: self.gid }
    }
}

/// One concrete change: either the file's permission bits or its ownership.
#[derive(Debug)]
pub enum Change {
    Mode(ChMod),
    Owner(ChOwn),
}

impl Clone for Change {
    fn clone(&self) -> (r: Change)
        ensures
            r == *self,
    {
        match self {
            Change::Mode(chmod) => Change::Mode(*chmod),
            Change::Owner(chown) => Change::Owner(chown.clone()),
        }
    }
}

/// An OS-level mutation: one of the two primitives the engine needs, each
/// atomic at the OS level and aimed at the snapshot's canonical path.
#[derive(Debug)]
pub enum OsAction {
    SetMode { path: String, mode: u32 },
    SetOwnership { path: String, uid: u32, gid: u32 },
}

/// A change paired with its outcome: no error signals success, and a
/// failure keeps the original change for reporting.
#[derive(Debug)]
pub struct AppliedChange {
    pub change: Change,
    pub error: Option<LibCError>,
}

impl Clone for AppliedChange {
    fn clone(&self) -> (r: AppliedChange)
        ensures
            r == *self,
    {
        AppliedChange { change: self.change.clone(), error: self.error }
    }
}

impl ChMod {
    /// What `new` returns: the mode change that `options` calls for against
    /// the snapshot `file`, or nothing when no transformation was requested
    /// or the transformed mode equals the snapshot's.
    pub open spec fn spec_new(file: File, options: Options) -> Option<ChMod> {
        match options.mode_change {
            Some(mode_change) => {
                if file.mode != mode_change.spec_apply(file.mode) {
                    Some(ChMod { mode: mode_change.spec_apply(file.mode) })
                } else {
                    None
                }
            },
            None => None,
        }
    }

    /// The mode change needed for `file` under `options`: the requested
    /// transformation applied to the snapshot's mode, and only when the
    /// result differs from it.
    pub fn new(file: &File, options: &Options) -> (r: Option<ChMod>)
        ensures
            r == ChMod::spec_new(*file, *options),
    {
        if let Some(mode_change) = &options.mode_change {
            let new_mode = mode_change.apply(file.mode);
            if file.mode != new_mode {
                return Some(ChMod { mode: new_mode });
            }
        }
        None
    }
}

impl ChOwn {
    /// What `new` returns: the combined ownership change that `options`
    /// calls for against the snapshot `file`, or nothing when neither the
    /// requested owner's uid nor the requested group's gid differs from the
    /// snapshot's.
    pub open spec fn spec_new(file: File, options: Options) -> Option<ChOwn> {
        let base = ChOwn {
            owner: None,
            uid: file.owner.uid,
            group: None,
            gid: file.group.gid,
        };
        let with_owner = match options.owner {
            Some(new_owner) => {
                if base.uid != new_owner.uid {
                    ChOwn { owner: Some(new_owner), uid: new_owner.uid, ..base }
                } else {
                    base
                }
            },
            None => base,
        };
        let with_group = match options.group {
            Some(new_group) => {
                if with_owner.gid != new_group.gid {
                    ChOwn { group: Some(new_group), gid: new_group.gid, ..with_owner }
                } else {
                    with_owner
                }
            },
            None => with_owner,
        };
        if with_group.owner is Some || with_group.group is Some {
            Some(with_group)
        } else {
            None
        }
    }

    /// The single combined ownership change needed for `file` under
    /// `options`: the uid and gid start at the snapshot's and each is
    /// replaced only when a requested identity differs, so one change
    /// covers owner and group together; nothing when neither differs.
    pub fn new(file: &File, options: &Options) -> (r: Option<ChOwn>)
        ensures
            r == ChOwn::spec_new(*file, *options),
    {
        let mut chown = ChOwn {
            owner: None,
            uid: file.owner.uid,
            group: None,
            gid: file.group.gid,
        };

        if let Some(new_owner) = &options.owner {
            if chown.uid != new_owner.uid {
                chown.owner = Some(new_owner.clone());
                chown.uid = new_owner.uid;
            }
        }

        if let Some(new_group) = &options.group {
            if chown.gid != new_group.gid {
                chown.group = Some(new_group.clone());
                chown.gid = new_group.gid;
            }
        }

        if chown.owner.is_some() || chown.group.is_some() {
            Some(chown)
        } else {
            None
        }
    }
}

impl Change {
    /// What `required_action` returns: nothing under dry-run, else the OS
    /// mutation that realises this change at the snapshot's canonical path.
    pub open spec fn spec_required_action(self, file: File, options: Options) -> Option<OsAction> {
        if options.dry_run {
            None
        } else {
            match self {
                Change::Mode(chmod) => Some(
                    OsAction::SetMode { path: file.abs_path, mode: chmod.mode },
                ),
                Change::Owner(chown) => Some(
                    OsAction::SetOwnership { path: file.abs_path, uid: chown.uid, gid: chown.gid },
                ),
            }
        }
    }

    /// The OS mutation this change calls for, aimed at the snapshot's
    /// canonical path — not the as-given one, which may no longer resolve
    /// identically. Under dry-run there is none: the filesystem is never
    /// touched.
    pub fn required_action(&self, file: &File, options: &Options) -> (r: Option<OsAction>)
        ensures
            r == self.spec_required_action(*file, *options),
    {
        if options.dry_run {
            return None;
        }
        match self {
            Change::Mode(chmod) => Some(
                OsAction::SetMode { path: file.abs_path.clone(), mode: chmod.mode },
            ),
            Change::Owner(chown) => Some(
                OsAction::SetOwnership {
                    path: file.abs_path.clone(),
                    uid: chown.uid,
                    gid: chown.gid,
                },
            ),
        }
    }

    /// Pair this change with the outcome of performing it: no error when it
    /// needed no OS mutation or the mutation succeeded, else the failure
    /// that the system call reported.
    pub fn apply(&self, error: Option<LibCError>) -> (r: AppliedChange)
        ensures
            r == (AppliedChange { change: *self, error }),
    {
        AppliedChange { change: self.clone(), error }
    }
}

/// What `record_outcomes` returns: each change paired with its own outcome,
/// in order.
pub open spec fn spec_record_outcomes(
    changes: Seq<Change>,
    errors: Seq<Option<LibCError>>,
) -> Seq<AppliedChange> {
    Seq::new(changes.len(), |i: int| AppliedChange { change: changes[i], error: errors[i] })
}

/// Pair every change of one file with the outcome of performing it, in
/// order. Each outcome is attached to its own change only: one change's
/// failure neither alters nor suppresses the record of any other.
pub fn record_outcomes(changes: Vec<Change>, errors: &Vec<Option<LibCError>>) -> (r: Vec<
    AppliedChange,
>)
    requires
        changes@.len() == errors@.len(),
    ensures
        r@ == spec_record_outcomes(changes@, errors@),
{
    let mut applied: Vec<AppliedChange> = Vec::new();
    let mut i: usize = 0;
    while i < changes.len()
        invariant
            0 <= i <= changes@.len(),
            changes@.len() == errors@.len(),
            applied@ =~= spec_record_outcomes(changes@.take(i as int), errors@.take(i as int)),
        decreases changes@.len() - i,
    {
        applied.push(changes[i].apply(errors[i]));
        i = i + 1;
    }
    proof {
        assert(changes@.take(changes@.len() as int) =~= changes@);
        assert(errors@.take(errors@.len() as int) =~= errors@);
        assert(applied@ =~= spec_record_outcomes(changes@, errors@));
    }
    applied
}

/// What `successful_changes` returns: the outcomes without an error, in
/// order.
pub open spec fn spec_successful_changes(applied: Seq<AppliedChange>) -> Seq<AppliedChange>
    decreases applied.len(),
{
    if applied.len() == 0 {
        Seq::<AppliedChange>::empty()
    } else {
        let rest = spec_successful_changes(applied.drop_last());
        if applied.last().error is None {
            rest.push(applied.last())
        } else {
            rest
        }
    }
}

/// What `failed_changes` returns: the outcomes with an error, in order.
pub open spec fn spec_failed_changes(applied: Seq<AppliedChange>) -> Seq<AppliedChange>
    decreases applied.len(),
{
    if applied.len() == 0 {
        Seq::<AppliedChange>::empty()
    } else {
        let rest = spec_failed_changes(applied.drop_last());
        if applied.last().error is Some {
            rest.push(applied.last())
        } else {
            rest
        }
    }
}

/// The changes of one file that were applied successfully, in order.
pub fn successful_changes(applied: &Vec<AppliedChange>) -> (r: Vec<AppliedChange>)
    ensures
        r@ == spec_successful_changes(applied@),
{
    let mut successes: Vec<AppliedChange> = Vec::new();
    let mut i: usize = 0;
    while i < applied.len()
        invariant
            0 <= i <= applied@.len(),
            successes@ =~= spec_successful_changes(applied@.take(i as int)),
        decreases applied@.len() - i,
    {
        proof {
            assert(applied@.take(i + 1).drop_last() =~= applied@.take(i as int));
        }
        if applied[i].error.is_none() {
            successes.push(applied[i].clone());
        }
        i = i + 1;
    }
    proof {
        assert(applied@.take(applied@.len() as int) =~= applied@);
    }
    successes
}

/// The changes of one file whose application failed, each still paired
/// with its error, in order.
pub fn failed_changes(applied: &Vec<AppliedChange>) -> (r: Vec<AppliedChange>)
    ensures
        r@ == spec_failed_changes(applied@),
{
    let mut failures: Vec<AppliedChange> = Vec::new();
    let mut i: usize = 0;
    while i < applied.len()
        invariant
            0 <= i <= applied@.len(),
            failures@ =~= spec_failed_changes(applied@.take(i as int)),
        decreases applied@.len() - i,
    {
        proof {
            assert(applied@.take(i + 1).drop_last() =~= applied@.take(i as int));
        }
        if applied[i].error.is_some() {
            failures.push(applied[i].clone());
        }
        i = i + 1;
    }
    proof {
        assert(applied@.take(applied@.len() as int) =~= applied@);
    }
    failures
}

/// Under dry-run no change calls for any OS mutation, so a driver that
/// fails only where it performed an action — errors arise from performing,
/// nowhere else — records every change as a success: the filesystem is
/// never touched and applying never fails.
pub proof fn lemma_dry_run_never_mutates(
    changes: Seq<Change>,
    errors: Seq<Option<LibCError>>,
    file: File,
    options: Options,
)
    requires
        options.dry_run,
        errors.len() == changes.len(),
        forall|i: int|
            0 <= i < changes.len() && changes[i].spec_required_action(file, options) is None
                ==> errors[i] is None,
    ensures
        forall|i: int|
            0 <= i < changes.len() ==> changes[i].spec_required_action(file, options) is None,
        forall|i: int|
            0 <= i < changes.len() ==> spec_record_outcomes(changes, errors)[i].error is None,
{
}

/// A failure is isolated to its own change: whatever outcome the ownership
/// change had — a failure included — the mode change of the same file is
/// still recorded, with its own outcome untouched.
pub proof fn lemma_failure_is_isolated(
    changes: Seq<Change>,
    errors: Seq<Option<LibCError>>,
    i: int,
    j: int,
)
    requires
        changes.len() == errors.len(),
        0 <= i < changes.len(),
        0 <= j < changes.len(),
        i != j,
    ensures
        spec_record_outcomes(changes, errors)[j] == (AppliedChange {
            change: changes[j],
            error: errors[j],
        }),
{
}

} // verus!
