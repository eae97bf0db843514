//! Per-entry decisions of the `check`, `link` and `clean` commands, and the
//! failure counts they add up to.
use vstd::prelude::*;
use crate::state::LinkState;

verus! {

/// A filesystem operation on an entry's target path.
#[derive(Clone, Copy, Debug, PartialEq, Eq, Structural)]
pub enum FsAction {
    /// Leave the target path as it is.
    Keep,
    /// Create a symlink at the target path that leads to the source.
    CreateLink,
    /// Remove the dangling symlink at the target path, then create one that
    /// leads to the source.
    ReplaceLink,
    /// Remove the symlink at the target path.
    RemoveLink,
}

/// The decision taken for one entry: what to do on disk, and whether the
/// entry reaches the desired state once that operation has succeeded.
#[derive(Clone, Copy, Debug, PartialEq, Eq, Structural)]
pub struct Plan {
    pub action: FsAction,
    pub ok: bool,
}

/// An entry is healthy exactly when its target links to its source.
pub open spec fn healthy(s: LinkState) -> bool {
    s == LinkState::LinkedCorrectly
}

/// Whether `link` reaches the linked state from `s` (given that the
/// operation it performs succeeds). Conflicts and inspection errors fail.
pub open spec fn link_succeeds(s: LinkState) -> bool {
    s == LinkState::LinkedCorrectly || s == LinkState::Absent || s == LinkState::BrokenLink
}

/// Whether `clean` reaches the unlinked state from `s` (given that the
/// operation it performs succeeds). Targets this tool does not own fail.
pub open spec fn unlink_succeeds(s: LinkState) -> bool {
    s == LinkState::Absent || s == LinkState::LinkedCorrectly || s == LinkState::BrokenLink
}

/// The operation that `link` performs on a target in state `s`.
pub open spec fn link_action(s: LinkState, dry_run: bool) -> FsAction {
    if dry_run {
        FsAction::Keep
    } else {
        match s {
            LinkState::Absent => FsAction::CreateLink,
            LinkState::BrokenLink => FsAction::ReplaceLink,
            _ => FsAction::Keep,
        }
    }
}

/// The operation that `clean` performs on a target in state `s`.
pub open spec fn unlink_action(s: LinkState, dry_run: bool) -> FsAction {
    if dry_run {
        FsAction::Keep
    } else {
        match s {
            LinkState::LinkedCorrectly | LinkState::BrokenLink => FsAction::RemoveLink,
            _ => FsAction::Keep,
        }
    }
}

/// What `link` decides for a target in state `s`.
pub open spec fn link_plan(s: LinkState, dry_run: bool) -> Plan {
    Plan { action: link_action(s, dry_run), ok: link_succeeds(s) }
}

/// What `clean` decides for a target in state `s`.
pub open spec fn unlink_plan(s: LinkState, dry_run: bool) -> Plan {
    Plan { action: unlink_action(s, dry_run), ok: unlink_succeeds(s) }
}

/// The state of a target after `a` has been performed on it successfully.
pub open spec fn effect(s: LinkState, a: FsAction) -> LinkState {
    match a {
        FsAction::Keep => s,
        FsAction::CreateLink | FsAction::ReplaceLink => LinkState::LinkedCorrectly,
        FsAction::RemoveLink => LinkState::Absent,
    }
}

/// Whether an entry ends in the desired state, once its plan has been
/// carried out and the operation reported `performed`.
pub open spec fn outcome(p: Plan, performed: bool) -> bool {
    p.ok && (p.action == FsAction::Keep || performed)
}

/// The number of `false` values in `s`.
pub open spec fn count_false(s: Seq<bool>) -> nat
    decreases s.len(),
{
    if s.len() == 0 {
        0
    } else {
        count_false(s.drop_last()) + if s.last() { 0nat } else { 1nat }
    }
}

/// Decides what `check` reports for an entry.
pub fn check_entry(s: LinkState) -> (r: bool)
    ensures
        r == healthy(s),
{
    match s {
        LinkState::LinkedCorrectly => true,
        _ => false,
    }
}

/// Decides what `link` does for an entry in state `s`. Under a dry run
/// nothing is touched and the same success is reported.
pub fn plan_link(s: LinkState, dry_run: bool) -> (r: Plan)
    ensures
        r == link_plan(s, dry_run),
        dry_run ==> r.action == FsAction::Keep,
        r.ok == link_plan(s, false).ok,
{
    let ok = match s {
        LinkState::LinkedCorrectly | LinkState::Absent | LinkState::BrokenLink => true,
        _ => false,
    };
    let action = if dry_run {
        FsAction::Keep
    } else {
        match s {
            LinkState::Absent => FsAction::CreateLink,
            LinkState::BrokenLink => FsAction::ReplaceLink,
            _ => FsAction::Keep,
        }
    };
    Plan { action, ok }
}

/// Decides what `clean` does for an entry in state `s`. Under a dry run
/// nothing is touched and the same success is reported.
pub fn plan_unlink(s: LinkState, dry_run: bool) -> (r: Plan)
    ensures
        r == unlink_plan(s, dry_run),
        dry_run ==> r.action == FsAction::Keep,
        r.ok == unlink_plan(s, false).ok,
{
    let ok = match s {
        LinkState::Absent | LinkState::LinkedCorrectly | LinkState::BrokenLink => true,
        _ => false,
    };
    let action = if dry_run {
        FsAction::Keep
    } else {
        match s {
            LinkState::LinkedCorrectly | LinkState::BrokenLink => FsAction::RemoveLink,
            _ => FsAction::Keep,
        }
    };
    Plan { action, ok }
}

/// Whether an entry ended in the desired state, given whether the operation
/// its plan asked for succeeded (ignored when the plan touches nothing).
pub fn settle(p: Plan, performed: bool) -> (r: bool)
    ensures
        r == outcome(p, performed),
{
    p.ok && (matches!(p.action, FsAction::Keep) || performed)
}

/// There are no more `false` values than values.
pub proof fn lemma_count_false_bound(s: Seq<bool>)
    ensures
        count_false(s) <= s.len(),
    decreases s.len(),
{
    if s.len() > 0 {
        lemma_count_false_bound(s.drop_last());
    }
}

/// A sequence of `true` values holds no `false` one.
pub proof fn lemma_count_false_all_true(s: Seq<bool>)
    requires
        forall|i: int| 0 <= i < s.len() ==> s[i],
    ensures
        count_false(s) == 0,
    decreases s.len(),
{
    if s.len() > 0 {
        lemma_count_false_all_true(s.drop_last());
    }
}

/// Counts the `false` values in `oks`.
pub fn count_failures(oks: &Vec<bool>) -> (r: i32)
    requires
        oks.len() <= i32::MAX,
    ensures
        r == count_false(oks@),
{
    let mut r: i32 = 0;
    let mut i: usize = 0;
    while i < oks.len()
        invariant
            i <= oks.len() <= i32::MAX,
            r == count_false(oks@.take(i as int)),
        decreases oks.len() - i,
    {
        proof {
            assert(oks@.take(i + 1).drop_last() =~= oks@.take(i as int));
            lemma_count_false_bound(oks@.take(i as int));
        }
        if !oks[i] {
            r = r + 1;
        }
        i = i + 1;
    }
    assert(oks@.take(oks.len() as int) =~= oks@);
    r
}

} // verus!
