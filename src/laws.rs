//! Properties of whole `link` and `clean` runs over a set of entries.
//!
//! A run is modelled on the states of the entries' targets: each entry gets
//! its plan, and its target ends in the state that the planned operation
//! leaves, every filesystem operation being assumed to succeed.
use vstd::prelude::*;
use crate::state::LinkState;
use crate::reconcile::{effect, link_action, link_plan, link_succeeds, unlink_action,
    unlink_plan, unlink_succeeds, count_false, lemma_count_false_all_true, FsAction, Plan};
use crate::commands::outcomes;

verus! {

/// Per entry, whether a real `link` run reaches the linked state.
pub open spec fn link_oks(states: Seq<LinkState>) -> Seq<bool> {
    states.map_values(|s: LinkState| link_plan(s, false).ok)
}

/// The target states after a real `link` run.
pub open spec fn after_link(states: Seq<LinkState>) -> Seq<LinkState> {
    states.map_values(|s: LinkState| effect(s, link_action(s, false)))
}

/// Per entry, whether a real `clean` run reaches the unlinked state.
pub open spec fn unlink_oks(states: Seq<LinkState>) -> Seq<bool> {
    states.map_values(|s: LinkState| unlink_plan(s, false).ok)
}

/// The target states after a real `clean` run.
pub open spec fn after_unlink(states: Seq<LinkState>) -> Seq<LinkState> {
    states.map_values(|s: LinkState| effect(s, unlink_action(s, false)))
}

/// Running `link` a second time changes nothing more and reports as many
/// failures as the first run; so none at all when the first run had none.
pub proof fn lemma_link_idempotent(states: Seq<LinkState>)
    ensures
        after_link(after_link(states)) == after_link(states),
        count_false(link_oks(after_link(states))) == count_false(link_oks(states)),
        (forall|i: int| 0 <= i < states.len() ==> link_succeeds(#[trigger] states[i]))
            ==> count_false(link_oks(after_link(states))) == 0,
{
    assert(after_link(after_link(states)) =~= after_link(states));
    assert(link_oks(after_link(states)) =~= link_oks(states));
    if forall|i: int| 0 <= i < states.len() ==> link_succeeds(#[trigger] states[i]) {
        lemma_count_false_all_true(link_oks(states));
    }
}

/// `clean` on entries that are already unlinked reports no failure and
/// leaves every target as it is.
pub proof fn lemma_clean_unlinked(states: Seq<LinkState>)
    requires
        forall|i: int| 0 <= i < states.len() ==> #[trigger] states[i] == LinkState::Absent,
    ensures
        after_unlink(states) == states,
        count_false(unlink_oks(states)) == 0,
{
    assert(after_unlink(states) =~= states);
    lemma_count_false_all_true(unlink_oks(states));
}

/// Running `clean` a second time changes nothing more and reports as many
/// failures as the first run; so none at all when the first run had none.
pub proof fn lemma_clean_idempotent(states: Seq<LinkState>)
    ensures
        after_unlink(after_unlink(states)) == after_unlink(states),
        count_false(unlink_oks(after_unlink(states))) == count_false(unlink_oks(states)),
        (forall|i: int| 0 <= i < states.len() ==> unlink_succeeds(#[trigger] states[i]))
            ==> count_false(unlink_oks(after_unlink(states))) == 0,
{
    assert(after_unlink(after_unlink(states)) =~= after_unlink(states));
    assert(unlink_oks(after_unlink(states)) =~= unlink_oks(states));
    if forall|i: int| 0 <= i < states.len() ==> unlink_succeeds(#[trigger] states[i]) {
        lemma_count_false_all_true(unlink_oks(states));
    }
}

/// From an absent target, `link` then `clean` both succeed and leave the
/// target absent again.
pub proof fn lemma_link_then_clean(s: LinkState)
    requires
        s == LinkState::Absent,
    ensures
        link_plan(s, false).ok,
        effect(s, link_action(s, false)) == LinkState::LinkedCorrectly,
        unlink_plan(effect(s, link_action(s, false)), false).ok,
        effect(
            effect(s, link_action(s, false)),
            unlink_action(effect(s, link_action(s, false)), false),
        ) == LinkState::Absent,
{
}

/// A target occupied by a real file or directory is never touched by
/// `link` or `clean`, and both report a failure for it.
pub proof fn lemma_non_destruction(s: LinkState, dry_run: bool)
    requires
        s == LinkState::OccupiedByFile,
    ensures
        link_plan(s, dry_run).action == FsAction::Keep,
        !link_plan(s, dry_run).ok,
        unlink_plan(s, dry_run).action == FsAction::Keep,
        !unlink_plan(s, dry_run).ok,
{
}

/// A dry run touches no target and reports the same success as a real run.
pub proof fn lemma_dry_run_pure(s: LinkState)
    ensures
        link_plan(s, true).action == FsAction::Keep,
        effect(s, link_plan(s, true).action) == s,
        link_plan(s, true).ok == link_plan(s, false).ok,
        unlink_plan(s, true).action == FsAction::Keep,
        effect(s, unlink_plan(s, true).action) == s,
        unlink_plan(s, true).ok == unlink_plan(s, false).ok,
{
}

/// The plans of a `link` run, one per entry.
pub open spec fn link_plans(states: Seq<LinkState>, dry_run: bool) -> Seq<Plan> {
    states.map_values(|s: LinkState| link_plan(s, dry_run))
}

/// The plans of a `clean` run, one per entry.
pub open spec fn unlink_plans(states: Seq<LinkState>, dry_run: bool) -> Seq<Plan> {
    states.map_values(|s: LinkState| unlink_plan(s, dry_run))
}

/// Whether `next` can be what a run with `plans` leaves of `states`, given
/// which operations succeeded: an entry that was left alone, or whose
/// operation succeeded, is in the state that the operation leads to; of an
/// entry whose operation failed nothing is known.
pub open spec fn run_leaves(
    states: Seq<LinkState>,
    plans: Seq<Plan>,
    performed: Seq<bool>,
    next: Seq<LinkState>,
) -> bool {
    &&& plans.len() == states.len()
    &&& performed.len() == states.len()
    &&& next.len() == states.len()
    &&& forall|i: int|
        0 <= i < states.len() && (plans[i].action == FsAction::Keep || performed[i])
            ==> #[trigger] next[i] == effect(states[i], plans[i].action)
}

/// A count of zero means that every value is `true`.
pub proof fn lemma_count_false_zero(s: Seq<bool>)
    requires
        count_false(s) == 0,
    ensures
        forall|i: int| 0 <= i < s.len() ==> s[i],
    decreases s.len(),
{
    if s.len() > 0 {
        lemma_count_false_zero(s.drop_last());
        assert forall|i: int| 0 <= i < s.len() implies s[i] by {
            if i < s.len() - 1 {
                assert(s[i] == s.drop_last()[i]);
            }
        }
    }
}

/// Whatever operations of a first `link` run failed, a second run leaves
/// every entry that the first one settled alone and reports it as a
/// success. When the first run reported no failure, the second one touches
/// nothing and reports no failure either.
pub proof fn lemma_link_rerun(states: Seq<LinkState>, performed: Seq<bool>, next: Seq<LinkState>)
    requires
        run_leaves(states, link_plans(states, false), performed, next),
    ensures
        forall|i: int|
            0 <= i < states.len() && #[trigger] outcomes(link_plans(states, false), performed)[i]
                ==> link_plan(next[i], false) == (Plan { action: FsAction::Keep, ok: true }),
        count_false(outcomes(link_plans(states, false), performed)) == 0 ==> {
            &&& after_link(next) == next
            &&& count_false(link_oks(next)) == 0
            &&& forall|i: int|
                0 <= i < next.len() ==> #[trigger] link_plans(next, false)[i].action
                    == FsAction::Keep
        },
{
    let plans = link_plans(states, false);
    let outs = outcomes(plans, performed);
    assert forall|i: int| 0 <= i < states.len() && #[trigger] outs[i] implies link_plan(
        next[i],
        false,
    ) == (Plan { action: FsAction::Keep, ok: true }) by {
        assert(next[i] == effect(states[i], plans[i].action));
    }
    if count_false(outs) == 0 {
        lemma_count_false_zero(outs);
        assert forall|i: int| 0 <= i < next.len() implies next[i] == LinkState::LinkedCorrectly by {
            assert(outs[i]);
            assert(next[i] == effect(states[i], plans[i].action));
        }
        assert(after_link(next) =~= next);
        lemma_count_false_all_true(link_oks(next));
    }
}

/// From absent targets, a `link` run and then a `clean` run that both
/// report no failure leave every target absent again.
pub proof fn lemma_link_then_clean_run(
    states: Seq<LinkState>,
    linked: Seq<bool>,
    mid: Seq<LinkState>,
    removed: Seq<bool>,
    fin: Seq<LinkState>,
)
    requires
        forall|i: int| 0 <= i < states.len() ==> #[trigger] states[i] == LinkState::Absent,
        run_leaves(states, link_plans(states, false), linked, mid),
        count_false(outcomes(link_plans(states, false), linked)) == 0,
        run_leaves(mid, unlink_plans(mid, false), removed, fin),
        count_false(outcomes(unlink_plans(mid, false), removed)) == 0,
    ensures
        fin == states,
{
    let p1 = link_plans(states, false);
    let p2 = unlink_plans(mid, false);
    lemma_count_false_zero(outcomes(p1, linked));
    lemma_count_false_zero(outcomes(p2, removed));
    assert forall|i: int| 0 <= i < states.len() implies fin[i] == states[i] by {
        assert(outcomes(p1, linked)[i]);
        assert(mid[i] == effect(states[i], p1[i].action));
        assert(outcomes(p2, removed)[i]);
        assert(fin[i] == effect(mid[i], p2[i].action));
    }
    assert(fin =~= states);
}

} // verus!
