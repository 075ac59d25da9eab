//! Whole runs of the controller: the phases that it passes through and
//! the actions that it issues when a series of outcomes is reported to it.

use vstd::prelude::*;
use crate::action::{Action, Outcome};
use crate::controller::{Controller, Phase};
use crate::options::Options;

verus! {

/// The phases that a run with the given options passes through, the first
/// one included, when the outcomes are reported in their order. An outcome
/// that is not taken leaves no phase.
pub open spec fn path(options: Options, outcomes: Seq<Outcome>) -> Seq<Phase>
    decreases outcomes.len(),
{
    if outcomes.len() == 0 {
        seq![Phase::initial(options)]
    } else {
        let before = path(options, outcomes.drop_last());
        match before.last().next(options, outcomes.last()) {
            Some(phase) => before.push(phase),
            None => before,
        }
    }
}

/// The actions that a run with the given options issues, the first one
/// included, when the outcomes are reported in their order.
pub open spec fn trace(options: Options, outcomes: Seq<Outcome>) -> Seq<Action> {
    Seq::new(path(options, outcomes).len(), |i: int| path(options, outcomes)[i].pending())
}

/// Whether some outcome leads from the one phase to the other.
pub open spec fn follows(options: Options, before: Phase, after: Phase) -> bool {
    exists|outcome: Outcome| #[trigger] before.next(options, outcome) == Some(after)
}

/// Runs a controller with the given options over recorded outcomes and
/// gives the actions that it issued, the first one included.
pub fn replay(options: Options, outcomes: &[Outcome]) -> (r: Vec<Action>)
    ensures
        r@ == trace(options, outcomes@),
{
    let mut controller = Controller::new(options);
    let mut actions: Vec<Action> = Vec::new();
    actions.push(controller.pending());
    assert(outcomes@.take(0).len() == 0);
    assert(actions@ == trace(options, outcomes@.take(0)));
    let mut i: usize = 0;
    while i < outcomes.len()
        invariant
            0 <= i <= outcomes.len(),
            controller.options() == options,
            controller.phase() == path(options, outcomes@.take(i as int)).last(),
            actions@ == trace(options, outcomes@.take(i as int)),
        decreases outcomes.len() - i,
    {
        proof {
            let taken = outcomes@.take(i as int + 1);
            assert(taken.drop_last() == outcomes@.take(i as int));
            assert(taken.last() == outcomes@[i as int]);
        }
        match controller.step(outcomes[i]) {
            Some(action) => {
                actions.push(action);
            },
            None => {},
        }
        i += 1;
        assert(actions@ == trace(options, outcomes@.take(i as int)));
    }
    assert(outcomes@.take(i as int) == outcomes@);
    actions
}

/// A run starts in the initial phase, has at most one phase more than
/// outcomes were reported, and each of its phases follows the one before it
/// on some outcome.
pub proof fn lemma_path_linked(options: Options, outcomes: Seq<Outcome>)
    ensures
        1 <= path(options, outcomes).len() <= outcomes.len() + 1,
        path(options, outcomes)[0] == Phase::initial(options),
        forall|i: int|
            0 <= i < path(options, outcomes).len() - 1 ==> follows(
                options,
                #[trigger] path(options, outcomes)[i],
                path(options, outcomes)[i + 1],
            ),
    decreases outcomes.len(),
{
    if outcomes.len() > 0 {
        lemma_path_linked(options, outcomes.drop_last());
        let before = path(options, outcomes.drop_last());
        let after = path(options, outcomes);
        match before.last().next(options, outcomes.last()) {
            Some(phase) => {
                assert(after == before.push(phase));
                assert forall|i: int| 0 <= i < after.len() - 1 implies follows(
                    options,
                    #[trigger] after[i],
                    after[i + 1],
                ) by {
                    if i < before.len() - 1 {
                        assert(follows(options, before[i], before[i + 1]));
                    } else {
                        assert(before.last().next(options, outcomes.last()) == Some(phase));
                    }
                }
            },
            None => {},
        }
    }
}

} // verus!
