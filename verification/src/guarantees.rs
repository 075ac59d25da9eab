//! What holds of every run of the controller, whatever outcomes are
//! reported to it.
//!
//! The statements speak of [`trace`], the actions of a run in their order,
//! and of [`policy_after`], the lock policy flag after the writes among
//! them. An index into a trace names one action of the run.

use vstd::prelude::*;
use vstd::std_specs::convert::FromSpec;
use crate::action::{Action, Outcome, Termination};
use crate::controller::Phase;
use crate::key::Key;
use crate::modifiers::Modifiers;
use crate::options::{Options, OptionsKeyError};
use crate::policy::{policy_after, GRACE_INTERVAL_MS};
use crate::trace::{follows, lemma_path_linked, path, trace};

verus! {

/// Which phase may follow which: the shape of every step.
///
/// The layout is asked first of all or never. The native lock is disabled
/// only right after the key was resolved, or right after the grace interval
/// that follows a lock action. The session is locked right after the
/// native lock was enabled, and only then. The native lock is restored only
/// where the options ask for it, and never on a configuration that does not
/// tell the key. Nothing follows the end of the process.
pub proof fn lemma_follows(options: Options, before: Phase, after: Phase)
    requires
        follows(options, before, after),
    ensures
        !(before is Terminated),
        !(after is Resolving),
        after is Disabling ==> before is Resolving && options.disable_windows,
        after is Registering ==> before is Disabling || (before is Resolving
            && !options.disable_windows),
        after is Hooking ==> before is Registering && options.restore_windows,
        after is Listening ==> before is Registering || before is Hooking || before is Listening
            || before is Locking || before is Redisabling,
        before is Listening ==> after is Listening || after is Enabling || after is Restoring
            || after is Terminated,
        after is Enabling ==> before is Listening,
        after is Locking <==> before is Enabling,
        before is Locking ==> after == if options.disable_windows {
            Phase::Waiting
        } else {
            Phase::Listening
        },
        after is Waiting ==> before is Locking && options.disable_windows,
        after is Redisabling <==> before is Waiting,
        before is Redisabling ==> after is Listening,
        after matches Phase::Restoring(how) ==> {
            &&& options.restore_windows
            &&& !(how is Configuration)
            &&& before is Resolving || before == Phase::Disabling(None) || before is Registering
                || before is Listening
        },
        before matches Phase::Restoring(how) ==> after == Phase::Terminated(how),
        after matches Phase::Terminated(how) ==> {
            ||| before == Phase::Restoring(how)
            ||| how is Configuration && before is Resolving
            ||| !options.restore_windows && (before is Resolving || before == Phase::Disabling(None)
                || before is Registering || before is Listening)
        },
{
}

/// The first phase of a run: the question to the layout where only a
/// character is given, the end of the process where two keys are given, and
/// otherwise what follows the resolution of the key.
pub proof fn lemma_initial(options: Options)
    ensures
        Phase::initial(options) is Resolving || Phase::initial(options) is Disabling
            || Phase::initial(options) is Registering || Phase::initial(options) is Restoring
            || Phase::initial(options) is Terminated,
        Phase::initial(options) is Resolving <==> options.virtual_code is None && options.key
            is Some,
        options.virtual_code is Some && options.key is Some ==> Phase::initial(options)
            == Phase::Terminated(Termination::Configuration(OptionsKeyError::Conflict)),
        Phase::initial(options) is Disabling ==> options.disable_windows,
        Phase::initial(options) matches Phase::Restoring(how) ==> options.restore_windows && how
            == Termination::NoHotkey,
        Phase::initial(options) matches Phase::Terminated(how) ==> how is Configuration || (
        !options.restore_windows && how == Termination::NoHotkey),
{
}

/// What is known of a phase because a run reached it.
///
/// A phase that disables the native lock, or waits to do so, is reached
/// only where the options ask for the disabling. The hook is installed and
/// the native lock restored only where they ask for the restoration.
/// Nothing comes before the registration but the question to the layout
/// and the write that disables. A run that restores ends right after the
/// restoring write, and a run that ends on the configuration has done
/// nothing but ask the layout.
pub proof fn lemma_reached(options: Options, outcomes: Seq<Outcome>, i: int)
    requires
        0 <= i < path(options, outcomes).len(),
    ensures
        ({
            let phases = path(options, outcomes);
            &&& phases[i] is Resolving ==> i == 0
            &&& phases[i] is Disabling ==> {
                &&& options.disable_windows
                &&& i <= 1
                &&& i == 1 ==> phases[0] is Resolving
            }
            &&& phases[i] is Registering ==> {
                &&& i <= 2
                &&& i >= 1 ==> phases[0] is Resolving || phases[0] is Disabling
                &&& i == 2 ==> phases[1] is Disabling
            }
            &&& phases[i] is Waiting || phases[i] is Redisabling ==> options.disable_windows
            &&& phases[i] is Hooking ==> options.restore_windows
            &&& phases[i] matches Phase::Restoring(how) ==> {
                &&& options.restore_windows
                &&& !(how is Configuration)
            }
            &&& phases[i] matches Phase::Terminated(how) ==> if how is Configuration {
                &&& i <= 1
                &&& i == 1 ==> phases[0] is Resolving
            } else {
                options.restore_windows ==> i >= 1 && phases[i - 1] == Phase::Restoring(how)
            }
        }),
{
    lemma_path_linked(options, outcomes);
    lemma_initial(options);
    let phases = path(options, outcomes);
    if i >= 1 {
        assert(follows(options, phases[i - 1], phases[i - 1 + 1]));
        lemma_follows(options, phases[i - 1], phases[i]);
        if i >= 2 {
            assert(follows(options, phases[i - 2], phases[i - 2 + 1]));
            lemma_follows(options, phases[i - 2], phases[i - 1]);
            if i >= 3 {
                assert(follows(options, phases[i - 3], phases[i - 3 + 1]));
                lemma_follows(options, phases[i - 3], phases[i - 2]);
            }
        }
    }
}

/// The end of the process is the last action of a run.
pub proof fn lemma_exit_is_last(options: Options, outcomes: Seq<Outcome>, i: int)
    requires
        0 <= i < trace(options, outcomes).len(),
        trace(options, outcomes)[i] is Exit,
    ensures
        i == trace(options, outcomes).len() - 1,
{
    lemma_path_linked(options, outcomes);
    let phases = path(options, outcomes);
    assert(phases[i] is Terminated);
    if i < phases.len() - 1 {
        assert(follows(options, phases[i], phases[i + 1]));
        lemma_follows(options, phases[i], phases[i + 1]);
    }
}

/// Once the process was told to end, no outcome is taken, whatever is
/// reported: the run stays as it is.
pub proof fn lemma_nothing_after_exit(
    options: Options,
    outcomes: Seq<Outcome>,
    more: Seq<Outcome>,
)
    requires
        trace(options, outcomes).last() is Exit,
    ensures
        trace(options, outcomes + more) == trace(options, outcomes),
    decreases more.len(),
{
    lemma_path_linked(options, outcomes);
    let phases = path(options, outcomes);
    assert(trace(options, outcomes).last() == phases.last().pending());
    assert(phases.last() is Terminated);
    if more.len() == 0 {
        assert(outcomes + more == outcomes);
    } else {
        lemma_nothing_after_exit(options, outcomes, more.drop_last());
        assert((outcomes + more).drop_last() == outcomes + more.drop_last());
        let shorter = path(options, outcomes + more.drop_last());
        let issued = trace(options, outcomes + more.drop_last());
        assert(shorter.len() == issued.len());
        assert(shorter.last().pending() == issued[shorter.len() - 1]);
        assert(shorter.last() is Terminated);
        assert(path(options, outcomes + more) == shorter);
    }
}

/// The session is locked only in answer to the hotkey, and only right
/// after the native lock was enabled, whatever the options say about the
/// native lock: the write that enables comes between the read that
/// delivered the hotkey and the lock action.
pub proof fn lemma_lock_follows_enable(options: Options, outcomes: Seq<Outcome>, i: int)
    requires
        0 <= i < trace(options, outcomes).len(),
        trace(options, outcomes)[i] == Action::Lock,
    ensures
        i >= 2,
        trace(options, outcomes)[i - 1] == Action::SetPolicy(true),
        trace(options, outcomes)[i - 2] == Action::AwaitEvent,
{
    lemma_path_linked(options, outcomes);
    lemma_initial(options);
    let phases = path(options, outcomes);
    assert(phases[i] is Locking);
    if i >= 1 {
        assert(follows(options, phases[i - 1], phases[i - 1 + 1]));
        lemma_follows(options, phases[i - 1], phases[i]);
        if i >= 2 {
            assert(follows(options, phases[i - 2], phases[i - 2 + 1]));
            lemma_follows(options, phases[i - 2], phases[i - 1]);
        }
    }
}

/// The native lock is disabled again only after the grace interval that
/// follows a lock action.
///
/// Where the options ask for the disabling, what follows a lock action is
/// the wait for the grace interval. No wait is issued but this one, and
/// what follows it is the write that disables. A write that disables is
/// either the one before the registration, which has nothing before it but
/// the question to the layout, or comes right after such a wait. Where the
/// options do not ask for the disabling, no such write and no wait is
/// issued at all.
pub proof fn lemma_redisable_after_grace(options: Options, outcomes: Seq<Outcome>, i: int)
    requires
        0 <= i < trace(options, outcomes).len(),
    ensures
        ({
            let run = trace(options, outcomes);
            &&& run[i] == Action::Lock && options.disable_windows && i + 1 < run.len() ==> run[i
                + 1] == Action::Sleep(GRACE_INTERVAL_MS)
            &&& run[i] is Sleep ==> {
                &&& options.disable_windows
                &&& run[i] == Action::Sleep(GRACE_INTERVAL_MS)
                &&& i >= 1 && run[i - 1] == Action::Lock
                &&& i + 1 < run.len() ==> run[i + 1] == Action::SetPolicy(false)
            }
            &&& run[i] == Action::SetPolicy(false) ==> {
                &&& options.disable_windows
                &&& {
                    ||| i == 0
                    ||| i == 1 && run[0] is ScanLayout
                    ||| i >= 2 && run[i - 1] == Action::Sleep(GRACE_INTERVAL_MS) && run[i - 2]
                        == Action::Lock
                }
            }
        }),
{
    lemma_path_linked(options, outcomes);
    lemma_reached(options, outcomes, i);
    let phases = path(options, outcomes);
    if i >= 1 {
        assert(follows(options, phases[i - 1], phases[i - 1 + 1]));
        lemma_follows(options, phases[i - 1], phases[i]);
        if i >= 2 {
            assert(follows(options, phases[i - 2], phases[i - 2 + 1]));
            lemma_follows(options, phases[i - 2], phases[i - 1]);
        }
    }
    if i + 1 < phases.len() {
        assert(follows(options, phases[i], phases[i + 1]));
        lemma_follows(options, phases[i], phases[i + 1]);
    }
}

/// The registration is attempted with the modifiers that the options
/// switch on, on the key that they name where they give a virtual key
/// code, and only after the native lock was disabled where the options ask
/// for that: the write that disables is then the action right before it.
/// Nothing comes before the registration but that write and the question
/// to the layout.
pub proof fn lemma_disabled_before_registration(
    options: Options,
    outcomes: Seq<Outcome>,
    i: int,
)
    requires
        0 <= i < trace(options, outcomes).len(),
        trace(options, outcomes)[i] is Register,
    ensures
        ({
            let run = trace(options, outcomes);
            let hotkey = run[i]->Register_0;
            &&& hotkey.modifiers == Modifiers::from_spec(options)
            &&& hotkey.modifiers.is_valid()
            &&& options.virtual_code matches Some(code) ==> hotkey.key_code == Key(code)
            &&& options.disable_windows ==> i >= 1 && run[i - 1] == Action::SetPolicy(false)
            &&& !options.disable_windows ==> forall|j: int|
                0 <= j < i ==> !(#[trigger] run[j] is SetPolicy)
            &&& i <= 2
            &&& forall|j: int|
                0 <= j < i ==> #[trigger] run[j] is ScanLayout || run[j] == Action::SetPolicy(false)
        }),
{
    let run = trace(options, outcomes);
    let phases = path(options, outcomes);
    let hotkey = run[i]->Register_0;
    assert(phases[i] == Phase::Registering(hotkey));
    assert(hotkey.modifiers == Modifiers::from_spec(options) && (options.virtual_code matches Some(
        code,
    ) ==> hotkey.key_code == Key(code))) by {
        lemma_registered_hotkey(options, outcomes, i);
    }
    assert(hotkey.modifiers.is_valid()) by {
        Modifiers::lemma_of_switches(options.ctrl, options.shift, options.windows, options.alt);
    }
    lemma_registration_comes_early(options, outcomes, i);
    assert forall|j: int| 0 <= j < i implies (#[trigger] run[j] is ScanLayout || run[j]
        == Action::SetPolicy(false)) && (!options.disable_windows ==> !(run[j] is SetPolicy)) by {
        assert(run[j] == phases[j].pending());
    }
}

/// Nothing comes before the registration but the question to the layout and
/// the write that disables, and that write comes right before it where, and
/// only where, the options ask for the disabling.
proof fn lemma_registration_comes_early(options: Options, outcomes: Seq<Outcome>, i: int)
    requires
        0 <= i < path(options, outcomes).len(),
        path(options, outcomes)[i] is Registering,
    ensures
        ({
            let phases = path(options, outcomes);
            &&& i <= 2
            &&& options.disable_windows ==> i >= 1 && phases[i - 1] is Disabling
            &&& forall|j: int|
                0 <= j < i ==> #[trigger] phases[j] is Resolving || (phases[j] is Disabling
                    && options.disable_windows)
        }),
{
    lemma_path_linked(options, outcomes);
    lemma_initial(options);
    lemma_reached(options, outcomes, i);
    let phases = path(options, outcomes);
    if i >= 1 {
        assert(follows(options, phases[i - 1], phases[i - 1 + 1]));
        lemma_follows(options, phases[i - 1], phases[i]);
        lemma_reached(options, outcomes, i - 1);
    }
}

/// The registration is attempted at most once in a run: the one slot of
/// the process is never claimed a second time.
pub proof fn lemma_single_registration(options: Options, outcomes: Seq<Outcome>, i: int, j: int)
    requires
        0 <= i < trace(options, outcomes).len(),
        0 <= j < trace(options, outcomes).len(),
        trace(options, outcomes)[i] is Register,
        trace(options, outcomes)[j] is Register,
    ensures
        i == j,
{
    lemma_reached(options, outcomes, i);
    lemma_reached(options, outcomes, j);
}

/// The hotkey of a registration holds the modifiers that the options switch
/// on, and the key that the options name where they give a virtual key
/// code.
proof fn lemma_registered_hotkey(options: Options, outcomes: Seq<Outcome>, i: int)
    requires
        0 <= i < path(options, outcomes).len(),
        path(options, outcomes)[i] is Registering,
    ensures
        path(options, outcomes)[i]->Registering_0.modifiers == Modifiers::from_spec(options),
        options.virtual_code matches Some(code) ==> path(
            options,
            outcomes,
        )[i]->Registering_0.key_code == Key(code),
{
    lemma_path_linked(options, outcomes);
    lemma_reached(options, outcomes, i);
    let phases = path(options, outcomes);
    if i >= 1 {
        assert(follows(options, phases[i - 1], phases[i - 1 + 1]));
        let outcome = choose|outcome: Outcome| #[trigger]
            phases[i - 1].next(options, outcome) == Some(phases[i]);
        if i >= 2 {
            assert(follows(options, phases[i - 2], phases[i - 2 + 1]));
            let earlier = choose|earlier: Outcome| #[trigger]
                phases[i - 2].next(options, earlier) == Some(phases[i - 1]);
        }
    }
}

/// Where the options ask for the restoration, a run that has ended leaves
/// the native lock as it was before a run that found it enabled.
///
/// Whether a quit signal, a refused registration or the lack of a hotkey
/// ended the run, the write that restores is the action right before the
/// end, so the native lock is enabled whatever it was before. A run that
/// ended because the configuration does not tell the key has written
/// nothing at all, so the flag is as it was.
pub proof fn lemma_restore_on_exit(options: Options, outcomes: Seq<Outcome>, before: bool)
    requires
        options.restore_windows,
        trace(options, outcomes).last() is Exit,
    ensures
        ({
            let run = trace(options, outcomes);
            &&& before ==> policy_after(before, run) == before
            &&& if run.last()->Exit_0 is Configuration {
                policy_after(before, run) == before
            } else {
                &&& policy_after(before, run)
                &&& run.len() >= 2
                &&& run[run.len() - 2] == Action::SetPolicy(true)
            }
        }),
{
    lemma_path_linked(options, outcomes);
    let phases = path(options, outcomes);
    let run = trace(options, outcomes);
    let n = run.len() as int;
    assert(run.last() == phases[n - 1].pending());
    assert(phases[n - 1] is Terminated);
    lemma_reached(options, outcomes, n - 1);
    let shorter = run.drop_last();
    assert(policy_after(before, run) == policy_after(before, shorter));
    if run.last()->Exit_0 is Configuration {
        if n == 2 {
            assert(shorter.last() == run[0]);
            assert(run[0] == phases[0].pending());
            assert(shorter.drop_last().len() == 0);
            assert(policy_after(before, shorter) == policy_after(before, shorter.drop_last()));
        }
    } else {
        assert(shorter.last() == run[n - 2]);
        assert(run[n - 2] == phases[n - 2].pending());
    }
}

/// Where the options ask for the restoration, an external interrupt leaves
/// the native lock enabled, whatever the run has done until it arrives, and
/// so as it was before a run that found it enabled.
pub proof fn lemma_restore_on_interrupt(options: Options, issued: Seq<Action>, before: bool)
    requires
        options.restore_windows,
    ensures
        policy_after(before, issued + options.spec_on_interrupt()),
        before ==> policy_after(before, issued + options.spec_on_interrupt()) == before,
{
    let hook = options.spec_on_interrupt();
    let all = issued + hook;
    assert(hook == seq![Action::SetPolicy(true), Action::Exit(Termination::Interrupted)]);
    assert(all.last() == Action::Exit(Termination::Interrupted));
    assert(all.drop_last().last() == Action::SetPolicy(true));
    assert(policy_after(before, all) == policy_after(before, all.drop_last()));
}

/// The whole run of options that give both a virtual key code and a
/// character: it ends at once on the conflict, and neither of the two is
/// preferred.
pub open spec fn conflict_run() -> Seq<Action> {
    seq![Action::Exit(Termination::Configuration(OptionsKeyError::Conflict))]
}

/// The whole run of options that give no key at all: the native lock is
/// disabled and restored as the options ask, and the run ends without a
/// failure.
pub open spec fn no_hotkey_run(options: Options) -> Seq<Action> {
    (if options.disable_windows {
        seq![Action::SetPolicy(false)]
    } else {
        seq![]
    }) + (if options.restore_windows {
        seq![Action::SetPolicy(true)]
    } else {
        seq![]
    }) + seq![Action::Exit(Termination::NoHotkey)]
}

/// The whole run of options that give the character `c`, for which the
/// keyboard layout names no key: the layout is asked, and the run ends on
/// the failure of the mapping.
pub open spec fn unmapped_run(c: char) -> Seq<Action> {
    seq![
        Action::ScanLayout(Key::layout_unit(c)),
        Action::Exit(Termination::Configuration(OptionsKeyError::MappingFail)),
    ]
}

/// Options that give both a virtual key code and a character always fail
/// with the conflict, before anything is asked, written or registered.
pub proof fn lemma_conflict(options: Options, outcomes: Seq<Outcome>, layout: Option<Key>)
    requires
        options.virtual_code is Some,
        options.key is Some,
    ensures
        options.virtual_key(layout) == Err::<Option<Key>, OptionsKeyError>(
            OptionsKeyError::Conflict,
        ),
        trace(options, outcomes) == conflict_run(),
{
    let plan = seq![Phase::Terminated(Termination::Configuration(OptionsKeyError::Conflict))];
    lemma_run_on_plan(options, outcomes, plan);
    lemma_path_linked(options, outcomes);
    assert(trace(options, outcomes) =~= conflict_run());
}

/// Options that give no key configure no hotkey: nothing is registered and
/// the loop never starts, while the native lock is still disabled and
/// restored as the options ask. The run proceeds along its plan as far as
/// outcomes are reported, and is the whole plan once it has ended.
pub proof fn lemma_no_hotkey(options: Options, outcomes: Seq<Outcome>, layout: Option<Key>)
    requires
        options.virtual_code is None,
        options.key is None,
    ensures
        options.virtual_key(layout) == Ok::<Option<Key>, OptionsKeyError>(None),
        trace(options, outcomes).is_prefix_of(no_hotkey_run(options)),
        trace(options, outcomes).last() is Exit ==> trace(options, outcomes) == no_hotkey_run(
            options,
        ),
{
    let how = Termination::NoHotkey;
    let plan = (if options.disable_windows {
        seq![Phase::Disabling(None)]
    } else {
        seq![]
    }) + (if options.restore_windows {
        seq![Phase::Restoring(how)]
    } else {
        seq![]
    }) + seq![Phase::Terminated(how)];
    lemma_run_on_plan(options, outcomes, plan);
    lemma_path_linked(options, outcomes);
    let actions = Seq::new(plan.len(), |i: int| plan[i].pending());
    assert(actions =~= no_hotkey_run(options));
    if trace(options, outcomes).last() is Exit {
        lemma_ended_on_plan(trace(options, outcomes), no_hotkey_run(options));
    }
}

/// Options that give a character for which the keyboard layout names no
/// key fail with the failure of the mapping, before anything is written or
/// registered. The run proceeds along its plan as far as outcomes are
/// reported, and is the whole plan once it has ended.
pub proof fn lemma_unmapped(options: Options, outcomes: Seq<Outcome>)
    requires
        options.virtual_code is None,
        options.key is Some,
        forall|j: int|
            0 <= j < outcomes.len() ==> (#[trigger] outcomes[j] matches Outcome::Scanned(scan)
                ==> Key::from_layout_scan(scan) is None),
    ensures
        options.virtual_key(None) == Err::<Option<Key>, OptionsKeyError>(
            OptionsKeyError::MappingFail,
        ),
        trace(options, outcomes).is_prefix_of(unmapped_run(options.key->Some_0)),
        trace(options, outcomes).last() is Exit ==> trace(options, outcomes) == unmapped_run(
            options.key->Some_0,
        ),
{
    let c = options.key->Some_0;
    let plan = seq![
        Phase::Resolving(Key::layout_unit(c)),
        Phase::Terminated(Termination::Configuration(OptionsKeyError::MappingFail)),
    ];
    lemma_run_on_plan(options, outcomes, plan);
    lemma_path_linked(options, outcomes);
    let actions = Seq::new(plan.len(), |i: int| plan[i].pending());
    assert(actions =~= unmapped_run(c));
    if trace(options, outcomes).last() is Exit {
        lemma_ended_on_plan(trace(options, outcomes), unmapped_run(c));
    }
}

/// The phases of a run are a prefix of a plan, where the plan starts as the
/// run does and each outcome that is reported, if it is taken at all in a
/// phase of the plan, leads to the phase that the plan has next.
proof fn lemma_run_on_plan(options: Options, outcomes: Seq<Outcome>, plan: Seq<Phase>)
    requires
        plan.len() >= 1,
        plan[0] == Phase::initial(options),
        forall|k: int, j: int|
            0 <= k < plan.len() && 0 <= j < outcomes.len() ==> match #[trigger] plan[k].next(
                options,
                outcomes[j],
            ) {
                Some(phase) => k + 1 < plan.len() && phase == plan[k + 1],
                None => true,
            },
    ensures
        path(options, outcomes).is_prefix_of(plan),
        trace(options, outcomes).is_prefix_of(Seq::new(plan.len(), |i: int| plan[i].pending())),
    decreases outcomes.len(),
{
    let actions = Seq::new(plan.len(), |i: int| plan[i].pending());
    if outcomes.len() > 0 {
        let earlier = outcomes.drop_last();
        assert forall|k: int, j: int|
            0 <= k < plan.len() && 0 <= j < earlier.len() implies match #[trigger] plan[k].next(
            options,
            earlier[j],
        ) {
            Some(phase) => k + 1 < plan.len() && phase == plan[k + 1],
            None => true,
        } by {
            assert(earlier[j] == outcomes[j]);
        }
        lemma_run_on_plan(options, earlier, plan);
        lemma_path_linked(options, earlier);
        let before = path(options, earlier);
        let k = before.len() - 1;
        assert(before[k] == plan.subrange(0, before.len() as int)[k]);
        assert(before.last() == plan[k]);
        assert(outcomes.last() == outcomes[outcomes.len() - 1]);
        let step = plan[k].next(options, outcomes[outcomes.len() - 1]);
    }
    let phases = path(options, outcomes);
    assert(phases.len() <= plan.len());
    assert forall|i: int| 0 <= i < phases.len() implies phases[i] == plan[i] by {
        if outcomes.len() > 0 {
            let before = path(options, outcomes.drop_last());
            if i < before.len() {
                assert(before[i] == plan.subrange(0, before.len() as int)[i]);
            }
        }
    }
    assert(phases =~= plan.subrange(0, phases.len() as int));
    assert(trace(options, outcomes) =~= actions.subrange(0, phases.len() as int));
}

/// A run along a plan whose only end of the process is its last action is
/// the whole plan once it has ended.
proof fn lemma_ended_on_plan(actions: Seq<Action>, plan: Seq<Action>)
    requires
        actions.len() >= 1,
        actions.is_prefix_of(plan),
        actions.last() is Exit,
        forall|i: int| 0 <= i < plan.len() - 1 ==> !(#[trigger] plan[i] is Exit),
    ensures
        actions == plan,
{
    let n = actions.len() as int;
    assert(actions[n - 1] == plan.subrange(0, n)[n - 1]);
    assert(actions =~= plan);
}

} // verus!
