//! The controller: a state machine that issues one action at a time and
//! moves on when the outcome of that action is reported.
//!
//! A run passes from the idle state, in which the key is resolved, the
//! native lock is disabled where the options ask for it and the hotkey is
//! registered, through the registered state, in which the termination hook
//! is installed where the options ask for restoration, into the loop of
//! listening and reacting, and ends in the terminated state. The phases
//! below are the steps of these states: in each of them one action is in
//! flight.

use vstd::prelude::*;
use crate::action::{Action, Outcome, Termination};
use crate::event::HotkeyEvent;
use crate::hotkey::Hotkey;
use crate::key::Key;
use crate::modifiers::Modifiers;
use crate::options::{Options, OptionsKeyError};
use crate::policy::GRACE_INTERVAL_MS;

verus! {

/// Where a run stands: which action is in flight, and what is remembered
/// for the steps that follow it.
#[derive(Debug, Hash, Clone, Copy, PartialEq, Eq, Structural)]
pub enum Phase {
    /// Idle: the keyboard layout is asked about the code unit of the
    /// configured character.
    Resolving(u16),
    /// Idle: the key is resolved, and the native lock is disabled before
    /// anything is registered.
    Disabling(Option<Key>),
    /// Idle: the registration of the hotkey is attempted.
    Registering(Hotkey),
    /// Registered: the termination hook is installed.
    Hooking,
    /// Listening: the next event is awaited.
    Listening,
    /// Reacting: the native lock is enabled, so that the lock action that
    /// follows is not blocked by the policy that the controller itself set.
    Enabling,
    /// Reacting: the session is locked.
    Locking,
    /// Reacting: the grace interval passes.
    Waiting,
    /// Reacting: the native lock is disabled again.
    Redisabling,
    /// Terminated: the native lock is restored.
    Restoring(Termination),
    /// Terminated: the process ends.
    Terminated(Termination),
}

/// The controller of one run.
#[derive(Debug, Clone, Copy)]
pub struct Controller {
    options: Options,
    phase: Phase,
}

impl Phase {
    /// The action that is in flight in this phase.
    pub open spec fn spec_pending(self) -> Action {
        match self {
            Phase::Resolving(unit) => Action::ScanLayout(unit),
            Phase::Disabling(_) => Action::SetPolicy(false),
            Phase::Registering(hotkey) => Action::Register(hotkey),
            Phase::Hooking => Action::InstallHook,
            Phase::Listening => Action::AwaitEvent,
            Phase::Enabling => Action::SetPolicy(true),
            Phase::Locking => Action::Lock,
            Phase::Waiting => Action::Sleep(GRACE_INTERVAL_MS),
            Phase::Redisabling => Action::SetPolicy(false),
            Phase::Restoring(_) => Action::SetPolicy(true),
            Phase::Terminated(how) => Action::Exit(how),
        }
    }

    /// The end of a run: the cleanup of the options first, where there is
    /// any, however the run ended.
    pub open spec fn finished(options: Options, how: Termination) -> Phase {
        match options.cleanup() {
            Some(_) => Phase::Restoring(how),
            None => Phase::Terminated(how),
        }
    }

    /// What follows once the native lock is as the options ask: the
    /// registration of the hotkey, or the end of the run where no hotkey is
    /// configured.
    pub open spec fn armed(options: Options, key: Option<Key>) -> Phase {
        match key {
            Some(key_code) => Phase::Registering(
                Hotkey {
                    modifiers: Modifiers::of_switches(
                        options.ctrl,
                        options.shift,
                        options.windows,
                        options.alt,
                    ),
                    key_code,
                },
            ),
            None => Phase::finished(options, Termination::NoHotkey),
        }
    }

    /// What follows the resolution of the key: a configuration that does
    /// not tell the key ends the run before anything is written or
    /// registered; otherwise the native lock is disabled first where the
    /// options ask for it.
    pub open spec fn resolved(options: Options, key: Result<Option<Key>, OptionsKeyError>) -> Phase {
        match key {
            Ok(key) => if options.disable_windows {
                Phase::Disabling(key)
            } else {
                Phase::armed(options, key)
            },
            Err(error) => Phase::Terminated(Termination::Configuration(error)),
        }
    }

    /// The phase in which a run starts.
    pub open spec fn initial(options: Options) -> Phase {
        match options.layout_query() {
            Some(unit) => Phase::Resolving(unit),
            None => Phase::resolved(options, options.virtual_key(None)),
        }
    }

    /// The phase that follows when `outcome` is reported in this phase, or
    /// nothing where the outcome does not answer the action in flight.
    ///
    /// While listening, an irrelevant event and a failed read lead back to
    /// listening, the hotkey starts the reaction, and a quit signal ends the
    /// run. After the process was told to end, no outcome is taken.
    pub open spec fn next(self, options: Options, outcome: Outcome) -> Option<Phase> {
        match (self, outcome) {
            (Phase::Resolving(_), Outcome::Scanned(scan)) => Some(
                Phase::resolved(options, options.virtual_key(Key::from_layout_scan(scan))),
            ),
            (Phase::Disabling(key), Outcome::Done) => Some(Phase::armed(options, key)),
            (Phase::Registering(_), Outcome::Registered) => Some(
                if options.restore_windows {
                    Phase::Hooking
                } else {
                    Phase::Listening
                },
            ),
            (Phase::Registering(_), Outcome::Refused(error)) => Some(
                Phase::finished(options, Termination::Registration(error)),
            ),
            (Phase::Hooking, Outcome::Done) => Some(Phase::Listening),
            (Phase::Listening, Outcome::Event(HotkeyEvent::Hotkey)) => Some(Phase::Enabling),
            (Phase::Listening, Outcome::Event(HotkeyEvent::Other)) => Some(Phase::Listening),
            (Phase::Listening, Outcome::Event(HotkeyEvent::Quit)) => Some(
                Phase::finished(options, Termination::Quit),
            ),
            (Phase::Listening, Outcome::ReadFailed) => Some(Phase::Listening),
            (Phase::Enabling, Outcome::Done) => Some(Phase::Locking),
            (Phase::Locking, Outcome::Done) => Some(
                if options.disable_windows {
                    Phase::Waiting
                } else {
                    Phase::Listening
                },
            ),
            (Phase::Waiting, Outcome::Done) => Some(Phase::Redisabling),
            (Phase::Redisabling, Outcome::Done) => Some(Phase::Listening),
            (Phase::Restoring(how), Outcome::Done) => Some(Phase::Terminated(how)),
            _ => None,
        }
    }

    /// The action that is in flight in this phase.
    #[verifier::when_used_as_spec(spec_pending)]
    pub fn pending(self) -> (r: Action)
        ensures
            r == self.spec_pending(),
    {
        match self {
            Phase::Resolving(unit) => Action::ScanLayout(unit),
            Phase::Disabling(_) => Action::SetPolicy(false),
            Phase::Registering(hotkey) => Action::Register(hotkey),
            Phase::Hooking => Action::InstallHook,
            Phase::Listening => Action::AwaitEvent,
            Phase::Enabling => Action::SetPolicy(true),
            Phase::Locking => Action::Lock,
            Phase::Waiting => Action::Sleep(GRACE_INTERVAL_MS),
            Phase::Redisabling => Action::SetPolicy(false),
            Phase::Restoring(_) => Action::SetPolicy(true),
            Phase::Terminated(how) => Action::Exit(how),
        }
    }
}

fn finished(options: Options, how: Termination) -> (r: Phase)
    ensures
        r == Phase::finished(options, how),
{
    match options.cleanup() {
        Some(_) => Phase::Restoring(how),
        None => Phase::Terminated(how),
    }
}

fn armed(options: Options, key: Option<Key>) -> (r: Phase)
    ensures
        r == Phase::armed(options, key),
{
    match key {
        Some(key_code) => Phase::Registering(Hotkey { modifiers: Modifiers::from(options), key_code }),
        None => finished(options, Termination::NoHotkey),
    }
}

fn resolved(options: Options, key: Result<Option<Key>, OptionsKeyError>) -> (r: Phase)
    ensures
        r == Phase::resolved(options, key),
{
    match key {
        Ok(key) => if options.disable_windows {
            Phase::Disabling(key)
        } else {
            armed(options, key)
        },
        Err(error) => Phase::Terminated(Termination::Configuration(error)),
    }
}

impl Controller {
    /// The options of the run.
    pub closed spec fn spec_options(self) -> Options {
        self.options
    }

    /// The phase in which the run stands.
    pub closed spec fn spec_phase(self) -> Phase {
        self.phase
    }

    /// The controller of a run with the given options, in the phase in
    /// which a run starts. Its pending action is the first to carry out.
    pub fn new(options: Options) -> (r: Controller)
        ensures
            r.options() == options,
            r.phase() == Phase::initial(options),
    {
        let phase = match options.layout_query() {
            Some(unit) => Phase::Resolving(unit),
            None => resolved(options, options.virtual_key(None)),
        };
        Controller { options, phase }
    }

    /// The options of the run.
    #[verifier::when_used_as_spec(spec_options)]
    pub fn options(self) -> (r: Options)
        ensures
            r == self.spec_options(),
    {
        self.options
    }

    /// The phase in which the run stands.
    #[verifier::when_used_as_spec(spec_phase)]
    pub fn phase(self) -> (r: Phase)
        ensures
            r == self.spec_phase(),
    {
        self.phase
    }

    /// The action that is in flight: the one that the caller is to carry
    /// out, or has carried out, before the next outcome is reported.
    pub fn pending(self) -> (r: Action)
        ensures
            r == self.phase().pending(),
    {
        self.phase.pending()
    }

    /// Whether the process was told to end.
    pub fn is_terminated(self) -> (r: bool)
        ensures
            r == (self.phase() is Terminated),
    {
        match self.phase {
            Phase::Terminated(_) => true,
            _ => false,
        }
    }

    /// Takes the outcome of the action in flight and gives the action to
    /// carry out next. An outcome that does not answer the action in flight
    /// is not taken: nothing is given and the controller stays as it is.
    pub fn step(&mut self, outcome: Outcome) -> (r: Option<Action>)
        ensures
            final(self).options() == old(self).options(),
            match old(self).phase().next(old(self).options(), outcome) {
                Some(phase) => final(self).phase() == phase && r == Some(phase.pending()),
                None => final(self).phase() == old(self).phase() && r is None,
            },
    {
        let options = self.options;
        let next = match (self.phase, outcome) {
            (Phase::Resolving(_), Outcome::Scanned(scan)) => Some(
                resolved(options, options.virtual_key(Key::from_layout_scan(scan))),
            ),
            (Phase::Disabling(key), Outcome::Done) => Some(armed(options, key)),
            (Phase::Registering(_), Outcome::Registered) => Some(
                if options.restore_windows {
                    Phase::Hooking
                } else {
                    Phase::Listening
                },
            ),
            (Phase::Registering(_), Outcome::Refused(error)) => Some(
                finished(options, Termination::Registration(error)),
            ),
            (Phase::Hooking, Outcome::Done) => Some(Phase::Listening),
            (Phase::Listening, Outcome::Event(HotkeyEvent::Hotkey)) => Some(Phase::Enabling),
            (Phase::Listening, Outcome::Event(HotkeyEvent::Other)) => Some(Phase::Listening),
            (Phase::Listening, Outcome::Event(HotkeyEvent::Quit)) => Some(
                finished(options, Termination::Quit),
            ),
            (Phase::Listening, Outcome::ReadFailed) => Some(Phase::Listening),
            (Phase::Enabling, Outcome::Done) => Some(Phase::Locking),
            (Phase::Locking, Outcome::Done) => Some(
                if options.disable_windows {
                    Phase::Waiting
                } else {
                    Phase::Listening
                },
            ),
            (Phase::Waiting, Outcome::Done) => Some(Phase::Redisabling),
            (Phase::Redisabling, Outcome::Done) => Some(Phase::Listening),
            (Phase::Restoring(how), Outcome::Done) => Some(Phase::Terminated(how)),
            _ => None,
        };
        match next {
            Some(phase) => {
                self.phase = phase;
                Some(phase.pending())
            },
            None => None,
        }
    }
}

} // verus!
