//! What the controller asks of its caller, what the caller reports back, and
//! how a run ends.

use vstd::prelude::*;
use crate::event::HotkeyEvent;
use crate::hotkey::{Hotkey, RegistrationError};
use crate::options::OptionsKeyError;

verus! {

/// The exit code of a run that ended as it was meant to.
pub const EXIT_SUCCESS: i32 = 0;

/// The exit code of a run that failed.
pub const EXIT_FAILURE: i32 = 1;

/// How a run ended.
#[derive(Debug, Hash, Clone, Copy, PartialEq, Eq, Structural)]
pub enum Termination {
    /// A quit signal came while the controller listened.
    Quit,
    /// No hotkey was configured: there was nothing to listen for.
    NoHotkey,
    /// An external interrupt ended the process.
    Interrupted,
    /// The system refused the hotkey.
    Registration(RegistrationError),
    /// The key of the hotkey could not be told from the configuration.
    Configuration(OptionsKeyError),
}

/// One request of the controller to its caller.
#[derive(Debug, Hash, Clone, Copy, PartialEq, Eq, Structural)]
pub enum Action {
    /// Ask the current keyboard layout which key emits the UTF-16 code unit.
    ScanLayout(u16),
    /// Write the lock policy flag: `true` enables the native lock.
    SetPolicy(bool),
    /// Register the hotkey with the system.
    Register(Hotkey),
    /// Install the hook that, on an external interrupt, carries out the
    /// cleanup of the options and ends the process at once.
    InstallHook,
    /// Block until the message queue delivers the next message.
    AwaitEvent,
    /// Lock the session.
    Lock,
    /// Wait for the given number of milliseconds.
    Sleep(u64),
    /// End the process.
    Exit(Termination),
}

/// What the caller reports after it has carried out an action.
#[derive(Debug, Hash, Clone, Copy, PartialEq, Eq, Structural)]
pub enum Outcome {
    /// The action was carried out. A failure of it that is only to be
    /// reported, not acted upon, is reported by the caller and counts as
    /// carried out.
    Done,
    /// The keyboard layout gave this answer.
    Scanned(i16),
    /// The system accepted the hotkey.
    Registered,
    /// The system refused the hotkey.
    Refused(RegistrationError),
    /// The message queue delivered this event.
    Event(HotkeyEvent),
    /// The read of the message queue failed.
    ReadFailed,
}

impl Termination {
    /// Whether the run failed: the system refused the hotkey, or the
    /// configuration did not tell the key.
    pub open spec fn spec_is_failure(self) -> bool {
        self is Registration || self is Configuration
    }

    /// The exit code of the process: zero unless the run failed.
    pub open spec fn spec_exit_code(self) -> i32 {
        if self.spec_is_failure() {
            EXIT_FAILURE
        } else {
            EXIT_SUCCESS
        }
    }

    /// Whether the run failed.
    #[verifier::when_used_as_spec(spec_is_failure)]
    pub fn is_failure(self) -> (r: bool)
        ensures
            r == self.spec_is_failure(),
    {
        match self {
            Termination::Registration(_) => true,
            Termination::Configuration(_) => true,
            _ => false,
        }
    }

    /// The exit code of the process.
    #[verifier::when_used_as_spec(spec_exit_code)]
    pub fn exit_code(self) -> (r: i32)
        ensures
            r == self.spec_exit_code(),
    {
        if self.is_failure() {
            EXIT_FAILURE
        } else {
            EXIT_SUCCESS
        }
    }
}

} // verus!
