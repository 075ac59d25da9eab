//! The configuration of a run, and what it says about the key of the hotkey,
//! about its modifiers and about the cleanup.

use vstd::prelude::*;
use crate::action::{Action, Termination};
use crate::key::Key;
use crate::modifiers::Modifiers;

verus! {

/// The configuration of a run.
#[derive(Debug, Hash, Clone, Copy, PartialEq, Eq, PartialOrd, Ord)]
pub struct Options {
    /// Disable the native lock of the platform.
    pub disable_windows: bool,
    /// Restore the native lock of the platform at termination.
    pub restore_windows: bool,
    /// Which key to press, as a virtual key code.
    pub virtual_code: Option<u32>,
    /// Which key to press, as the character that it emits.
    pub key: Option<char>,
    /// Control modifier.
    pub ctrl: bool,
    /// Shift modifier.
    pub shift: bool,
    /// Windows modifier.
    pub windows: bool,
    /// Alt modifier.
    pub alt: bool,
}

/// Why the configuration does not tell the key of the hotkey.
#[derive(Debug, Hash, Clone, Copy, PartialEq, Eq, PartialOrd, Ord, Structural)]
pub enum OptionsKeyError {
    /// No key of the current keyboard layout emits the character.
    MappingFail,
    /// Both a virtual key code and a character were given.
    Conflict,
}

impl OptionsKeyError {
    /// The message for the user.
    pub fn message(self) -> (r: String)
        ensures
            r@ == match self {
                OptionsKeyError::MappingFail => "failed to map the key to its virtual code"@,
                OptionsKeyError::Conflict => "two keyboard shortcuts were given"@,
            },
    {
        match self {
            OptionsKeyError::MappingFail => "failed to map the key to its virtual code".to_owned(),
            OptionsKeyError::Conflict => "two keyboard shortcuts were given".to_owned(),
        }
    }
}

impl Options {
    /// What is to be asked of the keyboard layout before the key is known:
    /// the code unit of the character, where a character and no virtual key
    /// code is given, and nothing otherwise.
    pub open spec fn spec_layout_query(self) -> Option<u16> {
        match (self.virtual_code, self.key) {
            (None, Some(c)) => Some(Key::layout_unit(c)),
            _ => None,
        }
    }

    /// The key of the hotkey, where `layout` is the key that the keyboard
    /// layout named for the character, if it was asked and named one.
    ///
    /// Two keys are a conflict, whatever they are. No key at all is a valid
    /// configuration without a hotkey. A virtual key code is the key as it
    /// stands. A character is the key that the layout named for it, and a
    /// mapping failure where it named none.
    pub open spec fn spec_virtual_key(self, layout: Option<Key>) -> Result<
        Option<Key>,
        OptionsKeyError,
    > {
        match (self.virtual_code, self.key) {
            (None, None) => Ok(None),
            (None, Some(_)) => match layout {
                Some(key) => Ok(Some(key)),
                None => Err(OptionsKeyError::MappingFail),
            },
            (Some(code), None) => Ok(Some(Key(code))),
            (Some(_), Some(_)) => Err(OptionsKeyError::Conflict),
        }
    }

    /// The cleanup of a run: the native lock is enabled again where the
    /// options ask for its restoration, and nothing is done where they do
    /// not.
    pub open spec fn spec_cleanup(self) -> Option<Action> {
        if self.restore_windows {
            Some(Action::SetPolicy(true))
        } else {
            None
        }
    }

    /// What the termination hook does when an external interrupt arrives:
    /// the cleanup, and the end of the process at once after it.
    pub open spec fn spec_on_interrupt(self) -> Seq<Action> {
        match self.cleanup() {
            Some(action) => seq![action, Action::Exit(Termination::Interrupted)],
            None => seq![Action::Exit(Termination::Interrupted)],
        }
    }

    /// The code unit to ask the keyboard layout about before
    /// [`virtual_key`](Options::virtual_key) can tell the key, if there is
    /// one.
    #[verifier::when_used_as_spec(spec_layout_query)]
    pub fn layout_query(self) -> (r: Option<u16>)
        ensures
            r == self.spec_layout_query(),
    {
        match (self.virtual_code, self.key) {
            (None, Some(c)) => Some(Key::layout_unit(c)),
            _ => None,
        }
    }

    /// The key of the hotkey that the options configure, given the key that
    /// the keyboard layout named for the configured character.
    #[verifier::when_used_as_spec(spec_virtual_key)]
    pub fn virtual_key(self, layout: Option<Key>) -> (r: Result<Option<Key>, OptionsKeyError>)
        ensures
            r == self.spec_virtual_key(layout),
    {
        match (self.virtual_code, self.key) {
            (None, None) => Ok(None),
            (None, Some(_)) => match layout {
                Some(key) => Ok(Some(key)),
                None => Err(OptionsKeyError::MappingFail),
            },
            (Some(code), None) => Ok(Some(Key(code))),
            (Some(_), Some(_)) => Err(OptionsKeyError::Conflict),
        }
    }

    /// What is to be done when the run ends, however it ends: the write
    /// that restores the native lock, if the options ask for it.
    #[verifier::when_used_as_spec(spec_cleanup)]
    pub fn cleanup(self) -> (r: Option<Action>)
        ensures
            r == self.spec_cleanup(),
    {
        if self.restore_windows {
            Some(Action::SetPolicy(true))
        } else {
            None
        }
    }
}

impl Options {
    /// The actions of the termination hook, in their order. The hook runs
    /// beside the loop of the controller and shares nothing with it but the
    /// lock policy flag, which it writes as the run itself would at its
    /// end.
    pub fn on_interrupt(self) -> (r: Vec<Action>)
        ensures
            r@ == self.spec_on_interrupt(),
    {
        let mut actions: Vec<Action> = Vec::new();
        match self.cleanup() {
            Some(action) => {
                actions.push(action);
            },
            None => {},
        }
        actions.push(Action::Exit(Termination::Interrupted));
        actions
    }
}

impl Default for Options {
    /// Nothing is asked for: no policy write, no hotkey, no modifier.
    fn default() -> (r: Options)
        ensures
            r == (Options {
                disable_windows: false,
                restore_windows: false,
                virtual_code: None,
                key: None,
                ctrl: false,
                shift: false,
                windows: false,
                alt: false,
            }),
    {
        Options {
            disable_windows: false,
            restore_windows: false,
            virtual_code: None,
            key: None,
            ctrl: false,
            shift: false,
            windows: false,
            alt: false,
        }
    }
}

impl From<Options> for Modifiers {
    /// The modifiers that the options switch on, and NoRepeat with them.
    fn from(value: Options) -> (r: Modifiers) {
        let mut result = Modifiers::no_repeat();
        let ghost none = result.bits;
        assert(none | 0 == none) by (bit_vector);
        if value.ctrl {
            result.insert(Modifiers::control());
        }
        let ghost ctrl = result.bits;
        assert(ctrl | 0 == ctrl) by (bit_vector);
        if value.shift {
            result.insert(Modifiers::shift());
        }
        let ghost shift = result.bits;
        assert(shift | 0 == shift) by (bit_vector);
        if value.windows {
            result.insert(Modifiers::win());
        }
        let ghost windows = result.bits;
        assert(windows | 0 == windows) by (bit_vector);
        if value.alt {
            result.insert(Modifiers::alt());
        }
        result
    }
}

impl vstd::std_specs::convert::FromSpecImpl<Options> for Modifiers {
    open spec fn obeys_from_spec() -> bool {
        true
    }

    open spec fn from_spec(v: Options) -> Modifiers {
        Modifiers::of_switches(v.ctrl, v.shift, v.windows, v.alt)
    }
}

} // verus!
