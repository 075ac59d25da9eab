//! A controller, free of input and output, for locking the desktop session
//! with one global hotkey.
//!
//! The library decides and the caller acts: every service of the operating
//! system (the hotkey registration, the message queue, the session lock, the
//! persisted lock policy flag) is reached by the caller alone, who carries
//! out each [`Action`] that the [`Controller`] issues and reports the
//! [`Outcome`] back.

pub mod action;
pub mod controller;
pub mod event;
pub mod guarantees;
pub mod hotkey;
pub mod key;
pub mod modifiers;
pub mod options;
pub mod policy;
pub mod trace;

pub use action::{Action, Outcome, Termination};
pub use controller::{Controller, Phase};
pub use event::{classify, HotkeyEvent, ReadFailed};
pub use hotkey::{
    registration_result, Hotkey, Registration, RegistrationError, RegistrationFailure,
};
pub use key::Key;
pub use modifiers::Modifiers;
pub use options::{Options, OptionsKeyError};
pub use policy::{policy_value, value_enables, write_result, PolicyError};
pub use trace::replay;
