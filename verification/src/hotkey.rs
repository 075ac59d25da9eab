//! A hotkey, what is handed to the registration service of the platform to
//! register it, and the failure with which the service may answer.

use vstd::prelude::*;
use crate::key::Key;
use crate::modifiers::Modifiers;

verus! {

/// The identifier under which the one hotkey of the process is registered.
///
/// The registration slot is a single one for the lifetime of the process:
/// a second registration without a release of the first is not supported.
pub const HOTKEY_ID: i32 = 0x31710C4;

/// The native error code that says that the key combination is already
/// claimed by another hotkey.
pub const ERROR_HOTKEY_ALREADY_REGISTERED: i32 = 1409;

/// The native error code that says that the caller lacks the privilege.
pub const ERROR_ACCESS_DENIED: i32 = 5;

/// A global keyboard hotkey / shortcut that can be registered.
#[derive(Debug, Hash, Clone, Copy, PartialEq, Eq, PartialOrd, Ord, Structural)]
pub struct Hotkey {
    /// The hotkey modifiers.
    pub modifiers: Modifiers,
    /// The hotkey's virtual key code.
    pub key_code: Key,
}

/// The arguments of the registration service: the system is asked to notify
/// the process, without a window, when the combination is pressed anywhere.
#[derive(Debug, Hash, Clone, Copy, PartialEq, Eq, Structural)]
pub struct Registration {
    /// The identifier of the hotkey within the process.
    pub id: i32,
    /// The bit pattern of the modifiers.
    pub modifiers: u32,
    /// The virtual key code.
    pub key_code: u32,
}

/// Why a registration failed, as far as the native error tells.
#[derive(Debug, Hash, Clone, Copy, PartialEq, Eq, Structural)]
pub enum RegistrationFailure {
    /// The key combination is not available: it is claimed already.
    Unavailable,
    /// The privilege of the process does not suffice.
    NotPermitted,
    /// The native error tells neither.
    Other,
}

/// The failure of a registration: the native error code, as the system
/// gave it.
#[derive(Debug, Hash, Clone, Copy, PartialEq, Eq, Structural)]
pub struct RegistrationError {
    /// The error code of the operating system.
    pub code: i32,
}

impl Hotkey {
    /// What the registration service is handed for this hotkey.
    pub open spec fn spec_registration(self) -> Registration {
        Registration { id: HOTKEY_ID, modifiers: self.modifiers.bits, key_code: self.key_code.0 }
    }

    /// The arguments with which the registration service registers this
    /// hotkey: the fixed identifier, the bit pattern of the modifiers and
    /// the virtual key code.
    #[verifier::when_used_as_spec(spec_registration)]
    pub fn registration(self) -> (r: Registration)
        ensures
            r == self.spec_registration(),
    {
        Registration {
            id: HOTKEY_ID,
            modifiers: self.modifiers.bits(),
            key_code: self.key_code.0,
        }
    }
}

/// How the answer of the registration service reads: a hotkey that was
/// accepted is registered, and one that was not failed with the native
/// error code that came with the answer, kept as it is.
pub open spec fn spec_registration_result(accepted: bool, code: i32) -> Result<
    (),
    RegistrationError,
> {
    if accepted {
        Ok(())
    } else {
        Err(RegistrationError { code })
    }
}

/// Reads the answer of the registration service: whether it accepted the
/// hotkey, and the native error code that came with the answer, which
/// counts only where it did not.
#[verifier::when_used_as_spec(spec_registration_result)]
pub fn registration_result(accepted: bool, code: i32) -> (r: Result<(), RegistrationError>)
    ensures
        r == spec_registration_result(accepted, code),
{
    if accepted {
        Ok(())
    } else {
        Err(RegistrationError { code })
    }
}

impl Default for Hotkey {
    /// The hotkey without modifiers on the key with code zero.
    fn default() -> (r: Hotkey)
        ensures
            r == (Hotkey { modifiers: Modifiers { bits: 0 }, key_code: Key(0) }),
    {
        Hotkey { modifiers: Modifiers::empty(), key_code: Key(0) }
    }
}

impl RegistrationError {
    /// What the native error code tells about the failure.
    pub open spec fn spec_kind(self) -> RegistrationFailure {
        if self.code == ERROR_HOTKEY_ALREADY_REGISTERED {
            RegistrationFailure::Unavailable
        } else if self.code == ERROR_ACCESS_DENIED {
            RegistrationFailure::NotPermitted
        } else {
            RegistrationFailure::Other
        }
    }

    /// What the native error code tells about the failure.
    #[verifier::when_used_as_spec(spec_kind)]
    pub fn kind(self) -> (r: RegistrationFailure)
        ensures
            r == self.spec_kind(),
    {
        if self.code == ERROR_HOTKEY_ALREADY_REGISTERED {
            RegistrationFailure::Unavailable
        } else if self.code == ERROR_ACCESS_DENIED {
            RegistrationFailure::NotPermitted
        } else {
            RegistrationFailure::Other
        }
    }

    /// A message for the user that tells an unavailable key combination
    /// from a lack of privilege.
    pub fn message(self) -> (r: String)
        ensures
            r@ == match self.kind() {
                RegistrationFailure::Unavailable => "the key combination is unavailable"@,
                RegistrationFailure::NotPermitted => "insufficient privilege"@,
                RegistrationFailure::Other => "the system refused the hotkey"@,
            },
    {
        match self.kind() {
            RegistrationFailure::Unavailable => "the key combination is unavailable".to_owned(),
            RegistrationFailure::NotPermitted => "insufficient privilege".to_owned(),
            RegistrationFailure::Other => "the system refused the hotkey".to_owned(),
        }
    }
}

} // verus!
