//! The events of the message loop, and how a message that was read from the
//! queue of the platform is classified.

use vstd::prelude::*;

verus! {

/// The identifier of the message that reports that a hotkey was pressed.
pub const WM_HOTKEY: u32 = 0x0312;

/// The identifier of the message that asks the process to end.
pub const WM_QUIT: u32 = 0x0012;

/// The status with which the read reports that no more messages will come.
pub const READ_FINISHED: i32 = 0;

/// The status with which the read reports that it failed.
pub const READ_FAILED: i32 = -1;

/// An event from the message loop in the context of hotkeys.
#[derive(Debug, Hash, Clone, Copy, PartialEq, Eq, PartialOrd, Ord, Structural)]
pub enum HotkeyEvent {
    /// The hotkey was pressed.
    Hotkey,
    /// An irrelevant event occurred.
    Other,
    /// Got a quit signal.
    Quit,
}

/// The read of the next message failed; the native error is with the caller.
#[derive(Debug, Hash, Clone, Copy, PartialEq, Eq, Structural)]
pub struct ReadFailed;

/// What a read is classified as: the sentinel for "no more messages" is a
/// quit signal and a failed read is an error; of the messages, the one that
/// reports the hotkey is the hotkey event, the one that ends the process is
/// a quit signal, and every other one is irrelevant.
pub open spec fn spec_classify(status: i32, message: u32) -> Result<HotkeyEvent, ReadFailed> {
    if status == READ_FINISHED {
        Ok(HotkeyEvent::Quit)
    } else if status == READ_FAILED {
        Err(ReadFailed)
    } else if message == WM_HOTKEY {
        Ok(HotkeyEvent::Hotkey)
    } else if message == WM_QUIT {
        Ok(HotkeyEvent::Quit)
    } else {
        Ok(HotkeyEvent::Other)
    }
}

/// Classifies what a blocking read of the message queue gave: `status` is
/// what the read returned and `message` the identifier of the message that
/// it filled in, which counts only where the read delivered one.
#[verifier::when_used_as_spec(spec_classify)]
pub fn classify(status: i32, message: u32) -> (r: Result<HotkeyEvent, ReadFailed>)
    ensures
        r == spec_classify(status, message),
{
    if status == READ_FINISHED {
        Ok(HotkeyEvent::Quit)
    } else if status == READ_FAILED {
        Err(ReadFailed)
    } else if message == WM_HOTKEY {
        Ok(HotkeyEvent::Hotkey)
    } else if message == WM_QUIT {
        Ok(HotkeyEvent::Quit)
    } else {
        Ok(HotkeyEvent::Other)
    }
}

} // verus!
