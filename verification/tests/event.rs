use winlock::{classify, HotkeyEvent, ReadFailed};

const WM_HOTKEY: u32 = 0x0312;
const WM_QUIT: u32 = 0x0012;
const WM_TIMER: u32 = 0x0113;

#[test]
fn the_hotkey_message_is_the_hotkey_event() {
    assert_eq!(classify(1, WM_HOTKEY), Ok(HotkeyEvent::Hotkey));
    assert_eq!(classify(1, 786), Ok(HotkeyEvent::Hotkey));
    assert_eq!(classify(7, WM_HOTKEY), Ok(HotkeyEvent::Hotkey));
    assert_eq!(classify(-2, WM_HOTKEY), Ok(HotkeyEvent::Hotkey));
}

#[test]
fn the_quit_message_is_a_quit_signal() {
    assert_eq!(classify(1, WM_QUIT), Ok(HotkeyEvent::Quit));
    assert_eq!(classify(1, 18), Ok(HotkeyEvent::Quit));
}

#[test]
fn the_sentinel_for_no_more_messages_is_a_quit_signal() {
    assert_eq!(classify(0, WM_QUIT), Ok(HotkeyEvent::Quit));
    assert_eq!(classify(0, WM_HOTKEY), Ok(HotkeyEvent::Quit));
    assert_eq!(classify(0, 0), Ok(HotkeyEvent::Quit));
}

#[test]
fn a_failed_read_is_an_error() {
    assert_eq!(classify(-1, 0), Err(ReadFailed));
    assert_eq!(classify(-1, WM_HOTKEY), Err(ReadFailed));
    assert_eq!(classify(-1, WM_QUIT), Err(ReadFailed));
}

#[test]
fn every_other_message_is_irrelevant() {
    assert_eq!(classify(1, WM_TIMER), Ok(HotkeyEvent::Other));
    assert_eq!(classify(1, 0), Ok(HotkeyEvent::Other));
    assert_eq!(classify(1, WM_HOTKEY + 1), Ok(HotkeyEvent::Other));
    assert_eq!(classify(1, u32::MAX), Ok(HotkeyEvent::Other));
}
