use winlock::{
    Action, Controller, Hotkey, HotkeyEvent, Key, Modifiers, Options, OptionsKeyError, Outcome,
    Phase, RegistrationError, Termination,
};

fn with_code(code: u32) -> Options {
    Options { virtual_code: Some(code), ..Options::default() }
}

#[test]
fn a_run_with_a_virtual_key_code_starts_with_the_registration() {
    let options = Options { ctrl: true, shift: true, ..with_code(0x41) };
    let controller = Controller::new(options);
    let hotkey = Hotkey { modifiers: Modifiers { bits: 0x4006 }, key_code: Key(0x41) };
    assert_eq!(controller.options(), options);
    assert_eq!(controller.phase(), Phase::Registering(hotkey));
    assert_eq!(controller.pending(), Action::Register(hotkey));
    assert!(!controller.is_terminated());
}

#[test]
fn a_run_with_a_character_starts_with_the_question_to_the_layout() {
    let options = Options { key: Some('a'), disable_windows: true, ..Options::default() };
    let mut controller = Controller::new(options);
    assert_eq!(controller.pending(), Action::ScanLayout(0x61));
    assert_eq!(controller.step(Outcome::Scanned(0x0041)), Some(Action::SetPolicy(false)));
    assert_eq!(
        controller.step(Outcome::Done),
        Some(Action::Register(Hotkey { modifiers: Modifiers::no_repeat(), key_code: Key(0x41) }))
    );
}

#[test]
fn the_native_lock_is_disabled_before_the_registration() {
    let mut controller = Controller::new(Options { disable_windows: true, ..with_code(0x4C) });
    assert_eq!(controller.pending(), Action::SetPolicy(false));
    assert_eq!(controller.phase(), Phase::Disabling(Some(Key(0x4C))));
    assert_eq!(
        controller.step(Outcome::Done),
        Some(Action::Register(Hotkey { modifiers: Modifiers::no_repeat(), key_code: Key(0x4C) }))
    );
}

#[test]
fn the_hook_is_installed_only_where_restoration_is_asked_for() {
    let mut restoring = Controller::new(Options { restore_windows: true, ..with_code(0x41) });
    assert_eq!(restoring.step(Outcome::Registered), Some(Action::InstallHook));
    assert_eq!(restoring.step(Outcome::Done), Some(Action::AwaitEvent));
    let mut plain = Controller::new(with_code(0x41));
    assert_eq!(plain.step(Outcome::Registered), Some(Action::AwaitEvent));
}

#[test]
fn an_irrelevant_event_and_a_failed_read_lead_back_to_listening() {
    let mut controller = Controller::new(with_code(0x41));
    assert_eq!(controller.step(Outcome::Registered), Some(Action::AwaitEvent));
    assert_eq!(controller.step(Outcome::Event(HotkeyEvent::Other)), Some(Action::AwaitEvent));
    assert_eq!(controller.phase(), Phase::Listening);
    assert_eq!(controller.step(Outcome::ReadFailed), Some(Action::AwaitEvent));
    assert_eq!(controller.phase(), Phase::Listening);
    assert!(!controller.is_terminated());
}

#[test]
fn the_hotkey_enables_the_native_lock_and_locks() {
    let mut controller = Controller::new(with_code(0x41));
    controller.step(Outcome::Registered);
    assert_eq!(controller.step(Outcome::Event(HotkeyEvent::Hotkey)), Some(Action::SetPolicy(true)));
    assert_eq!(controller.step(Outcome::Done), Some(Action::Lock));
    assert_eq!(controller.step(Outcome::Done), Some(Action::AwaitEvent));
}

#[test]
fn the_native_lock_is_disabled_again_after_the_grace_interval() {
    let mut controller = Controller::new(Options { disable_windows: true, ..with_code(0x41) });
    controller.step(Outcome::Done);
    controller.step(Outcome::Registered);
    assert_eq!(controller.step(Outcome::Event(HotkeyEvent::Hotkey)), Some(Action::SetPolicy(true)));
    assert_eq!(controller.step(Outcome::Done), Some(Action::Lock));
    assert_eq!(controller.step(Outcome::Done), Some(Action::Sleep(500)));
    assert_eq!(controller.phase(), Phase::Waiting);
    assert_eq!(controller.step(Outcome::Done), Some(Action::SetPolicy(false)));
    assert_eq!(controller.step(Outcome::Done), Some(Action::AwaitEvent));
}

#[test]
fn a_quit_signal_ends_the_run_after_the_cleanup() {
    let mut restoring = Controller::new(Options { restore_windows: true, ..with_code(0x41) });
    restoring.step(Outcome::Registered);
    restoring.step(Outcome::Done);
    assert_eq!(restoring.step(Outcome::Event(HotkeyEvent::Quit)), Some(Action::SetPolicy(true)));
    assert!(!restoring.is_terminated());
    assert_eq!(restoring.step(Outcome::Done), Some(Action::Exit(Termination::Quit)));
    assert!(restoring.is_terminated());
    let mut plain = Controller::new(with_code(0x41));
    plain.step(Outcome::Registered);
    assert_eq!(plain.step(Outcome::Event(HotkeyEvent::Quit)), Some(Action::Exit(Termination::Quit)));
    assert!(plain.is_terminated());
}

#[test]
fn a_refused_registration_ends_the_run_with_the_native_error() {
    let error = RegistrationError { code: 1409 };
    let mut restoring = Controller::new(Options { restore_windows: true, ..with_code(0x41) });
    assert_eq!(restoring.step(Outcome::Refused(error)), Some(Action::SetPolicy(true)));
    assert_eq!(
        restoring.step(Outcome::Done),
        Some(Action::Exit(Termination::Registration(error)))
    );
    let mut plain = Controller::new(with_code(0x41));
    assert_eq!(
        plain.step(Outcome::Refused(error)),
        Some(Action::Exit(Termination::Registration(error)))
    );
    assert_eq!(Termination::Registration(error).exit_code(), 1);
}

#[test]
fn an_outcome_that_does_not_answer_is_not_taken() {
    let mut controller = Controller::new(with_code(0x41));
    let before = controller.phase();
    assert_eq!(controller.step(Outcome::Done), None);
    assert_eq!(controller.step(Outcome::Event(HotkeyEvent::Hotkey)), None);
    assert_eq!(controller.step(Outcome::Scanned(0x41)), None);
    assert_eq!(controller.step(Outcome::ReadFailed), None);
    assert_eq!(controller.phase(), before);
    assert_eq!(controller.step(Outcome::Registered), Some(Action::AwaitEvent));
    assert_eq!(controller.step(Outcome::Registered), None);
    assert_eq!(controller.step(Outcome::Done), None);
    assert_eq!(controller.phase(), Phase::Listening);
}

#[test]
fn nothing_is_taken_after_the_end() {
    let mut controller = Controller::new(with_code(0x41));
    controller.step(Outcome::Registered);
    controller.step(Outcome::Event(HotkeyEvent::Quit));
    assert!(controller.is_terminated());
    for outcome in [
        Outcome::Done,
        Outcome::Registered,
        Outcome::ReadFailed,
        Outcome::Scanned(0x41),
        Outcome::Event(HotkeyEvent::Hotkey),
        Outcome::Event(HotkeyEvent::Other),
        Outcome::Event(HotkeyEvent::Quit),
        Outcome::Refused(RegistrationError { code: 5 }),
    ] {
        assert_eq!(controller.step(outcome), None);
        assert_eq!(controller.phase(), Phase::Terminated(Termination::Quit));
        assert_eq!(controller.pending(), Action::Exit(Termination::Quit));
    }
}

#[test]
fn two_keys_end_the_run_at_once() {
    let options = Options {
        disable_windows: true,
        restore_windows: true,
        key: Some('A'),
        ..with_code(0x41)
    };
    let mut controller = Controller::new(options);
    let end = Termination::Configuration(OptionsKeyError::Conflict);
    assert!(controller.is_terminated());
    assert_eq!(controller.pending(), Action::Exit(end));
    assert_eq!(controller.step(Outcome::Done), None);
    assert_eq!(end.exit_code(), 1);
}

#[test]
fn a_character_without_a_key_ends_the_run_before_any_write() {
    let options = Options {
        disable_windows: true,
        restore_windows: true,
        key: Some('\u{20AC}'),
        ..Options::default()
    };
    let mut controller = Controller::new(options);
    assert_eq!(controller.pending(), Action::ScanLayout(0x20AC));
    assert_eq!(
        controller.step(Outcome::Scanned(-1)),
        Some(Action::Exit(Termination::Configuration(OptionsKeyError::MappingFail)))
    );
    assert!(controller.is_terminated());
}

#[test]
fn each_phase_has_its_action_in_flight() {
    let hotkey = Hotkey { modifiers: Modifiers::alt(), key_code: Key(0x70) };
    assert_eq!(Phase::Resolving(0x61).pending(), Action::ScanLayout(0x61));
    assert_eq!(Phase::Disabling(None).pending(), Action::SetPolicy(false));
    assert_eq!(Phase::Registering(hotkey).pending(), Action::Register(hotkey));
    assert_eq!(Phase::Hooking.pending(), Action::InstallHook);
    assert_eq!(Phase::Listening.pending(), Action::AwaitEvent);
    assert_eq!(Phase::Enabling.pending(), Action::SetPolicy(true));
    assert_eq!(Phase::Locking.pending(), Action::Lock);
    assert_eq!(Phase::Waiting.pending(), Action::Sleep(500));
    assert_eq!(Phase::Redisabling.pending(), Action::SetPolicy(false));
    assert_eq!(Phase::Restoring(Termination::Quit).pending(), Action::SetPolicy(true));
    assert_eq!(
        Phase::Terminated(Termination::NoHotkey).pending(),
        Action::Exit(Termination::NoHotkey)
    );
}
