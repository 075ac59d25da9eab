use winlock::{Modifiers, Options};

fn switched(ctrl: bool, shift: bool, windows: bool, alt: bool) -> Modifiers {
    Modifiers::from(Options { ctrl, shift, windows, alt, ..Options::default() })
}

#[test]
fn the_bits_match_the_encoding_of_the_registration_service() {
    assert_eq!(Modifiers::alt().bits(), 0x0001);
    assert_eq!(Modifiers::control().bits(), 0x0002);
    assert_eq!(Modifiers::shift().bits(), 0x0004);
    assert_eq!(Modifiers::win().bits(), 0x0008);
    assert_eq!(Modifiers::no_repeat().bits(), 0x4000);
}

#[test]
fn the_default_is_the_empty_set() {
    assert_eq!(Modifiers::default(), Modifiers::empty());
    assert_eq!(Modifiers::default().bits(), 0);
    assert!(Modifiers::default().is_empty());
    assert!(!Modifiers::alt().is_empty());
}

#[test]
fn modifiers_from_options_unites_the_selected_bits() {
    assert_eq!(switched(true, true, false, false).bits(), 0x4006);
}

#[test]
fn modifiers_from_options_hold_no_repeat_without_any_switch() {
    assert_eq!(switched(false, false, false, false), Modifiers::no_repeat());
    assert_eq!(switched(false, false, false, false).bits(), 0x4000);
}

#[test]
fn modifiers_from_options_cover_every_combination_of_switches() {
    for n in 0u32..16 {
        let (ctrl, shift, windows, alt) = (n & 1 != 0, n & 2 != 0, n & 4 != 0, n & 8 != 0);
        let modifiers = switched(ctrl, shift, windows, alt);
        let mut expected = 0x4000u32;
        if ctrl {
            expected |= 0x0002;
        }
        if shift {
            expected |= 0x0004;
        }
        if windows {
            expected |= 0x0008;
        }
        if alt {
            expected |= 0x0001;
        }
        assert_eq!(modifiers.bits(), expected);
        assert!(modifiers.contains(Modifiers::no_repeat()));
        assert_eq!(modifiers.contains(Modifiers::control()), ctrl);
        assert_eq!(modifiers.contains(Modifiers::shift()), shift);
        assert_eq!(modifiers.contains(Modifiers::win()), windows);
        assert_eq!(modifiers.contains(Modifiers::alt()), alt);
    }
}

#[test]
fn modifiers_from_options_do_not_depend_on_the_order_of_union() {
    let forwards = Modifiers::no_repeat()
        .union(Modifiers::control())
        .union(Modifiers::shift())
        .union(Modifiers::win())
        .union(Modifiers::alt());
    let backwards = Modifiers::alt()
        .union(Modifiers::win())
        .union(Modifiers::shift())
        .union(Modifiers::control())
        .union(Modifiers::no_repeat());
    assert_eq!(forwards, backwards);
    assert_eq!(forwards, switched(true, true, true, true));
    assert_eq!(forwards.bits(), 0x400F);
}

#[test]
fn modifiers_from_options_ignore_what_is_no_switch() {
    let options = Options {
        disable_windows: true,
        restore_windows: true,
        virtual_code: Some(0x41),
        key: Some('a'),
        alt: true,
        ..Options::default()
    };
    assert_eq!(Modifiers::from(options).bits(), 0x4001);
}

#[test]
fn union_is_commutative_associative_and_idempotent() {
    let a = Modifiers::control();
    let b = Modifiers::shift().union(Modifiers::no_repeat());
    let c = Modifiers::alt();
    assert_eq!(a.union(b), b.union(a));
    assert_eq!(a.union(b).union(c), a.union(b.union(c)));
    assert_eq!(a.union(a), a);
    assert_eq!(a.union(Modifiers::empty()), a);
    assert_eq!(a.union(b).bits(), 0x4006);
}

#[test]
fn the_operator_unites_as_union_does() {
    assert_eq!(Modifiers::control() | Modifiers::shift(), Modifiers::control().union(Modifiers::shift()));
    assert_eq!((Modifiers::control() | Modifiers::shift()).bits(), 0x0006);
}

#[test]
fn insert_adds_the_members_of_the_other_set() {
    let mut modifiers = Modifiers::no_repeat();
    modifiers.insert(Modifiers::win());
    assert_eq!(modifiers.bits(), 0x4008);
    modifiers.insert(Modifiers::win());
    assert_eq!(modifiers.bits(), 0x4008);
}

#[test]
fn contains_asks_for_every_member() {
    let both = Modifiers::control().union(Modifiers::alt());
    assert!(both.contains(Modifiers::control()));
    assert!(both.contains(Modifiers::alt()));
    assert!(both.contains(both));
    assert!(both.contains(Modifiers::empty()));
    assert!(!both.contains(Modifiers::shift()));
    assert!(!Modifiers::control().contains(both));
}

#[test]
fn from_bits_takes_the_known_bits_only() {
    assert_eq!(Modifiers::from_bits(0), Some(Modifiers::empty()));
    assert_eq!(Modifiers::from_bits(0x4006).map(Modifiers::bits), Some(0x4006));
    assert_eq!(Modifiers::from_bits(0x400F).map(Modifiers::bits), Some(0x400F));
    assert_eq!(Modifiers::from_bits(0x0010), None);
    assert_eq!(Modifiers::from_bits(0x8000), None);
    assert_eq!(Modifiers::from_bits(0x4016), None);
    assert_eq!(Modifiers::from_bits(u32::MAX), None);
}
