use winlock::Key;

#[test]
fn the_layout_is_asked_about_the_code_unit_of_the_character() {
    assert_eq!(Key::layout_unit('A'), 0x0041);
    assert_eq!(Key::layout_unit('a'), 0x0061);
    assert_eq!(Key::layout_unit('\u{20AC}'), 0x20AC);
    assert_eq!(Key::layout_unit('\u{FFFF}'), 0xFFFF);
    assert_eq!(Key::layout_unit('\0'), 0);
}

#[test]
fn the_code_unit_of_a_character_beyond_sixteen_bits_is_its_low_half() {
    assert_eq!(Key::layout_unit('\u{10000}'), 0x0000);
    assert_eq!(Key::layout_unit('\u{1F600}'), 0xF600);
    assert_eq!(Key::layout_unit('\u{10FFFF}'), 0xFFFF);
}

#[test]
fn the_key_is_the_low_byte_of_the_answer() {
    assert_eq!(Key::from_layout_scan(0x0041), Some(Key(0x41)));
    assert_eq!(Key::from_layout_scan(0x0141), Some(Key(0x41)));
    assert_eq!(Key::from_layout_scan(0x0631), Some(Key(0x31)));
    assert_eq!(Key::from_layout_scan(0x0000), Some(Key(0)));
    assert_eq!(Key::from_layout_scan(0x00FE), Some(Key(0xFE)));
    assert_eq!(Key::from_layout_scan(i16::MIN), Some(Key(0)));
    assert_eq!(Key::from_layout_scan(-256), Some(Key(0)));
    assert_eq!(Key::from_layout_scan(-2), Some(Key(0xFE)));
}

#[test]
fn an_answer_with_a_low_byte_of_all_ones_names_the_key_of_that_byte() {
    assert_eq!(Key::from_layout_scan(0x00FF), Some(Key(0xFF)));
    assert_eq!(Key::from_layout_scan(0x01FF), Some(Key(0xFF)));
    assert_eq!(Key::from_layout_scan(i16::MAX), Some(Key(0xFF)));
    assert_eq!(Key::from_layout_scan(-257), Some(Key(0xFF)));
}

#[test]
fn no_key_is_read_from_the_answer_that_names_none() {
    assert_eq!(Key::from_layout_scan(-1), None);
    for scan in i16::MIN..=i16::MAX {
        assert_eq!(Key::from_layout_scan(scan).is_none(), scan == -1);
    }
}

#[test]
fn the_default_key_has_code_zero() {
    assert_eq!(Key::default(), Key(0));
}
