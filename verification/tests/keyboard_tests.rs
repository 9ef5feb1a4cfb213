use gg_os::keyboard::{find_asii, read_char, KeyPair, Modifiers};

#[test]
fn keypair_starts_released() {
    let pair = KeyPair::new();
    assert!(!pair.is_pressed());
}

#[test]
fn left_shift_press_and_release_returns_to_unpressed() {
    let mut m = Modifiers::new();
    m.update(0x2A);
    assert!(m.shift.is_pressed());
    m.update(0xAA);
    assert!(!m.shift.is_pressed());
}

#[test]
fn right_shift_press_and_release_returns_to_unpressed() {
    let mut m = Modifiers::new();
    m.update(0x36);
    assert!(m.shift.is_pressed());
    m.update(0xB6);
    assert!(!m.shift.is_pressed());
}

#[test]
fn caps_lock_twice_returns_to_original() {
    let mut m = Modifiers::new();
    assert!(!m.caps_lock);
    m.update(0x3A);
    assert!(m.caps_lock);
    m.update(0x3A);
    assert!(!m.caps_lock);
}

#[test]
fn caps_lock_ignores_break_code() {
    let mut m = Modifiers::new();
    m.update(0x3A);
    assert!(m.caps_lock);
    // The break code of caps lock (0x3A + 0x80) must not toggle.
    m.update(0xBA);
    assert!(m.caps_lock);
}

#[test]
fn uppercase_is_shift_xor_caps_lock_truth_table() {
    // neither
    let m = Modifiers::new();
    assert!(!m.use_uppercase_letters());
    // shift only
    let mut m = Modifiers::new();
    m.update(0x2A);
    assert!(m.use_uppercase_letters());
    // caps only
    let mut m = Modifiers::new();
    m.update(0x3A);
    assert!(m.use_uppercase_letters());
    // both
    let mut m = Modifiers::new();
    m.update(0x2A);
    m.update(0x3A);
    assert!(!m.use_uppercase_letters());
}

#[test]
fn caps_lock_while_shift_held_turns_uppercase_off() {
    let mut m = Modifiers::new();
    m.update(0x2A);
    assert!(m.use_uppercase_letters());
    m.update(0x3A);
    assert!(!m.use_uppercase_letters());
}

#[test]
fn control_and_alt_are_tracked() {
    let mut m = Modifiers::new();
    m.update(0x1D);
    assert!(m.control.is_pressed());
    m.update(0x9D);
    assert!(!m.control.is_pressed());
    m.update(0x38);
    assert!(m.alt.is_pressed());
    m.update(0xB8);
    assert!(!m.alt.is_pressed());
}

#[test]
fn scancode_a_decodes_through_modifier_combinations() {
    // no modifiers -> 'a'
    let mut m = Modifiers::new();
    assert_eq!(read_char(&mut m, 0x1E), Some('a'));
    // caps lock on -> 'A'
    let mut m = Modifiers::new();
    m.update(0x3A);
    assert_eq!(read_char(&mut m, 0x1E), Some('A'));
    // shift held, no caps -> 'A'
    let mut m = Modifiers::new();
    m.update(0x2A);
    assert_eq!(read_char(&mut m, 0x1E), Some('A'));
    // shift and caps together -> 'a'
    let mut m = Modifiers::new();
    m.update(0x2A);
    m.update(0x3A);
    assert_eq!(read_char(&mut m, 0x1E), Some('a'));
}

#[test]
fn scancode_one_decodes_with_and_without_shift() {
    // shift held -> '!'
    let mut m = Modifiers::new();
    m.update(0x2A);
    assert_eq!(read_char(&mut m, 0x02), Some('!'));
    // no shift -> '1'
    let mut m = Modifiers::new();
    assert_eq!(read_char(&mut m, 0x02), Some('1'));
    // caps lock has no effect on the digit
    let mut m = Modifiers::new();
    m.update(0x3A);
    assert_eq!(read_char(&mut m, 0x02), Some('1'));
}

#[test]
fn every_symbol_pair_shifts_and_unshifts() {
    let pairs: [(u8, char, char); 19] = [
        (0x02, '1', '!'),
        (0x03, '2', '@'),
        (0x04, '3', '#'),
        (0x05, '4', '$'),
        (0x06, '5', '%'),
        (0x07, '6', '^'),
        (0x08, '7', '&'),
        (0x09, '8', '*'),
        (0x0A, '9', '('),
        (0x0B, '0', ')'),
        (0x0C, '-', '_'),
        (0x0D, '=', '+'),
        (0x33, ',', '<'),
        (0x34, '.', '>'),
        (0x35, '/', '?'),
        (0x1A, '[', '{'),
        (0x1B, ']', '}'),
        (0x27, ';', ':'),
        (0x28, '\'', '"'),
    ];
    for &(scancode, base, shifted) in pairs.iter() {
        let mut plain = Modifiers::new();
        assert_eq!(read_char(&mut plain, scancode), Some(base));
        let mut with_shift = Modifiers::new();
        with_shift.update(0x2A);
        assert_eq!(read_char(&mut with_shift, scancode), Some(shifted));
        // caps lock alone never shifts a symbol key
        let mut with_caps = Modifiers::new();
        with_caps.update(0x3A);
        assert_eq!(read_char(&mut with_caps, scancode), Some(base));
    }
}

#[test]
fn layout_table_rows_decode() {
    assert_eq!(find_asii(0x01), Some(0x1B)); // escape
    assert_eq!(find_asii(0x0E), Some(0x00)); // placeholder for the unmapped key
    assert_eq!(find_asii(0x0F), Some(b'\t'));
    assert_eq!(find_asii(0x10), Some(b'q'));
    assert_eq!(find_asii(0x19), Some(b'p'));
    assert_eq!(find_asii(0x1C), Some(b'\r'));
    assert_eq!(find_asii(0x1E), Some(b'a'));
    assert_eq!(find_asii(0x26), Some(b'l'));
    assert_eq!(find_asii(0x2C), Some(b'z'));
    assert_eq!(find_asii(0x32), Some(b'm'));
    assert_eq!(find_asii(0x39), Some(b' '));
}

#[test]
fn unrecognized_scancodes_yield_nothing() {
    assert_eq!(find_asii(0x00), None);
    assert_eq!(find_asii(0x1D), None); // left control make code
    assert_eq!(find_asii(0x3A), None); // caps lock make code
    assert_eq!(find_asii(0x9E), None); // break code of 'a'
    assert_eq!(find_asii(0xFF), None);
    let mut m = Modifiers::new();
    assert_eq!(read_char(&mut m, 0x9E), None);
}

#[test]
fn modifier_scancode_yields_no_character_but_updates_state() {
    let mut m = Modifiers::new();
    assert_eq!(read_char(&mut m, 0x2A), None);
    assert!(m.shift.is_pressed());
}
