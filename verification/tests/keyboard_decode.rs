use kernel_core::keyboard_driver::{KeyboardDriver, LOWER_CASE_OFFSET};

fn fresh_driver() -> KeyboardDriver {
    KeyboardDriver { b1: 0, b2: 0, shift_offset: LOWER_CASE_OFFSET }
}

#[test]
fn default_state_decodes_lower_case() {
    let mut drv = fresh_driver();
    assert_eq!(drv.letter_from_scan_code(0x10), Some(b'q'));
    assert_eq!(drv.letter_from_scan_code(0x1e), Some(b'a'));
    assert_eq!(drv.letter_from_scan_code(0x2c), Some(b'z'));
}

#[test]
fn shift_make_selects_upper_case() {
    let mut drv = fresh_driver();
    assert_eq!(drv.letter_from_scan_code(0x2a), None);
    assert_eq!(drv.letter_from_scan_code(0x10), Some(b'Q'));
    assert_eq!(drv.letter_from_scan_code(0x32), Some(b'M'));
}

#[test]
fn shift_break_restores_lower_case() {
    let mut drv = fresh_driver();
    assert_eq!(drv.letter_from_scan_code(0x2a), None);
    assert_eq!(drv.letter_from_scan_code(0x10), Some(b'Q'));
    assert_eq!(drv.letter_from_scan_code(0xaa), None);
    assert_eq!(drv.letter_from_scan_code(0x10), Some(b'q'));
}

#[test]
fn right_shift_behaves_like_left_shift() {
    let mut drv = fresh_driver();
    assert_eq!(drv.letter_from_scan_code(0x36), None);
    assert_eq!(drv.letter_from_scan_code(0x19), Some(b'P'));
    assert_eq!(drv.letter_from_scan_code(0xb6), None);
    assert_eq!(drv.letter_from_scan_code(0x19), Some(b'p'));
}

#[test]
fn shift_then_letters_end_to_end() {
    // Scan codes [shift make, Q make, shift break, Q make] come out as
    // the characters ['Q', 'q'].
    let mut drv = fresh_driver();
    let mut typed: Vec<u8> = Vec::new();
    for code in [0x2a, 0x10, 0xaa, 0x10u8] {
        if let Some(c) = drv.letter_from_scan_code(code) {
            typed.push(c);
        }
    }
    assert_eq!(typed, vec![b'Q', b'q']);
}

#[test]
fn numeric_row_ignores_shift() {
    let mut drv = fresh_driver();
    assert_eq!(drv.letter_from_scan_code(0x02), Some(b'1'));
    assert_eq!(drv.letter_from_scan_code(0x0b), Some(b'0'));
    assert_eq!(drv.letter_from_scan_code(0x2a), None);
    assert_eq!(drv.letter_from_scan_code(0x02), Some(b'1'));
    assert_eq!(drv.letter_from_scan_code(0x0b), Some(b'0'));
}

#[test]
fn control_keys_map_to_fixed_bytes() {
    let mut drv = fresh_driver();
    assert_eq!(drv.letter_from_scan_code(0x0e), Some(0x08));
    assert_eq!(drv.letter_from_scan_code(0x0f), Some(b'\t'));
    assert_eq!(drv.letter_from_scan_code(0x1c), Some(b'\n'));
    assert_eq!(drv.letter_from_scan_code(0x39), Some(b' '));
    assert_eq!(drv.letter_from_scan_code(0x33), Some(b','));
}

#[test]
fn silent_codes_produce_no_character() {
    let mut drv = fresh_driver();
    assert_eq!(drv.letter_from_scan_code(0x01), None); // Escape
    assert_eq!(drv.letter_from_scan_code(0x3b), None); // F1
    assert_eq!(drv.letter_from_scan_code(0x44), None); // F10
    assert_eq!(drv.letter_from_scan_code(0x53), None); // Delete
    assert_eq!(drv.letter_from_scan_code(0x57), None); // F11
    assert_eq!(drv.letter_from_scan_code(0x58), None); // F12
    assert_eq!(drv.letter_from_scan_code(0x90), None); // a release code
    assert_eq!(drv.letter_from_scan_code(0xff), None);
}

#[test]
fn unmapped_make_codes_yield_placeholder() {
    let mut drv = fresh_driver();
    assert_eq!(drv.letter_from_scan_code(0x00), Some(b'X'));
    assert_eq!(drv.letter_from_scan_code(0x1d), Some(b'X')); // Ctrl
    assert_eq!(drv.letter_from_scan_code(0x7f), Some(b'X'));
}

#[test]
fn interrupt_handler_decodes_like_the_decoder() {
    let mut drv = fresh_driver();
    assert_eq!(drv.keyboard_interrupt_handler(0x10), Some(b'q'));
    assert_eq!(drv.keyboard_interrupt_handler(0x2a), None);
    assert_eq!(drv.keyboard_interrupt_handler(0x10), Some(b'Q'));
}

#[test]
fn decoding_never_touches_identification_bytes() {
    let mut drv = KeyboardDriver { b1: 0xab, b2: 0x83, shift_offset: LOWER_CASE_OFFSET };
    drv.letter_from_scan_code(0x2a);
    drv.letter_from_scan_code(0x10);
    assert_eq!(drv.b1, 0xab);
    assert_eq!(drv.b2, 0x83);
}
