use c64_emu::system::keyboard::{keys, map_pc_keycode, KeyMapping, Keyboard};

#[test]
fn test_new_keyboard_all_released() {
    let kb = Keyboard::new();
    for row in 0..8 {
        for col in 0..8 {
            assert!(!kb.is_key_pressed(row, col));
        }
    }
}

#[test]
fn test_key_down_up() {
    let mut kb = Keyboard::new();

    // Press 'A' key (row 1, col 2)
    kb.key_down(1, 2);
    assert!(kb.is_key_pressed(1, 2));
    assert!(!kb.is_key_pressed(0, 0));

    // Release 'A' key
    kb.key_up(1, 2);
    assert!(!kb.is_key_pressed(1, 2));
}

#[test]
fn test_scan_no_keys_pressed() {
    let kb = Keyboard::new();

    // Select all columns (all low)
    assert_eq!(kb.scan(0x00), 0xFF);

    // Select column 0 only
    assert_eq!(kb.scan(0xFE), 0xFF);
}

#[test]
fn test_scan_single_key() {
    let mut kb = Keyboard::new();

    // Press 'A' key (row 1, col 2)
    kb.key_down(1, 2);

    // Scan without column 2 selected - should not see key
    // 0xFF = all bits high = no columns selected
    assert_eq!(kb.scan(0xFF), 0xFF);

    // Select column 0 only (bit 0 = 0) - 'A' is in col 2, so not visible
    // 0xFE = 0b11111110, only column 0 selected
    assert_eq!(kb.scan(0xFE), 0xFF);

    // Scan with column 2 selected (bit 2 = 0)
    // 0xFB = 0b11111011, bit 2 IS 0, so column 2 IS selected
    // Row 1 has a key pressed in col 2, so row 1 should be low (bit 1 = 0)
    // Expected: 0b11111101 = 0xFD
    assert_eq!(kb.scan(0xFB), 0xFD);

    // Scan with all columns selected (0x00)
    // Row 1 should be low: 0xFD
    assert_eq!(kb.scan(0x00), 0xFD);
}

#[test]
fn test_scan_multiple_keys_same_row() {
    let mut kb = Keyboard::new();

    // Press 'A' (row 1, col 2) and 'W' (row 1, col 1)
    kb.key_down(1, 2); // A
    kb.key_down(1, 1); // W

    // Scan all columns - row 1 should be low
    assert_eq!(kb.scan(0x00), 0xFD);

    // Scan only column 1 - row 1 should be low
    assert_eq!(kb.scan(0xFD), 0xFD);

    // Scan only column 2 - row 1 should be low
    assert_eq!(kb.scan(0xFB), 0xFD);

    // Scan only column 0 - row 1 should be high (no key there)
    assert_eq!(kb.scan(0xFE), 0xFF);
}

#[test]
fn test_scan_multiple_keys_different_rows() {
    let mut kb = Keyboard::new();

    // Press 'A' (row 1, col 2) and 'D' (row 2, col 2)
    kb.key_down(1, 2); // A
    kb.key_down(2, 2); // D

    // Scan column 2 - both rows 1 and 2 should be low
    // Expected: 0xFF & ~0x02 & ~0x04 = 0xF9
    assert_eq!(kb.scan(0xFB), 0xF9);

    // Scan all columns
    assert_eq!(kb.scan(0x00), 0xF9);
}

#[test]
fn test_release_all() {
    let mut kb = Keyboard::new();

    kb.key_down(0, 0);
    kb.key_down(1, 1);
    kb.key_down(7, 7);

    kb.release_all();

    for row in 0..8 {
        for col in 0..8 {
            assert!(!kb.is_key_pressed(row, col));
        }
    }
}

#[test]
fn test_key_constants() {
    // Verify a few key positions match the C64 matrix (col, row) convention
    assert_eq!(keys::A, (2, 1));
    assert_eq!(keys::RETURN, (1, 0));
    assert_eq!(keys::SPACE, (4, 7));
    assert_eq!(keys::LEFT_SHIFT, (7, 1));
    assert_eq!(keys::RIGHT_SHIFT, (4, 6));
}

#[test]
fn test_matrix_access() {
    let mut kb = Keyboard::new();
    kb.key_down(2, 3);

    let matrix = kb.matrix();
    assert!(matrix[2][3]);
    assert!(!matrix[0][0]);
}

#[test]
fn test_pc_key_mapping_letters() {
    // Verify letter mappings match the key constants
    let a = map_pc_keycode("KeyA").unwrap();
    assert_eq!((a.row, a.col), keys::A);
    assert!(!a.requires_shift);

    let q = map_pc_keycode("KeyQ").unwrap();
    assert_eq!((q.row, q.col), keys::Q);

    let z = map_pc_keycode("KeyZ").unwrap();
    assert_eq!((z.row, z.col), keys::Z);
}

#[test]
fn test_pc_key_mapping_digits() {
    let d1 = map_pc_keycode("Digit1").unwrap();
    assert_eq!((d1.row, d1.col), keys::DIGIT_1);

    let d0 = map_pc_keycode("Digit0").unwrap();
    assert_eq!((d0.row, d0.col), keys::DIGIT_0);
}

#[test]
fn test_pc_key_mapping_special_keys() {
    // Enter -> RETURN
    let enter = map_pc_keycode("Enter").unwrap();
    assert_eq!((enter.row, enter.col), keys::RETURN);

    // Space
    let space = map_pc_keycode("Space").unwrap();
    assert_eq!((space.row, space.col), keys::SPACE);

    // Backspace -> DEL
    let backspace = map_pc_keycode("Backspace").unwrap();
    assert_eq!((backspace.row, backspace.col), keys::DEL);

    // Escape -> RUN/STOP
    let esc = map_pc_keycode("Escape").unwrap();
    assert_eq!((esc.row, esc.col), keys::RUN_STOP);
}

#[test]
fn test_pc_key_mapping_modifiers() {
    let shift_left = map_pc_keycode("ShiftLeft").unwrap();
    assert_eq!((shift_left.row, shift_left.col), keys::LEFT_SHIFT);

    let shift_right = map_pc_keycode("ShiftRight").unwrap();
    assert_eq!((shift_right.row, shift_right.col), keys::RIGHT_SHIFT);

    let ctrl = map_pc_keycode("ControlLeft").unwrap();
    assert_eq!((ctrl.row, ctrl.col), keys::CTRL);
}

#[test]
fn test_pc_key_mapping_function_keys() {
    // F1 - direct mapping
    let f1 = map_pc_keycode("F1").unwrap();
    assert_eq!((f1.row, f1.col), keys::F1);
    assert!(!f1.requires_shift);

    // F2 - requires shift (it's Shift+F1 on C64)
    let f2 = map_pc_keycode("F2").unwrap();
    assert_eq!((f2.row, f2.col), keys::F1);
    assert!(f2.requires_shift);

    // F7 - direct mapping
    let f7 = map_pc_keycode("F7").unwrap();
    assert_eq!((f7.row, f7.col), keys::F7);
    assert!(!f7.requires_shift);

    // F8 - requires shift (it's Shift+F7 on C64)
    let f8 = map_pc_keycode("F8").unwrap();
    assert_eq!((f8.row, f8.col), keys::F7);
    assert!(f8.requires_shift);
}

#[test]
fn test_pc_key_mapping_navigation() {
    // Arrow Right -> CRSR RIGHT (direct)
    let right = map_pc_keycode("ArrowRight").unwrap();
    assert_eq!((right.row, right.col), keys::CRSR_RIGHT);
    assert!(!right.requires_shift);

    // Arrow Left -> CRSR RIGHT + SHIFT
    let left = map_pc_keycode("ArrowLeft").unwrap();
    assert_eq!((left.row, left.col), keys::CRSR_RIGHT);
    assert!(left.requires_shift);

    // Arrow Down -> CRSR DOWN (direct)
    let down = map_pc_keycode("ArrowDown").unwrap();
    assert_eq!((down.row, down.col), keys::CRSR_DOWN);
    assert!(!down.requires_shift);

    // Arrow Up -> CRSR DOWN + SHIFT
    let up = map_pc_keycode("ArrowUp").unwrap();
    assert_eq!((up.row, up.col), keys::CRSR_DOWN);
    assert!(up.requires_shift);

    // Home -> CLR/HOME
    let home = map_pc_keycode("Home").unwrap();
    assert_eq!((home.row, home.col), keys::HOME);
}

#[test]
fn test_pc_key_mapping_unknown_key() {
    assert!(map_pc_keycode("UnknownKey").is_none());
    assert!(map_pc_keycode("").is_none());
}

#[test]
fn test_key_mapping_struct() {
    let mapping = KeyMapping::new(1, 2);
    assert_eq!(mapping.row, 1);
    assert_eq!(mapping.col, 2);
    assert!(!mapping.requires_shift);

    let shifted = KeyMapping::with_shift(3, 4);
    assert_eq!(shifted.row, 3);
    assert_eq!(shifted.col, 4);
    assert!(shifted.requires_shift);
}


#[test]
fn shifted_keys_share_their_partners_position() {
    let pairs = [
        ("F2", "F1"),
        ("F4", "F3"),
        ("F6", "F5"),
        ("F8", "F7"),
        ("ArrowUp", "ArrowDown"),
        ("ArrowLeft", "ArrowRight"),
        ("Quote", "Digit7"),
        ("Insert", "Delete"),
    ];
    for (shifted, plain) in pairs {
        let s = map_pc_keycode(shifted).unwrap();
        let p = map_pc_keycode(plain).unwrap();
        assert!(s.requires_shift);
        assert!(!p.requires_shift);
        assert_eq!((s.row, s.col), (p.row, p.col));
    }
    assert_eq!(map_pc_keycode("F2"), Some(KeyMapping::with_shift(4, 0)));
    assert!(!map_pc_keycode("KeyA").unwrap().requires_shift);
}
