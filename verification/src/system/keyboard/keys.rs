//! C64 keyboard matrix positions as (col, row) pairs, matching the KERNAL's
//! decode-table index `col * 8 + row`.

use vstd::prelude::*;

verus! {


// Column 0 keys
pub const DEL: (u8, u8) = (0, 0);
pub const DIGIT_3: (u8, u8) = (0, 1);
pub const DIGIT_5: (u8, u8) = (0, 2);
pub const DIGIT_7: (u8, u8) = (0, 3);
pub const DIGIT_9: (u8, u8) = (0, 4);
pub const PLUS: (u8, u8) = (0, 5);
pub const POUND: (u8, u8) = (0, 6);
pub const DIGIT_1: (u8, u8) = (0, 7);

// Column 1 keys
pub const RETURN: (u8, u8) = (1, 0);
pub const W: (u8, u8) = (1, 1);
pub const R: (u8, u8) = (1, 2);
pub const Y: (u8, u8) = (1, 3);
pub const I: (u8, u8) = (1, 4);
pub const P: (u8, u8) = (1, 5);
pub const ASTERISK: (u8, u8) = (1, 6);
pub const LEFT_ARROW: (u8, u8) = (1, 7);

// Column 2 keys
pub const CRSR_RIGHT: (u8, u8) = (2, 0);
pub const A: (u8, u8) = (2, 1);
pub const D: (u8, u8) = (2, 2);
pub const G: (u8, u8) = (2, 3);
pub const J: (u8, u8) = (2, 4);
pub const L: (u8, u8) = (2, 5);
pub const SEMICOLON: (u8, u8) = (2, 6);
pub const CTRL: (u8, u8) = (2, 7);

// Column 3 keys
pub const F7: (u8, u8) = (3, 0);
pub const DIGIT_4: (u8, u8) = (3, 1);
pub const DIGIT_6: (u8, u8) = (3, 2);
pub const DIGIT_8: (u8, u8) = (3, 3);
pub const DIGIT_0: (u8, u8) = (3, 4);
pub const MINUS: (u8, u8) = (3, 5);
pub const HOME: (u8, u8) = (3, 6);
pub const DIGIT_2: (u8, u8) = (3, 7);

// Column 4 keys
pub const F1: (u8, u8) = (4, 0);
pub const Z: (u8, u8) = (4, 1);
pub const C: (u8, u8) = (4, 2);
pub const B: (u8, u8) = (4, 3);
pub const M: (u8, u8) = (4, 4);
pub const PERIOD: (u8, u8) = (4, 5);
pub const RIGHT_SHIFT: (u8, u8) = (4, 6);
pub const SPACE: (u8, u8) = (4, 7);

// Column 5 keys
pub const F3: (u8, u8) = (5, 0);
pub const S: (u8, u8) = (5, 1);
pub const F: (u8, u8) = (5, 2);
pub const H: (u8, u8) = (5, 3);
pub const K: (u8, u8) = (5, 4);
pub const COLON: (u8, u8) = (5, 5);
pub const EQUALS: (u8, u8) = (5, 6);
pub const COMMODORE: (u8, u8) = (5, 7);

// Column 6 keys
pub const F5: (u8, u8) = (6, 0);
pub const E: (u8, u8) = (6, 1);
pub const T: (u8, u8) = (6, 2);
pub const U: (u8, u8) = (6, 3);
pub const O: (u8, u8) = (6, 4);
pub const AT: (u8, u8) = (6, 5);
pub const UP_ARROW: (u8, u8) = (6, 6);
pub const Q: (u8, u8) = (6, 7);

// Column 7 keys
pub const CRSR_DOWN: (u8, u8) = (7, 0);
pub const LEFT_SHIFT: (u8, u8) = (7, 1);
pub const X: (u8, u8) = (7, 2);
pub const V: (u8, u8) = (7, 3);
pub const N: (u8, u8) = (7, 4);
pub const COMMA: (u8, u8) = (7, 5);
pub const SLASH: (u8, u8) = (7, 6);
pub const RUN_STOP: (u8, u8) = (7, 7);

} // verus!
