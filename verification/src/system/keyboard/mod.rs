//! C64 keyboard matrix.
//!
//! The 8x8 matrix is scanned through CIA1: port A pulls columns low
//! (active-low select), port B reads which rows are pulled low by pressed
//! keys. RESTORE is not part of the matrix.

pub mod keys;

use vstd::prelude::*;

use crate::text::str_eq;

verus! {

/// Bit `i` of `x` is set.
pub open spec fn u8_bit(x: u8, i: int) -> bool {
    (x >> (i as u8)) & 1 == 1
}

/// Some selected column (select bit clear) has a pressed key in `row`.
pub open spec fn row_pulled_low(m: Seq<Seq<bool>>, col_select: u8, row: int) -> bool {
    exists|c: int| 0 <= c < 8 && !u8_bit(col_select, c) && #[trigger] m[row][c]
}

proof fn lemma_clear_bit(x: u8, i: u8, j: u8)
    requires
        i < 8,
        j < 8,
    ensures
        ((x & !(1u8 << i)) >> j) & 1 == 1 <==> (j != i && (x >> j) & 1 == 1),
{
    assert(i < 8 && j < 8 ==> (((x & !(1u8 << i)) >> j) & 1 == 1 <==> (j != i && (x >> j) & 1
        == 1))) by (bit_vector);
}

proof fn lemma_select_bit(x: u8, i: u8)
    requires
        i < 8,
    ensures
        (x & (1u8 << i) == 0) <==> !((x >> i) & 1 == 1),
{
    assert(i < 8 ==> ((x & (1u8 << i) == 0) <==> !((x >> i) & 1 == 1))) by (bit_vector);
}

proof fn lemma_all_ones(j: u8)
    requires
        j < 8,
    ensures
        (0xFFu8 >> j) & 1 == 1,
{
    assert(j < 8 ==> (0xFFu8 >> j) & 1 == 1) by (bit_vector);
}

/// `r` is what a scan with `col_select` reads: bit `i` is set exactly when
/// row `i` is not pulled low.
pub open spec fn scan_matches(m: Seq<Seq<bool>>, col_select: u8, r: u8) -> bool {
    forall|i: int| 0 <= i < 8 ==> u8_bit(r, i) == !row_pulled_low(m, col_select, i)
}

/// The byte a scan with `col_select` reads (the one byte that
/// `scan_matches`).
pub open spec fn scan_value(m: Seq<Seq<bool>>, col_select: u8) -> u8 {
    choose|r: u8| scan_matches(m, col_select, r)
}

/// A byte is determined by its eight bits.
proof fn lemma_byte_from_bits(a: u8, b: u8)
    requires
        forall|i: int| 0 <= i < 8 ==> u8_bit(a, i) == u8_bit(b, i),
    ensures
        a == b,
{
    assert(u8_bit(a, 0) == u8_bit(b, 0) && u8_bit(a, 1) == u8_bit(b, 1) && u8_bit(a, 2) == u8_bit(
        b,
        2,
    ) && u8_bit(a, 3) == u8_bit(b, 3) && u8_bit(a, 4) == u8_bit(b, 4) && u8_bit(a, 5) == u8_bit(
        b,
        5,
    ) && u8_bit(a, 6) == u8_bit(b, 6) && u8_bit(a, 7) == u8_bit(b, 7));
    assert((((a >> 0u8) & 1 == 1) == ((b >> 0u8) & 1 == 1) && ((a >> 1u8) & 1 == 1) == ((b >> 1u8)
        & 1 == 1) && ((a >> 2u8) & 1 == 1) == ((b >> 2u8) & 1 == 1) && ((a >> 3u8) & 1 == 1) == ((b
        >> 3u8) & 1 == 1) && ((a >> 4u8) & 1 == 1) == ((b >> 4u8) & 1 == 1) && ((a >> 5u8) & 1
        == 1) == ((b >> 5u8) & 1 == 1) && ((a >> 6u8) & 1 == 1) == ((b >> 6u8) & 1 == 1) && ((a
        >> 7u8) & 1 == 1) == ((b >> 7u8) & 1 == 1)) ==> a == b) by (bit_vector);
}

/// The scan result is unique: a byte that matches is the scan value.
pub proof fn lemma_scan_value(m: Seq<Seq<bool>>, col_select: u8, r: u8)
    requires
        scan_matches(m, col_select, r),
    ensures
        scan_value(m, col_select) == r,
{
    let c = scan_value(m, col_select);
    assert(scan_matches(m, col_select, c));
    lemma_byte_from_bits(c, r);
}

/// C64 keyboard matrix state, indexed `[row][col]`.
#[derive(Debug, Clone)]
pub struct Keyboard {
    matrix: [[bool; 8]; 8],
}

/// The matrix as rows of key states.
pub open spec fn matrix_view(m: [[bool; 8]; 8]) -> Seq<Seq<bool>> {
    m@.map_values(|row: [bool; 8]| row@)
}

impl View for Keyboard {
    type V = Seq<Seq<bool>>;

    closed spec fn view(&self) -> Seq<Seq<bool>> {
        matrix_view(self.matrix)
    }
}

impl Keyboard {
    /// The matrix always has eight rows of eight keys.
    pub proof fn lemma_shape(k: &Keyboard)
        ensures
            k@.len() == 8,
            forall|row: int| 0 <= row < 8 ==> #[trigger] k@[row].len() == 8,
    {
    }
}

/// An 8x8 matrix with every key released.
pub open spec fn all_released() -> Seq<Seq<bool>> {
    Seq::new(8, |r: int| Seq::new(8, |c: int| false))
}

impl Keyboard {
    /// All keys released.
    pub fn new() -> (k: Self)
        ensures
            k@ == all_released(),
    {
        let k = Keyboard { matrix: [[false; 8]; 8] };
        assert(k@ =~~= all_released());
        k
    }

    /// Press the key at (`row`, `col`).
    pub fn key_down(&mut self, row: u8, col: u8)
        requires
            row < 8,
            col < 8,
        ensures
            final(self)@ == old(self)@.update(
                row as int,
                old(self)@[row as int].update(col as int, true),
            ),
    {
        self.matrix[row as usize][col as usize] = true;
        assert(self@ =~~= old(self)@.update(
            row as int,
            old(self)@[row as int].update(col as int, true),
        ));
    }

    /// Release the key at (`row`, `col`).
    pub fn key_up(&mut self, row: u8, col: u8)
        requires
            row < 8,
            col < 8,
        ensures
            final(self)@ == old(self)@.update(
                row as int,
                old(self)@[row as int].update(col as int, false),
            ),
    {
        self.matrix[row as usize][col as usize] = false;
        assert(self@ =~~= old(self)@.update(
            row as int,
            old(self)@[row as int].update(col as int, false),
        ));
    }

    /// Whether the key at (`row`, `col`) is pressed; false off the matrix.
    pub fn is_key_pressed(&self, row: u8, col: u8) -> (r: bool)
        ensures
            r == (row < 8 && col < 8 && self@[row as int][col as int]),
    {
        if row >= 8 || col >= 8 {
            return false;
        }
        self.matrix[row as usize][col as usize]
    }

    /// Scan with the active-low column select `col_select`: bit `r` of the
    /// result is clear exactly when some selected column has a pressed key
    /// in row `r`.
    pub fn scan(&self, col_select: u8) -> (r: u8)
        ensures
            forall|i: int| 0 <= i < 8 ==> u8_bit(r, i) == !row_pulled_low(self@, col_select, i),
            r == scan_value(self@, col_select),
    {
        let mut result: u8 = 0xFF;
        let mut row: u8 = 0;
        proof {
            assert forall|i: int| 0 <= i < 8 implies u8_bit(0xFF, i) by {
                lemma_all_ones(i as u8);
            }
        }
        while row < 8
            invariant
                row <= 8,
                forall|i: int| 0 <= i < row ==> u8_bit(result, i) == !row_pulled_low(self@, col_select, i),
                forall|i: int| row <= i < 8 ==> u8_bit(result, i),
            decreases 8 - row,
        {
            let mut hit = false;
            let mut col: u8 = 0;
            while col < 8
                invariant
                    row < 8,
                    col <= 8,
                    hit == exists|c: int|
                        0 <= c < col && !u8_bit(col_select, c) && #[trigger] self@[row as int][c],
                decreases 8 - col,
            {
                proof {
                    lemma_select_bit(col_select, col);
                    assert(self@[row as int][col as int] == self.matrix[row as int][col as int]);
                }
                if col_select & (1u8 << col) == 0 && self.matrix[row as usize][col as usize] {
                    hit = true;
                }
                col += 1;
            }
            let old_result = result;
            if hit {
                result = result & !(1u8 << row);
            }
            proof {
                assert forall|i: int| 0 <= i < 8 implies (u8_bit(result, i) == if i < row {
                    u8_bit(old_result, i)
                } else if i == row {
                    !hit
                } else {
                    u8_bit(old_result, i)
                }) by {
                    if hit {
                        lemma_clear_bit(old_result, row, i as u8);
                    }
                }
            }
            row += 1;
        }
        proof {
            lemma_scan_value(self@, col_select, result);
        }
        result
    }

    /// Release every key.
    pub fn release_all(&mut self)
        ensures
            final(self)@ == all_released(),
    {
        self.matrix = [[false; 8]; 8];
        assert(self@ =~~= all_released());
    }

    /// The raw matrix, `[row][col]`.
    pub fn matrix(&self) -> (r: &[[bool; 8]; 8])
        ensures
            matrix_view(*r) == self@,
    {
        &self.matrix
    }

    /// Replace the raw matrix.
    pub fn set_matrix(&mut self, matrix: [[bool; 8]; 8])
        ensures
            final(self)@ == matrix_view(matrix),
    {
        self.matrix = matrix;
    }
}

impl Default for Keyboard {
    fn default() -> (k: Self)
        ensures
            k@ == all_released(),
    {
        Self::new()
    }
}

/// With no column selected, a scan reads every row high.
pub proof fn lemma_no_select_all_high(m: Seq<Seq<bool>>, i: int)
    requires
        0 <= i < 8,
    ensures
        !row_pulled_low(m, 0xFF, i),
{
    assert forall|c: int| 0 <= c < 8 implies u8_bit(0xFF, c) by {
        lemma_all_ones(c as u8);
    }
}

/// With every key released, a scan reads every row high whatever the select.
pub proof fn lemma_released_all_high(col_select: u8, i: int)
    requires
        0 <= i < 8,
    ensures
        !row_pulled_low(all_released(), col_select, i),
{
}

/// A pressed key pulls its row low whenever its column is selected.
pub proof fn lemma_pressed_key_seen(m: Seq<Seq<bool>>, row: int, col: int, col_select: u8)
    requires
        m.len() == 8,
        0 <= row < 8,
        0 <= col < 8,
        m[row].len() == 8,
        !u8_bit(col_select, col),
    ensures
        row_pulled_low(m.update(row, m[row].update(col, true)), col_select, row),
{
    let pressed = m.update(row, m[row].update(col, true));
    assert(pressed[row][col]);
}

/// A released key no longer counts: with only that key down in its row, the
/// row reads high again after the release.
pub proof fn lemma_released_key_unseen(m: Seq<Seq<bool>>, row: int, col: int, col_select: u8)
    requires
        m.len() == 8,
        0 <= row < 8,
        0 <= col < 8,
        m[row].len() == 8,
        forall|c: int| 0 <= c < 8 && c != col ==> !m[row][c],
    ensures
        !row_pulled_low(m.update(row, m[row].update(col, false)), col_select, row),
{
}

/// How a PC key maps onto the C64 matrix.
#[derive(Debug, Clone, Copy, PartialEq, Eq)]
pub struct KeyMapping {
    /// The first matrix coordinate (the KERNAL's column).
    pub row: u8,
    /// The second matrix coordinate (the KERNAL's row).
    pub col: u8,
    /// SHIFT must be held on the C64.
    pub requires_shift: bool,
}

impl KeyMapping {
    /// A mapping without SHIFT.
    pub fn new(row: u8, col: u8) -> (m: Self)
        ensures
            m == (KeyMapping { row, col, requires_shift: false }),
    {
        KeyMapping { row, col, requires_shift: false }
    }

    /// A mapping that needs SHIFT.
    pub fn with_shift(row: u8, col: u8) -> (m: Self)
        ensures
            m == (KeyMapping { row, col, requires_shift: true }),
    {
        KeyMapping { row, col, requires_shift: true }
    }
}

/// The C64 key that a browser `KeyboardEvent.code` stands for, if any.
pub open spec fn pc_key_mapping(code: Seq<char>) -> Option<KeyMapping> {
    if code == "KeyA"@ {
        Some(KeyMapping { row: 2, col: 1, requires_shift: false })
    } else if code == "KeyB"@ {
        Some(KeyMapping { row: 4, col: 3, requires_shift: false })
    } else if code == "KeyC"@ {
        Some(KeyMapping { row: 4, col: 2, requires_shift: false })
    } else if code == "KeyD"@ {
        Some(KeyMapping { row: 2, col: 2, requires_shift: false })
    } else if code == "KeyE"@ {
        Some(KeyMapping { row: 6, col: 1, requires_shift: false })
    } else if code == "KeyF"@ {
        Some(KeyMapping { row: 5, col: 2, requires_shift: false })
    } else if code == "KeyG"@ {
        Some(KeyMapping { row: 2, col: 3, requires_shift: false })
    } else if code == "KeyH"@ {
        Some(KeyMapping { row: 5, col: 3, requires_shift: false })
    } else if code == "KeyI"@ {
        Some(KeyMapping { row: 1, col: 4, requires_shift: false })
    } else if code == "KeyJ"@ {
        Some(KeyMapping { row: 2, col: 4, requires_shift: false })
    } else if code == "KeyK"@ {
        Some(KeyMapping { row: 5, col: 4, requires_shift: false })
    } else if code == "KeyL"@ {
        Some(KeyMapping { row: 2, col: 5, requires_shift: false })
    } else if code == "KeyM"@ {
        Some(KeyMapping { row: 4, col: 4, requires_shift: false })
    } else if code == "KeyN"@ {
        Some(KeyMapping { row: 7, col: 4, requires_shift: false })
    } else if code == "KeyO"@ {
        Some(KeyMapping { row: 6, col: 4, requires_shift: false })
    } else if code == "KeyP"@ {
        Some(KeyMapping { row: 1, col: 5, requires_shift: false })
    } else if code == "KeyQ"@ {
        Some(KeyMapping { row: 6, col: 7, requires_shift: false })
    } else if code == "KeyR"@ {
        Some(KeyMapping { row: 1, col: 2, requires_shift: false })
    } else if code == "KeyS"@ {
        Some(KeyMapping { row: 5, col: 1, requires_shift: false })
    } else if code == "KeyT"@ {
        Some(KeyMapping { row: 6, col: 2, requires_shift: false })
    } else if code == "KeyU"@ {
        Some(KeyMapping { row: 6, col: 3, requires_shift: false })
    } else if code == "KeyV"@ {
        Some(KeyMapping { row: 7, col: 3, requires_shift: false })
    } else if code == "KeyW"@ {
        Some(KeyMapping { row: 1, col: 1, requires_shift: false })
    } else if code == "KeyX"@ {
        Some(KeyMapping { row: 7, col: 2, requires_shift: false })
    } else if code == "KeyY"@ {
        Some(KeyMapping { row: 1, col: 3, requires_shift: false })
    } else if code == "KeyZ"@ {
        Some(KeyMapping { row: 4, col: 1, requires_shift: false })
    } else if code == "Digit1"@ {
        Some(KeyMapping { row: 0, col: 7, requires_shift: false })
    } else if code == "Digit2"@ {
        Some(KeyMapping { row: 3, col: 7, requires_shift: false })
    } else if code == "Digit3"@ {
        Some(KeyMapping { row: 0, col: 1, requires_shift: false })
    } else if code == "Digit4"@ {
        Some(KeyMapping { row: 3, col: 1, requires_shift: false })
    } else if code == "Digit5"@ {
        Some(KeyMapping { row: 0, col: 2, requires_shift: false })
    } else if code == "Digit6"@ {
        Some(KeyMapping { row: 3, col: 2, requires_shift: false })
    } else if code == "Digit7"@ {
        Some(KeyMapping { row: 0, col: 3, requires_shift: false })
    } else if code == "Digit8"@ {
        Some(KeyMapping { row: 3, col: 3, requires_shift: false })
    } else if code == "Digit9"@ {
        Some(KeyMapping { row: 0, col: 4, requires_shift: false })
    } else if code == "Digit0"@ {
        Some(KeyMapping { row: 3, col: 4, requires_shift: false })
    } else if code == "F1"@ {
        Some(KeyMapping { row: 4, col: 0, requires_shift: false })
    } else if code == "F2"@ {
        Some(KeyMapping { row: 4, col: 0, requires_shift: true })
    } else if code == "F3"@ {
        Some(KeyMapping { row: 5, col: 0, requires_shift: false })
    } else if code == "F4"@ {
        Some(KeyMapping { row: 5, col: 0, requires_shift: true })
    } else if code == "F5"@ {
        Some(KeyMapping { row: 6, col: 0, requires_shift: false })
    } else if code == "F6"@ {
        Some(KeyMapping { row: 6, col: 0, requires_shift: true })
    } else if code == "F7"@ {
        Some(KeyMapping { row: 3, col: 0, requires_shift: false })
    } else if code == "F8"@ {
        Some(KeyMapping { row: 3, col: 0, requires_shift: true })
    } else if code == "ShiftLeft"@ {
        Some(KeyMapping { row: 7, col: 1, requires_shift: false })
    } else if code == "ShiftRight"@ {
        Some(KeyMapping { row: 4, col: 6, requires_shift: false })
    } else if code == "ControlLeft"@ || code == "ControlRight"@ {
        Some(KeyMapping { row: 2, col: 7, requires_shift: false })
    } else if code == "AltLeft"@ || code == "AltRight"@ || code == "MetaLeft"@ || code == "MetaRight"@ {
        Some(KeyMapping { row: 5, col: 7, requires_shift: false })
    } else if code == "Space"@ {
        Some(KeyMapping { row: 4, col: 7, requires_shift: false })
    } else if code == "Enter"@ || code == "NumpadEnter"@ {
        Some(KeyMapping { row: 1, col: 0, requires_shift: false })
    } else if code == "Backspace"@ {
        Some(KeyMapping { row: 0, col: 0, requires_shift: false })
    } else if code == "Escape"@ {
        Some(KeyMapping { row: 7, col: 7, requires_shift: false })
    } else if code == "Tab"@ {
        Some(KeyMapping { row: 2, col: 7, requires_shift: false })
    } else if code == "ArrowUp"@ {
        Some(KeyMapping { row: 7, col: 0, requires_shift: true })
    } else if code == "ArrowDown"@ {
        Some(KeyMapping { row: 7, col: 0, requires_shift: false })
    } else if code == "ArrowLeft"@ {
        Some(KeyMapping { row: 2, col: 0, requires_shift: true })
    } else if code == "ArrowRight"@ {
        Some(KeyMapping { row: 2, col: 0, requires_shift: false })
    } else if code == "Home"@ {
        Some(KeyMapping { row: 3, col: 6, requires_shift: false })
    } else if code == "Period"@ {
        Some(KeyMapping { row: 4, col: 5, requires_shift: false })
    } else if code == "Comma"@ {
        Some(KeyMapping { row: 7, col: 5, requires_shift: false })
    } else if code == "Slash"@ {
        Some(KeyMapping { row: 7, col: 6, requires_shift: false })
    } else if code == "Semicolon"@ {
        Some(KeyMapping { row: 2, col: 6, requires_shift: false })
    } else if code == "Quote"@ {
        Some(KeyMapping { row: 0, col: 3, requires_shift: true })
    } else if code == "BracketLeft"@ {
        Some(KeyMapping { row: 5, col: 5, requires_shift: false })
    } else if code == "BracketRight"@ {
        Some(KeyMapping { row: 1, col: 6, requires_shift: false })
    } else if code == "Backslash"@ {
        Some(KeyMapping { row: 0, col: 6, requires_shift: false })
    } else if code == "Backquote"@ {
        Some(KeyMapping { row: 1, col: 7, requires_shift: false })
    } else if code == "Minus"@ {
        Some(KeyMapping { row: 3, col: 5, requires_shift: false })
    } else if code == "Equal"@ {
        Some(KeyMapping { row: 5, col: 6, requires_shift: false })
    } else if code == "Numpad0"@ {
        Some(KeyMapping { row: 3, col: 4, requires_shift: false })
    } else if code == "Numpad1"@ {
        Some(KeyMapping { row: 0, col: 7, requires_shift: false })
    } else if code == "Numpad2"@ {
        Some(KeyMapping { row: 3, col: 7, requires_shift: false })
    } else if code == "Numpad3"@ {
        Some(KeyMapping { row: 0, col: 1, requires_shift: false })
    } else if code == "Numpad4"@ {
        Some(KeyMapping { row: 3, col: 1, requires_shift: false })
    } else if code == "Numpad5"@ {
        Some(KeyMapping { row: 0, col: 2, requires_shift: false })
    } else if code == "Numpad6"@ {
        Some(KeyMapping { row: 3, col: 2, requires_shift: false })
    } else if code == "Numpad7"@ {
        Some(KeyMapping { row: 0, col: 3, requires_shift: false })
    } else if code == "Numpad8"@ {
        Some(KeyMapping { row: 3, col: 3, requires_shift: false })
    } else if code == "Numpad9"@ {
        Some(KeyMapping { row: 0, col: 4, requires_shift: false })
    } else if code == "NumpadAdd"@ {
        Some(KeyMapping { row: 0, col: 5, requires_shift: false })
    } else if code == "NumpadSubtract"@ {
        Some(KeyMapping { row: 3, col: 5, requires_shift: false })
    } else if code == "NumpadMultiply"@ {
        Some(KeyMapping { row: 1, col: 6, requires_shift: false })
    } else if code == "NumpadDivide"@ {
        Some(KeyMapping { row: 7, col: 6, requires_shift: false })
    } else if code == "NumpadDecimal"@ {
        Some(KeyMapping { row: 4, col: 5, requires_shift: false })
    } else if code == "Insert"@ {
        Some(KeyMapping { row: 0, col: 0, requires_shift: true })
    } else if code == "Delete"@ {
        Some(KeyMapping { row: 0, col: 0, requires_shift: false })
    } else {
        None
    }
}

/// Every PC key lands inside the 8x8 matrix, so its mapping can be pressed
/// directly.
pub proof fn lemma_mapping_in_matrix(code: Seq<char>)
    ensures
        pc_key_mapping(code) matches Some(m) ==> m.row < 8 && m.col < 8,
{
}

/// SHIFT is pressed for exactly eight keys, each the shifted form of a
/// C64 key: F2, F4, F6 and F8 are SHIFT with F1, F3, F5 and F7; cursor up
/// and left are SHIFT with cursor down and right; the quote is SHIFT with
/// 7; Insert is SHIFT with Delete. Every other mapped key is unshifted.
pub proof fn lemma_shifted_keys(code: Seq<char>)
    ensures
        pc_key_mapping(code) matches Some(m) && m.requires_shift ==> (code == "F2"@ || code == "F4"@ || code == "F6"@ || code == "F8"@ || code == "ArrowUp"@ || code == "ArrowLeft"@ || code == "Quote"@ || code == "Insert"@),
        pc_key_mapping("F2"@) == Some(
            KeyMapping { requires_shift: true, ..pc_key_mapping("F1"@)->0 },
        ),
        pc_key_mapping("F1"@) is Some && !pc_key_mapping("F1"@)->0.requires_shift,
        pc_key_mapping("F4"@) == Some(
            KeyMapping { requires_shift: true, ..pc_key_mapping("F3"@)->0 },
        ),
        pc_key_mapping("F3"@) is Some && !pc_key_mapping("F3"@)->0.requires_shift,
        pc_key_mapping("F6"@) == Some(
            KeyMapping { requires_shift: true, ..pc_key_mapping("F5"@)->0 },
        ),
        pc_key_mapping("F5"@) is Some && !pc_key_mapping("F5"@)->0.requires_shift,
        pc_key_mapping("F8"@) == Some(
            KeyMapping { requires_shift: true, ..pc_key_mapping("F7"@)->0 },
        ),
        pc_key_mapping("F7"@) is Some && !pc_key_mapping("F7"@)->0.requires_shift,
        pc_key_mapping("ArrowUp"@) == Some(
            KeyMapping { requires_shift: true, ..pc_key_mapping("ArrowDown"@)->0 },
        ),
        pc_key_mapping("ArrowDown"@) is Some && !pc_key_mapping("ArrowDown"@)->0.requires_shift,
        pc_key_mapping("ArrowLeft"@) == Some(
            KeyMapping { requires_shift: true, ..pc_key_mapping("ArrowRight"@)->0 },
        ),
        pc_key_mapping("ArrowRight"@) is Some && !pc_key_mapping("ArrowRight"@)->0.requires_shift,
        pc_key_mapping("Quote"@) == Some(
            KeyMapping { requires_shift: true, ..pc_key_mapping("Digit7"@)->0 },
        ),
        pc_key_mapping("Digit7"@) is Some && !pc_key_mapping("Digit7"@)->0.requires_shift,
        pc_key_mapping("Insert"@) == Some(
            KeyMapping { requires_shift: true, ..pc_key_mapping("Delete"@)->0 },
        ),
        pc_key_mapping("Delete"@) is Some && !pc_key_mapping("Delete"@)->0.requires_shift,
{
    reveal_strlit("KeyA");
    reveal_strlit("KeyB");
    reveal_strlit("KeyC");
    reveal_strlit("KeyD");
    reveal_strlit("KeyE");
    reveal_strlit("KeyF");
    reveal_strlit("KeyG");
    reveal_strlit("KeyH");
    reveal_strlit("KeyI");
    reveal_strlit("KeyJ");
    reveal_strlit("KeyK");
    reveal_strlit("KeyL");
    reveal_strlit("KeyM");
    reveal_strlit("KeyN");
    reveal_strlit("KeyO");
    reveal_strlit("KeyP");
    reveal_strlit("KeyQ");
    reveal_strlit("KeyR");
    reveal_strlit("KeyS");
    reveal_strlit("KeyT");
    reveal_strlit("KeyU");
    reveal_strlit("KeyV");
    reveal_strlit("KeyW");
    reveal_strlit("KeyX");
    reveal_strlit("KeyY");
    reveal_strlit("KeyZ");
    reveal_strlit("Digit1");
    reveal_strlit("Digit2");
    reveal_strlit("Digit3");
    reveal_strlit("Digit4");
    reveal_strlit("Digit5");
    reveal_strlit("Digit6");
    reveal_strlit("Digit7");
    reveal_strlit("Digit8");
    reveal_strlit("Digit9");
    reveal_strlit("Digit0");
    reveal_strlit("F1");
    reveal_strlit("F2");
    reveal_strlit("F3");
    reveal_strlit("F4");
    reveal_strlit("F5");
    reveal_strlit("F6");
    reveal_strlit("F7");
    reveal_strlit("F8");
    reveal_strlit("ShiftLeft");
    reveal_strlit("ShiftRight");
    reveal_strlit("ControlLeft");
    reveal_strlit("ControlRight");
    reveal_strlit("AltLeft");
    reveal_strlit("AltRight");
    reveal_strlit("MetaLeft");
    reveal_strlit("MetaRight");
    reveal_strlit("Space");
    reveal_strlit("Enter");
    reveal_strlit("NumpadEnter");
    reveal_strlit("Backspace");
    reveal_strlit("Escape");
    reveal_strlit("Tab");
    reveal_strlit("ArrowUp");
    reveal_strlit("ArrowDown");
    reveal_strlit("ArrowLeft");
    reveal_strlit("ArrowRight");
    reveal_strlit("Home");
    reveal_strlit("Period");
    reveal_strlit("Comma");
    reveal_strlit("Slash");
    reveal_strlit("Semicolon");
    reveal_strlit("Quote");
    reveal_strlit("BracketLeft");
    reveal_strlit("BracketRight");
    reveal_strlit("Backslash");
    reveal_strlit("Backquote");
    reveal_strlit("Minus");
    reveal_strlit("Equal");
    reveal_strlit("Numpad0");
    reveal_strlit("Numpad1");
    reveal_strlit("Numpad2");
    reveal_strlit("Numpad3");
    reveal_strlit("Numpad4");
    reveal_strlit("Numpad5");
    reveal_strlit("Numpad6");
    reveal_strlit("Numpad7");
    reveal_strlit("Numpad8");
    reveal_strlit("Numpad9");
    reveal_strlit("NumpadAdd");
    reveal_strlit("NumpadSubtract");
    reveal_strlit("NumpadMultiply");
    reveal_strlit("NumpadDivide");
    reveal_strlit("NumpadDecimal");
    reveal_strlit("Insert");
    reveal_strlit("Delete");
    assert("F2"@ != "F1"@) by { assert("F2"@[1] != "F1"@[1]); }
    assert("F4"@ != "F1"@) by { assert("F4"@[1] != "F1"@[1]); }
    assert("F4"@ != "F2"@) by { assert("F4"@[1] != "F2"@[1]); }
    assert("F4"@ != "F3"@) by { assert("F4"@[1] != "F3"@[1]); }
    assert("F3"@ != "F1"@) by { assert("F3"@[1] != "F1"@[1]); }
    assert("F3"@ != "F2"@) by { assert("F3"@[1] != "F2"@[1]); }
    assert("F6"@ != "F1"@) by { assert("F6"@[1] != "F1"@[1]); }
    assert("F6"@ != "F2"@) by { assert("F6"@[1] != "F2"@[1]); }
    assert("F6"@ != "F3"@) by { assert("F6"@[1] != "F3"@[1]); }
    assert("F6"@ != "F4"@) by { assert("F6"@[1] != "F4"@[1]); }
    assert("F6"@ != "F5"@) by { assert("F6"@[1] != "F5"@[1]); }
    assert("F5"@ != "F1"@) by { assert("F5"@[1] != "F1"@[1]); }
    assert("F5"@ != "F2"@) by { assert("F5"@[1] != "F2"@[1]); }
    assert("F5"@ != "F3"@) by { assert("F5"@[1] != "F3"@[1]); }
    assert("F5"@ != "F4"@) by { assert("F5"@[1] != "F4"@[1]); }
    assert("F8"@ != "F1"@) by { assert("F8"@[1] != "F1"@[1]); }
    assert("F8"@ != "F2"@) by { assert("F8"@[1] != "F2"@[1]); }
    assert("F8"@ != "F3"@) by { assert("F8"@[1] != "F3"@[1]); }
    assert("F8"@ != "F4"@) by { assert("F8"@[1] != "F4"@[1]); }
    assert("F8"@ != "F5"@) by { assert("F8"@[1] != "F5"@[1]); }
    assert("F8"@ != "F6"@) by { assert("F8"@[1] != "F6"@[1]); }
    assert("F8"@ != "F7"@) by { assert("F8"@[1] != "F7"@[1]); }
    assert("F7"@ != "F1"@) by { assert("F7"@[1] != "F1"@[1]); }
    assert("F7"@ != "F2"@) by { assert("F7"@[1] != "F2"@[1]); }
    assert("F7"@ != "F3"@) by { assert("F7"@[1] != "F3"@[1]); }
    assert("F7"@ != "F4"@) by { assert("F7"@[1] != "F4"@[1]); }
    assert("F7"@ != "F5"@) by { assert("F7"@[1] != "F5"@[1]); }
    assert("F7"@ != "F6"@) by { assert("F7"@[1] != "F6"@[1]); }
    assert("ArrowUp"@ != "AltLeft"@) by { assert("ArrowUp"@[1] != "AltLeft"@[1]); }
    assert("ArrowDown"@ != "ShiftLeft"@) by { assert("ArrowDown"@[0] != "ShiftLeft"@[0]); }
    assert("ArrowDown"@ != "MetaRight"@) by { assert("ArrowDown"@[0] != "MetaRight"@[0]); }
    assert("ArrowDown"@ != "Backspace"@) by { assert("ArrowDown"@[0] != "Backspace"@[0]); }
    assert("ArrowLeft"@ != "ShiftLeft"@) by { assert("ArrowLeft"@[0] != "ShiftLeft"@[0]); }
    assert("ArrowLeft"@ != "MetaRight"@) by { assert("ArrowLeft"@[0] != "MetaRight"@[0]); }
    assert("ArrowLeft"@ != "Backspace"@) by { assert("ArrowLeft"@[0] != "Backspace"@[0]); }
    assert("ArrowLeft"@ != "ArrowDown"@) by { assert("ArrowLeft"@[5] != "ArrowDown"@[5]); }
    assert("ArrowRight"@ != "ShiftRight"@) by { assert("ArrowRight"@[0] != "ShiftRight"@[0]); }
    assert("Quote"@ != "Space"@) by { assert("Quote"@[0] != "Space"@[0]); }
    assert("Quote"@ != "Enter"@) by { assert("Quote"@[0] != "Enter"@[0]); }
    assert("Quote"@ != "Comma"@) by { assert("Quote"@[0] != "Comma"@[0]); }
    assert("Quote"@ != "Slash"@) by { assert("Quote"@[0] != "Slash"@[0]); }
    assert("Digit7"@ != "Digit1"@) by { assert("Digit7"@[5] != "Digit1"@[5]); }
    assert("Digit7"@ != "Digit2"@) by { assert("Digit7"@[5] != "Digit2"@[5]); }
    assert("Digit7"@ != "Digit3"@) by { assert("Digit7"@[5] != "Digit3"@[5]); }
    assert("Digit7"@ != "Digit4"@) by { assert("Digit7"@[5] != "Digit4"@[5]); }
    assert("Digit7"@ != "Digit5"@) by { assert("Digit7"@[5] != "Digit5"@[5]); }
    assert("Digit7"@ != "Digit6"@) by { assert("Digit7"@[5] != "Digit6"@[5]); }
    assert("Insert"@ != "Digit1"@) by { assert("Insert"@[0] != "Digit1"@[0]); }
    assert("Insert"@ != "Digit2"@) by { assert("Insert"@[0] != "Digit2"@[0]); }
    assert("Insert"@ != "Digit3"@) by { assert("Insert"@[0] != "Digit3"@[0]); }
    assert("Insert"@ != "Digit4"@) by { assert("Insert"@[0] != "Digit4"@[0]); }
    assert("Insert"@ != "Digit5"@) by { assert("Insert"@[0] != "Digit5"@[0]); }
    assert("Insert"@ != "Digit6"@) by { assert("Insert"@[0] != "Digit6"@[0]); }
    assert("Insert"@ != "Digit7"@) by { assert("Insert"@[0] != "Digit7"@[0]); }
    assert("Insert"@ != "Digit8"@) by { assert("Insert"@[0] != "Digit8"@[0]); }
    assert("Insert"@ != "Digit9"@) by { assert("Insert"@[0] != "Digit9"@[0]); }
    assert("Insert"@ != "Digit0"@) by { assert("Insert"@[0] != "Digit0"@[0]); }
    assert("Insert"@ != "Escape"@) by { assert("Insert"@[0] != "Escape"@[0]); }
    assert("Insert"@ != "Period"@) by { assert("Insert"@[0] != "Period"@[0]); }
    assert("Delete"@ != "Digit1"@) by { assert("Delete"@[1] != "Digit1"@[1]); }
    assert("Delete"@ != "Digit2"@) by { assert("Delete"@[1] != "Digit2"@[1]); }
    assert("Delete"@ != "Digit3"@) by { assert("Delete"@[1] != "Digit3"@[1]); }
    assert("Delete"@ != "Digit4"@) by { assert("Delete"@[1] != "Digit4"@[1]); }
    assert("Delete"@ != "Digit5"@) by { assert("Delete"@[1] != "Digit5"@[1]); }
    assert("Delete"@ != "Digit6"@) by { assert("Delete"@[1] != "Digit6"@[1]); }
    assert("Delete"@ != "Digit7"@) by { assert("Delete"@[1] != "Digit7"@[1]); }
    assert("Delete"@ != "Digit8"@) by { assert("Delete"@[1] != "Digit8"@[1]); }
    assert("Delete"@ != "Digit9"@) by { assert("Delete"@[1] != "Digit9"@[1]); }
    assert("Delete"@ != "Digit0"@) by { assert("Delete"@[1] != "Digit0"@[1]); }
    assert("Delete"@ != "Escape"@) by { assert("Delete"@[0] != "Escape"@[0]); }
    assert("Delete"@ != "Period"@) by { assert("Delete"@[0] != "Period"@[0]); }
    assert("Delete"@ != "Insert"@) by { assert("Delete"@[0] != "Insert"@[0]); }
    assert("KeyA"@.len() == 4);
    assert("KeyB"@.len() == 4);
    assert("KeyC"@.len() == 4);
    assert("KeyD"@.len() == 4);
    assert("KeyE"@.len() == 4);
    assert("KeyF"@.len() == 4);
    assert("KeyG"@.len() == 4);
    assert("KeyH"@.len() == 4);
    assert("KeyI"@.len() == 4);
    assert("KeyJ"@.len() == 4);
    assert("KeyK"@.len() == 4);
    assert("KeyL"@.len() == 4);
    assert("KeyM"@.len() == 4);
    assert("KeyN"@.len() == 4);
    assert("KeyO"@.len() == 4);
    assert("KeyP"@.len() == 4);
    assert("KeyQ"@.len() == 4);
    assert("KeyR"@.len() == 4);
    assert("KeyS"@.len() == 4);
    assert("KeyT"@.len() == 4);
    assert("KeyU"@.len() == 4);
    assert("KeyV"@.len() == 4);
    assert("KeyW"@.len() == 4);
    assert("KeyX"@.len() == 4);
    assert("KeyY"@.len() == 4);
    assert("KeyZ"@.len() == 4);
    assert("Digit1"@.len() == 6);
    assert("Digit2"@.len() == 6);
    assert("Digit3"@.len() == 6);
    assert("Digit4"@.len() == 6);
    assert("Digit5"@.len() == 6);
    assert("Digit6"@.len() == 6);
    assert("Digit7"@.len() == 6);
    assert("Digit8"@.len() == 6);
    assert("Digit9"@.len() == 6);
    assert("Digit0"@.len() == 6);
    assert("F1"@.len() == 2);
    assert("F2"@.len() == 2);
    assert("F3"@.len() == 2);
    assert("F4"@.len() == 2);
    assert("F5"@.len() == 2);
    assert("F6"@.len() == 2);
    assert("F7"@.len() == 2);
    assert("F8"@.len() == 2);
    assert("ShiftLeft"@.len() == 9);
    assert("ShiftRight"@.len() == 10);
    assert("ControlLeft"@.len() == 11);
    assert("ControlRight"@.len() == 12);
    assert("AltLeft"@.len() == 7);
    assert("AltRight"@.len() == 8);
    assert("MetaLeft"@.len() == 8);
    assert("MetaRight"@.len() == 9);
    assert("Space"@.len() == 5);
    assert("Enter"@.len() == 5);
    assert("NumpadEnter"@.len() == 11);
    assert("Backspace"@.len() == 9);
    assert("Escape"@.len() == 6);
    assert("Tab"@.len() == 3);
    assert("ArrowUp"@.len() == 7);
    assert("ArrowDown"@.len() == 9);
    assert("ArrowLeft"@.len() == 9);
    assert("ArrowRight"@.len() == 10);
    assert("Home"@.len() == 4);
    assert("Period"@.len() == 6);
    assert("Comma"@.len() == 5);
    assert("Slash"@.len() == 5);
    assert("Semicolon"@.len() == 9);
    assert("Quote"@.len() == 5);
    assert("BracketLeft"@.len() == 11);
    assert("BracketRight"@.len() == 12);
    assert("Backslash"@.len() == 9);
    assert("Backquote"@.len() == 9);
    assert("Minus"@.len() == 5);
    assert("Equal"@.len() == 5);
    assert("Numpad0"@.len() == 7);
    assert("Numpad1"@.len() == 7);
    assert("Numpad2"@.len() == 7);
    assert("Numpad3"@.len() == 7);
    assert("Numpad4"@.len() == 7);
    assert("Numpad5"@.len() == 7);
    assert("Numpad6"@.len() == 7);
    assert("Numpad7"@.len() == 7);
    assert("Numpad8"@.len() == 7);
    assert("Numpad9"@.len() == 7);
    assert("NumpadAdd"@.len() == 9);
    assert("NumpadSubtract"@.len() == 14);
    assert("NumpadMultiply"@.len() == 14);
    assert("NumpadDivide"@.len() == 12);
    assert("NumpadDecimal"@.len() == 13);
    assert("Insert"@.len() == 6);
    assert("Delete"@.len() == 6);
}

/// Map a browser `KeyboardEvent.code` ("KeyA", "Digit1", "Enter", ...)
/// to a C64 matrix position; `None` for keys without a C64 equivalent.
/// The mapping's `row`/`col` are the KERNAL's (col, row) order.
pub fn map_pc_keycode(code: &str) -> (r: Option<KeyMapping>)
    ensures
        r == pc_key_mapping(code@),
{
    if str_eq(code, "KeyA") {
        return Some(KeyMapping::new(2, 1));
    }
    if str_eq(code, "KeyB") {
        return Some(KeyMapping::new(4, 3));
    }
    if str_eq(code, "KeyC") {
        return Some(KeyMapping::new(4, 2));
    }
    if str_eq(code, "KeyD") {
        return Some(KeyMapping::new(2, 2));
    }
    if str_eq(code, "KeyE") {
        return Some(KeyMapping::new(6, 1));
    }
    if str_eq(code, "KeyF") {
        return Some(KeyMapping::new(5, 2));
    }
    if str_eq(code, "KeyG") {
        return Some(KeyMapping::new(2, 3));
    }
    if str_eq(code, "KeyH") {
        return Some(KeyMapping::new(5, 3));
    }
    if str_eq(code, "KeyI") {
        return Some(KeyMapping::new(1, 4));
    }
    if str_eq(code, "KeyJ") {
        return Some(KeyMapping::new(2, 4));
    }
    if str_eq(code, "KeyK") {
        return Some(KeyMapping::new(5, 4));
    }
    if str_eq(code, "KeyL") {
        return Some(KeyMapping::new(2, 5));
    }
    if str_eq(code, "KeyM") {
        return Some(KeyMapping::new(4, 4));
    }
    if str_eq(code, "KeyN") {
        return Some(KeyMapping::new(7, 4));
    }
    if str_eq(code, "KeyO") {
        return Some(KeyMapping::new(6, 4));
    }
    if str_eq(code, "KeyP") {
        return Some(KeyMapping::new(1, 5));
    }
    if str_eq(code, "KeyQ") {
        return Some(KeyMapping::new(6, 7));
    }
    if str_eq(code, "KeyR") {
        return Some(KeyMapping::new(1, 2));
    }
    if str_eq(code, "KeyS") {
        return Some(KeyMapping::new(5, 1));
    }
    if str_eq(code, "KeyT") {
        return Some(KeyMapping::new(6, 2));
    }
    if str_eq(code, "KeyU") {
        return Some(KeyMapping::new(6, 3));
    }
    if str_eq(code, "KeyV") {
        return Some(KeyMapping::new(7, 3));
    }
    if str_eq(code, "KeyW") {
        return Some(KeyMapping::new(1, 1));
    }
    if str_eq(code, "KeyX") {
        return Some(KeyMapping::new(7, 2));
    }
    if str_eq(code, "KeyY") {
        return Some(KeyMapping::new(1, 3));
    }
    if str_eq(code, "KeyZ") {
        return Some(KeyMapping::new(4, 1));
    }
    if str_eq(code, "Digit1") {
        return Some(KeyMapping::new(0, 7));
    }
    if str_eq(code, "Digit2") {
        return Some(KeyMapping::new(3, 7));
    }
    if str_eq(code, "Digit3") {
        return Some(KeyMapping::new(0, 1));
    }
    if str_eq(code, "Digit4") {
        return Some(KeyMapping::new(3, 1));
    }
    if str_eq(code, "Digit5") {
        return Some(KeyMapping::new(0, 2));
    }
    if str_eq(code, "Digit6") {
        return Some(KeyMapping::new(3, 2));
    }
    if str_eq(code, "Digit7") {
        return Some(KeyMapping::new(0, 3));
    }
    if str_eq(code, "Digit8") {
        return Some(KeyMapping::new(3, 3));
    }
    if str_eq(code, "Digit9") {
        return Some(KeyMapping::new(0, 4));
    }
    if str_eq(code, "Digit0") {
        return Some(KeyMapping::new(3, 4));
    }
    if str_eq(code, "F1") {
        return Some(KeyMapping::new(4, 0));
    }
    if str_eq(code, "F2") {
        return Some(KeyMapping::with_shift(4, 0));
    }
    if str_eq(code, "F3") {
        return Some(KeyMapping::new(5, 0));
    }
    if str_eq(code, "F4") {
        return Some(KeyMapping::with_shift(5, 0));
    }
    if str_eq(code, "F5") {
        return Some(KeyMapping::new(6, 0));
    }
    if str_eq(code, "F6") {
        return Some(KeyMapping::with_shift(6, 0));
    }
    if str_eq(code, "F7") {
        return Some(KeyMapping::new(3, 0));
    }
    if str_eq(code, "F8") {
        return Some(KeyMapping::with_shift(3, 0));
    }
    if str_eq(code, "ShiftLeft") {
        return Some(KeyMapping::new(7, 1));
    }
    if str_eq(code, "ShiftRight") {
        return Some(KeyMapping::new(4, 6));
    }
    if str_eq(code, "ControlLeft") || str_eq(code, "ControlRight") {
        return Some(KeyMapping::new(2, 7));
    }
    if str_eq(code, "AltLeft") || str_eq(code, "AltRight") || str_eq(code, "MetaLeft") || str_eq(code, "MetaRight") {
        return Some(KeyMapping::new(5, 7));
    }
    if str_eq(code, "Space") {
        return Some(KeyMapping::new(4, 7));
    }
    if str_eq(code, "Enter") || str_eq(code, "NumpadEnter") {
        return Some(KeyMapping::new(1, 0));
    }
    if str_eq(code, "Backspace") {
        return Some(KeyMapping::new(0, 0));
    }
    if str_eq(code, "Escape") {
        return Some(KeyMapping::new(7, 7));
    }
    if str_eq(code, "Tab") {
        return Some(KeyMapping::new(2, 7));
    }
    if str_eq(code, "ArrowUp") {
        return Some(KeyMapping::with_shift(7, 0));
    }
    if str_eq(code, "ArrowDown") {
        return Some(KeyMapping::new(7, 0));
    }
    if str_eq(code, "ArrowLeft") {
        return Some(KeyMapping::with_shift(2, 0));
    }
    if str_eq(code, "ArrowRight") {
        return Some(KeyMapping::new(2, 0));
    }
    if str_eq(code, "Home") {
        return Some(KeyMapping::new(3, 6));
    }
    if str_eq(code, "Period") {
        return Some(KeyMapping::new(4, 5));
    }
    if str_eq(code, "Comma") {
        return Some(KeyMapping::new(7, 5));
    }
    if str_eq(code, "Slash") {
        return Some(KeyMapping::new(7, 6));
    }
    if str_eq(code, "Semicolon") {
        return Some(KeyMapping::new(2, 6));
    }
    if str_eq(code, "Quote") {
        return Some(KeyMapping::with_shift(0, 3));
    }
    if str_eq(code, "BracketLeft") {
        return Some(KeyMapping::new(5, 5));
    }
    if str_eq(code, "BracketRight") {
        return Some(KeyMapping::new(1, 6));
    }
    if str_eq(code, "Backslash") {
        return Some(KeyMapping::new(0, 6));
    }
    if str_eq(code, "Backquote") {
        return Some(KeyMapping::new(1, 7));
    }
    if str_eq(code, "Minus") {
        return Some(KeyMapping::new(3, 5));
    }
    if str_eq(code, "Equal") {
        return Some(KeyMapping::new(5, 6));
    }
    if str_eq(code, "Numpad0") {
        return Some(KeyMapping::new(3, 4));
    }
    if str_eq(code, "Numpad1") {
        return Some(KeyMapping::new(0, 7));
    }
    if str_eq(code, "Numpad2") {
        return Some(KeyMapping::new(3, 7));
    }
    if str_eq(code, "Numpad3") {
        return Some(KeyMapping::new(0, 1));
    }
    if str_eq(code, "Numpad4") {
        return Some(KeyMapping::new(3, 1));
    }
    if str_eq(code, "Numpad5") {
        return Some(KeyMapping::new(0, 2));
    }
    if str_eq(code, "Numpad6") {
        return Some(KeyMapping::new(3, 2));
    }
    if str_eq(code, "Numpad7") {
        return Some(KeyMapping::new(0, 3));
    }
    if str_eq(code, "Numpad8") {
        return Some(KeyMapping::new(3, 3));
    }
    if str_eq(code, "Numpad9") {
        return Some(KeyMapping::new(0, 4));
    }
    if str_eq(code, "NumpadAdd") {
        return Some(KeyMapping::new(0, 5));
    }
    if str_eq(code, "NumpadSubtract") {
        return Some(KeyMapping::new(3, 5));
    }
    if str_eq(code, "NumpadMultiply") {
        return Some(KeyMapping::new(1, 6));
    }
    if str_eq(code, "NumpadDivide") {
        return Some(KeyMapping::new(7, 6));
    }
    if str_eq(code, "NumpadDecimal") {
        return Some(KeyMapping::new(4, 5));
    }
    if str_eq(code, "Insert") {
        return Some(KeyMapping::with_shift(0, 0));
    }
    if str_eq(code, "Delete") {
        return Some(KeyMapping::new(0, 0));
    }
    None
}

/// The key at a place of the C64 matrix, as the layout table of this
/// module shows it (first coordinate, then second): its character, a space
/// for the space bar, and `#` for the keys named by a word or a symbol
/// outside ASCII (DEL, RETURN, the cursor keys, the function keys, CTRL,
/// the SHIFT keys, HOME, C=, STOP, the pound sign and the arrows).
pub open spec fn c64_key_char(row: u8, col: u8) -> char {
    let r: Seq<char> = if row == 0 {
        seq!['#', '3', '5', '7', '9', '+', '#', '1']
    } else if row == 1 {
        seq!['#', 'W', 'R', 'Y', 'I', 'P', '*', '#']
    } else if row == 2 {
        seq!['#', 'A', 'D', 'G', 'J', 'L', ';', '#']
    } else if row == 3 {
        seq!['#', '4', '6', '8', '0', '-', '#', '2']
    } else if row == 4 {
        seq!['#', 'Z', 'C', 'B', 'M', '.', '#', ' ']
    } else if row == 5 {
        seq!['#', 'S', 'F', 'H', 'K', ':', '=', '#']
    } else if row == 6 {
        seq!['#', 'E', 'T', 'U', 'O', '@', '#', 'Q']
    } else {
        seq!['#', '#', 'X', 'V', 'N', ',', '/', '#']
    };
    if row < 8 && col < 8 {
        r[col as int]
    } else {
        '#'
    }
}

/// The browser key code of a letter key: `Key` and the letter.
pub open spec fn letter_key_code(l: char) -> Seq<char> {
    seq!['K', 'e', 'y', l]
}

/// Each letter key of the PC keyboard presses the C64 key of the same
/// letter, without SHIFT: `KeyA` to `KeyZ` land on the matrix places that
/// the layout table gives the letters A to Z.
pub proof fn lemma_letter_keys(l: char)
    requires
        'A' <= l <= 'Z',
    ensures
        pc_key_mapping(letter_key_code(l)) matches Some(m) && !m.requires_shift && c64_key_char(
            m.row,
            m.col,
        ) == l,
{
    reveal_strlit("KeyA");
    reveal_strlit("KeyB");
    reveal_strlit("KeyC");
    reveal_strlit("KeyD");
    reveal_strlit("KeyE");
    reveal_strlit("KeyF");
    reveal_strlit("KeyG");
    reveal_strlit("KeyH");
    reveal_strlit("KeyI");
    reveal_strlit("KeyJ");
    reveal_strlit("KeyK");
    reveal_strlit("KeyL");
    reveal_strlit("KeyM");
    reveal_strlit("KeyN");
    reveal_strlit("KeyO");
    reveal_strlit("KeyP");
    reveal_strlit("KeyQ");
    reveal_strlit("KeyR");
    reveal_strlit("KeyS");
    reveal_strlit("KeyT");
    reveal_strlit("KeyU");
    reveal_strlit("KeyV");
    reveal_strlit("KeyW");
    reveal_strlit("KeyX");
    reveal_strlit("KeyY");
    reveal_strlit("KeyZ");
    reveal_strlit("Digit1");
    reveal_strlit("Digit2");
    reveal_strlit("Digit3");
    reveal_strlit("Digit4");
    reveal_strlit("Digit5");
    reveal_strlit("Digit6");
    reveal_strlit("Digit7");
    reveal_strlit("Digit8");
    reveal_strlit("Digit9");
    reveal_strlit("Digit0");
    reveal_strlit("F1");
    reveal_strlit("F2");
    reveal_strlit("F3");
    reveal_strlit("F4");
    reveal_strlit("F5");
    reveal_strlit("F6");
    reveal_strlit("F7");
    reveal_strlit("F8");
    reveal_strlit("ShiftLeft");
    reveal_strlit("ShiftRight");
    reveal_strlit("ControlLeft");
    reveal_strlit("ControlRight");
    reveal_strlit("AltLeft");
    reveal_strlit("AltRight");
    reveal_strlit("MetaLeft");
    reveal_strlit("MetaRight");
    reveal_strlit("Space");
    reveal_strlit("Enter");
    reveal_strlit("NumpadEnter");
    reveal_strlit("Backspace");
    reveal_strlit("Escape");
    reveal_strlit("Tab");
    reveal_strlit("ArrowUp");
    reveal_strlit("ArrowDown");
    reveal_strlit("ArrowLeft");
    reveal_strlit("ArrowRight");
    reveal_strlit("Home");
    reveal_strlit("Period");
    reveal_strlit("Comma");
    reveal_strlit("Slash");
    reveal_strlit("Semicolon");
    reveal_strlit("Quote");
    reveal_strlit("BracketLeft");
    reveal_strlit("BracketRight");
    reveal_strlit("Backslash");
    reveal_strlit("Backquote");
    reveal_strlit("Minus");
    reveal_strlit("Equal");
    reveal_strlit("Numpad0");
    reveal_strlit("Numpad1");
    reveal_strlit("Numpad2");
    reveal_strlit("Numpad3");
    reveal_strlit("Numpad4");
    reveal_strlit("Numpad5");
    reveal_strlit("Numpad6");
    reveal_strlit("Numpad7");
    reveal_strlit("Numpad8");
    reveal_strlit("Numpad9");
    reveal_strlit("NumpadAdd");
    reveal_strlit("NumpadSubtract");
    reveal_strlit("NumpadMultiply");
    reveal_strlit("NumpadDivide");
    reveal_strlit("NumpadDecimal");
    reveal_strlit("Insert");
    reveal_strlit("Delete");
    if l == 'A' {
        assert(letter_key_code(l) =~= "KeyA"@);
    } else if l == 'B' {
        assert(letter_key_code(l) =~= "KeyB"@);
    } else if l == 'C' {
        assert(letter_key_code(l) =~= "KeyC"@);
    } else if l == 'D' {
        assert(letter_key_code(l) =~= "KeyD"@);
    } else if l == 'E' {
        assert(letter_key_code(l) =~= "KeyE"@);
    } else if l == 'F' {
        assert(letter_key_code(l) =~= "KeyF"@);
    } else if l == 'G' {
        assert(letter_key_code(l) =~= "KeyG"@);
    } else if l == 'H' {
        assert(letter_key_code(l) =~= "KeyH"@);
    } else if l == 'I' {
        assert(letter_key_code(l) =~= "KeyI"@);
    } else if l == 'J' {
        assert(letter_key_code(l) =~= "KeyJ"@);
    } else if l == 'K' {
        assert(letter_key_code(l) =~= "KeyK"@);
    } else if l == 'L' {
        assert(letter_key_code(l) =~= "KeyL"@);
    } else if l == 'M' {
        assert(letter_key_code(l) =~= "KeyM"@);
    } else if l == 'N' {
        assert(letter_key_code(l) =~= "KeyN"@);
    } else if l == 'O' {
        assert(letter_key_code(l) =~= "KeyO"@);
    } else if l == 'P' {
        assert(letter_key_code(l) =~= "KeyP"@);
    } else if l == 'Q' {
        assert(letter_key_code(l) =~= "KeyQ"@);
    } else if l == 'R' {
        assert(letter_key_code(l) =~= "KeyR"@);
    } else if l == 'S' {
        assert(letter_key_code(l) =~= "KeyS"@);
    } else if l == 'T' {
        assert(letter_key_code(l) =~= "KeyT"@);
    } else if l == 'U' {
        assert(letter_key_code(l) =~= "KeyU"@);
    } else if l == 'V' {
        assert(letter_key_code(l) =~= "KeyV"@);
    } else if l == 'W' {
        assert(letter_key_code(l) =~= "KeyW"@);
    } else if l == 'X' {
        assert(letter_key_code(l) =~= "KeyX"@);
    } else if l == 'Y' {
        assert(letter_key_code(l) =~= "KeyY"@);
    } else if l == 'Z' {
        assert(letter_key_code(l) =~= "KeyZ"@);
    }
}

/// The place of a C64 letter is pressed by its own PC letter key and by no
/// other PC key: a PC key that lands on the place of a letter is the key
/// of that letter. So no two PC keys share a letter's place.
pub proof fn lemma_letter_places_owned(code: Seq<char>)
    ensures
        pc_key_mapping(code) matches Some(m) ==> ('A' <= c64_key_char(m.row, m.col) <= 'Z' ==> code
            == letter_key_code(c64_key_char(m.row, m.col))),
{
    reveal_strlit("KeyA");
    reveal_strlit("KeyB");
    reveal_strlit("KeyC");
    reveal_strlit("KeyD");
    reveal_strlit("KeyE");
    reveal_strlit("KeyF");
    reveal_strlit("KeyG");
    reveal_strlit("KeyH");
    reveal_strlit("KeyI");
    reveal_strlit("KeyJ");
    reveal_strlit("KeyK");
    reveal_strlit("KeyL");
    reveal_strlit("KeyM");
    reveal_strlit("KeyN");
    reveal_strlit("KeyO");
    reveal_strlit("KeyP");
    reveal_strlit("KeyQ");
    reveal_strlit("KeyR");
    reveal_strlit("KeyS");
    reveal_strlit("KeyT");
    reveal_strlit("KeyU");
    reveal_strlit("KeyV");
    reveal_strlit("KeyW");
    reveal_strlit("KeyX");
    reveal_strlit("KeyY");
    reveal_strlit("KeyZ");
    reveal_strlit("Digit1");
    reveal_strlit("Digit2");
    reveal_strlit("Digit3");
    reveal_strlit("Digit4");
    reveal_strlit("Digit5");
    reveal_strlit("Digit6");
    reveal_strlit("Digit7");
    reveal_strlit("Digit8");
    reveal_strlit("Digit9");
    reveal_strlit("Digit0");
    reveal_strlit("F1");
    reveal_strlit("F2");
    reveal_strlit("F3");
    reveal_strlit("F4");
    reveal_strlit("F5");
    reveal_strlit("F6");
    reveal_strlit("F7");
    reveal_strlit("F8");
    reveal_strlit("ShiftLeft");
    reveal_strlit("ShiftRight");
    reveal_strlit("ControlLeft");
    reveal_strlit("ControlRight");
    reveal_strlit("AltLeft");
    reveal_strlit("AltRight");
    reveal_strlit("MetaLeft");
    reveal_strlit("MetaRight");
    reveal_strlit("Space");
    reveal_strlit("Enter");
    reveal_strlit("NumpadEnter");
    reveal_strlit("Backspace");
    reveal_strlit("Escape");
    reveal_strlit("Tab");
    reveal_strlit("ArrowUp");
    reveal_strlit("ArrowDown");
    reveal_strlit("ArrowLeft");
    reveal_strlit("ArrowRight");
    reveal_strlit("Home");
    reveal_strlit("Period");
    reveal_strlit("Comma");
    reveal_strlit("Slash");
    reveal_strlit("Semicolon");
    reveal_strlit("Quote");
    reveal_strlit("BracketLeft");
    reveal_strlit("BracketRight");
    reveal_strlit("Backslash");
    reveal_strlit("Backquote");
    reveal_strlit("Minus");
    reveal_strlit("Equal");
    reveal_strlit("Numpad0");
    reveal_strlit("Numpad1");
    reveal_strlit("Numpad2");
    reveal_strlit("Numpad3");
    reveal_strlit("Numpad4");
    reveal_strlit("Numpad5");
    reveal_strlit("Numpad6");
    reveal_strlit("Numpad7");
    reveal_strlit("Numpad8");
    reveal_strlit("Numpad9");
    reveal_strlit("NumpadAdd");
    reveal_strlit("NumpadSubtract");
    reveal_strlit("NumpadMultiply");
    reveal_strlit("NumpadDivide");
    reveal_strlit("NumpadDecimal");
    reveal_strlit("Insert");
    reveal_strlit("Delete");
    assert("KeyA"@ =~= letter_key_code('A'));
    assert("KeyB"@ =~= letter_key_code('B'));
    assert("KeyC"@ =~= letter_key_code('C'));
    assert("KeyD"@ =~= letter_key_code('D'));
    assert("KeyE"@ =~= letter_key_code('E'));
    assert("KeyF"@ =~= letter_key_code('F'));
    assert("KeyG"@ =~= letter_key_code('G'));
    assert("KeyH"@ =~= letter_key_code('H'));
    assert("KeyI"@ =~= letter_key_code('I'));
    assert("KeyJ"@ =~= letter_key_code('J'));
    assert("KeyK"@ =~= letter_key_code('K'));
    assert("KeyL"@ =~= letter_key_code('L'));
    assert("KeyM"@ =~= letter_key_code('M'));
    assert("KeyN"@ =~= letter_key_code('N'));
    assert("KeyO"@ =~= letter_key_code('O'));
    assert("KeyP"@ =~= letter_key_code('P'));
    assert("KeyQ"@ =~= letter_key_code('Q'));
    assert("KeyR"@ =~= letter_key_code('R'));
    assert("KeyS"@ =~= letter_key_code('S'));
    assert("KeyT"@ =~= letter_key_code('T'));
    assert("KeyU"@ =~= letter_key_code('U'));
    assert("KeyV"@ =~= letter_key_code('V'));
    assert("KeyW"@ =~= letter_key_code('W'));
    assert("KeyX"@ =~= letter_key_code('X'));
    assert("KeyY"@ =~= letter_key_code('Y'));
    assert("KeyZ"@ =~= letter_key_code('Z'));
}

/// Each digit key of the PC keyboard, on the main row or on the numeric
/// keypad, presses the C64 key of the same digit, without SHIFT: the
/// place that the layout table gives that digit.
pub proof fn lemma_digit_keys(d: char)
    requires
        '0' <= d <= '9',
    ensures
        pc_key_mapping(seq!['D', 'i', 'g', 'i', 't', d]) matches Some(m) && !m.requires_shift
            && c64_key_char(m.row, m.col) == d,
        pc_key_mapping(seq!['N', 'u', 'm', 'p', 'a', 'd', d]) matches Some(m) && !m.requires_shift
            && c64_key_char(m.row, m.col) == d,
{
    reveal_strlit("KeyA");
    reveal_strlit("KeyB");
    reveal_strlit("KeyC");
    reveal_strlit("KeyD");
    reveal_strlit("KeyE");
    reveal_strlit("KeyF");
    reveal_strlit("KeyG");
    reveal_strlit("KeyH");
    reveal_strlit("KeyI");
    reveal_strlit("KeyJ");
    reveal_strlit("KeyK");
    reveal_strlit("KeyL");
    reveal_strlit("KeyM");
    reveal_strlit("KeyN");
    reveal_strlit("KeyO");
    reveal_strlit("KeyP");
    reveal_strlit("KeyQ");
    reveal_strlit("KeyR");
    reveal_strlit("KeyS");
    reveal_strlit("KeyT");
    reveal_strlit("KeyU");
    reveal_strlit("KeyV");
    reveal_strlit("KeyW");
    reveal_strlit("KeyX");
    reveal_strlit("KeyY");
    reveal_strlit("KeyZ");
    reveal_strlit("Digit1");
    reveal_strlit("Digit2");
    reveal_strlit("Digit3");
    reveal_strlit("Digit4");
    reveal_strlit("Digit5");
    reveal_strlit("Digit6");
    reveal_strlit("Digit7");
    reveal_strlit("Digit8");
    reveal_strlit("Digit9");
    reveal_strlit("Digit0");
    reveal_strlit("F1");
    reveal_strlit("F2");
    reveal_strlit("F3");
    reveal_strlit("F4");
    reveal_strlit("F5");
    reveal_strlit("F6");
    reveal_strlit("F7");
    reveal_strlit("F8");
    reveal_strlit("ShiftLeft");
    reveal_strlit("ShiftRight");
    reveal_strlit("ControlLeft");
    reveal_strlit("ControlRight");
    reveal_strlit("AltLeft");
    reveal_strlit("AltRight");
    reveal_strlit("MetaLeft");
    reveal_strlit("MetaRight");
    reveal_strlit("Space");
    reveal_strlit("Enter");
    reveal_strlit("NumpadEnter");
    reveal_strlit("Backspace");
    reveal_strlit("Escape");
    reveal_strlit("Tab");
    reveal_strlit("ArrowUp");
    reveal_strlit("ArrowDown");
    reveal_strlit("ArrowLeft");
    reveal_strlit("ArrowRight");
    reveal_strlit("Home");
    reveal_strlit("Period");
    reveal_strlit("Comma");
    reveal_strlit("Slash");
    reveal_strlit("Semicolon");
    reveal_strlit("Quote");
    reveal_strlit("BracketLeft");
    reveal_strlit("BracketRight");
    reveal_strlit("Backslash");
    reveal_strlit("Backquote");
    reveal_strlit("Minus");
    reveal_strlit("Equal");
    reveal_strlit("Numpad0");
    reveal_strlit("Numpad1");
    reveal_strlit("Numpad2");
    reveal_strlit("Numpad3");
    reveal_strlit("Numpad4");
    reveal_strlit("Numpad5");
    reveal_strlit("Numpad6");
    reveal_strlit("Numpad7");
    reveal_strlit("Numpad8");
    reveal_strlit("Numpad9");
    reveal_strlit("NumpadAdd");
    reveal_strlit("NumpadSubtract");
    reveal_strlit("NumpadMultiply");
    reveal_strlit("NumpadDivide");
    reveal_strlit("NumpadDecimal");
    reveal_strlit("Insert");
    reveal_strlit("Delete");
    if d == '0' {
        assert(seq!['D', 'i', 'g', 'i', 't', d] =~= "Digit0"@);
        assert(seq!['N', 'u', 'm', 'p', 'a', 'd', d] =~= "Numpad0"@);
    } else if d == '1' {
        assert(seq!['D', 'i', 'g', 'i', 't', d] =~= "Digit1"@);
        assert(seq!['N', 'u', 'm', 'p', 'a', 'd', d] =~= "Numpad1"@);
    } else if d == '2' {
        assert(seq!['D', 'i', 'g', 'i', 't', d] =~= "Digit2"@);
        assert(seq!['N', 'u', 'm', 'p', 'a', 'd', d] =~= "Numpad2"@);
    } else if d == '3' {
        assert(seq!['D', 'i', 'g', 'i', 't', d] =~= "Digit3"@);
        assert(seq!['N', 'u', 'm', 'p', 'a', 'd', d] =~= "Numpad3"@);
    } else if d == '4' {
        assert(seq!['D', 'i', 'g', 'i', 't', d] =~= "Digit4"@);
        assert(seq!['N', 'u', 'm', 'p', 'a', 'd', d] =~= "Numpad4"@);
    } else if d == '5' {
        assert(seq!['D', 'i', 'g', 'i', 't', d] =~= "Digit5"@);
        assert(seq!['N', 'u', 'm', 'p', 'a', 'd', d] =~= "Numpad5"@);
    } else if d == '6' {
        assert(seq!['D', 'i', 'g', 'i', 't', d] =~= "Digit6"@);
        assert(seq!['N', 'u', 'm', 'p', 'a', 'd', d] =~= "Numpad6"@);
    } else if d == '7' {
        assert(seq!['D', 'i', 'g', 'i', 't', d] =~= "Digit7"@);
        assert(seq!['N', 'u', 'm', 'p', 'a', 'd', d] =~= "Numpad7"@);
    } else if d == '8' {
        assert(seq!['D', 'i', 'g', 'i', 't', d] =~= "Digit8"@);
        assert(seq!['N', 'u', 'm', 'p', 'a', 'd', d] =~= "Numpad8"@);
    } else if d == '9' {
        assert(seq!['D', 'i', 'g', 'i', 't', d] =~= "Digit9"@);
        assert(seq!['N', 'u', 'm', 'p', 'a', 'd', d] =~= "Numpad9"@);
    }
}

} // verus!
