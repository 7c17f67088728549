//! Conversion between PETSCII bytes and ASCII text for file names.

use vstd::prelude::*;

verus! {

/// The ASCII character shown for a PETSCII byte: control codes and the
/// shifted space become blanks, lower case (and shifted upper case)
/// letters become upper case, graphics characters become `?`.
pub open spec fn petscii_char(c: u8) -> char {
    if c <= 0x1F {
        ' '
    } else if c <= 0x3F {
        c as char
    } else if c == 0x40 {
        '@'
    } else if c <= 0x5F {
        c as char
    } else if c == 0x60 {
        '-'
    } else if c <= 0x7A {
        ((c - 0x20) as u8) as char
    } else if c <= 0x7F {
        c as char
    } else if c <= 0xA0 {
        ' '
    } else if 0xC1 <= c <= 0xDA {
        ((c - 0x80) as u8) as char
    } else {
        '?'
    }
}

/// The upper-case PETSCII byte for an ASCII byte: lower-case letters are
/// shifted to upper case, every other byte is kept.
pub open spec fn petscii_upper(c: u8) -> u8 {
    if 0x61 <= c <= 0x7A {
        (c - 32) as u8
    } else {
        c
    }
}

/// Convert a PETSCII byte to the ASCII character shown for it.
pub fn petscii_to_ascii(c: u8) -> (r: char)
    ensures
        r == petscii_char(c),
{
    if c <= 0x1F {
        ' '
    } else if c <= 0x3F {
        c as char
    } else if c == 0x40 {
        '@'
    } else if c <= 0x5F {
        c as char
    } else if c == 0x60 {
        '-'
    } else if c <= 0x7A {
        (c - 0x20) as char
    } else if c <= 0x7F {
        c as char
    } else if c <= 0xA0 {
        ' '
    } else if 0xC1 <= c && c <= 0xDA {
        (c - 0x80) as char
    } else {
        '?'
    }
}

/// Convert an ASCII byte to upper-case PETSCII.
pub fn ascii_to_petscii_upper(c: u8) -> (r: u8)
    ensures
        r == petscii_upper(c),
{
    if 0x61 <= c && c <= 0x7A {
        c - 32
    } else {
        c
    }
}

} // verus!
