//! Video standard timing and keyboard-buffer text conversion.

use vstd::prelude::*;

verus! {

/// Video standard of the machine.
#[derive(Debug, Clone, Copy, PartialEq, Eq, Structural)]
pub enum Region {
    /// PAL (Europe), 50 Hz.
    PAL,
    /// NTSC (North America), 60 Hz.
    NTSC,
}

impl Region {
    /// CPU clock frequency in Hz.
    #[verifier::allow_in_spec]
    pub fn clock_hz(&self) -> u32
        returns
            (match *self {
                Region::PAL => 985_248u32,
                Region::NTSC => 1_022_727u32,
            }),
    {
        match self {
            Region::PAL => 985_248,
            Region::NTSC => 1_022_727,
        }
    }

    /// Scanlines per frame.
    #[verifier::allow_in_spec]
    pub fn scanlines(&self) -> u16
        returns
            (match *self {
                Region::PAL => 312u16,
                Region::NTSC => 263u16,
            }),
    {
        match self {
            Region::PAL => 312,
            Region::NTSC => 263,
        }
    }

    /// CPU cycles per scanline.
    #[verifier::allow_in_spec]
    pub fn cycles_per_line(&self) -> u16
        returns
            (match *self {
                Region::PAL => 63u16,
                Region::NTSC => 65u16,
            }),
    {
        match self {
            Region::PAL => 63,
            Region::NTSC => 65,
        }
    }

    /// CPU cycles per frame: scanlines times cycles per line.
    pub fn cycles_per_frame(&self) -> (r: u32)
        ensures
            r == self.scanlines() as int * self.cycles_per_line() as int,
    {
        let s = self.scanlines();
        let c = self.cycles_per_line();
        assert(s as int * c as int <= 312 * 65) by (nonlinear_arith)
            requires
                s <= 312,
                c <= 65,
        ;
        s as u32 * c as u32
    }
}

/// The PETSCII the KERNAL keyboard buffer expects for an ASCII byte:
/// lower case becomes upper case, LF and CR become CR, the rest passes.
pub open spec fn ascii_petscii(c: u8) -> u8 {
    if 0x61 <= c <= 0x7A {
        (c - 32) as u8
    } else if c == 0x0A || c == 0x0D {
        0x0D
    } else {
        c
    }
}

/// Convert an ASCII byte to the PETSCII the KERNAL keyboard buffer expects.
pub fn ascii_to_petscii(c: u8) -> (r: u8)
    ensures
        r == ascii_petscii(c),
{
    if c >= 0x61 && c <= 0x7A {
        c - 32
    } else if c == 0x0A || c == 0x0D {
        0x0D
    } else {
        c
    }
}

} // verus!
