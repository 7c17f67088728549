//! The 6510 CPU's on-chip I/O port at $00-$01.
//!
//! $00 is the data direction register (1 = output), $01 the data register.
//! Bits 0-2 of the effective port value select the C64 memory banking
//! (LORAM, HIRAM, CHAREN); the power-on value $37 shows BASIC, KERNAL and I/O.

use vstd::prelude::*;

verus! {

/// Abstract state of the port.
pub struct Port6510View {
    pub ddr: u8,
    pub data: u8,
    pub external: u8,
}

/// The value the port presents: output bits from the data register,
/// input bits from the external lines.
pub open spec fn port_effective(ddr: u8, data: u8, external: u8) -> u8 {
    (data & ddr) | (external & !ddr)
}

/// 6510 I/O port device.
#[derive(Debug, Clone)]
pub struct Port6510 {
    ddr: u8,
    data: u8,
    external: u8,
}

impl View for Port6510 {
    type V = Port6510View;

    closed spec fn view(&self) -> Port6510View {
        Port6510View { ddr: self.ddr, data: self.data, external: self.external }
    }
}

impl Port6510 {
    /// The effective port value of this state.
    pub open spec fn effective(&self) -> u8 {
        port_effective(self@.ddr, self@.data, self@.external)
    }

    /// Power-on state: DDR $2F, data $37, no external input.
    pub fn new() -> (p: Self)
        ensures
            p@.ddr == 0x2F,
            p@.data == 0x37,
            p@.external == 0,
    {
        Port6510 { ddr: 0x2F, data: 0x37, external: 0 }
    }

    fn effective_data(&self) -> (r: u8)
        ensures
            r == self.effective(),
    {
        (self.data & self.ddr) | (self.external & !self.ddr)
    }

    /// Banking configuration: bits 0-2 of the effective value.
    pub fn bank_config(&self) -> (r: u8)
        ensures
            r == self.effective() & 0x07,
            r < 8,
    {
        let e = self.effective_data();
        proof {
            lemma_low_three_bits(e);
        }
        e & 0x07
    }

    /// BASIC ROM is visible when LORAM and HIRAM are both set.
    pub fn basic_visible(&self) -> (r: bool)
        ensures
            r == (self.effective() & 0x03 == 0x03),
    {
        self.effective_data() & 0x03 == 0x03
    }

    /// KERNAL ROM is visible when HIRAM is set.
    pub fn kernal_visible(&self) -> (r: bool)
        ensures
            r == (self.effective() & 0x02 != 0),
    {
        self.effective_data() & 0x02 != 0
    }

    /// I/O is visible at $D000 for banking configurations 5, 6 and 7.
    pub fn io_visible(&self) -> (r: bool)
        ensures
            r == (self.effective() & 0x07 >= 5),
    {
        let e = self.effective_data();
        let cfg = e & 0x07;
        proof {
            lemma_low_three_bits(e);
        }
        cfg == 5 || cfg == 6 || cfg == 7
    }

    /// Character ROM is visible at $D000 for banking configurations 2 and 3.
    pub fn char_rom_visible(&self) -> (r: bool)
        ensures
            r == (self.effective() & 0x07 == 2 || self.effective() & 0x07 == 3),
    {
        let cfg = self.effective_data() & 0x07;
        cfg == 2 || cfg == 3
    }

    /// Set the external input lines.
    pub fn set_external(&mut self, value: u8)
        ensures
            final(self)@ == (Port6510View { external: value, ..old(self)@ }),
    {
        self.external = value;
    }

    /// The data direction register.
    pub fn ddr(&self) -> (r: u8)
        ensures
            r == self@.ddr,
    {
        self.ddr
    }

    /// The raw data register.
    pub fn data(&self) -> (r: u8)
        ensures
            r == self@.data,
    {
        self.data
    }

    /// Set the data direction register.
    pub fn set_ddr(&mut self, ddr: u8)
        ensures
            final(self)@ == (Port6510View { ddr: ddr, ..old(self)@ }),
    {
        self.ddr = ddr;
    }

    /// Set the data register.
    pub fn set_data(&mut self, data: u8)
        ensures
            final(self)@ == (Port6510View { data: data, ..old(self)@ }),
    {
        self.data = data;
    }

    /// Bus read: offset 0 is the DDR, offset 1 the effective value,
    /// anything else reads $FF.
    pub fn read(&self, offset: u16) -> (r: u8)
        ensures
            offset == 0 ==> r == self@.ddr,
            offset == 1 ==> r == self.effective(),
            offset > 1 ==> r == 0xFF,
    {
        match offset {
            0 => self.ddr,
            1 => self.effective_data(),
            _ => 0xFF,
        }
    }

    /// Bus write: offset 0 sets the DDR, offset 1 the data register,
    /// anything else is ignored.
    pub fn write(&mut self, offset: u16, value: u8)
        ensures
            offset == 0 ==> final(self)@ == (Port6510View { ddr: value, ..old(self)@ }),
            offset == 1 ==> final(self)@ == (Port6510View { data: value, ..old(self)@ }),
            offset > 1 ==> final(self)@ == old(self)@,
    {
        match offset {
            0 => self.ddr = value,
            1 => self.data = value,
            _ => {},
        }
    }

    /// The port occupies two bytes of the address space.
    pub fn size(&self) -> (r: u16)
        ensures
            r == 2,
    {
        2
    }
}

impl Default for Port6510 {
    fn default() -> (p: Self)
        ensures
            p@.ddr == 0x2F,
            p@.data == 0x37,
            p@.external == 0,
    {
        Self::new()
    }
}

/// With every pin an output, the port reads back exactly what was written.
pub proof fn lemma_all_outputs_read_data(p: Port6510View)
    requires
        p.ddr == 0xFF,
    ensures
        port_effective(p.ddr, p.data, p.external) == p.data,
{
    let d = p.data;
    let e = p.external;
    assert((d & 0xFF) | (e & !0xFFu8) == d) by (bit_vector);
}

/// The low three bits of a byte are below 8.
proof fn lemma_low_three_bits(e: u8)
    by (bit_vector)
    ensures
        e & 0x07 < 8,
{
}

} // verus!
