//! The C64 memory map with bank switching.
//!
//! The 6510 port ($00-$01) selects what the CPU sees:
//! - $0000-$0001: the 6510 I/O port
//! - $0002-$9FFF, $C000-$CFFF: RAM
//! - $A000-$BFFF: BASIC ROM or RAM
//! - $D000-$DFFF: I/O (VIC-II, SID, colour RAM, CIA1, CIA2), character ROM
//!   or RAM
//! - $E000-$FFFF: KERNAL ROM or RAM
//!
//! Writes to the ROM areas always land in the RAM underneath.

use vstd::prelude::*;
use vstd::string::StringSliceAdditionalSpecFns;

use crate::devices::cia::{port_value, Cia6526, CiaView};
use crate::devices::color_ram::{ColorRam, COLOR_RAM_SIZE};
use crate::devices::port_6510::{port_effective, Port6510, Port6510View};
use crate::devices::sid::{sid_read_value, sid_written, Sid6581, SidView};
use crate::devices::vic_ii::{bus_read, bus_write, scanline_rendered, VicII, VicView};
use crate::system::c64_system::{ascii_petscii, ascii_to_petscii};
use crate::system::keyboard::{scan_value, Keyboard};
use crate::system::savestate::machine::copy_into;
use crate::text::{decimal, push_decimal};

pub mod snapshot;
pub mod timing;

verus! {

/// Abstract state of the memory system.
pub struct C64MemoryView {
    pub ram: Seq<u8>,
    pub basic_rom: Seq<u8>,
    pub kernal_rom: Seq<u8>,
    pub char_rom: Seq<u8>,
    pub port: Port6510View,
    pub vic: VicView,
    pub sid: SidView,
    pub cia1: CiaView,
    pub cia2: CiaView,
    pub color_ram: Seq<u8>,
    pub keyboard: Seq<Seq<bool>>,
    pub roms_loaded: bool,
}

/// The banking bits the port presents.
pub open spec fn port_bits(p: Port6510View) -> u8 {
    port_effective(p.ddr, p.data, p.external)
}

/// BASIC ROM is visible (LORAM and HIRAM set).
pub open spec fn basic_visible(p: Port6510View) -> bool {
    port_bits(p) & 0x03 == 0x03
}

/// KERNAL ROM is visible (HIRAM set).
pub open spec fn kernal_visible(p: Port6510View) -> bool {
    port_bits(p) & 0x02 != 0
}

/// I/O is visible at $D000 (configurations 5-7).
pub open spec fn io_visible(p: Port6510View) -> bool {
    port_bits(p) & 0x07 >= 5
}

/// Character ROM is visible at $D000 (configurations 2 and 3).
pub open spec fn char_rom_visible(p: Port6510View) -> bool {
    port_bits(p) & 0x07 == 2 || port_bits(p) & 0x07 == 3
}

/// Addresses that always read RAM.
pub open spec fn plain_ram(addr: u16) -> bool {
    (0x0002 <= addr <= 0x9FFF) || (0xC000 <= addr <= 0xCFFF)
}

/// What CIA1 port B reads: the keyboard rows of the columns port A
/// selects, ANDed with the joystick lines on port B.
pub open spec fn keyboard_port_b(m: C64MemoryView) -> u8 {
    port_value(
        m.cia1.port_b,
        m.cia1.external_b & scan_value(m.keyboard, m.cia1.port_a.data & m.cia1.port_a.ddr),
    )
}

/// What a read of the I/O area returns.
pub open spec fn io_read_value(m: C64MemoryView, addr: u16) -> u8 {
    if addr <= 0xD3FF {
        bus_read(m.vic, (addr & 0xFF) & 0x3F)
    } else if addr <= 0xD7FF {
        sid_read_value(m.sid, (addr & 0xFF) & 0x1F)
    } else if addr <= 0xDBFF {
        m.color_ram[addr - 0xD800] | 0xF0
    } else if addr <= 0xDCFF {
        if (addr & 0xFF) & 0x0F == 0x01 {
            keyboard_port_b(m)
        } else {
            Cia6526::spec_read_value(m.cia1, addr & 0xFF)
        }
    } else if addr <= 0xDDFF {
        Cia6526::spec_read_value(m.cia2, addr & 0xFF)
    } else {
        0xFF
    }
}

/// What a CPU read of `addr` returns.
pub open spec fn mem_read_value(m: C64MemoryView, addr: u16) -> u8 {
    if addr == 0 {
        m.port.ddr
    } else if addr == 1 {
        port_bits(m.port)
    } else if plain_ram(addr) {
        m.ram[addr as int]
    } else if addr <= 0xBFFF {
        if basic_visible(m.port) {
            m.basic_rom[addr - 0xA000]
        } else {
            m.ram[addr as int]
        }
    } else if addr <= 0xDFFF {
        if io_visible(m.port) {
            io_read_value(m, addr)
        } else if char_rom_visible(m.port) {
            m.char_rom[addr - 0xD000]
        } else {
            m.ram[addr as int]
        }
    } else if kernal_visible(m.port) {
        m.kernal_rom[addr - 0xE000]
    } else {
        m.ram[addr as int]
    }
}

/// The memory system after a CPU read of `addr`: only a read of a CIA
/// register other than CIA1's port B through the I/O area changes
/// anything (reading the ICR clears it).
pub open spec fn mem_after_read(m: C64MemoryView, addr: u16) -> C64MemoryView {
    if 0xDC00 <= addr <= 0xDCFF && io_visible(m.port) && (addr & 0xFF) & 0x0F != 0x01 {
        C64MemoryView { cia1: Cia6526::spec_after_read(m.cia1, addr & 0xFF), ..m }
    } else if 0xDD00 <= addr <= 0xDDFF && io_visible(m.port) {
        C64MemoryView { cia2: Cia6526::spec_after_read(m.cia2, addr & 0xFF), ..m }
    } else {
        m
    }
}

/// The memory system after a write to the I/O area.
pub open spec fn io_written(m: C64MemoryView, addr: u16, value: u8) -> C64MemoryView {
    if addr <= 0xD3FF {
        C64MemoryView { vic: bus_write(m.vic, (addr & 0xFF) & 0x3F, value), ..m }
    } else if addr <= 0xD7FF {
        C64MemoryView { sid: sid_written(m.sid, (addr & 0xFF) & 0x1F, value), ..m }
    } else if addr <= 0xDBFF {
        C64MemoryView { color_ram: m.color_ram.update(addr - 0xD800, value & 0x0F), ..m }
    } else if addr <= 0xDCFF {
        C64MemoryView { cia1: Cia6526::spec_written(m.cia1, addr & 0xFF, value), ..m }
    } else if addr <= 0xDDFF {
        C64MemoryView { cia2: Cia6526::spec_written(m.cia2, addr & 0xFF, value), ..m }
    } else {
        m
    }
}

/// The memory system after a CPU write of `value` to `addr`: the port
/// registers are written and mirrored into RAM; with I/O visible, $D000-$DFFF
/// goes to the chips; everything else (ROM areas included) lands in RAM.
pub open spec fn mem_written(m: C64MemoryView, addr: u16, value: u8) -> C64MemoryView {
    if addr == 0 {
    C64MemoryView {
            port: Port6510View { ddr: value, ..m.port },
            ram: m.ram.update(0, value),
            ..m
        }
    } else if addr == 1 {
    C64MemoryView {
            port: Port6510View { data: value, ..m.port },
            ram: m.ram.update(1, value),
            ..m
        }
    } else if 0xD000 <= addr <= 0xDFFF && io_visible(m.port) {
        io_written(m, addr, value)
    } else {
        C64MemoryView { ram: m.ram.update(addr as int, value), ..m }
    }
}

/// The VIC-II's 16 KB bank (0-3), selected (inverted) by CIA2 port A.
pub open spec fn vic_bank_of(m: C64MemoryView) -> u8 {
    !port_value(m.cia2.port_a, m.cia2.external_a) & 0x03
}

/// What the VIC-II reads at `addr` of its bank: character ROM at
/// $1000-$1FFF of banks 0 and 2, RAM otherwise.
pub open spec fn vic_read_value(m: C64MemoryView, addr: u16) -> u8 {
    let bank = vic_bank_of(m) as int;
    let offset = (addr & 0x3FFF) as int;
    if (bank == 0 || bank == 2) && 0x1000 <= offset < 0x2000 {
        m.char_rom[(addr & 0x0FFF) as int]
    } else {
        m.ram[bank * 0x4000 + offset]
    }
}

/// The VIC-II's memory pointers ($D018).
pub open spec fn vic_pointers(m: C64MemoryView) -> u8 {
    m.vic.registers[0x18]
}

/// Where screen memory starts in the VIC-II's bank: $D018 bits 4-7 times
/// $400.
pub open spec fn screen_base(m: C64MemoryView) -> int {
    ((vic_pointers(m) >> 4u8) & 0x0F) as int * 0x400
}

/// The 1000 screen-memory bytes the VIC-II fetches.
pub open spec fn vic_screen_data(m: C64MemoryView) -> Seq<u8> {
    Seq::new(1000, |i: int| vic_read_value(m, (screen_base(m) + i) as u16))
}

/// The first 1000 colour-RAM nibbles.
pub open spec fn vic_color_data(m: C64MemoryView) -> Seq<u8> {
    Seq::new(1000, |i: int| (m.color_ram[i] | 0xF0) & 0x0F)
}

/// The pattern data the VIC-II fetches: in bitmap mode 8000 bytes from
/// $0000 or $2000 ($D018 bit 3), otherwise 2048 character bytes from
/// $D018 bits 1-3 times $800.
pub open spec fn vic_pattern_data(m: C64MemoryView) -> Seq<u8> {
    if m.vic.registers[0x11] & 0x20 != 0 {
        let base: int = if vic_pointers(m) & 0x08 != 0 {
            0x2000
        } else {
            0
        };
        Seq::new(8000, |i: int| vic_read_value(m, (base + i) as u16))
    } else {
        let base = ((vic_pointers(m) >> 1u8) & 0x07) as int * 0x800;
        Seq::new(2048, |i: int| vic_read_value(m, (base + i) as u16))
    }
}

/// Some byte of `s` is not zero.
pub open spec fn any_nonzero(s: Seq<u8>) -> bool {
    exists|i: int| 0 <= i < s.len() && s[i] != 0
}

/// All three ROMs hold data (each has a non-zero byte).
pub open spec fn roms_present(m: C64MemoryView) -> bool {
    any_nonzero(m.kernal_rom) && any_nonzero(m.basic_rom) && any_nonzero(m.char_rom)
}

/// Power-on RAM: zero except the port mirror bytes $2F, $37.
pub open spec fn power_on_ram() -> Seq<u8> {
    Seq::new(65536, |i: int| 0u8).update(0, 0x2F).update(1, 0x37)
}

/// The power-on memory system: RAM cleared but for the port mirror bytes,
/// ROMs empty, every chip at power-on, no key pressed.
pub open spec fn power_on_memory() -> C64MemoryView {
    C64MemoryView {
        ram: power_on_ram(),
        basic_rom: Seq::new(8192, |i: int| 0u8),
        kernal_rom: Seq::new(8192, |i: int| 0u8),
        char_rom: Seq::new(4096, |i: int| 0u8),
        port: Port6510View { ddr: 0x2F, data: 0x37, external: 0 },
        vic: crate::devices::vic_ii::power_on_vic(),
        sid: SidView {
            voices: crate::devices::sid::power_on_voices(),
            filter: crate::devices::sid::SidFilter::spec_power_on(),
            volume: 0,
            audio_enabled: true,
        },
        cia1: Cia6526::spec_new(crate::devices::cia::CiaType::Cia1),
        cia2: Cia6526::spec_new(crate::devices::cia::CiaType::Cia2),
        color_ram: Seq::new(COLOR_RAM_SIZE as nat, |i: int| 14u8),
        keyboard: crate::system::keyboard::all_released(),
        roms_loaded: false,
    }
}

/// C64 memory system.
pub struct C64Memory {
    ram: Box<[u8; 65536]>,
    basic_rom: Box<[u8; 8192]>,
    kernal_rom: Box<[u8; 8192]>,
    char_rom: Box<[u8; 4096]>,
    /// 6510 I/O port (bank switching).
    pub port: Port6510,
    /// VIC-II video chip.
    pub vic: VicII,
    /// SID sound chip.
    pub sid: Sid6581,
    /// CIA1 (keyboard, joysticks, IRQ).
    pub cia1: Cia6526,
    /// CIA2 (serial bus, VIC bank, NMI).
    pub cia2: Cia6526,
    /// Colour RAM.
    pub color_ram: ColorRam,
    /// Keyboard matrix.
    pub keyboard: Keyboard,
    roms_loaded: bool,
}

impl View for C64Memory {
    type V = C64MemoryView;

    closed spec fn view(&self) -> C64MemoryView {
    C64MemoryView {
            ram: self.ram@,
            basic_rom: self.basic_rom@,
            kernal_rom: self.kernal_rom@,
            char_rom: self.char_rom@,
            port: self.port@,
            vic: self.vic@,
            sid: self.sid@,
            cia1: self.cia1@,
            cia2: self.cia2@,
            color_ram: self.color_ram@,
            keyboard: self.keyboard@,
            roms_loaded: self.roms_loaded,
        }
    }
}

/// Whether some byte of `s` is not zero.
fn has_nonzero(s: &[u8]) -> (r: bool)
    ensures
        r == any_nonzero(s@),
{
    let mut i: usize = 0;
    while i < s.len()
        invariant
            i <= s@.len(),
            forall|j: int| 0 <= j < i ==> s@[j] == 0,
        decreases s.len() - i,
    {
        if s[i] != 0 {
            return true;
        }
        i += 1;
    }
    false
}


impl C64Memory {
    /// Power-on memory: RAM cleared but for the port mirror bytes, ROMs
    /// empty, every chip at power-on.
    pub fn new() -> (m: Self)
        ensures
            m@ == power_on_memory(),
    {
        let mut ram = [0u8; 65536];
        ram[0x00] = 0x2F;
        ram[0x01] = 0x37;
        let m = C64Memory {
            ram: Box::new(ram),
            basic_rom: Box::new([0u8; 8192]),
            kernal_rom: Box::new([0u8; 8192]),
            char_rom: Box::new([0u8; 4096]),
            port: Port6510::new(),
            vic: VicII::new(),
            sid: Sid6581::new(),
            cia1: Cia6526::new_cia1(),
            cia2: Cia6526::new_cia2(),
            color_ram: ColorRam::new(),
            keyboard: Keyboard::new(),
            roms_loaded: false,
        };
        assert(m@.ram =~= power_on_ram());
        assert(m@.basic_rom =~= Seq::new(8192, |i: int| 0u8));
        assert(m@.kernal_rom =~= Seq::new(8192, |i: int| 0u8));
        assert(m@.char_rom =~= Seq::new(4096, |i: int| 0u8));
        assert(m@.vic == power_on_memory().vic);
        m
    }

    /// Load the three ROMs; each must have its exact size (BASIC and
    /// KERNAL 8192 bytes, character ROM 4096), checked in that order.
    pub fn load_roms(&mut self, basic: &[u8], kernal: &[u8], charrom: &[u8]) -> (r: Result<
        (),
        String,
    >)
        ensures
            basic@.len() != 8192 ==> r is Err && r->Err_0@ == "BASIC ROM must be 8192 bytes, got "@
                + decimal(basic@.len()) && final(self)@ == old(self)@,
            basic@.len() == 8192 && kernal@.len() != 8192 ==> r is Err && r->Err_0@
                == "KERNAL ROM must be 8192 bytes, got "@ + decimal(kernal@.len()) && final(self)@
                == old(self)@,
            basic@.len() == 8192 && kernal@.len() == 8192 && charrom@.len() != 4096 ==> r is Err
                && r->Err_0@ == "Character ROM must be 4096 bytes, got "@ + decimal(
                charrom@.len(),
            ) && final(self)@ == old(self)@,
            basic@.len() == 8192 && kernal@.len() == 8192 && charrom@.len() == 4096 ==> r is Ok
                && final(self)@ == (C64MemoryView {
                basic_rom: basic@,
                kernal_rom: kernal@,
                char_rom: charrom@,
                roms_loaded: true,
                ..old(self)@
            }),
    {
        if basic.len() != 8192 {
            let mut msg = String::new();
            msg.append("BASIC ROM must be 8192 bytes, got ");
            push_decimal(&mut msg, basic.len() as u64);
            return Err(msg);
        }
        if kernal.len() != 8192 {
            let mut msg = String::new();
            msg.append("KERNAL ROM must be 8192 bytes, got ");
            push_decimal(&mut msg, kernal.len() as u64);
            return Err(msg);
        }
        if charrom.len() != 4096 {
            let mut msg = String::new();
            msg.append("Character ROM must be 4096 bytes, got ");
            push_decimal(&mut msg, charrom.len() as u64);
            return Err(msg);
        }
        let mut b = [0u8; 8192];
        copy_into(&mut b, basic, 0);
        let mut k = [0u8; 8192];
        copy_into(&mut k, kernal, 0);
        let mut c = [0u8; 4096];
        copy_into(&mut c, charrom, 0);
        self.basic_rom = Box::new(b);
        self.kernal_rom = Box::new(k);
        self.char_rom = Box::new(c);
        self.roms_loaded = true;
        assert(basic@.subrange(0, 8192) =~= basic@);
        assert(kernal@.subrange(0, 8192) =~= kernal@);
        assert(charrom@.subrange(0, 4096) =~= charrom@);
        Ok(())
    }

    /// Whether the ROMs are loaded.
    pub fn roms_loaded(&self) -> (r: bool)
        ensures
            r == self@.roms_loaded,
    {
        self.roms_loaded
    }

    /// Load the KERNAL ROM (8192 bytes); the ROMs count as loaded when all
    /// three hold data.
    pub fn load_kernal(&mut self, data: &[u8])
        requires
            data@.len() == 8192,
        ensures
            final(self)@ == (C64MemoryView {
                kernal_rom: data@,
                roms_loaded: roms_present(C64MemoryView { kernal_rom: data@, ..old(self)@ }),
                ..old(self)@
            }),
    {
        let mut k = [0u8; 8192];
        copy_into(&mut k, data, 0);
        self.kernal_rom = Box::new(k);
        assert(data@.subrange(0, 8192) =~= data@);
        self.update_roms_loaded();
    }

    /// Load the BASIC ROM (8192 bytes).
    pub fn load_basic(&mut self, data: &[u8])
        requires
            data@.len() == 8192,
        ensures
            final(self)@ == (C64MemoryView {
                basic_rom: data@,
                roms_loaded: roms_present(C64MemoryView { basic_rom: data@, ..old(self)@ }),
                ..old(self)@
            }),
    {
        let mut b = [0u8; 8192];
        copy_into(&mut b, data, 0);
        self.basic_rom = Box::new(b);
        assert(data@.subrange(0, 8192) =~= data@);
        self.update_roms_loaded();
    }

    /// Load the character ROM (4096 bytes).
    pub fn load_charrom(&mut self, data: &[u8])
        requires
            data@.len() == 4096,
        ensures
            final(self)@ == (C64MemoryView {
                char_rom: data@,
                roms_loaded: roms_present(C64MemoryView { char_rom: data@, ..old(self)@ }),
                ..old(self)@
            }),
    {
        let mut c = [0u8; 4096];
        copy_into(&mut c, data, 0);
        self.char_rom = Box::new(c);
        assert(data@.subrange(0, 4096) =~= data@);
        self.update_roms_loaded();
    }

    fn update_roms_loaded(&mut self)
        ensures
            final(self)@ == (C64MemoryView { roms_loaded: roms_present(old(self)@), ..old(self)@ }),
    {
        let kernal_loaded = has_nonzero(self.kernal_rom.as_slice());
        let basic_loaded = has_nonzero(self.basic_rom.as_slice());
        let char_loaded = has_nonzero(self.char_rom.as_slice());
        self.roms_loaded = kernal_loaded && basic_loaded && char_loaded;
    }

    /// The 6510 I/O port.
    pub fn port_ref(&self) -> (r: &Port6510)
        ensures
            r@ == self@.port,
    {
        &self.port
    }

    /// The 6510 I/O port, to change it; the rest of the memory system stays.
    pub fn port_mut(&mut self) -> (r: &mut Port6510)
        ensures
            r@ == old(self)@.port,
            final(self)@ == (C64MemoryView { port: final(r)@, ..old(self)@ }),
    {
        &mut self.port
    }

    /// The VIC-II.
    pub fn vic_ref(&self) -> (r: &VicII)
        ensures
            r@ == self@.vic,
    {
        &self.vic
    }

    /// The VIC-II, to change it; the rest of the memory system stays.
    pub fn vic_mut(&mut self) -> (r: &mut VicII)
        ensures
            r@ == old(self)@.vic,
            final(self)@ == (C64MemoryView { vic: final(r)@, ..old(self)@ }),
    {
        &mut self.vic
    }

    /// The SID.
    pub fn sid_ref(&self) -> (r: &Sid6581)
        ensures
            r@ == self@.sid,
    {
        &self.sid
    }

    /// The SID, to change it; the rest of the memory system stays.
    pub fn sid_mut(&mut self) -> (r: &mut Sid6581)
        ensures
            r@ == old(self)@.sid,
            final(self)@ == (C64MemoryView { sid: final(r)@, ..old(self)@ }),
    {
        &mut self.sid
    }

    /// CIA1.
    pub fn cia1_ref(&self) -> (r: &Cia6526)
        ensures
            r@ == self@.cia1,
    {
        &self.cia1
    }

    /// CIA1, to change it; the rest of the memory system stays.
    pub fn cia1_mut(&mut self) -> (r: &mut Cia6526)
        ensures
            r@ == old(self)@.cia1,
            final(self)@ == (C64MemoryView { cia1: final(r)@, ..old(self)@ }),
    {
        &mut self.cia1
    }

    /// CIA2.
    pub fn cia2_ref(&self) -> (r: &Cia6526)
        ensures
            r@ == self@.cia2,
    {
        &self.cia2
    }

    /// CIA2, to change it; the rest of the memory system stays.
    pub fn cia2_mut(&mut self) -> (r: &mut Cia6526)
        ensures
            r@ == old(self)@.cia2,
            final(self)@ == (C64MemoryView { cia2: final(r)@, ..old(self)@ }),
    {
        &mut self.cia2
    }

    /// Colour RAM.
    pub fn color_ram_ref(&self) -> (r: &ColorRam)
        ensures
            r@ == self@.color_ram,
    {
        &self.color_ram
    }

    /// Colour RAM, to change it; the rest of the memory system stays.
    pub fn color_ram_mut(&mut self) -> (r: &mut ColorRam)
        ensures
            r@ == old(self)@.color_ram,
            final(self)@ == (C64MemoryView { color_ram: final(r)@, ..old(self)@ }),
    {
        &mut self.color_ram
    }

    /// The keyboard matrix.
    pub fn keyboard_ref(&self) -> (r: &Keyboard)
        ensures
            r@ == self@.keyboard,
    {
        &self.keyboard
    }

    /// The keyboard matrix, to change it; the rest of the memory system stays.
    pub fn keyboard_mut(&mut self) -> (r: &mut Keyboard)
        ensures
            r@ == old(self)@.keyboard,
            final(self)@ == (C64MemoryView { keyboard: final(r)@, ..old(self)@ }),
    {
        &mut self.keyboard
    }

    /// The RAM.
    pub fn ram(&self) -> (r: &[u8])
        ensures
            r@ == self@.ram,
    {
        self.ram.as_slice()
    }

    /// The RAM, for direct (DMA-like) access.
    pub fn ram_mut(&mut self) -> (r: &mut [u8; 65536])
        ensures
            r@ == old(self)@.ram,
            final(self)@ == (C64MemoryView { ram: final(r)@, ..old(self)@ }),
    {
        &mut *self.ram
    }

    /// The character ROM (for the VIC-II).
    pub fn char_rom(&self) -> (r: &[u8])
        ensures
            r@ == self@.char_rom,
    {
        self.char_rom.as_slice()
    }

    /// The VIC-II's 16 KB bank (0-3), from CIA2 port A.
    pub fn vic_bank(&self) -> (r: u8)
        ensures
            r == vic_bank_of(self@),
            r < 4,
    {
        self.cia2.vic_bank()
    }

    /// The banking lines as the port presents them (LORAM, HIRAM, CHAREN)
    /// and the VIC-II's bank.
    pub fn get_bank_config(&self) -> (r: (bool, bool, bool, u8))
        ensures
            r == (
                port_bits(self@.port) & 0x01 != 0,
                port_bits(self@.port) & 0x02 != 0,
                port_bits(self@.port) & 0x04 != 0,
                vic_bank_of(self@),
            ),
    {
        let port_value = self.port.read(0x01);
        (port_value & 0x01 != 0, port_value & 0x02 != 0, port_value & 0x04 != 0, self.vic_bank())
    }

    /// The 256 bytes of page `page` as the CPU reads them, in address
    /// order (reads have their usual side effects on the CIAs).
    pub fn get_memory_page(&mut self, page: u8) -> (r: Vec<u8>)
        ensures
            (r@, final(self)@) == reads_from(old(self)@, page * 256, 256),
    {
        let start: u16 = page as u16 * 256;
        let mut result: Vec<u8> = Vec::with_capacity(256);
        let mut i: u16 = 0;
        while i < 256
            invariant
                i <= 256,
                start == page * 256,
                (result@, self@) == reads_from(old(self)@, start as int, i as nat),
            decreases 256 - i,
        {
            let b = self.read(start + i);
            result.push(b);
            i += 1;
        }
        result
    }

    /// A byte as the VIC-II sees it: never BASIC, KERNAL or I/O; the
    /// character ROM at $1000-$1FFF of banks 0 and 2.
    pub fn vic_read(&self, addr: u16) -> (r: u8)
        ensures
            r == vic_read_value(self@, addr),
    {
        let bank = self.vic_bank() as u16;
        let offset = addr & 0x3FFF;
        let char_offset = addr & 0x0FFF;
        assert(offset < 0x4000 && char_offset < 0x1000) by (bit_vector)
            requires
                offset == addr & 0x3FFF,
                char_offset == addr & 0x0FFF,
        ;
        if (bank == 0 || bank == 2) && offset >= 0x1000 && offset < 0x2000 {
            return self.char_rom[char_offset as usize];
        }
        let physical = bank as usize * 0x4000 + offset as usize;
        self.ram[physical]
    }

    /// Whether an interrupt request is asserted (CIA1 or VIC-II).
    pub fn irq_active(&self) -> (r: bool)
        ensures
            r == ((self@.cia1.interrupt_pending && self@.cia1.cia_type
                == crate::devices::cia::CiaType::Cia1) || self@.vic.irq_pending),
    {
        self.cia1.has_interrupt() || self.vic.has_interrupt()
    }

    /// Whether a non-maskable interrupt is asserted (CIA2).
    pub fn nmi_active(&self) -> (r: bool)
        ensures
            r == self@.cia2.interrupt_pending,
    {
        self.cia2.interrupt_pending()
    }
}


/// What `n` successive CPU reads from `start` on give, and the memory
/// system after them.
pub open spec fn reads_from(m: C64MemoryView, start: int, n: nat) -> (Seq<u8>, C64MemoryView)
    decreases n,
{
    if n == 0 {
        (Seq::empty(), m)
    } else {
        let (bytes, m1) = reads_from(m, start, (n - 1) as nat);
        let addr = (start + n - 1) as u16;
        (bytes.push(mem_read_value(m1, addr)), mem_after_read(m1, addr))
    }
}

/// The memory system after a reset: RAM cleared but for the port mirror
/// bytes, every chip at power-on, keys released; the ROMs, the SID's audio
/// flag and the CIAs' external lines stay.
pub open spec fn reset_memory(m: C64MemoryView) -> C64MemoryView {
    C64MemoryView {
        ram: power_on_ram(),
        port: Port6510View { ddr: 0x2F, data: 0x37, external: 0 },
        vic: crate::devices::vic_ii::power_on_vic(),
        sid: SidView {
            voices: crate::devices::sid::power_on_voices(),
            filter: crate::devices::sid::SidFilter::spec_power_on(),
            volume: 0,
            audio_enabled: m.sid.audio_enabled,
        },
        cia1: CiaView {
            external_a: m.cia1.external_a,
            external_b: m.cia1.external_b,
            ..Cia6526::spec_new(m.cia1.cia_type)
        },
        cia2: CiaView {
            external_a: m.cia2.external_a,
            external_b: m.cia2.external_b,
            ..Cia6526::spec_new(m.cia2.cia_type)
        },
        color_ram: Seq::new(COLOR_RAM_SIZE as nat, |i: int| 14u8),
        keyboard: crate::system::keyboard::all_released(),
        ..m
    }
}

impl C64Memory {
    /// Back to power-on: RAM cleared but for the port mirror bytes, every
    /// chip reset, keys released; the ROMs (and the SID's audio flag) stay.
    pub fn reset(&mut self)
        ensures
            final(self)@ == reset_memory(old(self)@),
    {
        let mut ram = [0u8; 65536];
        ram[0x00] = 0x2F;
        ram[0x01] = 0x37;
        self.ram = Box::new(ram);
        self.port = Port6510::new();
        self.vic.reset();
        self.sid.reset();
        self.cia1.reset();
        self.cia2.reset();
        self.color_ram.reset();
        self.keyboard.release_all();
        assert(self@.ram =~= power_on_ram());
    }

    /// CPU read of `addr` through the memory map.
    pub fn read(&mut self, addr: u16) -> (r: u8)
        ensures
            r == mem_read_value(old(self)@, addr),
            final(self)@ == mem_after_read(old(self)@, addr),
    {
        if addr <= 1 {
            return self.port.read(addr);
        }
        if (addr >= 0x0002 && addr <= 0x9FFF) || (addr >= 0xC000 && addr <= 0xCFFF) {
            return self.ram[addr as usize];
        }
        if addr <= 0xBFFF {
            if self.port.basic_visible() {
                return self.basic_rom[(addr - 0xA000) as usize];
            }
            return self.ram[addr as usize];
        }
        if addr <= 0xDFFF {
            if self.port.io_visible() {
                return self.io_read(addr);
            } else if self.port.char_rom_visible() {
                return self.char_rom[(addr - 0xD000) as usize];
            }
            return self.ram[addr as usize];
        }
        if self.port.kernal_visible() {
            self.kernal_rom[(addr - 0xE000) as usize]
        } else {
            self.ram[addr as usize]
        }
    }

    fn io_read(&mut self, addr: u16) -> (r: u8)
        requires
            0xD000 <= addr <= 0xDFFF,
            io_visible(old(self)@.port),
        ensures
            r == io_read_value(old(self)@, addr),
            final(self)@ == mem_after_read(old(self)@, addr),
    {
        let off = addr & 0xFF;
        if addr <= 0xD3FF {
            self.vic.read(off & 0x3F)
        } else if addr <= 0xD7FF {
            self.sid.read(off & 0x1F)
        } else if addr <= 0xDBFF {
            self.color_ram.read(addr - 0xD800)
        } else if addr <= 0xDCFF {
            if off & 0x0F == 0x01 {
                let col_select = self.cia1.port_a_output();
                let kb_rows = self.keyboard.scan(col_select);
                let combined = self.cia1.external_b() & kb_rows;
                self.cia1.read_port_b(combined)
            } else {
                self.cia1.read(off)
            }
        } else if addr <= 0xDDFF {
            self.cia2.read(off)
        } else {
            0xFF
        }
    }

    /// CPU write of `value` to `addr` through the memory map.
    pub fn write(&mut self, addr: u16, value: u8)
        ensures
            final(self)@ == mem_written(old(self)@, addr, value),
    {
        if addr <= 1 {
            self.port.write(addr, value);
            self.ram[addr as usize] = value;
            return;
        }
        if addr >= 0xD000 && addr <= 0xDFFF && self.port.io_visible() {
            self.io_write(addr, value);
            return;
        }
        self.ram[addr as usize] = value;
    }

    fn io_write(&mut self, addr: u16, value: u8)
        requires
            0xD000 <= addr <= 0xDFFF,
        ensures
            final(self)@ == io_written(old(self)@, addr, value),
    {
        let off = addr & 0xFF;
        if addr <= 0xD3FF {
            self.vic.write(off & 0x3F, value);
        } else if addr <= 0xD7FF {
            self.sid.write(off & 0x1F, value);
        } else if addr <= 0xDBFF {
            self.color_ram.write(addr - 0xD800, value);
        } else if addr <= 0xDCFF {
            self.cia1.write(off, value);
        } else if addr <= 0xDDFF {
            self.cia2.write(off, value);
        }
    }
}

impl Default for C64Memory {
    fn default() -> (m: Self)
        ensures
            m@ == power_on_memory(),
    {
        Self::new()
    }
}


/// A byte written to an always-RAM address reads back unchanged.
pub proof fn lemma_ram_write_read(m: C64MemoryView, addr: u16, value: u8)
    requires
        m.ram.len() == 65536,
        plain_ram(addr),
    ensures
        mem_read_value(mem_written(m, addr, value), addr) == value,
{
}

/// The ROM areas are write-through: a write lands in the RAM underneath;
/// while the ROM is visible the read still gives the ROM byte, and once it
/// is banked out the written byte.
pub proof fn lemma_rom_write_through(m: C64MemoryView, addr: u16, value: u8)
    requires
        m.ram.len() == 65536,
        (0xA000 <= addr <= 0xBFFF) || 0xE000 <= addr,
    ensures
        mem_written(m, addr, value).ram[addr as int] == value,
        mem_written(m, addr, value).port == m.port,
        0xA000 <= addr <= 0xBFFF ==> mem_read_value(mem_written(m, addr, value), addr) == if basic_visible(m.port) {
            m.basic_rom[addr - 0xA000]
        } else {
            value
        },
        0xE000 <= addr ==> mem_read_value(mem_written(m, addr, value), addr) == if kernal_visible(m.port) {
            m.kernal_rom[addr - 0xE000]
        } else {
            value
        },
{
}

/// Outside the CIA registers a read changes nothing.
pub proof fn lemma_read_side_effect_free(m: C64MemoryView, addr: u16)
    requires
        !(0xDC00 <= addr <= 0xDDFF),
    ensures
        mem_after_read(m, addr) == m,
{
}

/// With I/O visible, colour RAM keeps the low nibble of a write and reads
/// it back with the floating high nibble set.
pub proof fn lemma_color_ram_through_memory(m: C64MemoryView, addr: u16, value: u8)
    requires
        m.color_ram.len() == COLOR_RAM_SIZE,
        0xD800 <= addr <= 0xDBFF,
        io_visible(m.port),
    ensures
        mem_read_value(mem_written(m, addr, value), addr) == (value & 0x0F) | 0xF0,
{
}


impl C64Memory {
    /// Render raster line `scanline` from the VIC-II's view of memory: the
    /// screen memory and character (or bitmap) data its registers point
    /// at in its bank, and colour RAM. Only the framebuffer changes.
    pub fn render_scanline(&mut self, scanline: u16)
        ensures
            final(self)@ == (C64MemoryView { vic: final(self)@.vic, ..old(self)@ }),
            scanline_rendered(
                old(self)@.vic,
                final(self)@.vic,
                scanline,
                vic_pattern_data(old(self)@),
                vic_screen_data(old(self)@),
                vic_color_data(old(self)@),
            ),
    {
        let ghost m = self@;
        proof {
            VicII::lemma_sizes(&self.vic);
            ColorRam::lemma_size(&self.color_ram);
        }
        let mem_pointers = self.vic.read(0x18);
        let screen_nibble = (mem_pointers >> 4u8) & 0x0F;
        let char_bits = (mem_pointers >> 1u8) & 0x07;
        assert(screen_nibble < 16 && char_bits < 8) by (bit_vector)
            requires
                screen_nibble == (mem_pointers >> 4u8) & 0x0F,
                char_bits == (mem_pointers >> 1u8) & 0x07,
        ;
        let screen_offset = screen_nibble as u16 * 0x0400;
        let is_bitmap_mode = self.vic.bitmap_mode();
        let mut screen_ram = [0u8; 1000];
        let mut i: usize = 0;
        while i < 1000
            invariant
                i <= 1000,
                self@ == m,
                screen_offset as int == screen_base(m),
                screen_offset <= 0x3C00,
                forall|j: int| 0 <= j < i ==> screen_ram@[j] == vic_read_value(m, (screen_base(m) + j) as u16),
            decreases 1000 - i,
        {
            screen_ram[i] = self.vic_read(screen_offset + i as u16);
            i += 1;
        }
        assert(screen_ram@ =~= vic_screen_data(m));
        let mut color_ram = [0u8; 1000];
        let mut i: usize = 0;
        while i < 1000
            invariant
                i <= 1000,
                self@ == m,
                m.color_ram.len() == COLOR_RAM_SIZE,
                forall|j: int| 0 <= j < i ==> color_ram@[j] == (m.color_ram[j] | 0xF0) & 0x0F,
            decreases 1000 - i,
        {
            color_ram[i] = self.color_ram.read(i as u16) & 0x0F;
            i += 1;
        }
        assert(color_ram@ =~= vic_color_data(m));
        if is_bitmap_mode {
            let bitmap_offset: u16 = if (mem_pointers & 0x08) != 0 {
                0x2000
            } else {
                0x0000
            };
            let mut bitmap_data = [0u8; 8000];
            let mut i: usize = 0;
            while i < 8000
                invariant
                    i <= 8000,
                    self@ == m,
                    bitmap_offset == 0x2000 || bitmap_offset == 0,
                    forall|j: int| 0 <= j < i ==> bitmap_data@[j] == vic_read_value(m, (bitmap_offset + j) as u16),
                decreases 8000 - i,
            {
                bitmap_data[i] = self.vic_read(bitmap_offset + i as u16);
                i += 1;
            }
            assert(bitmap_data@ =~= vic_pattern_data(m));
            self.vic.step_scanline(
                scanline,
                bitmap_data.as_slice(),
                screen_ram.as_slice(),
                color_ram.as_slice(),
            );
        } else {
            let char_offset = char_bits as u16 * 0x0800;
            let mut char_data = [0u8; 2048];
            let mut i: usize = 0;
            while i < 2048
                invariant
                    i <= 2048,
                    self@ == m,
                    char_offset <= 0x3800,
                    char_offset as int == ((vic_pointers(m) >> 1u8) & 0x07) as int * 0x800,
                    forall|j: int| 0 <= j < i ==> char_data@[j] == vic_read_value(m, (char_offset + j) as u16),
                decreases 2048 - i,
            {
                char_data[i] = self.vic_read(char_offset + i as u16);
                i += 1;
            }
            assert(char_data@ =~= vic_pattern_data(m));
            self.vic.step_scanline(
                scanline,
                char_data.as_slice(),
                screen_ram.as_slice(),
                color_ram.as_slice(),
            );
        }
    }
}


/// The address after `a`, wrapping from $FFFF to $0000.
pub open spec fn next_address(a: u16) -> u16 {
    if a == 0xFFFF {
        0
    } else {
        (a + 1) as u16
    }
}

/// Memory after CPU writes of `bytes` to consecutive addresses from `addr`
/// on (wrapping at $FFFF), in order.
pub open spec fn bytes_written(m: C64MemoryView, addr: u16, bytes: Seq<u8>) -> C64MemoryView
    decreases bytes.len(),
{
    if bytes.len() == 0 {
        m
    } else {
        bytes_written(mem_written(m, addr, bytes[0]), next_address(addr), bytes.drop_first())
    }
}

/// The load address of a PRG file: its first two bytes, low byte first.
pub open spec fn prg_load_address(data: Seq<u8>) -> u16 {
    (data[0] as u16) | ((data[1] as u16) << 8u16)
}

/// The KERNAL keyboard buffer holding `keys` ($0277 on, length at $C6).
pub open spec fn keys_injected(m: C64MemoryView, keys: Seq<u8>) -> C64MemoryView {
    mem_written(bytes_written(m, 0x0277, keys), 0x00C6, keys.len() as u8)
}

/// The first ten bytes of `text`, converted to PETSCII.
pub open spec fn key_bytes(text: Seq<u8>) -> Seq<u8> {
    let n = if text.len() < 10 {
        text.len()
    } else {
        10
    };
    Seq::new(n, |i: int| ascii_petscii(text[i]))
}

impl C64Memory {
    /// CPU writes of `bytes[from..]` to consecutive addresses from `addr`.
    fn write_bytes_from(&mut self, addr: u16, bytes: &[u8], from: usize)
        requires
            from <= bytes@.len(),
        ensures
            final(self)@ == bytes_written(old(self)@, addr, bytes@.subrange(from as int, bytes@.len() as int)),
    {
        let mut i = from;
        let mut a = addr;
        while i < bytes.len()
            invariant
                from <= i <= bytes@.len(),
                bytes_written(self@, a, bytes@.subrange(i as int, bytes@.len() as int))
                    == bytes_written(old(self)@, addr, bytes@.subrange(from as int, bytes@.len() as int)),
            decreases bytes.len() - i,
        {
            let ghost rest = bytes@.subrange(i as int, bytes@.len() as int);
            assert(rest.drop_first() =~= bytes@.subrange(i + 1, bytes@.len() as int));
            self.write(a, bytes[i]);
            a = if a == 0xFFFF {
                0
            } else {
                a + 1
            };
            i += 1;
        }
        assert(bytes@.subrange(i as int, bytes@.len() as int) =~= Seq::<u8>::empty());
    }

    /// Load a PRG file: the first two bytes are the load address (low byte
    /// first), the rest is written from there on through the memory map.
    /// Returns the load address; `None` (and no change) for fewer than 3
    /// bytes.
    pub fn load_prg(&mut self, data: &[u8]) -> (r: Option<u16>)
        ensures
            data@.len() < 3 ==> r is None && final(self)@ == old(self)@,
            data@.len() >= 3 ==> r == Some(prg_load_address(data@)) && final(self)@
                == bytes_written(old(self)@, prg_load_address(data@), data@.subrange(2, data@.len() as int)),
    {
        if data.len() < 3 {
            return None;
        }
        let load_addr = (data[0] as u16) | ((data[1] as u16) << 8u16);
        self.write_bytes_from(load_addr, data, 2);
        Some(load_addr)
    }

    /// Type "RUN" and RETURN into the KERNAL keyboard buffer.
    pub fn inject_basic_run(&mut self)
        ensures
            final(self)@ == keys_injected(old(self)@, seq![0x52u8, 0x55u8, 0x4Eu8, 0x0Du8]),
    {
        let run_cmd: [u8; 4] = [0x52, 0x55, 0x4E, 0x0D];
        self.write_bytes_from(0x0277, run_cmd.as_slice(), 0);
        self.write(0x00C6, 4);
        assert(run_cmd@.subrange(0, 4) =~= seq![0x52u8, 0x55u8, 0x4Eu8, 0x0Du8]);
    }

    /// Type up to ten characters of `text` into the KERNAL keyboard buffer,
    /// converted from ASCII to PETSCII.
    pub fn inject_keys(&mut self, text: &str)
        ensures
            final(self)@ == keys_injected(old(self)@, key_bytes(text.spec_bytes())),
    {
        let raw = text.as_bytes();
        let mut keys: Vec<u8> = Vec::new();
        let mut i: usize = 0;
        while i < raw.len() && i < 10
            invariant
                i <= raw@.len(),
                i <= 10,
                raw@ == text.spec_bytes(),
                keys@ == Seq::new(i as nat, |j: int| ascii_petscii(raw@[j])),
            decreases raw.len() - i,
        {
            keys.push(ascii_to_petscii(raw[i]));
            i += 1;
            assert(keys@ =~= Seq::new(i as nat, |j: int| ascii_petscii(raw@[j])));
        }
        assert(keys@ =~= key_bytes(text.spec_bytes()));
        self.write_bytes_from(0x0277, keys.as_slice(), 0);
        assert(keys@.subrange(0, keys@.len() as int) =~= keys@);
        self.write(0x00C6, keys.len() as u8);
    }
}


/// Bytes written to a run of always-RAM addresses land there, in order,
/// and nothing else changes.
pub proof fn lemma_bytes_written_to_ram(m: C64MemoryView, addr: u16, bytes: Seq<u8>)
    requires
        m.ram.len() == 65536,
        addr + bytes.len() <= 0x10000,
        forall|i: int| 0 <= i < bytes.len() ==> plain_ram(#[trigger] ((addr + i) as u16)),
    ensures
        ({
            let r = bytes_written(m, addr, bytes);
            &&& r == C64MemoryView { ram: r.ram, ..m }
            &&& r.ram.len() == 65536
            &&& forall|i: int| 0 <= i < bytes.len() ==> r.ram[addr + i] == #[trigger] bytes[i]
            &&& forall|j: int|
                0 <= j < 65536 && !(addr <= j < addr + bytes.len()) ==> #[trigger] r.ram[j] == m.ram[j]
        }),
    decreases bytes.len(),
{
    if bytes.len() > 0 {
        assert(plain_ram(((addr + 0) as u16)));
        let m1 = mem_written(m, addr, bytes[0]);
        assert(m1 == C64MemoryView { ram: m.ram.update(addr as int, bytes[0]), ..m });
        let rest = bytes.drop_first();
        if rest.len() > 0 {
            assert(addr < 0xFFFF);
            assert(next_address(addr) == addr + 1);
            assert forall|i: int| 0 <= i < rest.len() implies plain_ram(
                #[trigger] ((next_address(addr) + i) as u16),
            ) by {
                assert(plain_ram(((addr + (i + 1)) as u16)));
                assert(((next_address(addr) + i) as u16) == ((addr + (i + 1)) as u16));
            }
        }
        lemma_bytes_written_to_ram(m1, next_address(addr), rest);
        let r = bytes_written(m, addr, bytes);
        assert forall|i: int| 0 <= i < bytes.len() implies r.ram[addr + i] == #[trigger] bytes[i] by {
            if i > 0 {
                assert(rest[i - 1] == bytes[i]);
                assert(next_address(addr) + (i - 1) == addr + i);
            }
        }
    }
}

/// A program loaded into always-RAM addresses reads back at its load
/// address.
pub proof fn lemma_prg_reads_back(m: C64MemoryView, data: Seq<u8>)
    requires
        m.ram.len() == 65536,
        data.len() >= 3,
        prg_load_address(data) + data.len() - 2 <= 0x10000,
        forall|i: int|
            0 <= i < data.len() - 2 ==> plain_ram(#[trigger] ((prg_load_address(data) + i) as u16)),
    ensures
        forall|i: int|
            0 <= i < data.len() - 2 ==> mem_read_value(
                bytes_written(m, prg_load_address(data), data.subrange(2, data.len() as int)),
                #[trigger] ((prg_load_address(data) + i) as u16),
            ) == data[i + 2],
{
    let a = prg_load_address(data);
    let body = data.subrange(2, data.len() as int);
    lemma_bytes_written_to_ram(m, a, body);
    assert forall|i: int| 0 <= i < data.len() - 2 implies mem_read_value(
        bytes_written(m, a, body),
        #[trigger] ((a + i) as u16),
    ) == data[i + 2] by {
        assert(body[i] == data[i + 2]);
        assert(plain_ram(((a + i) as u16)));
        assert(((a + i) as u16) as int == a + i);
    }
}

} // verus!
