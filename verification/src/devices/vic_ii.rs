//! VIC-II (MOS 6569/6567) video chip: registers, raster position and
//! interrupt, and scanline rendering of the five display modes into a
//! 320x200 indexed-colour framebuffer.
//!
//! The display window starts at raster line 51; each of its 200 lines is
//! rendered from character ROM (or bitmap data), screen RAM and colour RAM.

use vstd::prelude::*;

verus! {

/// Number of VIC-II registers ($D000-$D02E).
pub const VIC_REGISTER_COUNT: usize = 47;

/// Display width in pixels.
pub const SCREEN_WIDTH: usize = 320;

/// Display height in pixels.
pub const SCREEN_HEIGHT: usize = 200;

/// Framebuffer size: one colour index per pixel, row-major.
pub const FRAMEBUFFER_SIZE: usize = 64000;

/// First raster line of the display window.
pub const DISPLAY_START_LINE_PAL: u16 = 51;

/// The byte at `i` of `s`, or `dflt` outside it.
pub open spec fn byte_or(s: Seq<u8>, i: int, dflt: u8) -> u8 {
    if 0 <= i < s.len() { s[i] } else { dflt }
}

/// Screen/colour RAM index of the cell under pixel `x` of display line `d`.
pub open spec fn cell_offset(d: int, x: int) -> int {
    (d / 8) * 40 + x / 8
}

/// Bitmap byte index for pixel `x` of display line `d`: cells of 8 bytes,
/// 40 cells (320 bytes) per character row.
pub open spec fn bitmap_offset(d: int, x: int) -> int {
    (d / 8) * 320 + (x / 8) * 8 + d % 8
}

/// Hires: pixel `x` of a cell shows pattern bit `7 - x % 8`.
pub open spec fn hires_on(pattern: u8, x: int) -> bool {
    pattern & (0x80u8 >> ((x % 8) as u8)) != 0
}

/// Multicolour: pixel `x` shows the bit pair for its double-wide pixel.
pub open spec fn bit_pair(pattern: u8, x: int) -> u8 {
    (pattern >> ((6 - 2 * ((x % 8) / 2)) as u8)) & 0x03
}

/// Background colour `n` (0-3) from registers $21-$24.
pub open spec fn bg(regs: Seq<u8>, n: int) -> u8 {
    regs[0x21 + n] & 0x0F
}

/// Text colour RAM value, light blue (14) past the end of colour RAM.
pub open spec fn text_fg(color: Seq<u8>, off: int) -> u8 {
    if 0 <= off < color.len() { color[off] & 0x0F } else { 0x0E }
}

/// Standard text mode pixel.
pub open spec fn standard_text_pixel(
    regs: Seq<u8>,
    d: int,
    x: int,
    rom: Seq<u8>,
    screen: Seq<u8>,
    color: Seq<u8>,
) -> u8 {
    let off = cell_offset(d, x);
    let code = byte_or(screen, off, 0);
    let pat = byte_or(rom, code * 8 + d % 8, 0);
    if hires_on(pat, x) { text_fg(color, off) } else { bg(regs, 0) }
}

/// Multicolour text mode pixel.
pub open spec fn multicolor_text_pixel(
    regs: Seq<u8>,
    d: int,
    x: int,
    rom: Seq<u8>,
    screen: Seq<u8>,
    color: Seq<u8>,
) -> u8 {
    let off = cell_offset(d, x);
    let code = byte_or(screen, off, 0);
    let cb = byte_or(color, off, 0);
    let pat = byte_or(rom, code * 8 + d % 8, 0);
    if cb & 0x08 != 0 {
        let b = bit_pair(pat, x);
        if b == 0 {
            bg(regs, 0)
        } else if b == 1 {
            bg(regs, 1)
        } else if b == 2 {
            bg(regs, 2)
        } else {
            cb & 0x07
        }
    } else if hires_on(pat, x) {
        cb & 0x0F
    } else {
        bg(regs, 0)
    }
}

/// Standard bitmap mode pixel.
pub open spec fn standard_bitmap_pixel(
    regs: Seq<u8>,
    d: int,
    x: int,
    bitmap: Seq<u8>,
    screen: Seq<u8>,
    color: Seq<u8>,
) -> u8 {
    let cb = byte_or(screen, cell_offset(d, x), 0);
    let pat = byte_or(bitmap, bitmap_offset(d, x), 0);
    if hires_on(pat, x) { (cb >> 4u8) & 0x0F } else { cb & 0x0F }
}

/// Multicolour bitmap mode pixel.
pub open spec fn multicolor_bitmap_pixel(
    regs: Seq<u8>,
    d: int,
    x: int,
    bitmap: Seq<u8>,
    screen: Seq<u8>,
    color: Seq<u8>,
) -> u8 {
    let sb = byte_or(screen, cell_offset(d, x), 0);
    let cb = byte_or(color, cell_offset(d, x), 0);
    let b = bit_pair(byte_or(bitmap, bitmap_offset(d, x), 0), x);
    if b == 0 {
        bg(regs, 0)
    } else if b == 1 {
        (sb >> 4u8) & 0x0F
    } else if b == 2 {
        sb & 0x0F
    } else {
        cb & 0x0F
    }
}

/// Extended colour text mode pixel.
pub open spec fn ecm_text_pixel(
    regs: Seq<u8>,
    d: int,
    x: int,
    rom: Seq<u8>,
    screen: Seq<u8>,
    color: Seq<u8>,
) -> u8 {
    let off = cell_offset(d, x);
    let code = byte_or(screen, off, 0);
    let pat = byte_or(rom, (code & 0x3F) * 8 + d % 8, 0);
    if hires_on(pat, x) { text_fg(color, off) } else { bg(regs, ((code >> 6u8) & 0x03) as int) }
}

/// Background-only pixel.
pub open spec fn background_pixel(
    regs: Seq<u8>,
    d: int,
    x: int,
    rom: Seq<u8>,
    screen: Seq<u8>,
    color: Seq<u8>,
) -> u8 {
    bg(regs, 0)
}

/// The colour of pixel `x` of display line `d`: background when the
/// display is off, else the mode chosen by BMM/ECM ($D011 bits 5/6) and
/// MCM ($D016 bit 4); the illegal combinations show background.
pub open spec fn scanline_pixel(
    regs: Seq<u8>,
    d: int,
    x: int,
    rom: Seq<u8>,
    screen: Seq<u8>,
    color: Seq<u8>,
) -> u8 {
    let bmm = regs[0x11] & 0x20 != 0;
    let ecm = regs[0x11] & 0x40 != 0;
    let mcm = regs[0x16] & 0x10 != 0;
    if regs[0x11] & 0x10 == 0 {
        background_pixel(regs, d, x, rom, screen, color)
    } else if !bmm && !ecm && !mcm {
        standard_text_pixel(regs, d, x, rom, screen, color)
    } else if !bmm && !ecm && mcm {
        multicolor_text_pixel(regs, d, x, rom, screen, color)
    } else if bmm && !ecm && !mcm {
        standard_bitmap_pixel(regs, d, x, rom, screen, color)
    } else if bmm && !ecm && mcm {
        multicolor_bitmap_pixel(regs, d, x, rom, screen, color)
    } else if !bmm && ecm && !mcm {
        ecm_text_pixel(regs, d, x, rom, screen, color)
    } else {
        background_pixel(regs, d, x, rom, screen, color)
    }
}

fn byte_or_exec(s: &[u8], i: usize, dflt: u8) -> (r: u8)
    ensures
        r == byte_or(s@, i as int, dflt),
{
    if i < s.len() {
        s[i]
    } else {
        dflt
    }
}

fn hires_on_exec(pattern: u8, x: usize) -> (r: bool)
    ensures
        r == hires_on(pattern, x as int),
{
    let bit = (x % 8) as u8;
    pattern & (0x80u8 >> bit) != 0
}

fn bit_pair_exec(pattern: u8, x: usize) -> (r: u8)
    ensures
        r == bit_pair(pattern, x as int),
        r < 4,
{
    let shift = (6 - 2 * ((x % 8) / 2)) as u8;
    assert((pattern >> shift) & 0x03 < 4) by (bit_vector);
    (pattern >> shift) & 0x03
}

fn standard_text_pixel_exec(
    regs: &[u8; VIC_REGISTER_COUNT],
    d: usize,
    x: usize,
    rom: &[u8],
    screen: &[u8],
    color: &[u8],
) -> (r: u8)
    requires
        d < SCREEN_HEIGHT,
        x < SCREEN_WIDTH,
    ensures
        r == standard_text_pixel(regs@, d as int, x as int, rom@, screen@, color@),
{
    let off = (d / 8) * 40 + x / 8;
    let code = byte_or_exec(screen, off, 0);
    let pat = byte_or_exec(rom, (code as usize) * 8 + d % 8, 0);
    if hires_on_exec(pat, x) {
        if off < color.len() {
            color[off] & 0x0F
        } else {
            0x0E
        }
    } else {
        regs[0x21] & 0x0F
    }
}

fn multicolor_text_pixel_exec(
    regs: &[u8; VIC_REGISTER_COUNT],
    d: usize,
    x: usize,
    rom: &[u8],
    screen: &[u8],
    color: &[u8],
) -> (r: u8)
    requires
        d < SCREEN_HEIGHT,
        x < SCREEN_WIDTH,
    ensures
        r == multicolor_text_pixel(regs@, d as int, x as int, rom@, screen@, color@),
{
    let off = (d / 8) * 40 + x / 8;
    let code = byte_or_exec(screen, off, 0);
    let cb = byte_or_exec(color, off, 0);
    let pat = byte_or_exec(rom, (code as usize) * 8 + d % 8, 0);
    if cb & 0x08 != 0 {
        let b = bit_pair_exec(pat, x);
        if b == 0 {
            regs[0x21] & 0x0F
        } else if b == 1 {
            regs[0x22] & 0x0F
        } else if b == 2 {
            regs[0x23] & 0x0F
        } else {
            cb & 0x07
        }
    } else if hires_on_exec(pat, x) {
        cb & 0x0F
    } else {
        regs[0x21] & 0x0F
    }
}

fn standard_bitmap_pixel_exec(
    regs: &[u8; VIC_REGISTER_COUNT],
    d: usize,
    x: usize,
    bitmap: &[u8],
    screen: &[u8],
    color: &[u8],
) -> (r: u8)
    requires
        d < SCREEN_HEIGHT,
        x < SCREEN_WIDTH,
    ensures
        r == standard_bitmap_pixel(regs@, d as int, x as int, bitmap@, screen@, color@),
{
    let cb = byte_or_exec(screen, (d / 8) * 40 + x / 8, 0);
    let pat = byte_or_exec(bitmap, (d / 8) * 320 + (x / 8) * 8 + d % 8, 0);
    if hires_on_exec(pat, x) {
        (cb >> 4u8) & 0x0F
    } else {
        cb & 0x0F
    }
}

fn multicolor_bitmap_pixel_exec(
    regs: &[u8; VIC_REGISTER_COUNT],
    d: usize,
    x: usize,
    bitmap: &[u8],
    screen: &[u8],
    color: &[u8],
) -> (r: u8)
    requires
        d < SCREEN_HEIGHT,
        x < SCREEN_WIDTH,
    ensures
        r == multicolor_bitmap_pixel(regs@, d as int, x as int, bitmap@, screen@, color@),
{
    let off = (d / 8) * 40 + x / 8;
    let sb = byte_or_exec(screen, off, 0);
    let cb = byte_or_exec(color, off, 0);
    let pat = byte_or_exec(bitmap, (d / 8) * 320 + (x / 8) * 8 + d % 8, 0);
    let b = bit_pair_exec(pat, x);
    if b == 0 {
        regs[0x21] & 0x0F
    } else if b == 1 {
        (sb >> 4u8) & 0x0F
    } else if b == 2 {
        sb & 0x0F
    } else {
        cb & 0x0F
    }
}

fn ecm_text_pixel_exec(
    regs: &[u8; VIC_REGISTER_COUNT],
    d: usize,
    x: usize,
    rom: &[u8],
    screen: &[u8],
    color: &[u8],
) -> (r: u8)
    requires
        d < SCREEN_HEIGHT,
        x < SCREEN_WIDTH,
    ensures
        r == ecm_text_pixel(regs@, d as int, x as int, rom@, screen@, color@),
{
    let off = (d / 8) * 40 + x / 8;
    let code = byte_or_exec(screen, off, 0);
    let pat = byte_or_exec(rom, ((code & 0x3F) as usize) * 8 + d % 8, 0);
    if hires_on_exec(pat, x) {
        if off < color.len() {
            color[off] & 0x0F
        } else {
            0x0E
        }
    } else {
        let sel = (code >> 6u8) & 0x03;
        assert((code >> 6u8) & 0x03 < 4) by (bit_vector);
        regs[0x21 + sel as usize] & 0x0F
    }
}

fn background_pixel_exec(
    regs: &[u8; VIC_REGISTER_COUNT],
    d: usize,
    x: usize,
    rom: &[u8],
    screen: &[u8],
    color: &[u8],
) -> (r: u8)
    requires
        d < SCREEN_HEIGHT,
        x < SCREEN_WIDTH,
    ensures
        r == background_pixel(regs@, d as int, x as int, rom@, screen@, color@),
{
    regs[0x21] & 0x0F
}

/// The pixels of display line `d` in standard text mode (BMM=0, ECM=0, MCM=0): 8x8 characters, foreground from colour RAM, background from $D021.
fn fill_standard_text_row(
    row: &mut [u8; SCREEN_WIDTH],
    regs: &[u8; VIC_REGISTER_COUNT],
    d: usize,
    char_rom: &[u8],
    screen_ram: &[u8],
    color_ram: &[u8],
)
    requires
        d < SCREEN_HEIGHT,
    ensures
        forall|j: int|
            0 <= j < SCREEN_WIDTH ==> final(row)@[j] == #[trigger] standard_text_pixel(
                regs@,
                d as int,
                j,
                char_rom@,
                screen_ram@,
                color_ram@,
            ),
{
    let mut x: usize = 0;
    while x < SCREEN_WIDTH
        invariant
            d < SCREEN_HEIGHT,
            x <= SCREEN_WIDTH,
            forall|j: int|
                0 <= j < x ==> row@[j] == #[trigger] standard_text_pixel(
                    regs@,
                    d as int,
                    j,
                    char_rom@,
                    screen_ram@,
                    color_ram@,
                ),
        decreases SCREEN_WIDTH - x,
    {
        let c = standard_text_pixel_exec(regs, d, x, char_rom, screen_ram, color_ram);
        row[x] = c;
        x += 1;
    }
}

/// The pixels of display line `d` in multicolour text mode (MCM=1): cells whose colour RAM bit 3 is set use bit pairs (background 0/1/2 or colour RAM bits 0-2), others render hires.
fn fill_multicolor_text_row(
    row: &mut [u8; SCREEN_WIDTH],
    regs: &[u8; VIC_REGISTER_COUNT],
    d: usize,
    char_rom: &[u8],
    screen_ram: &[u8],
    color_ram: &[u8],
)
    requires
        d < SCREEN_HEIGHT,
    ensures
        forall|j: int|
            0 <= j < SCREEN_WIDTH ==> final(row)@[j] == #[trigger] multicolor_text_pixel(
                regs@,
                d as int,
                j,
                char_rom@,
                screen_ram@,
                color_ram@,
            ),
{
    let mut x: usize = 0;
    while x < SCREEN_WIDTH
        invariant
            d < SCREEN_HEIGHT,
            x <= SCREEN_WIDTH,
            forall|j: int|
                0 <= j < x ==> row@[j] == #[trigger] multicolor_text_pixel(
                    regs@,
                    d as int,
                    j,
                    char_rom@,
                    screen_ram@,
                    color_ram@,
                ),
        decreases SCREEN_WIDTH - x,
    {
        let c = multicolor_text_pixel_exec(regs, d, x, char_rom, screen_ram, color_ram);
        row[x] = c;
        x += 1;
    }
}

/// The pixels of display line `d` in standard bitmap mode (BMM=1): one bit per pixel, colours from the screen RAM nibbles.
fn fill_standard_bitmap_row(
    row: &mut [u8; SCREEN_WIDTH],
    regs: &[u8; VIC_REGISTER_COUNT],
    d: usize,
    char_rom: &[u8],
    screen_ram: &[u8],
    color_ram: &[u8],
)
    requires
        d < SCREEN_HEIGHT,
    ensures
        forall|j: int|
            0 <= j < SCREEN_WIDTH ==> final(row)@[j] == #[trigger] standard_bitmap_pixel(
                regs@,
                d as int,
                j,
                char_rom@,
                screen_ram@,
                color_ram@,
            ),
{
    let mut x: usize = 0;
    while x < SCREEN_WIDTH
        invariant
            d < SCREEN_HEIGHT,
            x <= SCREEN_WIDTH,
            forall|j: int|
                0 <= j < x ==> row@[j] == #[trigger] standard_bitmap_pixel(
                    regs@,
                    d as int,
                    j,
                    char_rom@,
                    screen_ram@,
                    color_ram@,
                ),
        decreases SCREEN_WIDTH - x,
    {
        let c = standard_bitmap_pixel_exec(regs, d, x, char_rom, screen_ram, color_ram);
        row[x] = c;
        x += 1;
    }
}

/// The pixels of display line `d` in multicolour bitmap mode (BMM=1, MCM=1): bit pairs select background 0, the screen RAM nibbles or colour RAM.
fn fill_multicolor_bitmap_row(
    row: &mut [u8; SCREEN_WIDTH],
    regs: &[u8; VIC_REGISTER_COUNT],
    d: usize,
    char_rom: &[u8],
    screen_ram: &[u8],
    color_ram: &[u8],
)
    requires
        d < SCREEN_HEIGHT,
    ensures
        forall|j: int|
            0 <= j < SCREEN_WIDTH ==> final(row)@[j] == #[trigger] multicolor_bitmap_pixel(
                regs@,
                d as int,
                j,
                char_rom@,
                screen_ram@,
                color_ram@,
            ),
{
    let mut x: usize = 0;
    while x < SCREEN_WIDTH
        invariant
            d < SCREEN_HEIGHT,
            x <= SCREEN_WIDTH,
            forall|j: int|
                0 <= j < x ==> row@[j] == #[trigger] multicolor_bitmap_pixel(
                    regs@,
                    d as int,
                    j,
                    char_rom@,
                    screen_ram@,
                    color_ram@,
                ),
        decreases SCREEN_WIDTH - x,
    {
        let c = multicolor_bitmap_pixel_exec(regs, d, x, char_rom, screen_ram, color_ram);
        row[x] = c;
        x += 1;
    }
}

/// The pixels of display line `d` in extended colour text mode (ECM=1): character bits 6-7 select one of four backgrounds, bits 0-5 the pattern.
fn fill_ecm_text_row(
    row: &mut [u8; SCREEN_WIDTH],
    regs: &[u8; VIC_REGISTER_COUNT],
    d: usize,
    char_rom: &[u8],
    screen_ram: &[u8],
    color_ram: &[u8],
)
    requires
        d < SCREEN_HEIGHT,
    ensures
        forall|j: int|
            0 <= j < SCREEN_WIDTH ==> final(row)@[j] == #[trigger] ecm_text_pixel(
                regs@,
                d as int,
                j,
                char_rom@,
                screen_ram@,
                color_ram@,
            ),
{
    let mut x: usize = 0;
    while x < SCREEN_WIDTH
        invariant
            d < SCREEN_HEIGHT,
            x <= SCREEN_WIDTH,
            forall|j: int|
                0 <= j < x ==> row@[j] == #[trigger] ecm_text_pixel(
                    regs@,
                    d as int,
                    j,
                    char_rom@,
                    screen_ram@,
                    color_ram@,
                ),
        decreases SCREEN_WIDTH - x,
    {
        let c = ecm_text_pixel_exec(regs, d, x, char_rom, screen_ram, color_ram);
        row[x] = c;
        x += 1;
    }
}

/// The pixels of display line `d` in background colour 0.
fn fill_background_row(
    row: &mut [u8; SCREEN_WIDTH],
    regs: &[u8; VIC_REGISTER_COUNT],
    d: usize,
    char_rom: &[u8],
    screen_ram: &[u8],
    color_ram: &[u8],
)
    requires
        d < SCREEN_HEIGHT,
    ensures
        forall|j: int|
            0 <= j < SCREEN_WIDTH ==> final(row)@[j] == #[trigger] background_pixel(
                regs@,
                d as int,
                j,
                char_rom@,
                screen_ram@,
                color_ram@,
            ),
{
    let mut x: usize = 0;
    while x < SCREEN_WIDTH
        invariant
            d < SCREEN_HEIGHT,
            x <= SCREEN_WIDTH,
            forall|j: int|
                0 <= j < x ==> row@[j] == #[trigger] background_pixel(
                    regs@,
                    d as int,
                    j,
                    char_rom@,
                    screen_ram@,
                    color_ram@,
                ),
        decreases SCREEN_WIDTH - x,
    {
        let c = background_pixel_exec(regs, d, x, char_rom, screen_ram, color_ram);
        row[x] = c;
        x += 1;
    }
}

/// Abstract state of the VIC-II.
pub struct VicView {
    pub registers: Seq<u8>,
    pub raster: u16,
    pub cycle_in_line: u8,
    pub collision_ss: u8,
    pub collision_sb: u8,
    pub framebuffer: Seq<u8>,
    pub irq_pending: bool,
}

/// Power-on register values: DEN and RSEL in $D011, CSEL in $D016,
/// memory pointers $15, light blue border, blue background.
pub open spec fn power_on_registers() -> Seq<u8> {
    Seq::new(VIC_REGISTER_COUNT as nat, |i: int| 0u8).update(0x11, 0x1B).update(0x16, 0xC8).update(
        0x18,
        0x15,
    ).update(0x20, 0x0E).update(0x21, 0x06)
}

/// The power-on chip.
pub open spec fn power_on_vic() -> VicView {
    VicView {
        registers: power_on_registers(),
        raster: 0,
        cycle_in_line: 0,
        collision_ss: 0,
        collision_sb: 0,
        framebuffer: Seq::new(FRAMEBUFFER_SIZE as nat, |i: int| 0u8),
        irq_pending: false,
    }
}

/// The raster compare line: $D012 plus bit 7 of $D011 as bit 8.
pub open spec fn raster_compare(regs: Seq<u8>) -> u16 {
    (((regs[0x11] & 0x80) as u16) << 1u16) | (regs[0x12] as u16)
}

/// The raster compare line is $D012 plus 256 when bit 7 of $D011 is set,
/// so lines 256 to 511 can be compared too.
pub proof fn lemma_raster_compare_line(v: VicView)
    requires
        v.registers.len() == VIC_REGISTER_COUNT,
    ensures
        raster_compare(v.registers) as int == v.registers[0x12] as int + (if v.registers[0x11]
            & 0x80 != 0 {
            256int
        } else {
            0int
        }),
        raster_compare(v.registers) < 512,
{
    let hi = v.registers[0x11];
    let lo = v.registers[0x12];
    assert((((hi & 0x80) as u16) << 1u16) | (lo as u16) == (lo as u16) + (if hi & 0x80 != 0 {
        256u16
    } else {
        0u16
    })) by (bit_vector);
}

/// What a bus read of `offset` returns: $1E/$1F are the collision flags,
/// $11 carries raster bit 8 in bit 7, $12 the raster's low byte, $19 reads
/// its unused bits as 1; other registers read raw, $FF past the register
/// file.
pub open spec fn bus_read(v: VicView, offset: u16) -> u8 {
    if offset == 0x1E {
        v.collision_ss
    } else if offset == 0x1F {
        v.collision_sb
    } else if offset == 0x11 {
        (v.registers[0x11] & 0x7F) | if v.raster > 255 {
            0x80u8
        } else {
            0u8
        }
    } else if offset == 0x12 {
        (v.raster & 0xFF) as u8
    } else if offset == 0x19 {
        v.registers[0x19] | 0x70
    } else if (offset as int) < VIC_REGISTER_COUNT {
        v.registers[offset as int]
    } else {
        0xFFu8
    }
}

/// The chip after a bus write of `value` to `offset`: the collision
/// registers are read-only, writing $19 clears the flags whose bits are set
/// (and drops IRQ when no enabled flag is left), other registers store the
/// value, and past the register file nothing changes.
pub open spec fn bus_write(v: VicView, offset: u16, value: u8) -> VicView {
    if (offset as int) >= VIC_REGISTER_COUNT || offset == 0x1E || offset == 0x1F {
        v
    } else if offset == 0x19 {
        let flags = v.registers[0x19] & !(value & 0x0F);
        VicView {
            registers: v.registers.update(0x19, flags),
            irq_pending: if flags & v.registers[0x1A] & 0x0F == 0 {
                false
            } else {
                v.irq_pending
            },
            ..v
        }
    } else {
        VicView { registers: v.registers.update(offset as int, value), ..v }
    }
}

/// A register written over the bus reads back as written, except that
/// $D011 shows raster bit 8 in bit 7 (and the raster, interrupt and
/// collision registers, which are not stored this way).
pub proof fn lemma_register_write_read(v: VicView, offset: u16, value: u8)
    requires
        v.registers.len() == VIC_REGISTER_COUNT,
        (offset as int) < VIC_REGISTER_COUNT,
        offset != 0x12,
        offset != 0x19,
        offset != 0x1E,
        offset != 0x1F,
    ensures
        offset != 0x11 ==> bus_read(bus_write(v, offset, value), offset) == value,
        offset == 0x11 ==> bus_read(bus_write(v, offset, value), offset) == (value & 0x7F) | if v.raster
            > 255 {
            0x80u8
        } else {
            0u8
        },
{
}

/// Writes to the collision registers change nothing: they read back as
/// before.
pub proof fn lemma_collision_read_only(v: VicView, offset: u16, value: u8)
    requires
        offset == 0x1E || offset == 0x1F,
    ensures
        bus_write(v, offset, value) == v,
        bus_read(bus_write(v, offset, value), offset) == bus_read(v, offset),
{
}

/// Writing a 1 to an interrupt flag of $D019 clears it; writing all four
/// flag bits also releases the IRQ line.
pub proof fn lemma_interrupt_acknowledge(v: VicView, value: u8)
    requires
        v.registers.len() == VIC_REGISTER_COUNT,
    ensures
        bus_read(bus_write(v, 0x19, value), 0x19) & value & 0x0F == 0,
        value & 0x0F == 0x0F ==> !bus_write(v, 0x19, value).irq_pending,
{
    let r = v.registers[0x19];
    let e = v.registers[0x1A];
    assert(((r & !(value & 0x0F)) | 0x70) & value & 0x0F == 0 && (value & 0x0F == 0x0F ==> (r
        & !(value & 0x0F)) & e & 0x0F == 0)) by (bit_vector);
}

/// `after` is `before` with raster line `scanline` rendered from the given
/// character (or bitmap), screen and colour data: lines 51-250 are display
/// lines 0-199 and get `scanline_pixel` across the row; other lines and
/// everything but the framebuffer are unchanged.
pub open spec fn scanline_rendered(
    before: VicView,
    after: VicView,
    scanline: u16,
    rom: Seq<u8>,
    screen: Seq<u8>,
    color: Seq<u8>,
) -> bool {
    &&& after == (VicView { framebuffer: after.framebuffer, ..before })
    &&& after.framebuffer.len() == FRAMEBUFFER_SIZE
    &&& (scanline < DISPLAY_START_LINE_PAL || scanline >= DISPLAY_START_LINE_PAL + 200)
        ==> after.framebuffer == before.framebuffer
    &&& DISPLAY_START_LINE_PAL <= scanline < DISPLAY_START_LINE_PAL + 200 ==> {
        let d = scanline - DISPLAY_START_LINE_PAL;
        &&& forall|i: int|
            0 <= i < FRAMEBUFFER_SIZE && !(d * SCREEN_WIDTH <= i < d * SCREEN_WIDTH + SCREEN_WIDTH)
                ==> after.framebuffer[i] == before.framebuffer[i]
        &&& forall|j: int|
            0 <= j < SCREEN_WIDTH ==> after.framebuffer[d * SCREEN_WIDTH + j]
                == #[trigger] scanline_pixel(before.registers, d, j, rom, screen, color)
    }
}

/// The registers select multicolour text mode with the display on.
pub open spec fn multicolor_text_mode(regs: Seq<u8>) -> bool {
    &&& regs[0x11] & 0x10 != 0
    &&& regs[0x11] & 0x20 == 0
    &&& regs[0x11] & 0x40 == 0
    &&& regs[0x16] & 0x10 != 0
}

proof fn lemma_nibbles(v: u8)
    ensures
        v & 0x0F < 16,
        v & 0x07 < 16,
        (v >> 4u8) & 0x0F < 16,
        (v >> 6u8) & 0x03 < 4,
{
    assert(v & 0x0F < 16 && v & 0x07 < 16 && (v >> 4u8) & 0x0F < 16 && (v >> 6u8) & 0x03 < 4)
        by (bit_vector);
}

/// Every pixel is one of the 16 colours, in every mode.
pub proof fn lemma_pixels_in_palette(
    regs: Seq<u8>,
    d: int,
    x: int,
    rom: Seq<u8>,
    screen: Seq<u8>,
    color: Seq<u8>,
)
    requires
        regs.len() == VIC_REGISTER_COUNT,
    ensures
        scanline_pixel(regs, d, x, rom, screen, color) < 16,
{
    let off = cell_offset(d, x);
    lemma_nibbles(regs[0x21]);
    lemma_nibbles(regs[0x22]);
    lemma_nibbles(regs[0x23]);
    lemma_nibbles(regs[0x24]);
    lemma_nibbles(byte_or(color, off, 0));
    lemma_nibbles(byte_or(screen, off, 0));
    let n = ((byte_or(screen, off, 0) >> 6u8) & 0x03) as int;
    assert(bg(regs, n) < 16) by {
        assert(0 <= n < 4);
        if n == 0 {
        } else if n == 1 {
        } else if n == 2 {
        } else {
        }
    }
}

/// The multicolour text pixel, cell by cell (what
/// `render_multicolor_text_scanline` draws): for character cell `c` of display line
/// `d`, with its screen code, colour-RAM byte `col` and pattern byte `p`
/// (each 0 past its table), a cell whose colour has bit 3 set shows four
/// double-wide pixels, pair `k` coloured by bits `7-2k..6-2k` of `p` as
/// background 0, background 1, background 2 or `col & 7`; any other cell
/// shows eight hires pixels, `col` where `p` has a 1 and background 0
/// elsewhere.
pub proof fn lemma_multicolor_text_pixel_cells(
    regs: Seq<u8>,
    d: int,
    c: int,
    k: int,
    rom: Seq<u8>,
    screen: Seq<u8>,
    color: Seq<u8>,
)
    requires
        0 <= d < 200,
        0 <= c < 40,
        0 <= k < 8,
    ensures
        ({
            let i = (d / 8) * 40 + c;
            let col = byte_or(color, i, 0);
            let p = byte_or(rom, byte_or(screen, i, 0) * 8 + d % 8, 0);
            let pair = (p >> ((6 - 2 * (k / 2)) as u8)) & 0x03;
            &&& col & 0x08 != 0 ==> multicolor_text_pixel(regs, d, 8 * c + k, rom, screen, color) == (
            if pair == 0 {
                bg(regs, 0)
            } else if pair == 1 {
                bg(regs, 1)
            } else if pair == 2 {
                bg(regs, 2)
            } else {
                col & 0x07
            })
            &&& col & 0x08 == 0 ==> multicolor_text_pixel(regs, d, 8 * c + k, rom, screen, color) == (
            if p & (0x80u8 >> (k as u8)) != 0 {
                col & 0x0F
            } else {
                bg(regs, 0)
            })
        }),
{
    let x = 8 * c + k;
    assert(x % 8 == k && x / 8 == c);
}

/// Multicolour text, cell by cell: for character cell `c` of display line
/// `d`, with its screen code, colour-RAM byte `col` and pattern byte `p`
/// (each 0 past its table), a cell whose colour has bit 3 set shows four
/// double-wide pixels, pair `k` coloured by bits `7-2k..6-2k` of `p` as
/// background 0, background 1, background 2 or `col & 7`; any other cell
/// shows eight hires pixels, `col` where `p` has a 1 and background 0
/// elsewhere.
pub proof fn lemma_multicolor_text_cells(
    regs: Seq<u8>,
    d: int,
    c: int,
    k: int,
    rom: Seq<u8>,
    screen: Seq<u8>,
    color: Seq<u8>,
)
    requires
        multicolor_text_mode(regs),
        0 <= d < 200,
        0 <= c < 40,
        0 <= k < 8,
    ensures
        ({
            let i = (d / 8) * 40 + c;
            let col = byte_or(color, i, 0);
            let p = byte_or(rom, byte_or(screen, i, 0) * 8 + d % 8, 0);
            let pair = (p >> ((6 - 2 * (k / 2)) as u8)) & 0x03;
            &&& col & 0x08 != 0 ==> scanline_pixel(regs, d, 8 * c + k, rom, screen, color) == (
            if pair == 0 {
                bg(regs, 0)
            } else if pair == 1 {
                bg(regs, 1)
            } else if pair == 2 {
                bg(regs, 2)
            } else {
                col & 0x07
            })
            &&& col & 0x08 == 0 ==> scanline_pixel(regs, d, 8 * c + k, rom, screen, color) == (
            if p & (0x80u8 >> (k as u8)) != 0 {
                col & 0x0F
            } else {
                bg(regs, 0)
            })
        }),
{
    let x = 8 * c + k;
    assert(x % 8 == k && x / 8 == c);
}

/// The framebuffer's rows laid end to end: pixel `i` is column `i % 320`
/// of row `i / 320`.
pub open spec fn flat_framebuffer(rows: Seq<[u8; SCREEN_WIDTH]>) -> Seq<u8> {
    Seq::new(
        FRAMEBUFFER_SIZE as nat,
        |i: int| rows[i / (SCREEN_WIDTH as int)]@[i % (SCREEN_WIDTH as int)],
    )
}

/// Pixel `i` of the framebuffer lies in row `i / 320`, column `i % 320`,
/// and pixel `row * 320 + col` in row `row`, column `col`.
proof fn lemma_pixel_index(i: int, row: int, col: int)
    requires
        0 <= row < SCREEN_HEIGHT,
        0 <= col < SCREEN_WIDTH,
    ensures
        0 <= i < FRAMEBUFFER_SIZE ==> 0 <= i / (SCREEN_WIDTH as int) < SCREEN_HEIGHT && 0 <= i % (
        SCREEN_WIDTH as int) < SCREEN_WIDTH,
        (row * SCREEN_WIDTH + col) / (SCREEN_WIDTH as int) == row,
        (row * SCREEN_WIDTH + col) % (SCREEN_WIDTH as int) == col,
        0 <= row * SCREEN_WIDTH + col < FRAMEBUFFER_SIZE,
        0 <= i < FRAMEBUFFER_SIZE ==> i == (i / (SCREEN_WIDTH as int)) * SCREEN_WIDTH + i % (
        SCREEN_WIDTH as int),
{
    vstd::arithmetic::div_mod::lemma_fundamental_div_mod_converse_div(
        row * SCREEN_WIDTH + col,
        SCREEN_WIDTH as int,
        row,
        col,
    );
    vstd::arithmetic::div_mod::lemma_fundamental_div_mod_converse_mod(
        row * SCREEN_WIDTH + col,
        SCREEN_WIDTH as int,
        row,
        col,
    );
    if 0 <= i < FRAMEBUFFER_SIZE {
        vstd::arithmetic::div_mod::lemma_fundamental_div_mod(i, SCREEN_WIDTH as int);
        vstd::arithmetic::div_mod::lemma_mod_pos_bound(i, SCREEN_WIDTH as int);
        vstd::arithmetic::div_mod::lemma_div_pos_is_pos(i, SCREEN_WIDTH as int);
        assert(i / (SCREEN_WIDTH as int) < SCREEN_HEIGHT) by (nonlinear_arith)
            requires
                i == (SCREEN_WIDTH as int) * (i / (SCREEN_WIDTH as int)) + i % (SCREEN_WIDTH as int),
                0 <= i % (SCREEN_WIDTH as int),
                i < FRAMEBUFFER_SIZE,
        ;
    }
}

/// MOS 6569 (PAL) / 6567 (NTSC) video chip.
#[derive(Debug)]
pub struct VicII {
    registers: [u8; VIC_REGISTER_COUNT],
    current_raster: u16,
    cycle_in_line: u8,
    sprite_collision_ss: u8,
    sprite_collision_sb: u8,
    framebuffer: [[u8; SCREEN_WIDTH]; SCREEN_HEIGHT],
    irq_pending: bool,
}

impl View for VicII {
    type V = VicView;

    closed spec fn view(&self) -> VicView {
        VicView {
            registers: self.registers@,
            raster: self.current_raster,
            cycle_in_line: self.cycle_in_line,
            collision_ss: self.sprite_collision_ss,
            collision_sb: self.sprite_collision_sb,
            framebuffer: flat_framebuffer(self.framebuffer@),
            irq_pending: self.irq_pending,
        }
    }
}

impl VicII {
    /// The register file and framebuffer always have their fixed sizes.
    pub proof fn lemma_sizes(v: &VicII)
        ensures
            v@.registers.len() == VIC_REGISTER_COUNT,
            v@.framebuffer.len() == FRAMEBUFFER_SIZE,
    {
    }

    /// Power-on chip: registers at their boot values, raster 0, framebuffer
    /// cleared to colour 0, no interrupt.
    pub fn new() -> (v: Self)
        ensures
            v@ == power_on_vic(),
    {
        let mut registers = [0u8; VIC_REGISTER_COUNT];
        registers[0x11] = 0x1B;
        registers[0x16] = 0xC8;
        registers[0x18] = 0x15;
        registers[0x20] = 0x0E;
        registers[0x21] = 0x06;
        let v = VicII {
            registers,
            current_raster: 0,
            cycle_in_line: 0,
            sprite_collision_ss: 0,
            sprite_collision_sb: 0,
            framebuffer: [[0u8; SCREEN_WIDTH]; SCREEN_HEIGHT],
            irq_pending: false,
        };
        assert(v@.registers =~= power_on_registers());
        assert forall|i: int| 0 <= i < FRAMEBUFFER_SIZE implies v@.framebuffer[i] == 0u8 by {
            lemma_pixel_index(i, 0, 0);
        }
        assert(v@.framebuffer =~= Seq::new(FRAMEBUFFER_SIZE as nat, |i: int| 0u8));
        v
    }

    /// The framebuffer: 200 rows of 320 colour indices.
    pub fn framebuffer(&self) -> (r: &[[u8; SCREEN_WIDTH]; SCREEN_HEIGHT])
        ensures
            flat_framebuffer(r@) == self@.framebuffer,
            forall|row: int, col: int|
                0 <= row < SCREEN_HEIGHT && 0 <= col < SCREEN_WIDTH ==> #[trigger] r@[row]@[col]
                    == self@.framebuffer[row * SCREEN_WIDTH + col],
    {
        proof {
            assert forall|row: int, col: int|
                0 <= row < SCREEN_HEIGHT && 0 <= col < SCREEN_WIDTH implies #[trigger] self.framebuffer@[row]@[col]
                    == self@.framebuffer[row * SCREEN_WIDTH + col] by {
                lemma_pixel_index(0, row, col);
            }
        }
        &self.framebuffer
    }

    /// The colour of pixel (`row`, `col`) of the framebuffer.
    pub fn pixel(&self, row: usize, col: usize) -> (r: u8)
        requires
            row < SCREEN_HEIGHT,
            col < SCREEN_WIDTH,
        ensures
            r == self@.framebuffer[row * SCREEN_WIDTH + col],
    {
        proof {
            lemma_pixel_index(0, row as int, col as int);
        }
        self.framebuffer[row][col]
    }

    /// Fill the whole framebuffer with one colour.
    pub fn fill_framebuffer(&mut self, color: u8)
        ensures
            final(self)@ == (VicView {
                framebuffer: Seq::new(FRAMEBUFFER_SIZE as nat, |i: int| color),
                ..old(self)@
            }),
    {
        let mut r: usize = 0;
        while r < SCREEN_HEIGHT
            invariant
                r <= SCREEN_HEIGHT,
                self.registers == old(self).registers,
                self.current_raster == old(self).current_raster,
                self.cycle_in_line == old(self).cycle_in_line,
                self.sprite_collision_ss == old(self).sprite_collision_ss,
                self.sprite_collision_sb == old(self).sprite_collision_sb,
                self.irq_pending == old(self).irq_pending,
                forall|k: int, c: int|
                    0 <= k < r && 0 <= c < SCREEN_WIDTH ==> #[trigger] self.framebuffer@[k]@[c] == color,
            decreases SCREEN_HEIGHT - r,
        {
            self.framebuffer[r] = [color; SCREEN_WIDTH];
            r += 1;
        }
        assert forall|i: int| 0 <= i < FRAMEBUFFER_SIZE implies self@.framebuffer[i] == color by {
            lemma_pixel_index(i, 0, 0);
        }
        assert(self@.framebuffer =~= Seq::new(FRAMEBUFFER_SIZE as nat, |i: int| color));
    }

    /// Put a rendered row into the framebuffer.
    fn store_row(&mut self, d: usize, row: [u8; SCREEN_WIDTH])
        requires
            d < SCREEN_HEIGHT,
        ensures
            final(self)@ == (VicView { framebuffer: final(self)@.framebuffer, ..old(self)@ }),
            final(self)@.framebuffer.len() == FRAMEBUFFER_SIZE,
            forall|i: int|
                0 <= i < FRAMEBUFFER_SIZE && !(d * SCREEN_WIDTH <= i < d * SCREEN_WIDTH + SCREEN_WIDTH)
                    ==> final(self)@.framebuffer[i] == old(self)@.framebuffer[i],
            forall|j: int|
                0 <= j < SCREEN_WIDTH ==> #[trigger] final(self)@.framebuffer[d * SCREEN_WIDTH + j]
                    == row@[j],
    {
        self.framebuffer[d] = row;
        proof {
            assert forall|i: int|
                0 <= i < FRAMEBUFFER_SIZE && !(d * SCREEN_WIDTH <= i < d * SCREEN_WIDTH
                    + SCREEN_WIDTH) implies self@.framebuffer[i] == old(self)@.framebuffer[i] by {
                lemma_pixel_index(i, 0, 0);
                let q = i / (SCREEN_WIDTH as int);
                lemma_pixel_index(i, q, i % (SCREEN_WIDTH as int));
                if q == d {
                    assert(false);
                }
            }
            assert forall|j: int| 0 <= j < SCREEN_WIDTH implies #[trigger] self@.framebuffer[d
                * SCREEN_WIDTH + j] == row@[j] by {
                lemma_pixel_index(0, d as int, j);
            }
        }
    }

    /// Render display line `display_line` in standard text mode; only that row of
    /// the framebuffer changes.
    pub fn render_standard_text_scanline(
        &mut self,
        display_line: usize,
        char_rom: &[u8],
        screen_ram: &[u8],
        color_ram: &[u8],
    )
        requires
            display_line < SCREEN_HEIGHT,
        ensures
            final(self)@ == (VicView { framebuffer: final(self)@.framebuffer, ..old(self)@ }),
            final(self)@.framebuffer.len() == FRAMEBUFFER_SIZE,
            forall|i: int|
                0 <= i < FRAMEBUFFER_SIZE && !(display_line * SCREEN_WIDTH <= i < display_line
                    * SCREEN_WIDTH + SCREEN_WIDTH) ==> final(self)@.framebuffer[i] == old(
                    self,
                )@.framebuffer[i],
            forall|j: int|
                0 <= j < SCREEN_WIDTH ==> final(self)@.framebuffer[display_line * SCREEN_WIDTH + j]
                    == #[trigger] standard_text_pixel(
                    old(self)@.registers,
                    display_line as int,
                    j,
                    char_rom@,
                    screen_ram@,
                    color_ram@,
                ),
    {
        let mut row = [0u8; SCREEN_WIDTH];
        fill_standard_text_row(&mut row, &self.registers, display_line, char_rom, screen_ram, color_ram);
        self.store_row(display_line, row);
    }

    /// Render display line `display_line` in multicolour text mode; only that row of
    /// the framebuffer changes.
    pub fn render_multicolor_text_scanline(
        &mut self,
        display_line: usize,
        char_rom: &[u8],
        screen_ram: &[u8],
        color_ram: &[u8],
    )
        requires
            display_line < SCREEN_HEIGHT,
        ensures
            final(self)@ == (VicView { framebuffer: final(self)@.framebuffer, ..old(self)@ }),
            final(self)@.framebuffer.len() == FRAMEBUFFER_SIZE,
            forall|i: int|
                0 <= i < FRAMEBUFFER_SIZE && !(display_line * SCREEN_WIDTH <= i < display_line
                    * SCREEN_WIDTH + SCREEN_WIDTH) ==> final(self)@.framebuffer[i] == old(
                    self,
                )@.framebuffer[i],
            forall|j: int|
                0 <= j < SCREEN_WIDTH ==> final(self)@.framebuffer[display_line * SCREEN_WIDTH + j]
                    == #[trigger] multicolor_text_pixel(
                    old(self)@.registers,
                    display_line as int,
                    j,
                    char_rom@,
                    screen_ram@,
                    color_ram@,
                ),
    {
        let mut row = [0u8; SCREEN_WIDTH];
        fill_multicolor_text_row(&mut row, &self.registers, display_line, char_rom, screen_ram, color_ram);
        self.store_row(display_line, row);
    }

    /// Render display line `display_line` in standard bitmap mode; only that row of
    /// the framebuffer changes.
    pub fn render_standard_bitmap_scanline(
        &mut self,
        display_line: usize,
        char_rom: &[u8],
        screen_ram: &[u8],
        color_ram: &[u8],
    )
        requires
            display_line < SCREEN_HEIGHT,
        ensures
            final(self)@ == (VicView { framebuffer: final(self)@.framebuffer, ..old(self)@ }),
            final(self)@.framebuffer.len() == FRAMEBUFFER_SIZE,
            forall|i: int|
                0 <= i < FRAMEBUFFER_SIZE && !(display_line * SCREEN_WIDTH <= i < display_line
                    * SCREEN_WIDTH + SCREEN_WIDTH) ==> final(self)@.framebuffer[i] == old(
                    self,
                )@.framebuffer[i],
            forall|j: int|
                0 <= j < SCREEN_WIDTH ==> final(self)@.framebuffer[display_line * SCREEN_WIDTH + j]
                    == #[trigger] standard_bitmap_pixel(
                    old(self)@.registers,
                    display_line as int,
                    j,
                    char_rom@,
                    screen_ram@,
                    color_ram@,
                ),
    {
        let mut row = [0u8; SCREEN_WIDTH];
        fill_standard_bitmap_row(&mut row, &self.registers, display_line, char_rom, screen_ram, color_ram);
        self.store_row(display_line, row);
    }

    /// Render display line `display_line` in multicolour bitmap mode; only that row of
    /// the framebuffer changes.
    pub fn render_multicolor_bitmap_scanline(
        &mut self,
        display_line: usize,
        char_rom: &[u8],
        screen_ram: &[u8],
        color_ram: &[u8],
    )
        requires
            display_line < SCREEN_HEIGHT,
        ensures
            final(self)@ == (VicView { framebuffer: final(self)@.framebuffer, ..old(self)@ }),
            final(self)@.framebuffer.len() == FRAMEBUFFER_SIZE,
            forall|i: int|
                0 <= i < FRAMEBUFFER_SIZE && !(display_line * SCREEN_WIDTH <= i < display_line
                    * SCREEN_WIDTH + SCREEN_WIDTH) ==> final(self)@.framebuffer[i] == old(
                    self,
                )@.framebuffer[i],
            forall|j: int|
                0 <= j < SCREEN_WIDTH ==> final(self)@.framebuffer[display_line * SCREEN_WIDTH + j]
                    == #[trigger] multicolor_bitmap_pixel(
                    old(self)@.registers,
                    display_line as int,
                    j,
                    char_rom@,
                    screen_ram@,
                    color_ram@,
                ),
    {
        let mut row = [0u8; SCREEN_WIDTH];
        fill_multicolor_bitmap_row(&mut row, &self.registers, display_line, char_rom, screen_ram, color_ram);
        self.store_row(display_line, row);
    }

    /// Render display line `display_line` in extended colour text mode; only that row of
    /// the framebuffer changes.
    pub fn render_ecm_text_scanline(
        &mut self,
        display_line: usize,
        char_rom: &[u8],
        screen_ram: &[u8],
        color_ram: &[u8],
    )
        requires
            display_line < SCREEN_HEIGHT,
        ensures
            final(self)@ == (VicView { framebuffer: final(self)@.framebuffer, ..old(self)@ }),
            final(self)@.framebuffer.len() == FRAMEBUFFER_SIZE,
            forall|i: int|
                0 <= i < FRAMEBUFFER_SIZE && !(display_line * SCREEN_WIDTH <= i < display_line
                    * SCREEN_WIDTH + SCREEN_WIDTH) ==> final(self)@.framebuffer[i] == old(
                    self,
                )@.framebuffer[i],
            forall|j: int|
                0 <= j < SCREEN_WIDTH ==> final(self)@.framebuffer[display_line * SCREEN_WIDTH + j]
                    == #[trigger] ecm_text_pixel(
                    old(self)@.registers,
                    display_line as int,
                    j,
                    char_rom@,
                    screen_ram@,
                    color_ram@,
                ),
    {
        let mut row = [0u8; SCREEN_WIDTH];
        fill_ecm_text_row(&mut row, &self.registers, display_line, char_rom, screen_ram, color_ram);
        self.store_row(display_line, row);
    }

    /// Render display line `display_line` in background colour 0; only that row of
    /// the framebuffer changes.
    pub fn render_background_scanline(
        &mut self,
        display_line: usize,
        char_rom: &[u8],
        screen_ram: &[u8],
        color_ram: &[u8],
    )
        requires
            display_line < SCREEN_HEIGHT,
        ensures
            final(self)@ == (VicView { framebuffer: final(self)@.framebuffer, ..old(self)@ }),
            final(self)@.framebuffer.len() == FRAMEBUFFER_SIZE,
            forall|i: int|
                0 <= i < FRAMEBUFFER_SIZE && !(display_line * SCREEN_WIDTH <= i < display_line
                    * SCREEN_WIDTH + SCREEN_WIDTH) ==> final(self)@.framebuffer[i] == old(
                    self,
                )@.framebuffer[i],
            forall|j: int|
                0 <= j < SCREEN_WIDTH ==> final(self)@.framebuffer[display_line * SCREEN_WIDTH + j]
                    == #[trigger] background_pixel(
                    old(self)@.registers,
                    display_line as int,
                    j,
                    char_rom@,
                    screen_ram@,
                    color_ram@,
                ),
    {
        let mut row = [0u8; SCREEN_WIDTH];
        fill_background_row(&mut row, &self.registers, display_line, char_rom, screen_ram, color_ram);
        self.store_row(display_line, row);
    }

    /// The current raster line.
    pub fn raster(&self) -> (r: u16)
        ensures
            r == self@.raster,
    {
        self.current_raster
    }

    /// Set the raster line.
    pub fn set_raster(&mut self, raster: u16)
        ensures
            final(self)@ == (VicView { raster: raster, ..old(self)@ }),
    {
        self.current_raster = raster;
    }

    /// Raw register `index`; $FF past the register file.
    pub fn read_register(&self, index: u16) -> (r: u8)
        ensures
            (index as int) < VIC_REGISTER_COUNT ==> r == self@.registers[index as int],
            (index as int) >= VIC_REGISTER_COUNT ==> r == 0xFF,
    {
        if (index as usize) < VIC_REGISTER_COUNT {
            self.registers[index as usize]
        } else {
            0xFF
        }
    }

    /// Store a raw register value, with no side effect; ignored past the
    /// register file.
    pub fn write_register(&mut self, index: u16, value: u8)
        ensures
            (index as int) < VIC_REGISTER_COUNT ==> final(self)@ == (VicView {
                registers: old(self)@.registers.update(index as int, value),
                ..old(self)@
            }),
            (index as int) >= VIC_REGISTER_COUNT ==> final(self)@ == old(self)@,
    {
        if (index as usize) < VIC_REGISTER_COUNT {
            self.registers[index as usize] = value;
        }
    }

    /// All registers.
    pub fn get_all_registers(&self) -> (r: [u8; VIC_REGISTER_COUNT])
        ensures
            r@ == self@.registers,
    {
        self.registers
    }

    /// Sprite-sprite collision flags.
    pub fn collision_ss(&self) -> (r: u8)
        ensures
            r == self@.collision_ss,
    {
        self.sprite_collision_ss
    }

    /// Sprite-background collision flags.
    pub fn collision_sb(&self) -> (r: u8)
        ensures
            r == self@.collision_sb,
    {
        self.sprite_collision_sb
    }

    /// Set the sprite-sprite collision flags.
    pub fn set_collision_ss(&mut self, value: u8)
        ensures
            final(self)@ == (VicView { collision_ss: value, ..old(self)@ }),
    {
        self.sprite_collision_ss = value;
    }

    /// Set the sprite-background collision flags.
    pub fn set_collision_sb(&mut self, value: u8)
        ensures
            final(self)@ == (VicView { collision_sb: value, ..old(self)@ }),
    {
        self.sprite_collision_sb = value;
    }

    /// Whether the chip is asserting IRQ.
    pub fn irq_pending(&self) -> (r: bool)
        ensures
            r == self@.irq_pending,
    {
        self.irq_pending
    }

    /// Set the IRQ line state.
    pub fn set_irq_pending(&mut self, pending: bool)
        ensures
            final(self)@ == (VicView { irq_pending: pending, ..old(self)@ }),
    {
        self.irq_pending = pending;
    }

    /// Border colour ($D020, 0-15).
    pub fn border_color(&self) -> (r: u8)
        ensures
            r == self@.registers[0x20] & 0x0F,
    {
        self.registers[0x20] & 0x0F
    }

    /// Background colour 0 ($D021).
    pub fn background_color(&self) -> (r: u8)
        ensures
            r == bg(self@.registers, 0),
    {
        self.registers[0x21] & 0x0F
    }

    /// Background colour 1 ($D022).
    pub fn background_color_1(&self) -> (r: u8)
        ensures
            r == bg(self@.registers, 1),
    {
        self.registers[0x22] & 0x0F
    }

    /// Background colour 2 ($D023).
    pub fn background_color_2(&self) -> (r: u8)
        ensures
            r == bg(self@.registers, 2),
    {
        self.registers[0x23] & 0x0F
    }

    /// Background colour 3 ($D024).
    pub fn background_color_3(&self) -> (r: u8)
        ensures
            r == bg(self@.registers, 3),
    {
        self.registers[0x24] & 0x0F
    }

    /// Display enable (DEN, $D011 bit 4).
    pub fn display_enabled(&self) -> (r: bool)
        ensures
            r == (self@.registers[0x11] & 0x10 != 0),
    {
        self.registers[0x11] & 0x10 != 0
    }

    /// Bitmap mode (BMM, $D011 bit 5).
    pub fn bitmap_mode(&self) -> (r: bool)
        ensures
            r == (self@.registers[0x11] & 0x20 != 0),
    {
        self.registers[0x11] & 0x20 != 0
    }

    /// Multicolour mode (MCM, $D016 bit 4).
    pub fn multicolor_mode(&self) -> (r: bool)
        ensures
            r == (self@.registers[0x16] & 0x10 != 0),
    {
        self.registers[0x16] & 0x10 != 0
    }

    /// Extended colour mode (ECM, $D011 bit 6).
    pub fn extended_color_mode(&self) -> (r: bool)
        ensures
            r == (self@.registers[0x11] & 0x40 != 0),
    {
        self.registers[0x11] & 0x40 != 0
    }

    /// Render raster line `scanline`. Lines 51-250 are display lines 0-199
    /// and are rendered in the current mode; other lines leave the
    /// framebuffer alone. Only the framebuffer changes.
    pub fn step_scanline(&mut self, scanline: u16, char_rom: &[u8], screen_ram: &[u8], color_ram: &[u8])
        ensures
            scanline_rendered(old(self)@, final(self)@, scanline, char_rom@, screen_ram@, color_ram@),
    {
        let display_start = DISPLAY_START_LINE_PAL;
        let display_end = display_start + SCREEN_HEIGHT as u16;
        if scanline < display_start || scanline >= display_end {
            return;
        }
        let display_line = (scanline - display_start) as usize;
        let is_bitmap_mode = self.bitmap_mode();
        let is_multicolor = self.multicolor_mode();
        let is_ecm = self.extended_color_mode();
        let enabled = self.display_enabled();
        if !enabled {
            self.render_background_scanline(display_line, char_rom, screen_ram, color_ram);
        } else if !is_bitmap_mode && !is_ecm && !is_multicolor {
            self.render_standard_text_scanline(display_line, char_rom, screen_ram, color_ram);
        } else if !is_bitmap_mode && !is_ecm && is_multicolor {
            self.render_multicolor_text_scanline(display_line, char_rom, screen_ram, color_ram);
        } else if is_bitmap_mode && !is_ecm && !is_multicolor {
            self.render_standard_bitmap_scanline(display_line, char_rom, screen_ram, color_ram);
        } else if is_bitmap_mode && !is_ecm && is_multicolor {
            self.render_multicolor_bitmap_scanline(display_line, char_rom, screen_ram, color_ram);
        } else if !is_bitmap_mode && is_ecm && !is_multicolor {
            self.render_ecm_text_scanline(display_line, char_rom, screen_ram, color_ram);
        } else {
            self.render_background_scanline(display_line, char_rom, screen_ram, color_ram);
        }
    }

    /// Vertical fine scroll ($D011 bits 0-2).
    pub fn y_scroll(&self) -> (r: u8)
        ensures
            r == self@.registers[0x11] & 0x07,
    {
        self.registers[0x11] & 0x07
    }

    /// Horizontal fine scroll ($D016 bits 0-2).
    pub fn x_scroll(&self) -> (r: u8)
        ensures
            r == self@.registers[0x16] & 0x07,
    {
        self.registers[0x16] & 0x07
    }

    /// At the raster compare line, set the raster flag ($D019 bit 0) and
    /// assert IRQ if the raster interrupt is enabled ($D01A bit 0).
    pub fn check_raster_irq(&mut self)
        ensures
            old(self)@.raster == raster_compare(old(self)@.registers) ==> final(self)@ == (VicView {
                registers: old(self)@.registers.update(0x19, old(self)@.registers[0x19] | 0x01),
                irq_pending: old(self)@.irq_pending || old(self)@.registers[0x1A] & 0x01 != 0,
                ..old(self)@
            }),
            old(self)@.raster != raster_compare(old(self)@.registers) ==> final(self)@ == old(
                self,
            )@,
            old(self)@.raster as int == old(self)@.registers[0x12] as int + (if old(
                self,
            )@.registers[0x11] & 0x80 != 0 {
                256int
            } else {
                0int
            }) ==> final(self)@ == (VicView {
                registers: old(self)@.registers.update(0x19, old(self)@.registers[0x19] | 0x01),
                irq_pending: old(self)@.irq_pending || old(self)@.registers[0x1A] & 0x01 != 0,
                ..old(self)@
            }),
            old(self)@.raster as int != old(self)@.registers[0x12] as int + (if old(
                self,
            )@.registers[0x11] & 0x80 != 0 {
                256int
            } else {
                0int
            }) ==> final(self)@ == old(self)@,
    {
        proof {
            VicII::lemma_sizes(self);
            lemma_raster_compare_line(self@);
        }
        let raster_compare = self.get_raster_compare();
        if self.current_raster == raster_compare {
            self.registers[0x19] = self.registers[0x19] | 0x01;
            if self.registers[0x1A] & 0x01 != 0 {
                self.irq_pending = true;
            }
        }
    }

    fn get_raster_compare(&self) -> (r: u16)
        ensures
            r == raster_compare(self@.registers),
    {
        let low = self.registers[0x12] as u16;
        let high = ((self.registers[0x11] & 0x80) as u16) << 1u16;
        high | low
    }

    /// Advance the raster, wrapping to 0 at `max_scanlines`.
    pub fn advance_scanline(&mut self, max_scanlines: u16)
        requires
            old(self)@.raster < u16::MAX,
        ensures
            final(self)@ == (VicView {
                raster: if old(self)@.raster + 1 >= max_scanlines {
                    0
                } else {
                    (old(self)@.raster + 1) as u16
                },
                ..old(self)@
            }),
    {
        self.current_raster = self.current_raster + 1;
        if self.current_raster >= max_scanlines {
            self.current_raster = 0;
        }
    }

    /// Back to the power-on state.
    pub fn reset(&mut self)
        ensures
            final(self)@ == power_on_vic(),
    {
        *self = Self::new();
    }

    /// Bus read. $1E/$1F are the collision flags, $11 carries raster bit 8
    /// in bit 7, $12 the raster's low byte, $19 reads its unused bits as 1;
    /// other registers read raw, $FF past the register file.
    pub fn read(&self, offset: u16) -> (r: u8)
        ensures
            r == bus_read(self@, offset),
    {
        let o = offset as usize;
        if o == 0x1E {
            self.sprite_collision_ss
        } else if o == 0x1F {
            self.sprite_collision_sb
        } else if o == 0x11 {
            let raster_bit8: u8 = if self.current_raster > 255 {
                0x80
            } else {
                0
            };
            (self.registers[0x11] & 0x7F) | raster_bit8
        } else if o == 0x12 {
            (self.current_raster & 0xFF) as u8
        } else if o == 0x19 {
            self.registers[0x19] | 0x70
        } else if o < VIC_REGISTER_COUNT {
            self.registers[o]
        } else {
            0xFF
        }
    }

    /// Bus write. Collision registers are read-only; writing $19 clears the
    /// flags whose bits are set (and drops IRQ when no enabled flag is
    /// left); other registers store the value; past the register file the
    /// write is ignored.
    pub fn write(&mut self, offset: u16, value: u8)
        ensures
            final(self)@ == bus_write(old(self)@, offset, value),
    {
        let o = offset as usize;
        if o >= VIC_REGISTER_COUNT {
            return;
        }
        if o == 0x1E || o == 0x1F {
        } else if o == 0x19 {
            self.registers[0x19] = self.registers[0x19] & !(value & 0x0F);
            if self.registers[0x19] & self.registers[0x1A] & 0x0F == 0 {
                self.irq_pending = false;
            }
        } else {
            self.registers[o] = value;
        }
    }

    /// The registers occupy 64 bytes of address space.
    pub fn size(&self) -> (r: u16)
        ensures
            r == 64,
    {
        64
    }

    /// Whether the chip is asserting IRQ.
    pub fn has_interrupt(&self) -> (r: bool)
        ensures
            r == self@.irq_pending,
    {
        self.irq_pending
    }
}

impl Default for VicII {
    fn default() -> (v: Self)
        ensures
            v@ == power_on_vic(),
    {
        Self::new()
    }
}

} // verus!
