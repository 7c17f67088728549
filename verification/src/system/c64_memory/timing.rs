//! What passes in the machine while the CPU runs (the chips' clocks and
//! the raster beam's progress through the frame), and where a reset puts
//! it.

use vstd::prelude::*;

use super::{
    mem_read_value, reset_memory, vic_color_data, vic_pattern_data, vic_screen_data, C64Memory,
    C64MemoryView,
};
use super::snapshot::{CpuFlags, CpuRegisters, MachineState};
use crate::devices::cia::{Cia6526, CiaView};
use crate::devices::sid::{envelopes_clocked, oscillators_clocked, SidView};
use crate::devices::vic_ii::{
    raster_compare, scanline_pixel, scanline_rendered, VicII, VicView, DISPLAY_START_LINE_PAL,
    FRAMEBUFFER_SIZE, SCREEN_WIDTH,
};

verus! {

/// A CIA after `n` clock cycles.
pub open spec fn cia_after(c: CiaView, n: nat) -> CiaView
    decreases n,
{
    if n == 0 {
        c
    } else {
        Cia6526::spec_clocked(cia_after(c, (n - 1) as nat))
    }
}

/// The SID after `n` clock cycles.
pub open spec fn sid_after(s: SidView, n: nat) -> SidView
    decreases n,
{
    if n == 0 {
        s
    } else {
        let p = sid_after(s, (n - 1) as nat);
        SidView { voices: envelopes_clocked(oscillators_clocked(p.voices)), ..p }
    }
}

/// A line counter after `lines` line ends, each moving it on by one and
/// wrapping to 0 at `total`.
pub open spec fn line_after(line: u16, lines: nat, total: u16) -> u16
    decreases lines,
{
    if lines == 0 {
        line
    } else {
        let prev = line_after(line, (lines - 1) as nat, total);
        if prev + 1 >= total {
            0
        } else {
            (prev + 1) as u16
        }
    }
}

/// How many scanlines `cycles` more cycles complete.
pub open spec fn lines_ended(m: MachineState, cycles: nat) -> nat {
    ((m.cycle_in_scanline + cycles) / (m.region.cycles_per_line() as int)) as nat
}

/// The machine's place in the frame after `cycles` more cycles.
pub open spec fn timing_after(m: MachineState, cycles: nat) -> MachineState {
    MachineState {
        cycle_in_scanline: ((m.cycle_in_scanline + cycles) % (m.region.cycles_per_line() as int)) as u16,
        current_scanline: line_after(m.current_scanline, lines_ended(m, cycles), m.region.scanlines()),
        ..m
    }
}

/// The chip after drawing raster line `scanline` from the given pattern,
/// screen and colour data: within the display window that line's pixels
/// are replaced; nothing else changes.
pub open spec fn drawn(before: VicView, scanline: u16, rom: Seq<u8>, screen: Seq<u8>, color: Seq<u8>) -> VicView {
    if DISPLAY_START_LINE_PAL <= scanline < DISPLAY_START_LINE_PAL + 200 {
        let d = scanline - DISPLAY_START_LINE_PAL;
        VicView {
            framebuffer: Seq::new(
                FRAMEBUFFER_SIZE as nat,
                |i: int|
                    if d * SCREEN_WIDTH <= i < d * SCREEN_WIDTH + SCREEN_WIDTH {
                        scanline_pixel(before.registers, d, i - d * SCREEN_WIDTH, rom, screen, color)
                    } else {
                        before.framebuffer[i]
                    },
            ),
            ..before
        }
    } else {
        before
    }
}

/// The chip after its raster-interrupt check: at the compare line the
/// raster flag ($D019 bit 0) is set, and IRQ asserted when enabled.
pub open spec fn raster_checked(v: VicView) -> VicView {
    if v.raster == raster_compare(v.registers) {
        VicView {
            registers: v.registers.update(0x19, v.registers[0x19] | 0x01),
            irq_pending: v.irq_pending || v.registers[0x1A] & 0x01 != 0,
            ..v
        }
    } else {
        v
    }
}

/// The chip with its raster moved on a line, wrapping to 0 at `total`.
pub open spec fn raster_advanced(v: VicView, total: u16) -> VicView {
    VicView {
        raster: if v.raster + 1 >= total {
            0
        } else {
            (v.raster + 1) as u16
        },
        ..v
    }
}

/// The memory system after `k` line ends, the first on line `line`: each
/// draws the line the machine is on from the VIC-II's view of memory,
/// checks the raster interrupt and advances the raster.
pub open spec fn memory_after_lines(m: C64MemoryView, line: u16, k: nat, total: u16) -> C64MemoryView
    decreases k,
{
    if k == 0 {
        m
    } else {
        let p = memory_after_lines(m, line, (k - 1) as nat, total);
        let current = line_after(line, (k - 1) as nat, total);
        let v = drawn(p.vic, current, vic_pattern_data(p), vic_screen_data(p), vic_color_data(p));
        C64MemoryView { vic: raster_advanced(raster_checked(v), total), ..p }
    }
}

/// Line ends change only the VIC-II, and move its raster on by one line
/// each, wrapping at `total`.
pub proof fn lemma_line_ends_move_the_raster(m: C64MemoryView, line: u16, k: nat, total: u16)
    ensures
        memory_after_lines(m, line, k, total) == (C64MemoryView {
            vic: memory_after_lines(m, line, k, total).vic,
            ..m
        }),
        memory_after_lines(m, line, k, total).vic.raster == line_after(m.vic.raster, k, total),
    decreases k,
{
    if k > 0 {
        lemma_line_ends_move_the_raster(m, line, (k - 1) as nat, total);
    }
}

proof fn lemma_rendered_is_drawn(
    before: VicView,
    after: VicView,
    scanline: u16,
    rom: Seq<u8>,
    screen: Seq<u8>,
    color: Seq<u8>,
)
    requires
        scanline_rendered(before, after, scanline, rom, screen, color),
        before.framebuffer.len() == FRAMEBUFFER_SIZE,
    ensures
        after == drawn(before, scanline, rom, screen, color),
{
    let want = drawn(before, scanline, rom, screen, color);
    if DISPLAY_START_LINE_PAL <= scanline < DISPLAY_START_LINE_PAL + 200 {
        let d = scanline - DISPLAY_START_LINE_PAL;
        assert forall|i: int| 0 <= i < FRAMEBUFFER_SIZE implies after.framebuffer[i]
            == want.framebuffer[i] by {
            if d * SCREEN_WIDTH <= i < d * SCREEN_WIDTH + SCREEN_WIDTH {
                let j = i - d * SCREEN_WIDTH;
                assert(after.framebuffer[d * SCREEN_WIDTH + j] == scanline_pixel(
                    before.registers,
                    d,
                    j,
                    rom,
                    screen,
                    color,
                ));
            }
        }
        assert(after.framebuffer =~= want.framebuffer);
    }
}

proof fn lemma_line_after_add(line: u16, p: nat, q: nat, total: u16)
    ensures
        line_after(line_after(line, p, total), q, total) == line_after(line, p + q, total),
    decreases q,
{
    if q > 0 {
        lemma_line_after_add(line, p, (q - 1) as nat, total);
    }
}

proof fn lemma_line_after_on_screen(line: u16, n: nat, total: u16)
    requires
        line < total,
    ensures
        line_after(line, n, total) < total,
    decreases n,
{
    if n > 0 {
        lemma_line_after_on_screen(line, (n - 1) as nat, total);
    }
}

/// Letting cycles pass in two runs is letting them pass in one: the
/// machine's place in the frame after `a` and then `b` more cycles is
/// its place after `a + b`.
pub proof fn lemma_timing_composes(m: MachineState, a: nat, b: nat)
    requires
        m.cycle_in_scanline + a <= u16::MAX,
    ensures
        timing_after(timing_after(m, a), b) == timing_after(m, a + b),
{
    let d = m.region.cycles_per_line() as int;
    let x = m.cycle_in_scanline + a;
    let q1 = x / d;
    let r1 = x % d;
    vstd::arithmetic::div_mod::lemma_fundamental_div_mod(x, d);
    let m1 = timing_after(m, a);
    assert(m1.cycle_in_scanline == r1);
    let y = r1 + b;
    let q2 = y / d;
    let r2 = y % d;
    vstd::arithmetic::div_mod::lemma_fundamental_div_mod(y, d);
    assert(x + b == (q1 + q2) * d + r2) by (nonlinear_arith)
        requires
            x == d * q1 + r1,
            y == d * q2 + r2,
            y == r1 + b,
    ;
    vstd::arithmetic::div_mod::lemma_fundamental_div_mod_converse_div(x + b, d, q1 + q2, r2);
    vstd::arithmetic::div_mod::lemma_fundamental_div_mod_converse_mod(x + b, d, q1 + q2, r2);
    assert(q1 >= 0 && q2 >= 0) by (nonlinear_arith)
        requires
            x >= 0,
            y >= 0,
            d > 0,
            q1 == x / d,
            q2 == y / d,
    ;
    lemma_line_after_add(m.current_scanline, q1 as nat, q2 as nat, m.region.scanlines());
}

/// Clocking the chips for `a` and then `b` cycles is clocking them for
/// `a + b`.
pub proof fn lemma_clocks_compose(c: CiaView, s: SidView, a: nat, b: nat)
    ensures
        cia_after(cia_after(c, a), b) == cia_after(c, a + b),
        sid_after(sid_after(s, a), b) == sid_after(s, a + b),
    decreases b,
{
    if b > 0 {
        lemma_clocks_compose(c, s, a, (b - 1) as nat);
    }
}

/// The beam stays within the frame: after any number of cycles the cycle
/// within the line is below the line's length, and a line counter that
/// starts on a line of the frame stays on one.
pub proof fn lemma_timing_in_frame(m: MachineState, cycles: nat)
    requires
        m.current_scanline < m.region.scanlines(),
    ensures
        timing_after(m, cycles).cycle_in_scanline < m.region.cycles_per_line(),
        timing_after(m, cycles).current_scanline < m.region.scanlines(),
{
    lemma_line_after_on_screen(m.current_scanline, lines_ended(m, cycles), m.region.scanlines());
}

impl C64Memory {
    /// Let the cycles of one CPU instruction pass: CIA1, CIA2 and the SID
    /// are clocked once per cycle; then, for each scanline the cycles
    /// complete, the line is rendered, the raster interrupt is checked and
    /// the raster advances (wrapping at the region's line count), as does
    /// the machine's own line counter.
    pub fn run_cycles(&mut self, machine: &mut MachineState, cycles: u8)
        requires
            old(machine).cycle_in_scanline + cycles <= u16::MAX,
            old(machine).current_scanline < u16::MAX,
            old(self)@.vic.raster < u16::MAX,
        ensures
            *final(machine) == timing_after(*old(machine), cycles as nat),
            final(self)@ == memory_after_lines(
                C64MemoryView {
                    cia1: cia_after(old(self)@.cia1, cycles as nat),
                    cia2: cia_after(old(self)@.cia2, cycles as nat),
                    sid: sid_after(old(self)@.sid, cycles as nat),
                    ..old(self)@
                },
                old(machine).current_scanline,
                lines_ended(*old(machine), cycles as nat),
                old(machine).region.scanlines(),
            ),
    {
        let ghost m0 = self@;
        let ghost t0 = *machine;
        let mut n: u8 = 0;
        while n < cycles
            invariant
                n <= cycles,
                self@ == (C64MemoryView {
                    cia1: cia_after(m0.cia1, n as nat),
                    cia2: cia_after(m0.cia2, n as nat),
                    sid: sid_after(m0.sid, n as nat),
                    ..m0
                }),
            decreases cycles - n,
        {
            self.cia1.clock();
            self.cia2.clock();
            self.sid.clock();
            n += 1;
        }
        let ghost m1 = self@;
        let per_line = machine.region.cycles_per_line();
        let total_lines = machine.region.scanlines();
        let mut cycle: u16 = machine.cycle_in_scanline + cycles as u16;
        let ghost mut k: nat = 0;
        let ghost mut consumed: int = 0;
        proof {
            VicII::lemma_sizes(&self.vic);
        }
        while cycle >= per_line
            invariant
                per_line == t0.region.cycles_per_line(),
                total_lines == t0.region.scanlines(),
                per_line >= 63,
                cycle + consumed == t0.cycle_in_scanline + cycles,
                consumed == k * per_line,
                machine.region == t0.region,
                machine.cycle_in_scanline == t0.cycle_in_scanline,
                machine.frame_count == t0.frame_count,
                machine.running == t0.running,
                machine.current_scanline == line_after(t0.current_scanline, k, total_lines),
                machine.current_scanline < u16::MAX,
                self@ == memory_after_lines(m1, t0.current_scanline, k, total_lines),
                self@.vic.raster < u16::MAX,
                self@.vic.registers.len() == 47,
                self@.vic.framebuffer.len() == FRAMEBUFFER_SIZE,
            decreases cycle,
        {
            cycle = cycle - per_line;
            proof {
                assert((k + 1) * per_line == k * per_line + per_line) by (nonlinear_arith);
                consumed = consumed + per_line;
                k = k + 1;
            }
            let ghost before = self@;
            self.render_scanline(machine.current_scanline);
            proof {
                lemma_rendered_is_drawn(
                    before.vic,
                    self@.vic,
                    machine.current_scanline,
                    vic_pattern_data(before),
                    vic_screen_data(before),
                    vic_color_data(before),
                );
            }
            machine.current_scanline = machine.current_scanline + 1;
            self.vic.check_raster_irq();
            if machine.current_scanline >= total_lines {
                machine.current_scanline = 0;
            }
            self.vic.advance_scanline(total_lines);
        }
        machine.cycle_in_scanline = cycle;
        proof {
            let x = t0.cycle_in_scanline + cycles;
            assert(x == k * per_line + cycle);
            vstd::arithmetic::div_mod::lemma_fundamental_div_mod_converse_div(
                x,
                per_line as int,
                k as int,
                cycle as int,
            );
            vstd::arithmetic::div_mod::lemma_fundamental_div_mod_converse_mod(
                x,
                per_line as int,
                k as int,
                cycle as int,
            );
        }
    }
}

/// The address the reset vector at $FFFC/$FFFD holds, as the CPU reads
/// it (low byte first).
pub open spec fn reset_vector(m: C64MemoryView) -> u16 {
    ((mem_read_value(m, 0xFFFD) as u16) << 8u16) | (mem_read_value(m, 0xFFFC) as u16)
}

/// The CPU after a reset: at `pc`, stack pointer $FD, registers cleared,
/// interrupts disabled and every other flag clear; its cycle count and
/// interrupt lines stay.
pub open spec fn cpu_after_reset(cpu: CpuRegisters, pc: u16) -> CpuRegisters {
    CpuRegisters {
        pc,
        sp: 0xFD,
        a: 0,
        x: 0,
        y: 0,
        flags: CpuFlags {
            negative: false,
            overflow: false,
            brk: false,
            decimal: false,
            interrupt: true,
            zero: false,
            carry: false,
        },
        ..cpu
    }
}

impl C64Memory {
    /// Reset the machine: the memory system back to power-on (`reset`),
    /// the CPU to the address of the reset vector, and the beam to the top
    /// of the frame, running.
    pub fn reset_machine(&mut self, cpu: &mut CpuRegisters, machine: &mut MachineState)
        ensures
            final(self)@ == reset_memory(old(self)@),
            *final(cpu) == cpu_after_reset(*old(cpu), reset_vector(reset_memory(old(self)@))),
            *final(machine) == (MachineState {
                current_scanline: 0,
                cycle_in_scanline: 0,
                running: true,
                ..*old(machine)
            }),
    {
        self.reset();
        let pc_low = self.read(0xFFFC) as u16;
        let pc_high = self.read(0xFFFD) as u16;
        cpu.pc = (pc_high << 8u16) | pc_low;
        cpu.sp = 0xFD;
        cpu.a = 0;
        cpu.x = 0;
        cpu.y = 0;
        cpu.flags = CpuFlags {
            negative: false,
            overflow: false,
            brk: false,
            decimal: false,
            interrupt: true,
            zero: false,
            carry: false,
        };
        machine.current_scanline = 0;
        machine.cycle_in_scanline = 0;
        machine.running = true;
    }
}

/// A frame in progress: the cycles still to run and those run so far.
#[derive(Debug, Clone, Copy, PartialEq, Eq, Structural)]
pub struct FrameRun {
    pub cycles_remaining: i32,
    pub total_cycles: u32,
}

impl FrameRun {
    /// Start a frame of the region's cycles per frame; none while the
    /// machine is paused.
    pub fn start(machine: &MachineState) -> (r: Option<FrameRun>)
        ensures
            machine.running ==> r == Some(
                FrameRun {
                    cycles_remaining: (machine.region.scanlines() * machine.region.cycles_per_line()) as i32,
                    total_cycles: 0,
                },
            ),
            !machine.running ==> r is None,
    {
        if !machine.running {
            return None;
        }
        let per_frame = machine.region.cycles_per_frame();
        Some(FrameRun { cycles_remaining: per_frame as i32, total_cycles: 0 })
    }

    /// After the CPU ran an instruction of `cycles` cycles: count them,
    /// let them pass in the machine (`run_cycles`), and once the frame's
    /// cycles are used up count the frame and report it finished.
    pub fn after_instruction(
        &mut self,
        memory: &mut C64Memory,
        machine: &mut MachineState,
        cycles: u8,
    ) -> (done: bool)
        requires
            old(self).cycles_remaining >= i32::MIN + 255,
            old(self).total_cycles + cycles <= u32::MAX,
            old(machine).cycle_in_scanline + cycles <= u16::MAX,
            old(machine).current_scanline < u16::MAX,
            old(memory)@.vic.raster < u16::MAX,
            old(self).cycles_remaining - cycles <= 0 ==> old(machine).frame_count < u64::MAX,
        ensures
            final(self).cycles_remaining == old(self).cycles_remaining - cycles,
            final(self).total_cycles == old(self).total_cycles + cycles,
            done == (final(self).cycles_remaining <= 0),
            *final(machine) == (MachineState {
                frame_count: if done {
                    (old(machine).frame_count + 1) as u64
                } else {
                    old(machine).frame_count
                },
                ..timing_after(*old(machine), cycles as nat)
            }),
            final(memory)@ == memory_after_lines(
                C64MemoryView {
                    cia1: cia_after(old(memory)@.cia1, cycles as nat),
                    cia2: cia_after(old(memory)@.cia2, cycles as nat),
                    sid: sid_after(old(memory)@.sid, cycles as nat),
                    ..old(memory)@
                },
                old(machine).current_scanline,
                lines_ended(*old(machine), cycles as nat),
                old(machine).region.scanlines(),
            ),
    {
        self.cycles_remaining = self.cycles_remaining - cycles as i32;
        self.total_cycles = self.total_cycles + cycles as u32;
        memory.run_cycles(machine, cycles);
        if self.cycles_remaining <= 0 {
            machine.frame_count = machine.frame_count + 1;
            true
        } else {
            false
        }
    }
}

} // verus!
