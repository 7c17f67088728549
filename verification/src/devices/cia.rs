//! MOS 6526 Complex Interface Adapter.
//!
//! CIA1 ($DC00) scans the keyboard and joysticks and raises IRQ; CIA2
//! ($DD00) drives the IEC bus and selects the VIC-II bank and raises NMI.
//! Each chip has two I/O ports, two 16-bit countdown timers, a time-of-day
//! clock with alarm and a serial data register; its 16 registers mirror
//! across a 256-byte page.

use vstd::prelude::*;

verus! {

/// Number of distinct CIA registers.
pub const CIA_REGISTER_COUNT: usize = 16;

/// An 8-bit I/O port.
#[derive(Debug, Clone, Copy, Default)]
pub struct CiaPort {
    /// Output latch.
    pub data: u8,
    /// Data direction (1 = output).
    pub ddr: u8,
}

/// What a port reads: output bits from the latch, input bits from outside.
pub open spec fn port_value(p: CiaPort, external: u8) -> u8 {
    (p.data & p.ddr) | (external & !p.ddr)
}

impl CiaPort {
    /// All pins inputs, latch clear.
    pub fn new() -> (p: Self)
        ensures
            p == (CiaPort { data: 0, ddr: 0 }),
    {
        CiaPort { data: 0, ddr: 0 }
    }

    /// The driven output bits.
    pub fn output(&self) -> (r: u8)
        ensures
            r == self.data & self.ddr,
    {
        self.data & self.ddr
    }

    /// Read the port, combining the latch with the external lines.
    pub fn read(&self, external: u8) -> (r: u8)
        ensures
            r == port_value(*self, external),
    {
        (self.data & self.ddr) | (external & !self.ddr)
    }
}

/// A 16-bit countdown timer.
#[derive(Debug, Clone, Copy)]
pub struct CiaTimer {
    /// Current count.
    pub counter: u16,
    /// Reload value.
    pub latch: u16,
    /// Counting is enabled.
    pub running: bool,
    /// Stop after the next underflow.
    pub one_shot: bool,
    /// The last clock underflowed.
    pub underflow: bool,
}

/// One clock of a timer: the new timer and whether it underflowed.
/// A running timer at zero underflows, reloads from the latch and stops if
/// it is one-shot; otherwise a running timer counts down.
pub open spec fn timer_clocked(t: CiaTimer) -> (CiaTimer, bool) {
    if !t.running {
        (CiaTimer { underflow: false, ..t }, false)
    } else if t.counter == 0 {
        (
            CiaTimer {
                underflow: true,
                counter: t.latch,
                running: !t.one_shot,
                ..t
            },
            true,
        )
    } else {
        (CiaTimer { underflow: false, counter: (t.counter - 1) as u16, ..t }, false)
    }
}

/// A timer after `n` clocks.
pub open spec fn timer_after(t: CiaTimer, n: nat) -> CiaTimer
    decreases n,
{
    if n == 0 {
        t
    } else {
        timer_after(timer_clocked(t).0, (n - 1) as nat)
    }
}

impl CiaTimer {
    /// Counter and latch at $FFFF, stopped, continuous mode.
    pub fn new() -> (t: Self)
        ensures
            t == (CiaTimer {
                counter: 0xFFFF,
                latch: 0xFFFF,
                running: false,
                one_shot: false,
                underflow: false,
            }),
    {
        CiaTimer { counter: 0xFFFF, latch: 0xFFFF, running: false, one_shot: false, underflow: false }
    }

    /// Clock the timer once; returns whether it underflowed.
    pub fn clock(&mut self) -> (r: bool)
        ensures
            (*final(self), r) == timer_clocked(*old(self)),
    {
        self.underflow = false;
        if !self.running {
            return false;
        }
        if self.counter == 0 {
            self.underflow = true;
            self.counter = self.latch;
            if self.one_shot {
                self.running = false;
            }
            true
        } else {
            self.counter = self.counter - 1;
            false
        }
    }

    /// Load the counter from the latch.
    pub fn force_reload(&mut self)
        ensures
            *final(self) == (CiaTimer { counter: old(self).latch, ..*old(self) }),
    {
        self.counter = self.latch;
    }
}

impl Default for CiaTimer {
    fn default() -> (t: Self)
        ensures
            t == (CiaTimer {
                counter: 0xFFFF,
                latch: 0xFFFF,
                running: false,
                one_shot: false,
                underflow: false,
            }),
    {
        Self::new()
    }
}

/// A running timer starting at `counter` reaches zero after `counter`
/// clocks without underflowing; the next clock underflows and reloads the
/// latch, and the timer keeps running unless it is one-shot.
pub proof fn lemma_timer_countdown(t: CiaTimer)
    requires
        t.running,
    ensures
        timer_after(t, t.counter as nat).counter == 0,
        timer_after(t, t.counter as nat).running,
        timer_after(t, t.counter as nat).latch == t.latch,
        timer_after(t, t.counter as nat).one_shot == t.one_shot,
        timer_clocked(timer_after(t, t.counter as nat)).1,
        timer_clocked(timer_after(t, t.counter as nat)).0.counter == t.latch,
        timer_clocked(timer_after(t, t.counter as nat)).0.running == !t.one_shot,
    decreases t.counter,
{
    if t.counter > 0 {
        let next = timer_clocked(t).0;
        assert(next.counter == t.counter - 1);
        lemma_timer_countdown(next);
        assert(timer_after(t, t.counter as nat) == timer_after(next, next.counter as nat));
    }
}

/// Time-of-day clock (BCD) with alarm.
#[derive(Debug, Clone, Copy)]
pub struct TodClock {
    /// Tenths of seconds.
    pub tenths: u8,
    /// Seconds.
    pub seconds: u8,
    /// Minutes.
    pub minutes: u8,
    /// Hours (bit 7 = PM).
    pub hours: u8,
    /// Alarm tenths.
    pub alarm_tenths: u8,
    /// Alarm seconds.
    pub alarm_seconds: u8,
    /// Alarm minutes.
    pub alarm_minutes: u8,
    /// Alarm hours.
    pub alarm_hours: u8,
    /// Stopped during a write sequence.
    pub stopped: bool,
    /// Output latched during a read sequence.
    pub latched: bool,
    /// Latched tenths.
    pub latch_tenths: u8,
    /// Latched seconds.
    pub latch_seconds: u8,
    /// Latched minutes.
    pub latch_minutes: u8,
}

impl TodClock {
    /// The power-on clock: 1:00 AM, alarm at zero, running, not latched.
    pub open spec fn spec_power_on() -> TodClock {
        TodClock {
            tenths: 0,
            seconds: 0,
            minutes: 0,
            hours: 0x01,
            alarm_tenths: 0,
            alarm_seconds: 0,
            alarm_minutes: 0,
            alarm_hours: 0,
            stopped: false,
            latched: false,
            latch_tenths: 0,
            latch_seconds: 0,
            latch_minutes: 0,
        }
    }

    /// The power-on clock.
    pub fn new() -> (t: Self)
        ensures
            t == TodClock::spec_power_on(),
            t.hours == 0x01,
            t.tenths == 0 && t.seconds == 0 && t.minutes == 0,
            t.alarm_tenths == 0 && t.alarm_seconds == 0 && t.alarm_minutes == 0 && t.alarm_hours == 0,
            !t.stopped && !t.latched,
    {
        TodClock {
            tenths: 0,
            seconds: 0,
            minutes: 0,
            hours: 0x01,
            alarm_tenths: 0,
            alarm_seconds: 0,
            alarm_minutes: 0,
            alarm_hours: 0,
            stopped: false,
            latched: false,
            latch_tenths: 0,
            latch_seconds: 0,
            latch_minutes: 0,
        }
    }

    /// The current time equals the alarm time.
    pub fn alarm_match(&self) -> (r: bool)
        ensures
            r == (self.tenths == self.alarm_tenths && self.seconds == self.alarm_seconds
                && self.minutes == self.alarm_minutes && self.hours == self.alarm_hours),
    {
        self.tenths == self.alarm_tenths && self.seconds == self.alarm_seconds && self.minutes
            == self.alarm_minutes && self.hours == self.alarm_hours
    }
}

impl Default for TodClock {
    fn default() -> (t: Self)
        ensures
            t == TodClock::spec_power_on(),
    {
        Self::new()
    }
}

/// Which CIA: CIA1 raises IRQ, CIA2 raises NMI.
#[derive(Debug, Clone, Copy, PartialEq, Eq, Structural)]
pub enum CiaType {
    /// CIA1 (IRQ).
    Cia1,
    /// CIA2 (NMI).
    Cia2,
}

/// MOS 6526 Complex Interface Adapter.
#[derive(Debug)]
pub struct Cia6526 {
    cia_type: CiaType,
    /// I/O port A.
    pub port_a: CiaPort,
    /// I/O port B.
    pub port_b: CiaPort,
    /// Timer A.
    pub timer_a: CiaTimer,
    /// Timer B.
    pub timer_b: CiaTimer,
    /// Time-of-day clock.
    pub tod: TodClock,
    /// Serial data register.
    pub sdr: u8,
    interrupt_flags: u8,
    interrupt_mask: u8,
    interrupt_pending: bool,
    cra: u8,
    crb: u8,
    /// External input on port A (keyboard, joystick 2).
    pub external_a: u8,
    /// External input on port B (keyboard, joystick 1).
    pub external_b: u8,
}

/// Abstract state of a CIA: every register and line.
pub struct CiaView {
    pub cia_type: CiaType,
    pub port_a: CiaPort,
    pub port_b: CiaPort,
    pub timer_a: CiaTimer,
    pub timer_b: CiaTimer,
    pub tod: TodClock,
    pub sdr: u8,
    pub interrupt_flags: u8,
    pub interrupt_mask: u8,
    pub interrupt_pending: bool,
    pub cra: u8,
    pub crb: u8,
    pub external_a: u8,
    pub external_b: u8,
}

impl View for Cia6526 {
    type V = CiaView;

    closed spec fn view(&self) -> CiaView {
        CiaView {
            cia_type: self.cia_type,
            port_a: self.port_a,
            port_b: self.port_b,
            timer_a: self.timer_a,
            timer_b: self.timer_b,
            tod: self.tod,
            sdr: self.sdr,
            interrupt_flags: self.interrupt_flags,
            interrupt_mask: self.interrupt_mask,
            interrupt_pending: self.interrupt_pending,
            cra: self.cra,
            crb: self.crb,
            external_a: self.external_a,
            external_b: self.external_b,
        }
    }
}

impl Cia6526 {
    /// The power-on chip of the given type.
    pub open spec fn spec_new(cia_type: CiaType) -> CiaView {
        CiaView {
            cia_type,
            port_a: CiaPort { data: 0, ddr: 0 },
            port_b: CiaPort { data: 0, ddr: 0 },
            timer_a: CiaTimer {
                counter: 0xFFFF,
                latch: 0xFFFF,
                running: false,
                one_shot: false,
                underflow: false,
            },
            timer_b: CiaTimer {
                counter: 0xFFFF,
                latch: 0xFFFF,
                running: false,
                one_shot: false,
                underflow: false,
            },
            tod: TodClock::spec_power_on(),
            sdr: 0,
            interrupt_flags: 0,
            interrupt_mask: 0,
            interrupt_pending: false,
            cra: 0,
            crb: 0,
            external_a: 0xFF,
            external_b: 0xFF,
        }
    }

    /// The chip after one clock: timer A counts; timer B counts cycles, or
    /// timer A underflows when CRB bits 5-6 are %10. An underflow sets its
    /// flag (bit 0 for A, bit 1 for B) and asserts the line when a flagged
    /// source is enabled in the mask.
    pub open spec fn spec_clocked(c: CiaView) -> CiaView {
        let (ta, ua) = timer_clocked(c.timer_a);
        let flags1 = if ua { c.interrupt_flags | 0x01 } else { c.interrupt_flags };
        let pending1 = c.interrupt_pending || (ua && flags1 & c.interrupt_mask != 0);
        let b_input = if c.crb & 0x60 == 0x40 { ua } else { true };
        let (tb, ub) = if b_input { timer_clocked(c.timer_b) } else { (c.timer_b, false) };
        let flags2 = if ub { flags1 | 0x02 } else { flags1 };
        let pending2 = pending1 || (ub && flags2 & c.interrupt_mask != 0);
        CiaView {
            timer_a: ta,
            timer_b: tb,
            interrupt_flags: flags2,
            interrupt_pending: pending2,
            ..c
        }
    }

    /// The value a bus read of `offset` returns (registers mirror every 16
    /// bytes). The TOD tenths/seconds/minutes read the latch while latched;
    /// the ICR reads the flags with bit 7 set while the line is asserted.
    pub open spec fn spec_read_value(c: CiaView, offset: u16) -> u8 {
        let reg = offset & 0x0F;
        if reg == 0x00 {
            port_value(c.port_a, c.external_a)
        } else if reg == 0x01 {
            port_value(c.port_b, c.external_b)
        } else if reg == 0x02 {
            c.port_a.ddr
        } else if reg == 0x03 {
            c.port_b.ddr
        } else if reg == 0x04 {
            (c.timer_a.counter & 0xFF) as u8
        } else if reg == 0x05 {
            (c.timer_a.counter >> 8) as u8
        } else if reg == 0x06 {
            (c.timer_b.counter & 0xFF) as u8
        } else if reg == 0x07 {
            (c.timer_b.counter >> 8) as u8
        } else if reg == 0x08 {
            if c.tod.latched { c.tod.latch_tenths } else { c.tod.tenths }
        } else if reg == 0x09 {
            if c.tod.latched { c.tod.latch_seconds } else { c.tod.seconds }
        } else if reg == 0x0A {
            if c.tod.latched { c.tod.latch_minutes } else { c.tod.minutes }
        } else if reg == 0x0B {
            c.tod.hours
        } else if reg == 0x0C {
            c.sdr
        } else if reg == 0x0D {
            c.interrupt_flags | if c.interrupt_pending { 0x80u8 } else { 0u8 }
        } else if reg == 0x0E {
            c.cra
        } else {
            c.crb
        }
    }

    /// The chip after a bus read: reading the ICR clears the flags and
    /// releases the line; every other read leaves the chip unchanged.
    pub open spec fn spec_after_read(c: CiaView, offset: u16) -> CiaView {
        if offset & 0x0F == 0x0D {
            CiaView { interrupt_flags: 0, interrupt_pending: false, ..c }
        } else {
            c
        }
    }

    /// The line after the mask may have changed: it is asserted when a
    /// flagged source is enabled, and otherwise keeps its state.
    pub open spec fn pending_after_check(pending: bool, flags: u8, mask: u8) -> bool {
        pending || flags & mask != 0
    }

    /// The chip after a bus write of `value` to `offset`.
    pub open spec fn spec_written(c: CiaView, offset: u16, value: u8) -> CiaView {
        let reg = offset & 0x0F;
        let alarm = c.crb & 0x80 != 0;
        if reg == 0x00 {
            CiaView { port_a: CiaPort { data: value, ..c.port_a }, ..c }
        } else if reg == 0x01 {
            CiaView { port_b: CiaPort { data: value, ..c.port_b }, ..c }
        } else if reg == 0x02 {
            CiaView { port_a: CiaPort { ddr: value, ..c.port_a }, ..c }
        } else if reg == 0x03 {
            CiaView { port_b: CiaPort { ddr: value, ..c.port_b }, ..c }
        } else if reg == 0x04 {
            CiaView {
                timer_a: CiaTimer { latch: (c.timer_a.latch & 0xFF00) | value as u16, ..c.timer_a },
                ..c
            }
        } else if reg == 0x05 {
            let latch = (c.timer_a.latch & 0x00FF) | ((value as u16) << 8u16);
            CiaView {
                timer_a: CiaTimer {
                    latch,
                    counter: if c.timer_a.running { c.timer_a.counter } else { latch },
                    ..c.timer_a
                },
                ..c
            }
        } else if reg == 0x06 {
            CiaView {
                timer_b: CiaTimer { latch: (c.timer_b.latch & 0xFF00) | value as u16, ..c.timer_b },
                ..c
            }
        } else if reg == 0x07 {
            let latch = (c.timer_b.latch & 0x00FF) | ((value as u16) << 8u16);
            CiaView {
                timer_b: CiaTimer {
                    latch,
                    counter: if c.timer_b.running { c.timer_b.counter } else { latch },
                    ..c.timer_b
                },
                ..c
            }
        } else if reg == 0x08 {
            if alarm {
                CiaView { tod: TodClock { alarm_tenths: value & 0x0F, ..c.tod }, ..c }
            } else {
                CiaView { tod: TodClock { tenths: value & 0x0F, stopped: false, ..c.tod }, ..c }
            }
        } else if reg == 0x09 {
            if alarm {
                CiaView { tod: TodClock { alarm_seconds: value & 0x7F, ..c.tod }, ..c }
            } else {
                CiaView { tod: TodClock { seconds: value & 0x7F, ..c.tod }, ..c }
            }
        } else if reg == 0x0A {
            if alarm {
                CiaView { tod: TodClock { alarm_minutes: value & 0x7F, ..c.tod }, ..c }
            } else {
                CiaView { tod: TodClock { minutes: value & 0x7F, ..c.tod }, ..c }
            }
        } else if reg == 0x0B {
            if alarm {
                CiaView { tod: TodClock { alarm_hours: value & 0x9F, ..c.tod }, ..c }
            } else {
                CiaView { tod: TodClock { hours: value & 0x9F, stopped: true, ..c.tod }, ..c }
            }
        } else if reg == 0x0C {
            CiaView { sdr: value, ..c }
        } else if reg == 0x0D {
            let bits = value & 0x1F;
            let mask = if value & 0x80 != 0 {
                c.interrupt_mask | bits
            } else {
                c.interrupt_mask & !bits
            };
            CiaView {
                interrupt_mask: mask,
                interrupt_pending: Self::pending_after_check(
                    c.interrupt_pending,
                    c.interrupt_flags,
                    mask,
                ),
                ..c
            }
        } else if reg == 0x0E {
            let t = CiaTimer {
                running: value & 0x01 != 0,
                one_shot: value & 0x08 != 0,
                ..c.timer_a
            };
            CiaView {
                cra: value,
                timer_a: if value & 0x10 != 0 { CiaTimer { counter: t.latch, ..t } } else { t },
                ..c
            }
        } else {
            let t = CiaTimer {
                running: value & 0x01 != 0,
                one_shot: value & 0x08 != 0,
                ..c.timer_b
            };
            CiaView {
                crb: value,
                timer_b: if value & 0x10 != 0 { CiaTimer { counter: t.latch, ..t } } else { t },
                ..c
            }
        }
    }

    /// A new chip of the given type in its power-on state, both ports'
    /// external lines high.
    pub fn new(cia_type: CiaType) -> (c: Self)
        ensures
            c@ == Cia6526::spec_new(cia_type),
            c@.cia_type == cia_type,
            c@.interrupt_flags == 0,
            c@.interrupt_mask == 0,
            !c@.interrupt_pending,
            c@.cra == 0,
            c@.crb == 0,
            c@.port_a == (CiaPort { data: 0, ddr: 0 }),
            c@.port_b == (CiaPort { data: 0, ddr: 0 }),
            c@.timer_a.counter == 0xFFFF && c@.timer_a.latch == 0xFFFF && !c@.timer_a.running,
            c@.timer_b.counter == 0xFFFF && c@.timer_b.latch == 0xFFFF && !c@.timer_b.running,
            c@.sdr == 0,
            c@.external_a == 0xFF,
            c@.external_b == 0xFF,
    {
        Cia6526 {
            cia_type,
            port_a: CiaPort::new(),
            port_b: CiaPort::new(),
            timer_a: CiaTimer::new(),
            timer_b: CiaTimer::new(),
            tod: TodClock::new(),
            sdr: 0,
            interrupt_flags: 0,
            interrupt_mask: 0,
            interrupt_pending: false,
            cra: 0,
            crb: 0,
            external_a: 0xFF,
            external_b: 0xFF,
        }
    }

    /// CIA1: keyboard, joysticks, IRQ.
    pub fn new_cia1() -> (c: Self)
        ensures
            c@ == Cia6526::spec_new(CiaType::Cia1),
            c@.cia_type == CiaType::Cia1,
    {
        Self::new(CiaType::Cia1)
    }

    /// CIA2: IEC bus, VIC bank, NMI.
    pub fn new_cia2() -> (c: Self)
        ensures
            c@ == Cia6526::spec_new(CiaType::Cia2),
            c@.cia_type == CiaType::Cia2,
    {
        Self::new(CiaType::Cia2)
    }

    /// Clock the chip by one cycle.
    pub fn clock(&mut self)
        ensures
            final(self)@ == Cia6526::spec_clocked(old(self)@),
    {
        let timer_a_underflow = self.timer_a.clock();
        if timer_a_underflow {
            self.interrupt_flags = self.interrupt_flags | 0x01;
            self.check_interrupt();
        }
        let timer_b_input = if self.crb & 0x60 == 0x40 {
            timer_a_underflow
        } else {
            true
        };
        if timer_b_input {
            let timer_b_underflow = self.timer_b.clock();
            if timer_b_underflow {
                self.interrupt_flags = self.interrupt_flags | 0x02;
                self.check_interrupt();
            }
        }
    }

    fn check_interrupt(&mut self)
        ensures
            final(self)@ == (CiaView {
                interrupt_pending: Self::pending_after_check(
                    old(self)@.interrupt_pending,
                    old(self)@.interrupt_flags,
                    old(self)@.interrupt_mask,
                ),
                ..old(self)@
            }),
    {
        if self.interrupt_flags & self.interrupt_mask != 0 {
            self.interrupt_pending = true;
        }
    }

    /// VIC-II bank select: the complement of port A bits 0-1, 0-3 (the
    /// memory bank is 3 minus the port bits).
    pub fn vic_bank(&self) -> (r: u8)
        ensures
            r == !port_value(self@.port_a, self@.external_a) & 0x03,
            r < 4,
    {
        let v = self.port_a.read(self.external_a);
        assert(!v & 0x03 < 4) by (bit_vector);
        !v & 0x03
    }

    /// The bits port A drives (the keyboard column select on CIA1).
    pub fn port_a_output(&self) -> (r: u8)
        ensures
            r == self@.port_a.data & self@.port_a.ddr,
    {
        self.port_a.output()
    }

    /// The external input on port B.
    pub fn external_b(&self) -> (r: u8)
        ensures
            r == self@.external_b,
    {
        self.external_b
    }

    /// What port B reads with the given external input.
    pub fn read_port_b(&self, external: u8) -> (r: u8)
        ensures
            r == port_value(self@.port_b, external),
    {
        self.port_b.read(external)
    }

    /// Back to the power-on state; the type and external lines are kept.
    pub fn reset(&mut self)
        ensures
            final(self)@ == (CiaView {
                external_a: old(self)@.external_a,
                external_b: old(self)@.external_b,
                ..Cia6526::spec_new(old(self)@.cia_type)
            }),
    {
        self.port_a = CiaPort::new();
        self.port_b = CiaPort::new();
        self.timer_a = CiaTimer::new();
        self.timer_b = CiaTimer::new();
        self.tod = TodClock::new();
        self.sdr = 0;
        self.interrupt_flags = 0;
        self.interrupt_mask = 0;
        self.interrupt_pending = false;
        self.cra = 0;
        self.crb = 0;
    }

    /// This is CIA1.
    pub fn is_cia1(&self) -> (r: bool)
        ensures
            r == (self@.cia_type == CiaType::Cia1),
    {
        self.cia_type == CiaType::Cia1
    }

    /// This is CIA2.
    pub fn is_cia2(&self) -> (r: bool)
        ensures
            r == (self@.cia_type == CiaType::Cia2),
    {
        self.cia_type == CiaType::Cia2
    }

    /// Drive port A bits 0-4 from an active-low joystick state.
    pub fn set_joystick_port_a(&mut self, state: u8)
        ensures
            final(self)@ == (CiaView {
                external_a: (old(self)@.external_a & 0xE0) | (!state & 0x1F),
                ..old(self)@
            }),
    {
        self.external_a = (self.external_a & 0xE0) | (!state & 0x1F);
    }

    /// Drive port B bits 0-4 from an active-low joystick state.
    pub fn set_joystick_port_b(&mut self, state: u8)
        ensures
            final(self)@ == (CiaView {
                external_b: (old(self)@.external_b & 0xE0) | (!state & 0x1F),
                ..old(self)@
            }),
    {
        self.external_b = (self.external_b & 0xE0) | (!state & 0x1F);
    }

    /// The latched TOD tenths.
    pub fn tod_latch_tenths(&self) -> (r: u8)
        ensures
            r == self@.tod.latch_tenths,
    {
        self.tod.latch_tenths
    }

    /// The latched TOD seconds.
    pub fn tod_latch_seconds(&self) -> (r: u8)
        ensures
            r == self@.tod.latch_seconds,
    {
        self.tod.latch_seconds
    }

    /// The latched TOD minutes.
    pub fn tod_latch_minutes(&self) -> (r: u8)
        ensures
            r == self@.tod.latch_minutes,
    {
        self.tod.latch_minutes
    }

    /// Set the TOD latch.
    pub fn set_tod_latch(&mut self, tenths: u8, seconds: u8, minutes: u8)
        ensures
            final(self)@ == (CiaView {
                tod: TodClock {
                    latch_tenths: tenths,
                    latch_seconds: seconds,
                    latch_minutes: minutes,
                    ..old(self)@.tod
                },
                ..old(self)@
            }),
            final(self)@.tod.latch_tenths == tenths,
            final(self)@.tod.latch_seconds == seconds,
            final(self)@.tod.latch_minutes == minutes,
    {
        self.tod.latch_tenths = tenths;
        self.tod.latch_seconds = seconds;
        self.tod.latch_minutes = minutes;
    }

    /// The interrupt flags.
    pub fn interrupt_flags(&self) -> (r: u8)
        ensures
            r == self@.interrupt_flags,
    {
        self.interrupt_flags
    }

    /// Set the interrupt flags.
    pub fn set_interrupt_flags(&mut self, flags: u8)
        ensures
            final(self)@ == (CiaView { interrupt_flags: flags, ..old(self)@ }),
    {
        self.interrupt_flags = flags;
    }

    /// The interrupt mask.
    pub fn interrupt_mask(&self) -> (r: u8)
        ensures
            r == self@.interrupt_mask,
    {
        self.interrupt_mask
    }

    /// Set the interrupt mask.
    pub fn set_interrupt_mask(&mut self, mask: u8)
        ensures
            final(self)@ == (CiaView { interrupt_mask: mask, ..old(self)@ }),
    {
        self.interrupt_mask = mask;
    }

    /// Port A.
    pub fn port_a_state(&self) -> (r: CiaPort)
        ensures
            r == self@.port_a,
    {
        self.port_a
    }

    /// Port B.
    pub fn port_b_state(&self) -> (r: CiaPort)
        ensures
            r == self@.port_b,
    {
        self.port_b
    }

    /// Timer A.
    pub fn timer_a_state(&self) -> (r: CiaTimer)
        ensures
            r == self@.timer_a,
    {
        self.timer_a
    }

    /// Timer B.
    pub fn timer_b_state(&self) -> (r: CiaTimer)
        ensures
            r == self@.timer_b,
    {
        self.timer_b
    }

    /// The time-of-day clock.
    pub fn tod_state(&self) -> (r: TodClock)
        ensures
            r == self@.tod,
    {
        self.tod
    }

    /// The serial data register.
    pub fn sdr_state(&self) -> (r: u8)
        ensures
            r == self@.sdr,
    {
        self.sdr
    }

    /// The external input lines of port A.
    pub fn external_a_state(&self) -> (r: u8)
        ensures
            r == self@.external_a,
    {
        self.external_a
    }

    /// Whether the interrupt line is asserted (either chip type).
    pub fn interrupt_pending(&self) -> (r: bool)
        ensures
            r == self@.interrupt_pending,
    {
        self.interrupt_pending
    }

    /// Set the interrupt line state.
    pub fn set_interrupt_pending(&mut self, pending: bool)
        ensures
            final(self)@ == (CiaView { interrupt_pending: pending, ..old(self)@ }),
    {
        self.interrupt_pending = pending;
    }

    /// Control register A.
    pub fn cra(&self) -> (r: u8)
        ensures
            r == self@.cra,
    {
        self.cra
    }

    /// Set control register A; timer A's run and one-shot bits follow it.
    pub fn set_cra(&mut self, cra: u8)
        ensures
            final(self)@ == (CiaView {
                cra: cra,
                timer_a: CiaTimer {
                    running: cra & 0x01 != 0,
                    one_shot: cra & 0x08 != 0,
                    ..old(self)@.timer_a
                },
                ..old(self)@
            }),
    {
        self.cra = cra;
        self.timer_a.running = cra & 0x01 != 0;
        self.timer_a.one_shot = cra & 0x08 != 0;
    }

    /// Control register B.
    pub fn crb(&self) -> (r: u8)
        ensures
            r == self@.crb,
    {
        self.crb
    }

    /// Set control register B; timer B's run and one-shot bits follow it.
    pub fn set_crb(&mut self, crb: u8)
        ensures
            final(self)@ == (CiaView {
                crb: crb,
                timer_b: CiaTimer {
                    running: crb & 0x01 != 0,
                    one_shot: crb & 0x08 != 0,
                    ..old(self)@.timer_b
                },
                ..old(self)@
            }),
    {
        self.crb = crb;
        self.timer_b.running = crb & 0x01 != 0;
        self.timer_b.one_shot = crb & 0x08 != 0;
    }

    /// All 16 registers as a read would show them, without the ICR's
    /// clear-on-read side effect; the TOD shows the live time.
    pub fn get_all_registers(&self) -> (r: [u8; 16])
        ensures
            forall|i: int|
                0 <= i < 16 && !(8 <= i <= 10) ==> r@[i] == #[trigger] Cia6526::spec_read_value(
                    self@,
                    i as u16,
                ),
            r@[8] == self@.tod.tenths,
            r@[9] == self@.tod.seconds,
            r@[10] == self@.tod.minutes,
    {
        let mut regs = [0u8; 16];
        regs[0x00] = self.port_a.read(self.external_a);
        regs[0x01] = self.port_b.read(self.external_b);
        regs[0x02] = self.port_a.ddr;
        regs[0x03] = self.port_b.ddr;
        regs[0x04] = (self.timer_a.counter & 0xFF) as u8;
        regs[0x05] = (self.timer_a.counter >> 8) as u8;
        regs[0x06] = (self.timer_b.counter & 0xFF) as u8;
        regs[0x07] = (self.timer_b.counter >> 8) as u8;
        regs[0x08] = self.tod.tenths;
        regs[0x09] = self.tod.seconds;
        regs[0x0A] = self.tod.minutes;
        regs[0x0B] = self.tod.hours;
        regs[0x0C] = self.sdr;
        regs[0x0D] = self.interrupt_flags | if self.interrupt_pending {
            0x80
        } else {
            0
        };
        regs[0x0E] = self.cra;
        regs[0x0F] = self.crb;
        proof {
            assert forall|i: int|
                0 <= i < 16 && !(8 <= i <= 10) implies regs@[i] == #[trigger] Cia6526::spec_read_value(
                self@,
                i as u16,
            ) by {
                let o = i as u16;
                assert(o & 0x0F == o) by (bit_vector)
                    requires
                        o < 16,
                ;
            }
        }
        regs
    }

    /// Bus read. Registers mirror every 16 bytes; reading the ICR ($D)
    /// returns the flags (bit 7 = line asserted) and clears them.
    pub fn read(&mut self, offset: u16) -> (r: u8)
        ensures
            r == Cia6526::spec_read_value(old(self)@, offset),
            final(self)@ == Cia6526::spec_after_read(old(self)@, offset),
    {
        let reg = offset & 0x0F;
        assert(reg < 16) by {
            lemma_register_index(offset);
        }
        if reg == 0x00 {
            self.port_a.read(self.external_a)
        } else if reg == 0x01 {
            self.port_b.read(self.external_b)
        } else if reg == 0x02 {
            self.port_a.ddr
        } else if reg == 0x03 {
            self.port_b.ddr
        } else if reg == 0x04 {
            (self.timer_a.counter & 0xFF) as u8
        } else if reg == 0x05 {
            (self.timer_a.counter >> 8) as u8
        } else if reg == 0x06 {
            (self.timer_b.counter & 0xFF) as u8
        } else if reg == 0x07 {
            (self.timer_b.counter >> 8) as u8
        } else if reg == 0x08 {
            if self.tod.latched {
                self.tod.latch_tenths
            } else {
                self.tod.tenths
            }
        } else if reg == 0x09 {
            if self.tod.latched {
                self.tod.latch_seconds
            } else {
                self.tod.seconds
            }
        } else if reg == 0x0A {
            if self.tod.latched {
                self.tod.latch_minutes
            } else {
                self.tod.minutes
            }
        } else if reg == 0x0B {
            self.tod.hours
        } else if reg == 0x0C {
            self.sdr
        } else if reg == 0x0D {
            let flags = self.interrupt_flags;
            let pending = self.interrupt_pending;
            self.interrupt_flags = 0;
            self.interrupt_pending = false;
            flags | if pending {
                0x80
            } else {
                0
            }
        } else if reg == 0x0E {
            self.cra
        } else {
            self.crb
        }
    }

    /// Bus write. Registers mirror every 16 bytes; see the register map in
    /// [`Cia6526::spec_written`].
    pub fn write(&mut self, offset: u16, value: u8)
        ensures
            final(self)@ == Cia6526::spec_written(old(self)@, offset, value),
    {
        let reg = offset & 0x0F;
        assert(reg < 16) by {
            lemma_register_index(offset);
        }
        if reg == 0x00 {
            self.port_a.data = value;
        } else if reg == 0x01 {
            self.port_b.data = value;
        } else if reg == 0x02 {
            self.port_a.ddr = value;
        } else if reg == 0x03 {
            self.port_b.ddr = value;
        } else if reg == 0x04 {
            self.timer_a.latch = (self.timer_a.latch & 0xFF00) | value as u16;
        } else if reg == 0x05 {
            self.timer_a.latch = (self.timer_a.latch & 0x00FF) | ((value as u16) << 8u16);
            if !self.timer_a.running {
                self.timer_a.counter = self.timer_a.latch;
            }
        } else if reg == 0x06 {
            self.timer_b.latch = (self.timer_b.latch & 0xFF00) | value as u16;
        } else if reg == 0x07 {
            self.timer_b.latch = (self.timer_b.latch & 0x00FF) | ((value as u16) << 8u16);
            if !self.timer_b.running {
                self.timer_b.counter = self.timer_b.latch;
            }
        } else if reg == 0x08 {
            if self.crb & 0x80 != 0 {
                self.tod.alarm_tenths = value & 0x0F;
            } else {
                self.tod.tenths = value & 0x0F;
                self.tod.stopped = false;
            }
        } else if reg == 0x09 {
            if self.crb & 0x80 != 0 {
                self.tod.alarm_seconds = value & 0x7F;
            } else {
                self.tod.seconds = value & 0x7F;
            }
        } else if reg == 0x0A {
            if self.crb & 0x80 != 0 {
                self.tod.alarm_minutes = value & 0x7F;
            } else {
                self.tod.minutes = value & 0x7F;
            }
        } else if reg == 0x0B {
            if self.crb & 0x80 != 0 {
                self.tod.alarm_hours = value & 0x9F;
            } else {
                self.tod.hours = value & 0x9F;
                self.tod.stopped = true;
            }
        } else if reg == 0x0C {
            self.sdr = value;
        } else if reg == 0x0D {
            let mask = value & 0x1F;
            if value & 0x80 != 0 {
                self.interrupt_mask = self.interrupt_mask | mask;
            } else {
                self.interrupt_mask = self.interrupt_mask & !mask;
            }
            self.check_interrupt();
        } else if reg == 0x0E {
            self.cra = value;
            self.timer_a.running = value & 0x01 != 0;
            self.timer_a.one_shot = value & 0x08 != 0;
            if value & 0x10 != 0 {
                self.timer_a.force_reload();
            }
        } else {
            self.crb = value;
            self.timer_b.running = value & 0x01 != 0;
            self.timer_b.one_shot = value & 0x08 != 0;
            if value & 0x10 != 0 {
                self.timer_b.force_reload();
            }
        }
    }

    /// The registers mirror across a 256-byte page.
    pub fn size(&self) -> (r: u16)
        ensures
            r == 256,
    {
        256
    }

    /// Only CIA1 drives the CPU's IRQ line.
    pub fn has_interrupt(&self) -> (r: bool)
        ensures
            r == (self@.interrupt_pending && self@.cia_type == CiaType::Cia1),
    {
        self.interrupt_pending && self.cia_type == CiaType::Cia1
    }
}

/// Reading the ICR returns what was flagged and leaves no flag and no
/// asserted line behind.
pub proof fn lemma_icr_read_clears(c: CiaView, offset: u16)
    requires
        offset & 0x0F == 0x0D,
    ensures
        Cia6526::spec_after_read(c, offset).interrupt_flags == 0,
        !Cia6526::spec_after_read(c, offset).interrupt_pending,
        Cia6526::spec_read_value(c, offset) & 0x1F == c.interrupt_flags & 0x1F,
{
    let f = c.interrupt_flags;
    assert((f | 0x80u8) & 0x1F == f & 0x1F && (f | 0u8) & 0x1F == f & 0x1F) by (bit_vector);
}

/// Reads of any register other than the ICR have no side effect.
pub proof fn lemma_read_pure_except_icr(c: CiaView, offset: u16)
    requires
        offset & 0x0F != 0x0D,
    ensures
        Cia6526::spec_after_read(c, offset) == c,
{
}

/// With port A all outputs, a data write reads back unchanged.
pub proof fn lemma_port_a_write_read(c: CiaView, value: u8)
    requires
        c.port_a.ddr == 0xFF,
    ensures
        Cia6526::spec_read_value(Cia6526::spec_written(c, 0, value), 0) == value,
{
    let e = c.external_a;
    assert((value & 0xFF) | (e & !0xFFu8) == value && 0u16 & 0x0F == 0) by (bit_vector);
}

/// Writing the ICR with bit 7 set enables the given sources, with bit 7
/// clear disables them; the other mask bits are kept.
pub proof fn lemma_icr_mask_set_clear(c: CiaView, bits: u8)
    requires
        bits < 0x20,
    ensures
        Cia6526::spec_written(c, 0x0D, 0x80 | bits).interrupt_mask == c.interrupt_mask
            | bits,
        Cia6526::spec_written(c, 0x0D, bits).interrupt_mask == c.interrupt_mask
            & !bits,
{
    let m = c.interrupt_mask;
    assert(bits < 0x20 ==> (0x80u8 | bits) & 0x1F == bits && (0x80u8 | bits) & 0x80 != 0
        && bits & 0x1F == bits && bits & 0x80 == 0 && (13u16 & 0x0F) == 0x0D) by (bit_vector);
}

/// Saved state of a CIA chip.
#[derive(Debug, Clone, Copy)]
pub struct CiaState {
    pub port_a_data: u8,
    pub port_a_ddr: u8,
    pub port_b_data: u8,
    pub port_b_ddr: u8,
    pub timer_a_counter: u16,
    pub timer_a_latch: u16,
    pub timer_a_running: bool,
    pub timer_a_one_shot: bool,
    pub timer_a_underflow: bool,
    pub timer_b_counter: u16,
    pub timer_b_latch: u16,
    pub timer_b_running: bool,
    pub timer_b_one_shot: bool,
    pub timer_b_underflow: bool,
    pub tod_tenths: u8,
    pub tod_seconds: u8,
    pub tod_minutes: u8,
    pub tod_hours: u8,
    pub tod_alarm_tenths: u8,
    pub tod_alarm_seconds: u8,
    pub tod_alarm_minutes: u8,
    pub tod_alarm_hours: u8,
    pub tod_stopped: bool,
    pub tod_latched: bool,
    pub tod_latch_tenths: u8,
    pub tod_latch_seconds: u8,
    pub tod_latch_minutes: u8,
    pub sdr: u8,
    pub interrupt_flags: u8,
    pub interrupt_mask: u8,
    pub interrupt_pending: bool,
    pub cra: u8,
    pub crb: u8,
    pub external_a: u8,
    pub external_b: u8,
}

/// The state `capture_cia` records of a chip: every register, latch and
/// line, the pending interrupt of either chip type included.
pub open spec fn cia_captured(c: CiaView) -> CiaState {
    CiaState {
        port_a_data: c.port_a.data,
        port_a_ddr: c.port_a.ddr,
        port_b_data: c.port_b.data,
        port_b_ddr: c.port_b.ddr,
        timer_a_counter: c.timer_a.counter,
        timer_a_latch: c.timer_a.latch,
        timer_a_running: c.timer_a.running,
        timer_a_one_shot: c.timer_a.one_shot,
        timer_a_underflow: c.timer_a.underflow,
        timer_b_counter: c.timer_b.counter,
        timer_b_latch: c.timer_b.latch,
        timer_b_running: c.timer_b.running,
        timer_b_one_shot: c.timer_b.one_shot,
        timer_b_underflow: c.timer_b.underflow,
        tod_tenths: c.tod.tenths,
        tod_seconds: c.tod.seconds,
        tod_minutes: c.tod.minutes,
        tod_hours: c.tod.hours,
        tod_alarm_tenths: c.tod.alarm_tenths,
        tod_alarm_seconds: c.tod.alarm_seconds,
        tod_alarm_minutes: c.tod.alarm_minutes,
        tod_alarm_hours: c.tod.alarm_hours,
        tod_stopped: c.tod.stopped,
        tod_latched: c.tod.latched,
        tod_latch_tenths: c.tod.latch_tenths,
        tod_latch_seconds: c.tod.latch_seconds,
        tod_latch_minutes: c.tod.latch_minutes,
        sdr: c.sdr,
        interrupt_flags: c.interrupt_flags,
        interrupt_mask: c.interrupt_mask,
        interrupt_pending: c.interrupt_pending,
        cra: c.cra,
        crb: c.crb,
        external_a: c.external_a,
        external_b: c.external_b,
    }
}

/// The chip after `restore_cia`: every register from the state, except
/// that the timers' run and one-shot bits follow the restored control
/// registers; the chip type is kept.
pub open spec fn cia_restored(c: CiaView, s: CiaState) -> CiaView {
    CiaView {
        cia_type: c.cia_type,
        port_a: CiaPort { data: s.port_a_data, ddr: s.port_a_ddr },
        port_b: CiaPort { data: s.port_b_data, ddr: s.port_b_ddr },
        timer_a: CiaTimer {
            counter: s.timer_a_counter,
            latch: s.timer_a_latch,
            running: s.cra & 0x01 != 0,
            one_shot: s.cra & 0x08 != 0,
            underflow: s.timer_a_underflow,
        },
        timer_b: CiaTimer {
            counter: s.timer_b_counter,
            latch: s.timer_b_latch,
            running: s.crb & 0x01 != 0,
            one_shot: s.crb & 0x08 != 0,
            underflow: s.timer_b_underflow,
        },
        tod: TodClock {
            tenths: s.tod_tenths,
            seconds: s.tod_seconds,
            minutes: s.tod_minutes,
            hours: s.tod_hours,
            alarm_tenths: s.tod_alarm_tenths,
            alarm_seconds: s.tod_alarm_seconds,
            alarm_minutes: s.tod_alarm_minutes,
            alarm_hours: s.tod_alarm_hours,
            stopped: s.tod_stopped,
            latched: s.tod_latched,
            latch_tenths: s.tod_latch_tenths,
            latch_seconds: s.tod_latch_seconds,
            latch_minutes: s.tod_latch_minutes,
        },
        sdr: s.sdr,
        interrupt_flags: s.interrupt_flags,
        interrupt_mask: s.interrupt_mask,
        interrupt_pending: s.interrupt_pending,
        cra: s.cra,
        crb: s.crb,
        external_a: s.external_a,
        external_b: s.external_b,
    }
}

/// Record a CIA's complete state.
pub fn capture_cia(cia: &Cia6526) -> (r: CiaState)
    ensures
        r == cia_captured(cia@),
{
    CiaState {
        port_a_data: cia.port_a.data,
        port_a_ddr: cia.port_a.ddr,
        port_b_data: cia.port_b.data,
        port_b_ddr: cia.port_b.ddr,
        timer_a_counter: cia.timer_a.counter,
        timer_a_latch: cia.timer_a.latch,
        timer_a_running: cia.timer_a.running,
        timer_a_one_shot: cia.timer_a.one_shot,
        timer_a_underflow: cia.timer_a.underflow,
        timer_b_counter: cia.timer_b.counter,
        timer_b_latch: cia.timer_b.latch,
        timer_b_running: cia.timer_b.running,
        timer_b_one_shot: cia.timer_b.one_shot,
        timer_b_underflow: cia.timer_b.underflow,
        tod_tenths: cia.tod.tenths,
        tod_seconds: cia.tod.seconds,
        tod_minutes: cia.tod.minutes,
        tod_hours: cia.tod.hours,
        tod_alarm_tenths: cia.tod.alarm_tenths,
        tod_alarm_seconds: cia.tod.alarm_seconds,
        tod_alarm_minutes: cia.tod.alarm_minutes,
        tod_alarm_hours: cia.tod.alarm_hours,
        tod_stopped: cia.tod.stopped,
        tod_latched: cia.tod.latched,
        tod_latch_tenths: cia.tod_latch_tenths(),
        tod_latch_seconds: cia.tod_latch_seconds(),
        tod_latch_minutes: cia.tod_latch_minutes(),
        sdr: cia.sdr,
        interrupt_flags: cia.interrupt_flags(),
        interrupt_mask: cia.interrupt_mask(),
        interrupt_pending: cia.interrupt_pending(),
        cra: cia.cra(),
        crb: cia.crb(),
        external_a: cia.external_a,
        external_b: cia.external_b,
    }
}

/// Load a recorded state into a CIA.
pub fn restore_cia(cia: &mut Cia6526, state: &CiaState)
    ensures
        final(cia)@ == cia_restored(old(cia)@, *state),
{
    cia.port_a.data = state.port_a_data;
    cia.port_a.ddr = state.port_a_ddr;
    cia.port_b.data = state.port_b_data;
    cia.port_b.ddr = state.port_b_ddr;
    cia.timer_a.counter = state.timer_a_counter;
    cia.timer_a.latch = state.timer_a_latch;
    cia.timer_a.running = state.timer_a_running;
    cia.timer_a.one_shot = state.timer_a_one_shot;
    cia.timer_a.underflow = state.timer_a_underflow;
    cia.timer_b.counter = state.timer_b_counter;
    cia.timer_b.latch = state.timer_b_latch;
    cia.timer_b.running = state.timer_b_running;
    cia.timer_b.one_shot = state.timer_b_one_shot;
    cia.timer_b.underflow = state.timer_b_underflow;
    cia.tod.tenths = state.tod_tenths;
    cia.tod.seconds = state.tod_seconds;
    cia.tod.minutes = state.tod_minutes;
    cia.tod.hours = state.tod_hours;
    cia.tod.alarm_tenths = state.tod_alarm_tenths;
    cia.tod.alarm_seconds = state.tod_alarm_seconds;
    cia.tod.alarm_minutes = state.tod_alarm_minutes;
    cia.tod.alarm_hours = state.tod_alarm_hours;
    cia.tod.stopped = state.tod_stopped;
    cia.tod.latched = state.tod_latched;
    cia.set_tod_latch(state.tod_latch_tenths, state.tod_latch_seconds, state.tod_latch_minutes);
    cia.sdr = state.sdr;
    cia.set_interrupt_flags(state.interrupt_flags);
    cia.set_interrupt_mask(state.interrupt_mask);
    cia.set_interrupt_pending(state.interrupt_pending);
    cia.set_cra(state.cra);
    cia.set_crb(state.crb);
    cia.external_a = state.external_a;
    cia.external_b = state.external_b;
}

/// Restoring what was captured gives the chip back, provided the timers'
/// run and one-shot bits agree with the control registers.
pub proof fn lemma_cia_capture_restore(c: CiaView)
    requires
        c.timer_a.running == (c.cra & 0x01 != 0),
        c.timer_a.one_shot == (c.cra & 0x08 != 0),
        c.timer_b.running == (c.crb & 0x01 != 0),
        c.timer_b.one_shot == (c.crb & 0x08 != 0),
    ensures
        cia_restored(c, cia_captured(c)) == c,
{
}

/// Setting an interrupt flag bit and testing the others.
proof fn lemma_flag_bits(f: u8, m: u8)
    by (bit_vector)
    ensures
        (f | 0x01) & 0x01 != 0,
        (f | 0x02) & 0x02 != 0,
        (f | 0x01) & 0x02 == f & 0x02,
        (f | 0x02) & 0x01 == f & 0x01,
        (f | 0x01) & 0xFC == f & 0xFC,
        (f | 0x02) & 0xFC == f & 0xFC,
        f & 0x02 != 0 && m & 0x02 != 0 ==> f & m != 0,
        f & 0x01 != 0 && m & 0x01 != 0 ==> f & m != 0,
        (f | 0x80) & 0x1F == f & 0x1F,
        (f & 0x1F) & 0x02 == f & 0x02,
        (f & 0x1F) & 0x01 == f & 0x01,
{
}

/// One clock of the chip and its interrupt flags. Timer A underflows when
/// it is running at zero; timer B underflows when it is running at zero
/// and counts this clock (it counts every clock, or only timer A's
/// underflows when CRB bits 5-6 are %10). A timer A underflow sets ICR
/// flag bit 0 and a timer B underflow sets bit 1; no other flag changes,
/// so timer B alone never sets bit 0. A set flag whose source is enabled
/// in the mask asserts the interrupt line, which on CIA1 is the CPU's IRQ;
/// a clock with no underflow leaves flags and line as they were. The ICR
/// read after the clock shows the flags.
pub proof fn lemma_clock_interrupt_flags(c: CiaView)
    ensures
        ({
            let ua = c.timer_a.running && c.timer_a.counter == 0;
            let ub = c.timer_b.running && c.timer_b.counter == 0 && (c.crb & 0x60 != 0x40 || ua);
            let c1 = Cia6526::spec_clocked(c);
            &&& (c1.interrupt_flags & 0x01 != 0) == (ua || c.interrupt_flags & 0x01 != 0)
            &&& (c1.interrupt_flags & 0x02 != 0) == (ub || c.interrupt_flags & 0x02 != 0)
            &&& c1.interrupt_flags & 0xFC == c.interrupt_flags & 0xFC
            &&& ub && c.interrupt_mask & 0x02 != 0 ==> c1.interrupt_pending
            &&& ua && c.interrupt_mask & 0x01 != 0 ==> c1.interrupt_pending
            &&& c.interrupt_pending ==> c1.interrupt_pending
            &&& !ua && !ub ==> c1.interrupt_flags == c.interrupt_flags && c1.interrupt_pending
                == c.interrupt_pending
            &&& c1.interrupt_mask == c.interrupt_mask && c1.cia_type == c.cia_type
            &&& (Cia6526::spec_read_value(c1, 0x0D) & 0x02 != 0) == (ub || c.interrupt_flags & 0x02
                != 0)
            &&& (Cia6526::spec_read_value(c1, 0x0D) & 0x01 != 0) == (ua || c.interrupt_flags & 0x01
                != 0)
        }),
{
    let f0 = c.interrupt_flags;
    let m = c.interrupt_mask;
    lemma_flag_bits(f0, m);
    lemma_flag_bits(f0 | 0x01, m);
    lemma_flag_bits(f0 | 0x02, m);
    let c1 = Cia6526::spec_clocked(c);
    lemma_flag_bits(c1.interrupt_flags, m);
    lemma_register_index(0x0D);
    lemma_icr_read_clears(c1, 0x0D);
    let v = Cia6526::spec_read_value(c1, 0x0D);
    lemma_flag_bits(v, m);
}

/// Registers mirror every 16 bytes: the register index is below 16.
proof fn lemma_register_index(offset: u16)
    by (bit_vector)
    ensures
        offset & 0x0F < 16,
        0x0Du16 & 0x0F == 0x0D,
{
}

} // verus!
