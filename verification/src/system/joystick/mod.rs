//! C64 joystick ports.
//!
//! Each port carries four directions and a fire button. The public API is
//! active-high (1 = pressed); the CIA sees the lines active-low.

pub mod bits;

pub use bits::{JOY_DOWN, JOY_FIRE, JOY_LEFT, JOY_RIGHT, JOY_UP};

use vstd::prelude::*;

verus! {

/// State of a single joystick port (active-high, five meaningful bits).
#[derive(Debug, Clone, Copy, PartialEq, Eq)]
pub struct JoystickState {
    state: u8,
}

impl View for JoystickState {
    type V = u8;

    closed spec fn view(&self) -> u8 {
        self.state
    }
}

impl JoystickState {
    #[verifier::type_invariant]
    spec fn inv(&self) -> bool {
        self.state < 32
    }

    /// No button pressed.
    pub fn new() -> (r: Self)
        ensures
            r@ == 0,
    {
        JoystickState { state: 0 }
    }

    /// Replace the whole state; bits above the fire bit are dropped.
    pub fn set(&mut self, state: u8)
        ensures
            final(self)@ == state & 0x1F,
    {
        assert(state & 0x1F < 32) by (bit_vector);
        self.state = state & 0x1F;
    }

    /// The current state (active-high).
    pub fn get(&self) -> (r: u8)
        ensures
            r == self@,
            r < 32,
    {
        proof {
            use_type_invariant(self);
        }
        self.state
    }

    /// The state as the CIA sees it: pressed lines read 0.
    pub fn get_active_low(&self) -> (r: u8)
        ensures
            r == !self@ & 0x1F,
    {
        !self.state & 0x1F
    }

    /// Up is pressed.
    pub fn up(&self) -> (r: bool)
        ensures
            r == (self@ & JOY_UP != 0),
    {
        self.state & JOY_UP != 0
    }

    /// Down is pressed.
    pub fn down(&self) -> (r: bool)
        ensures
            r == (self@ & JOY_DOWN != 0),
    {
        self.state & JOY_DOWN != 0
    }

    /// Left is pressed.
    pub fn left(&self) -> (r: bool)
        ensures
            r == (self@ & JOY_LEFT != 0),
    {
        self.state & JOY_LEFT != 0
    }

    /// Right is pressed.
    pub fn right(&self) -> (r: bool)
        ensures
            r == (self@ & JOY_RIGHT != 0),
    {
        self.state & JOY_RIGHT != 0
    }

    /// Fire is pressed.
    pub fn fire(&self) -> (r: bool)
        ensures
            r == (self@ & JOY_FIRE != 0),
    {
        self.state & JOY_FIRE != 0
    }

    fn press(&mut self, bit: u8)
        requires
            bit < 32,
        ensures
            final(self)@ == old(self)@ | bit,
    {
        proof {
            use_type_invariant(&*self);
        }
        let s = self.state;
        proof {
            lemma_state_bits(s, bit);
        }
        self.state = s | bit;
    }

    fn release(&mut self, bit: u8)
        ensures
            final(self)@ == old(self)@ & !bit,
    {
        proof {
            use_type_invariant(&*self);
        }
        let s = self.state;
        proof {
            lemma_state_bits(s, bit);
        }
        self.state = s & !bit;
    }

    /// Press up.
    pub fn press_up(&mut self)
        ensures
            final(self)@ == old(self)@ | JOY_UP,
    {
        self.press(JOY_UP);
    }

    /// Release up.
    pub fn release_up(&mut self)
        ensures
            final(self)@ == old(self)@ & !JOY_UP,
    {
        self.release(JOY_UP);
    }

    /// Press down.
    pub fn press_down(&mut self)
        ensures
            final(self)@ == old(self)@ | JOY_DOWN,
    {
        self.press(JOY_DOWN);
    }

    /// Release down.
    pub fn release_down(&mut self)
        ensures
            final(self)@ == old(self)@ & !JOY_DOWN,
    {
        self.release(JOY_DOWN);
    }

    /// Press left.
    pub fn press_left(&mut self)
        ensures
            final(self)@ == old(self)@ | JOY_LEFT,
    {
        self.press(JOY_LEFT);
    }

    /// Release left.
    pub fn release_left(&mut self)
        ensures
            final(self)@ == old(self)@ & !JOY_LEFT,
    {
        self.release(JOY_LEFT);
    }

    /// Press right.
    pub fn press_right(&mut self)
        ensures
            final(self)@ == old(self)@ | JOY_RIGHT,
    {
        self.press(JOY_RIGHT);
    }

    /// Release right.
    pub fn release_right(&mut self)
        ensures
            final(self)@ == old(self)@ & !JOY_RIGHT,
    {
        self.release(JOY_RIGHT);
    }

    /// Press fire.
    pub fn press_fire(&mut self)
        ensures
            final(self)@ == old(self)@ | JOY_FIRE,
    {
        self.press(JOY_FIRE);
    }

    /// Release fire.
    pub fn release_fire(&mut self)
        ensures
            final(self)@ == old(self)@ & !JOY_FIRE,
    {
        self.release(JOY_FIRE);
    }

    /// Release every button.
    pub fn release_all(&mut self)
        ensures
            final(self)@ == 0,
    {
        self.state = 0;
    }
}

impl Default for JoystickState {
    fn default() -> (r: Self)
        ensures
            r@ == 0,
    {
        Self::new()
    }
}

/// Pressing a button and then releasing it leaves that button released and
/// every other button as it was.
pub proof fn lemma_press_release(s: u8, bit: u8)
    requires
        bit == JOY_UP || bit == JOY_DOWN || bit == JOY_LEFT || bit == JOY_RIGHT || bit == JOY_FIRE,
    ensures
        ((s | bit) & !bit) & bit == 0,
        ((s | bit) & !bit) & !bit == s & !bit,
{
    assert(((s | bit) & !bit) & bit == 0 && ((s | bit) & !bit) & !bit == s & !bit) by (bit_vector);
}

/// The active-low view is the complement of the active-high state within
/// the five button bits.
pub proof fn lemma_active_low_complement(s: u8)
    requires
        s < 32,
    ensures
        (!s & 0x1F) | s == 0x1F,
        (!s & 0x1F) & s == 0,
{
    assert(s < 32 ==> (!s & 0x1F) | s == 0x1F && (!s & 0x1F) & s == 0) by (bit_vector);
}

/// Both joystick ports, with optional logical swap.
#[derive(Debug, Clone)]
pub struct JoystickPorts {
    port1: JoystickState,
    port2: JoystickState,
    swapped: bool,
}

/// Abstract state of the two ports.
pub struct JoystickPortsView {
    pub port1: u8,
    pub port2: u8,
    pub swapped: bool,
}

impl View for JoystickPorts {
    type V = JoystickPortsView;

    closed spec fn view(&self) -> JoystickPortsView {
        JoystickPortsView { port1: self.port1@, port2: self.port2@, swapped: self.swapped }
    }
}

impl JoystickPorts {
    /// Both ports released, not swapped.
    pub fn new() -> (r: Self)
        ensures
            r@ == (JoystickPortsView { port1: 0, port2: 0, swapped: false }),
    {
        JoystickPorts { port1: JoystickState::new(), port2: JoystickState::new(), swapped: false }
    }

    /// Set a logical port (1 or 2). When swapped, logical port 1 drives
    /// physical port 2 and vice versa; other port numbers are ignored.
    pub fn set_port(&mut self, port: u8, state: u8)
        ensures
            ((port == 1 && !old(self)@.swapped) || (port == 2 && old(self)@.swapped))
                ==> final(self)@ == (JoystickPortsView { port1: state & 0x1F, ..old(self)@ }),
            ((port == 2 && !old(self)@.swapped) || (port == 1 && old(self)@.swapped))
                ==> final(self)@ == (JoystickPortsView { port2: state & 0x1F, ..old(self)@ }),
            port != 1 && port != 2 ==> final(self)@ == old(self)@,
    {
        match port {
            1 => {
                if self.swapped {
                    self.port2.set(state);
                } else {
                    self.port1.set(state);
                }
            },
            2 => {
                if self.swapped {
                    self.port1.set(state);
                } else {
                    self.port2.set(state);
                }
            },
            _ => {},
        }
    }

    /// Physical port 1 (CIA1 port B).
    pub fn physical_port1(&self) -> (r: &JoystickState)
        ensures
            r@ == self@.port1,
    {
        &self.port1
    }

    /// Physical port 2 (CIA1 port A).
    pub fn physical_port2(&self) -> (r: &JoystickState)
        ensures
            r@ == self@.port2,
    {
        &self.port2
    }

    /// Mutable access to physical port 1.
    pub fn physical_port1_mut(&mut self) -> (r: &mut JoystickState)
        ensures
            r@ == old(self)@.port1,
            final(self)@ == (JoystickPortsView { port1: final(r)@, ..old(self)@ }),
    {
        &mut self.port1
    }

    /// Mutable access to physical port 2.
    pub fn physical_port2_mut(&mut self) -> (r: &mut JoystickState)
        ensures
            r@ == old(self)@.port2,
            final(self)@ == (JoystickPortsView { port2: final(r)@, ..old(self)@ }),
    {
        &mut self.port2
    }

    /// The state a save state records: physical port 1, physical port 2,
    /// and the swap flag.
    pub fn capture_joystick_state(&self) -> (r: (u8, u8, bool))
        ensures
            r == (self@.port1, self@.port2, self@.swapped),
    {
        (self.port1.get(), self.port2.get(), self.swapped)
    }

    /// Put back a recorded state: the swap flag, then each physical port
    /// (its five button bits).
    pub fn restore_joystick_state(&mut self, port1: u8, port2: u8, swapped: bool)
        ensures
            final(self)@ == (JoystickPortsView {
                port1: port1 & 0x1F,
                port2: port2 & 0x1F,
                swapped,
            }),
    {
        self.swapped = swapped;
        self.port1.set(port1);
        self.port2.set(port2);
    }

    /// Whether the logical ports are swapped.
    pub fn is_swapped(&self) -> (r: bool)
        ensures
            r == self@.swapped,
    {
        self.swapped
    }

    /// Set the swap flag.
    pub fn set_swapped(&mut self, swapped: bool)
        ensures
            final(self)@ == (JoystickPortsView { swapped: swapped, ..old(self)@ }),
    {
        self.swapped = swapped;
    }

    /// Flip the swap flag.
    pub fn toggle_swap(&mut self)
        ensures
            final(self)@ == (JoystickPortsView { swapped: !old(self)@.swapped, ..old(self)@ }),
    {
        self.swapped = !self.swapped;
    }

    /// Release every button on both ports.
    pub fn release_all(&mut self)
        ensures
            final(self)@ == (JoystickPortsView { port1: 0, port2: 0, ..old(self)@ }),
    {
        self.port1.release_all();
        self.port2.release_all();
    }
}

impl Default for JoystickPorts {
    fn default() -> (r: Self)
        ensures
            r@ == (JoystickPortsView { port1: 0, port2: 0, swapped: false }),
    {
        Self::new()
    }
}

/// Toggling the swap twice restores the mapping it started from.
pub proof fn lemma_toggle_twice(v: JoystickPortsView)
    ensures
        (JoystickPortsView {
            swapped: !(JoystickPortsView { swapped: !v.swapped, ..v }).swapped,
            ..(JoystickPortsView { swapped: !v.swapped, ..v })
        }) == v,
{
}

/// Setting or clearing a bit of a five-bit state keeps it five bits.
proof fn lemma_state_bits(s: u8, bit: u8)
    by (bit_vector)
    ensures
        s < 32 && bit < 32 ==> s | bit < 32,
        s < 32 ==> s & !bit < 32,
{
}

} // verus!
