//! High-level IEC (CBM serial) bus between the computer and the 1541
//! drive at device 8.
//!
//! Rather than the bus timing and handshake, this models the commands the
//! controller sends under ATN:
//! - LISTEN (device address + $20): put the device in receive mode
//! - TALK (device address + $40): put the device in send mode
//! - OPEN (secondary address + $60): open a channel, the following bytes
//!   being its file name
//! - CLOSE (secondary address + $E0): close a channel
//! - DATA (secondary address + $F0): select a channel
//! - UNLISTEN ($3F) and UNTALK ($5F): release the device

use vstd::prelude::*;
use super::disk_1541::drive::ChannelMode;
use super::disk_1541::error::{res_view, DiskFault};
use super::disk_1541::petscii::petscii_char;
use super::disk_1541::unit::{
    all_counters_ok, block_room, counters_ok, spec_close_channel, spec_open_channel,
    spec_read_byte, close_all_from, Drive1541, DriveView, new_drive,
};
use crate::text::string_of;

pub use super::disk_1541::petscii::petscii_to_ascii;

verus! {

/// IEC bus state.
#[derive(Debug, Clone, Copy, PartialEq, Eq, Structural)]
pub enum IecState {
    /// Bus is idle, no active transfer.
    Idle,
    /// Controller is sending commands (ATN active).
    Command,
    /// Device is listening for data.
    Listen,
    /// Device is sending data.
    Talk,
}

impl Default for IecState {
    fn default() -> (r: Self)
        ensures
            r == IecState::Idle,
    {
        IecState::Idle
    }
}

/// The state of the bus.
#[verifier::ext_equal]
pub struct IecView {
    pub state: IecState,
    pub active_device: u8,
    pub active_channel: u8,
    pub pending_command: Option<u8>,
    pub command_buffer: Seq<u8>,
    pub drive: DriveView,
    pub last_status: u8,
    pub eof: bool,
}

/// IEC bus controller for high-level serial communication.
///
/// This struct manages the communication protocol between the C64 and
/// connected devices (primarily the 1541 disk drive).
pub struct IecBus {
    state: IecState,
    active_device: u8,
    active_channel: u8,
    pending_command: Option<u8>,
    command_buffer: Vec<u8>,
    drive: Drive1541,
    last_status: u8,
    eof: bool,
}

impl View for IecBus {
    type V = IecView;

    closed spec fn view(&self) -> IecView {
        IecView {
            state: self.state,
            active_device: self.active_device,
            active_channel: self.active_channel,
            pending_command: self.pending_command,
            command_buffer: self.command_buffer@,
            drive: self.drive@,
            last_status: self.last_status,
            eof: self.eof,
        }
    }
}

pub open spec fn with_drive(v: IecView, d: DriveView) -> IecView {
    IecView { drive: d, ..v }
}

pub open spec fn with_bus_status(v: IecView, s: u8) -> IecView {
    IecView { last_status: s, ..v }
}

/// The channel mode a secondary address opens files in: 1 writes, 15
/// takes commands, every other channel reads.
pub open spec fn channel_mode_of(channel: u8) -> ChannelMode {
    if channel == 1 {
        ChannelMode::Write
    } else if channel == 15 {
        ChannelMode::Command
    } else {
        ChannelMode::Read
    }
}

/// Open the channel named by the bytes collected after OPEN, taken from
/// PETSCII.
pub open spec fn spec_flush_command(v: IecView) -> IecView {
    if v.command_buffer.len() == 0 {
        v
    } else {
        let name = v.command_buffer.map_values(|b: u8| petscii_char(b));
        let (d1, r) = spec_open_channel(
            v.drive,
            v.active_channel,
            name,
            channel_mode_of(v.active_channel),
        );
        IecView {
            drive: d1,
            last_status: if r is Err {
                0x80
            } else {
                0
            },
            command_buffer: Seq::empty(),
            ..v
        }
    }
}

/// A command byte sent under ATN.
pub open spec fn spec_send_command(v: IecView, byte: u8) -> IecView {
    let dn = v.drive.device_number;
    if 0x20 <= byte <= 0x3E {
        if byte - 0x20 == dn {
            IecView {
                active_device: (byte - 0x20) as u8,
                state: IecState::Listen,
                pending_command: Some(byte),
                ..v
            }
        } else {
            IecView { active_device: 0, last_status: 0x80, ..v }
        }
    } else if byte == 0x3F {
        let v1 = if v.state == IecState::Listen && v.command_buffer.len() > 0 {
            spec_flush_command(v)
        } else {
            v
        };
        IecView { state: IecState::Idle, active_device: 0, pending_command: None, ..v1 }
    } else if 0x40 <= byte <= 0x5E {
        if byte - 0x40 == dn {
            IecView {
                active_device: (byte - 0x40) as u8,
                state: IecState::Talk,
                eof: false,
                ..v
            }
        } else {
            IecView { active_device: 0, last_status: 0x80, ..v }
        }
    } else if byte == 0x5F {
        IecView { state: IecState::Idle, active_device: 0, ..v }
    } else if 0x60 <= byte <= 0x6F {
        IecView { active_channel: (byte - 0x60) as u8, command_buffer: Seq::empty(), ..v }
    } else if 0xE0 <= byte <= 0xEF {
        let c = (byte - 0xE0) as u8;
        let v1 = IecView { active_channel: c, ..v };
        if v.active_device == dn {
            with_drive(v1, spec_close_channel(v.drive, c))
        } else {
            v1
        }
    } else if 0xF0 <= byte {
        IecView { active_channel: (byte - 0xF0) as u8, ..v }
    } else {
        with_bus_status(v, 0x80)
    }
}

/// A byte read from the active channel: the status becomes 0 for a byte,
/// `0x40` (end of file) when there is none and `0x80` on an error.
pub open spec fn spec_bus_read(v: IecView) -> (IecView, Option<u8>) {
    let (d1, r) = spec_read_byte(v.drive, v.active_channel);
    match r {
        Ok(Some(b)) => (IecView { drive: d1, last_status: 0, ..v }, Some(b)),
        Ok(None) => (IecView { drive: d1, eof: true, last_status: 0x40, ..v }, None),
        Err(_) => (IecView { drive: d1, last_status: 0x80, ..v }, None),
    }
}

pub open spec fn spec_receive_byte(v: IecView) -> (IecView, Option<u8>) {
    if v.active_device != v.drive.device_number || v.state != IecState::Talk {
        (with_bus_status(v, 0x80), None)
    } else {
        spec_bus_read(v)
    }
}

pub open spec fn spec_send_byte(v: IecView, byte: u8) -> (IecView, bool) {
    if v.active_device != v.drive.device_number || v.state != IecState::Listen {
        (with_bus_status(v, 0x80), false)
    } else {
        (IecView { command_buffer: v.command_buffer.push(byte), last_status: 0, ..v }, true)
    }
}

/// Up to `n` bytes read from the active channel, stopping at the first
/// read that gives none.
pub open spec fn spec_read_bytes(v: IecView, n: nat) -> (IecView, Seq<u8>)
    decreases n,
{
    if n == 0 {
        (v, Seq::empty())
    } else {
        let (v1, b) = spec_bus_read(v);
        match b {
            None => (v1, Seq::empty()),
            Some(x) => {
                let (v2, rest) = spec_read_bytes(v1, (n - 1) as nat);
                (v2, seq![x] + rest)
            },
        }
    }
}

pub open spec fn new_bus() -> IecView {
    IecView {
        state: IecState::Idle,
        active_device: 0,
        active_channel: 0,
        pending_command: None,
        command_buffer: Seq::empty(),
        drive: new_drive(8),
        last_status: 0,
        eof: false,
    }
}

impl Default for IecBus {
    fn default() -> (r: Self)
        ensures
            r.wf(),
            r@ == new_bus(),
    {
        Self::new()
    }
}

impl IecBus {
    pub open spec fn wf(&self) -> bool {
        super::disk_1541::unit::drive_ok(self@.drive)
    }

    /// Create a new IEC bus with a 1541 drive at device 8.
    pub fn new() -> (r: Self)
        ensures
            r.wf(),
            r@ == new_bus(),
    {
        let r = IecBus {
            state: IecState::Idle,
            active_device: 0,
            active_channel: 0,
            pending_command: None,
            command_buffer: Vec::new(),
            drive: Drive1541::new(8),
            last_status: 0,
            eof: false,
        };
        assert(r@ =~= new_bus());
        r
    }

    /// Get the current bus state.
    pub fn state(&self) -> (r: IecState)
        ensures
            r == self@.state,
    {
        self.state
    }

    /// Get the active device number.
    pub fn active_device(&self) -> (r: u8)
        ensures
            r == self@.active_device,
    {
        self.active_device
    }

    /// Get the active secondary address (channel).
    pub fn active_channel(&self) -> (r: u8)
        ensures
            r == self@.active_channel,
    {
        self.active_channel
    }

    /// Get a reference to the 1541 drive.
    pub fn drive(&self) -> (r: &Drive1541)
        ensures
            r@ == self@.drive,
    {
        &self.drive
    }

    /// Get a mutable reference to the 1541 drive.
    pub fn drive_mut(&mut self) -> (r: &mut Drive1541)
        ensures
            (*r)@ == old(self)@.drive,
            final(self)@ == with_drive(old(self)@, final(r)@),
    {
        &mut self.drive
    }

    /// Check if a disk is mounted in the drive.
    pub fn has_disk(&self) -> (r: bool)
        ensures
            r == self@.drive.image is Some,
    {
        self.drive.has_disk()
    }

    /// Check if end of file has been reached.
    pub fn is_eof(&self) -> (r: bool)
        ensures
            r == self@.eof,
    {
        self.eof
    }

    /// Get the last status byte.
    ///
    /// # Status Bits
    /// - Bit 6: EOI (end of file)
    /// - Bit 7: Device not present / error
    pub fn status(&self) -> (r: u8)
        ensures
            r == self@.last_status,
    {
        self.last_status
    }

    /// Reset the bus to idle state, closing all channels of the drive.
    pub fn reset(&mut self)
        requires
            old(self).wf(),
            all_counters_ok(old(self)@.drive),
        ensures
            final(self).wf(),
            final(self)@ == (IecView {
                state: IecState::Idle,
                active_device: 0,
                active_channel: 0,
                pending_command: None,
                command_buffer: Seq::empty(),
                drive: close_all_from(old(self)@.drive, 0),
                last_status: 0,
                eof: false,
            }),
    {
        self.state = IecState::Idle;
        self.active_device = 0;
        self.active_channel = 0;
        self.pending_command = None;
        self.command_buffer.clear();
        self.last_status = 0;
        self.eof = false;
        self.drive.close_all_channels();
    }

    /// Open the channel named by the collected bytes.
    fn flush_command_buffer(&mut self)
        requires
            old(self).wf(),
            all_counters_ok(old(self)@.drive),
        ensures
            final(self).wf(),
            final(self)@ == spec_flush_command(old(self)@),
    {
        let ghost v = self@;
        if self.command_buffer.len() == 0 {
            return;
        }
        let mut name: Vec<char> = Vec::new();
        let mut i: usize = 0;
        while i < self.command_buffer.len()
            invariant
                i <= self.command_buffer.len(),
                self@ == v,
                name@ == self.command_buffer@.take(i as int).map_values(|b: u8| petscii_char(b)),
            decreases self.command_buffer.len() - i,
        {
            name.push(petscii_to_ascii(self.command_buffer[i]));
            i += 1;
            assert(name@ =~= self.command_buffer@.take(i as int).map_values(|b: u8| petscii_char(b)));
        }
        assert(self.command_buffer@.take(self.command_buffer.len() as int) =~= self.command_buffer@);
        let filename = string_of(&name);
        let mode = if self.active_channel == 1 {
            ChannelMode::Write
        } else if self.active_channel == 15 {
            ChannelMode::Command
        } else {
            ChannelMode::Read
        };
        match self.drive.open_channel(self.active_channel, filename.as_str(), mode) {
            Err(_) => {
                self.last_status = 0x80;
            },
            Ok(()) => {
                self.last_status = 0;
            },
        }
        self.command_buffer.clear();
        assert(self@ =~= spec_flush_command(v));
    }

    /// Process an IEC command byte sent under ATN.
    ///
    /// # Command Byte Format
    /// - $20-$3E: LISTEN (device = byte - $20)
    /// - $3F: UNLISTEN, which opens the channel named by the bytes sent
    /// - $40-$5E: TALK (device = byte - $40)
    /// - $5F: UNTALK
    /// - $60-$6F: Secondary address for OPEN (channel = byte - $60)
    /// - $E0-$EF: Secondary address for CLOSE (channel = byte - $E0)
    /// - $F0-$FF: Secondary address for data (channel = byte - $F0)
    pub fn send_command(&mut self, byte: u8)
        requires
            old(self).wf(),
            all_counters_ok(old(self)@.drive),
        ensures
            final(self).wf(),
            final(self)@ == spec_send_command(old(self)@, byte),
    {
        let ghost v = self@;
        if 0x20 <= byte && byte <= 0x3E {
            let device = byte - 0x20;
            if device == self.drive.device_number() {
                self.active_device = device;
                self.state = IecState::Listen;
                self.pending_command = Some(byte);
            } else {
                self.active_device = 0;
                self.last_status = 0x80;
            }
        } else if byte == 0x3F {
            if self.state == IecState::Listen && self.command_buffer.len() != 0 {
                self.flush_command_buffer();
            }
            self.state = IecState::Idle;
            self.active_device = 0;
            self.pending_command = None;
        } else if 0x40 <= byte && byte <= 0x5E {
            let device = byte - 0x40;
            if device == self.drive.device_number() {
                self.active_device = device;
                self.state = IecState::Talk;
                self.eof = false;
            } else {
                self.active_device = 0;
                self.last_status = 0x80;
            }
        } else if byte == 0x5F {
            self.state = IecState::Idle;
            self.active_device = 0;
        } else if 0x60 <= byte && byte <= 0x6F {
            self.active_channel = byte - 0x60;
            self.command_buffer.clear();
        } else if 0xE0 <= byte && byte <= 0xEF {
            let channel = byte - 0xE0;
            self.active_channel = channel;
            if self.active_device == self.drive.device_number() {
                assert(counters_ok(v.drive, channel as int));
                self.drive.close_channel(channel);
            }
        } else if 0xF0 <= byte {
            self.active_channel = byte - 0xF0;
        } else {
            self.last_status = 0x80;
        }
        assert(self@ =~= spec_send_command(v, byte));
    }

    /// Send a data byte to the active device: in Listen mode the byte is
    /// collected as part of the file name of the channel being opened.
    pub fn send_byte(&mut self, byte: u8) -> (r: bool)
        ensures
            (final(self)@, r) == spec_send_byte(old(self)@, byte),
            final(self).wf() == old(self).wf(),
    {
        let ghost v = self@;
        if self.active_device != self.drive.device_number() {
            self.last_status = 0x80;
            assert(self@ =~= spec_send_byte(v, byte).0);
            return false;
        }
        match self.state {
            IecState::Listen => {
                self.command_buffer.push(byte);
                self.last_status = 0;
                assert(self@ =~= spec_send_byte(v, byte).0);
                true
            },
            _ => {
                self.last_status = 0x80;
                assert(self@ =~= spec_send_byte(v, byte).0);
                false
            },
        }
    }

    /// Receive a byte from the active device in Talk mode.
    /// Returns the byte and updates status (including EOI/EOF).
    pub fn receive_byte(&mut self) -> (r: Option<u8>)
        requires
            old(self).wf(),
        ensures
            final(self).wf(),
            (final(self)@, r) == spec_receive_byte(old(self)@),
    {
        let ghost v = self@;
        if self.active_device != self.drive.device_number() {
            self.last_status = 0x80;
            assert(self@ =~= spec_receive_byte(v).0);
            return None;
        }
        if self.state != IecState::Talk {
            self.last_status = 0x80;
            assert(self@ =~= spec_receive_byte(v).0);
            return None;
        }
        self.read_byte()
    }

    /// Open a file on the drive, bypassing the byte-by-byte protocol.
    pub fn open_file(&mut self, channel: u8, filename: &str, mode: ChannelMode) -> (r: bool)
        requires
            old(self).wf(),
            all_counters_ok(old(self)@.drive),
        ensures
            final(self).wf(),
            ({
                let (d1, res) = spec_open_channel(old(self)@.drive, channel, filename@, mode);
                let v1 = IecView {
                    active_channel: channel,
                    active_device: old(self)@.drive.device_number,
                    drive: d1,
                    ..old(self)@
                };
                &&& r == (res is Ok)
                &&& final(self)@ == if res is Ok {
                    IecView { last_status: 0, eof: false, ..v1 }
                } else {
                    IecView { last_status: 0x80, ..v1 }
                }
            }),
    {
        let ghost v = self@;
        self.active_channel = channel;
        self.active_device = self.drive.device_number();
        match self.drive.open_channel(channel, filename, mode) {
            Ok(()) => {
                self.last_status = 0;
                self.eof = false;
                true
            },
            Err(_) => {
                self.last_status = 0x80;
                false
            },
        }
    }

    /// Close a channel on the drive.
    pub fn close_file(&mut self, channel: u8)
        requires
            old(self).wf(),
            channel < 16 ==> block_room(old(self)@.drive, channel as int),
        ensures
            final(self).wf(),
            final(self)@ == with_drive(old(self)@, spec_close_channel(old(self)@.drive, channel)),
    {
        self.drive.close_channel(channel);
    }

    /// Read a byte from the currently open channel.
    pub fn read_byte(&mut self) -> (r: Option<u8>)
        requires
            old(self).wf(),
        ensures
            final(self).wf(),
            (final(self)@, r) == spec_bus_read(old(self)@),
    {
        let ghost v = self@;
        match self.drive.read_byte(self.active_channel) {
            Ok(Some(byte)) => {
                self.last_status = 0;
                assert(self@ =~= spec_bus_read(v).0);
                Some(byte)
            },
            Ok(None) => {
                self.eof = true;
                self.last_status = 0x40;
                assert(self@ =~= spec_bus_read(v).0);
                None
            },
            Err(_) => {
                self.last_status = 0x80;
                assert(self@ =~= spec_bus_read(v).0);
                None
            },
        }
    }

    /// Read up to `max_bytes` bytes from the currently open channel.
    pub fn read_bytes(&mut self, max_bytes: usize) -> (r: Vec<u8>)
        requires
            old(self).wf(),
        ensures
            final(self).wf(),
            (final(self)@, r@) == spec_read_bytes(old(self)@, max_bytes as nat),
    {
        let mut result: Vec<u8> = Vec::with_capacity(max_bytes);
        let mut i: usize = 0;
        while i < max_bytes
            invariant
                i <= max_bytes,
                self.wf(),
                ({
                    let (vf, all) = spec_read_bytes(old(self)@, max_bytes as nat);
                    let (vr, rest) = spec_read_bytes(self@, (max_bytes - i) as nat);
                    vf == vr && all == result@ + rest
                }),
            decreases max_bytes - i,
        {
            let ghost before = self@;
            match self.read_byte() {
                Some(byte) => {
                    let ghost rest = spec_read_bytes(self@, (max_bytes - i - 1) as nat).1;
                    assert(result@ + (seq![byte] + rest) =~= result@.push(byte) + rest);
                    result.push(byte);
                },
                None => {
                    assert(result@ + Seq::<u8>::empty() =~= result@);
                    return result;
                },
            }
            i += 1;
        }
        assert(result@ + Seq::<u8>::empty() =~= result@);
        result
    }
}


/// Data bytes sent one after the other.
pub open spec fn spec_send_bytes(v: IecView, bytes: Seq<u8>) -> IecView
    decreases bytes.len(),
{
    if bytes.len() == 0 {
        v
    } else {
        spec_send_bytes(spec_send_byte(v, bytes[0]).0, bytes.drop_first())
    }
}

proof fn lemma_send_bytes_collect(v: IecView, bytes: Seq<u8>)
    requires
        v.state == IecState::Listen,
        v.active_device == v.drive.device_number,
    ensures
        spec_send_bytes(v, bytes) == (IecView {
            command_buffer: v.command_buffer + bytes,
            last_status: if bytes.len() == 0 {
                v.last_status
            } else {
                0
            },
            ..v
        }),
    decreases bytes.len(),
{
    if bytes.len() == 0 {
        assert(v.command_buffer + bytes =~= v.command_buffer);
    } else {
        let v1 = spec_send_byte(v, bytes[0]).0;
        lemma_send_bytes_collect(v1, bytes.drop_first());
        assert(v1.command_buffer + bytes.drop_first() =~= v.command_buffer + bytes);
    }
}

/// Opening a file over the bus: LISTEN to the drive, OPEN a channel, send
/// the file name and UNLISTEN opens the channel on the drive under the
/// name (taken from PETSCII), in the mode of the channel, and leaves the
/// bus idle with the status of the open. The bus must have no bytes
/// pending from before.
pub proof fn lemma_open_over_bus(v: IecView, channel: u8, name: Seq<u8>)
    requires
        v.drive.device_number <= 30,
        channel < 16,
        name.len() > 0,
        v.command_buffer.len() == 0,
    ensures
        ({
            let dn = v.drive.device_number;
            let v1 = spec_send_command(v, (0x20 + dn) as u8);
            let v2 = spec_send_command(v1, (0xF0 + channel) as u8);
            let v3 = spec_send_bytes(v2, name);
            let v4 = spec_send_command(v3, 0x3F);
            let (d, r) = spec_open_channel(
                v.drive,
                channel,
                name.map_values(|b: u8| petscii_char(b)),
                channel_mode_of(channel),
            );
            &&& v4.drive == d
            &&& v4.state == IecState::Idle
            &&& v4.active_device == 0
            &&& v4.active_channel == channel
            &&& v4.command_buffer.len() == 0
            &&& v4.last_status == if r is Err {
                0x80u8
            } else {
                0u8
            }
        }),
{
    let dn = v.drive.device_number;
    let v1 = spec_send_command(v, (0x20 + dn) as u8);
    let v2 = spec_send_command(v1, (0xF0 + channel) as u8);
    assert(v2.state == IecState::Listen && v2.active_device == dn && v2.active_channel == channel);
    lemma_send_bytes_collect(v2, name);
    let v3 = spec_send_bytes(v2, name);
    assert(v3.command_buffer =~= name);
}


/// LISTEN or TALK for the drive's own device number addresses it: the bus
/// listens or talks with the drive as the active device, and the drive
/// itself is untouched.
pub proof fn lemma_address_drive(v: IecView)
    requires
        v.drive.device_number <= 0x1E,
    ensures
        spec_send_command(v, (0x20 + v.drive.device_number) as u8).state == IecState::Listen,
        spec_send_command(v, (0x20 + v.drive.device_number) as u8).active_device
            == v.drive.device_number,
        spec_send_command(v, (0x20 + v.drive.device_number) as u8).drive == v.drive,
        spec_send_command(v, (0x40 + v.drive.device_number) as u8).state == IecState::Talk,
        spec_send_command(v, (0x40 + v.drive.device_number) as u8).active_device
            == v.drive.device_number,
        spec_send_command(v, (0x40 + v.drive.device_number) as u8).drive == v.drive,
{
}

/// UNLISTEN and UNTALK leave the bus idle with no device addressed.
pub proof fn lemma_release_idles(v: IecView)
    ensures
        spec_send_command(v, 0x3F).state == IecState::Idle,
        spec_send_command(v, 0x3F).active_device == 0,
        spec_send_command(v, 0x5F).state == IecState::Idle,
        spec_send_command(v, 0x5F).active_device == 0,
{
}

/// LISTEN or TALK for a device that is not on the bus answers "device not
/// present" (status $80) and changes neither the bus state nor the drive.
pub proof fn lemma_absent_device(v: IecView, byte: u8)
    requires
        (0x20 <= byte <= 0x3E && byte - 0x20 != v.drive.device_number) || (0x40 <= byte <= 0x5E
            && byte - 0x40 != v.drive.device_number),
    ensures
        spec_send_command(v, byte).last_status == 0x80,
        spec_send_command(v, byte).state == v.state,
        spec_send_command(v, byte).drive == v.drive,
        spec_send_command(v, byte).active_device == 0,
{
}

} // verus!
