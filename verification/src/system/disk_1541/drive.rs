//! The 1541 drive: sixteen channels over a mounted disk image, the
//! command channel and the drive status.

use vstd::prelude::*;
use crate::text::{decimal2, push_decimal2};
use super::image::{D64Image, D64View};

verus! {

/// Channel mode for drive operations.
#[derive(Debug, Clone, Copy, PartialEq, Eq, Structural)]
pub enum ChannelMode {
    /// Channel is not in use.
    Closed,
    /// Channel is open for reading.
    Read,
    /// Channel is open for writing.
    Write,
    /// Channel is used for commands (channel 15).
    Command,
}

/// The state of a channel, with its buffer as a sequence.
#[verifier::ext_equal]
pub struct ChannelView {
    pub active: bool,
    pub mode: ChannelMode,
    pub track: u8,
    pub sector: u8,
    pub buffer: Seq<u8>,
    pub buffer_position: u8,
    pub eof: bool,
    pub next_track: u8,
    pub next_sector: u8,
    pub last_byte: u8,
}

/// A single drive channel.
///
/// The 1541 supports 16 channels (0-15), where channel 15 is reserved
/// for the command/status channel.
#[derive(Clone, Copy)]
pub struct DriveChannel {
    /// Whether the channel is active.
    pub active: bool,
    /// Current mode of the channel.
    pub mode: ChannelMode,
    /// Current track being accessed.
    pub track: u8,
    /// Current sector being accessed.
    pub sector: u8,
    /// Buffer for sector data (256 bytes).
    pub buffer: [u8; 256],
    /// Current position within the buffer.
    pub buffer_position: u8,
    /// Whether we've reached end of file.
    pub eof: bool,
    /// Next track in file chain (0 = last sector).
    pub next_track: u8,
    /// Next sector in file chain.
    pub next_sector: u8,
    /// Index of the last buffer byte that holds data, once the end of the
    /// file is in the buffer: the length byte of a file's last block, or
    /// the end of a directory listing.
    pub last_byte: u8,
}

impl View for DriveChannel {
    type V = ChannelView;

    open spec fn view(&self) -> ChannelView {
        ChannelView {
            active: self.active,
            mode: self.mode,
            track: self.track,
            sector: self.sector,
            buffer: self.buffer@,
            buffer_position: self.buffer_position,
            eof: self.eof,
            next_track: self.next_track,
            next_sector: self.next_sector,
            last_byte: self.last_byte,
        }
    }
}

/// 256 zero bytes.
pub open spec fn zero_buffer() -> Seq<u8> {
    Seq::new(256, |i: int| 0u8)
}

/// A closed channel with an empty buffer.
pub open spec fn idle_channel() -> ChannelView {
    ChannelView {
        active: false,
        mode: ChannelMode::Closed,
        track: 0,
        sector: 0,
        buffer: zero_buffer(),
        buffer_position: 0,
        eof: false,
        next_track: 0,
        next_sector: 0,
        last_byte: 0,
    }
}

/// A channel after closing: everything reset but the buffer contents.
pub open spec fn closed_channel(c: ChannelView) -> ChannelView {
    ChannelView { buffer: c.buffer, ..idle_channel() }
}

impl Default for DriveChannel {
    fn default() -> (r: Self)
        ensures
            r@ == idle_channel(),
    {
        let r = DriveChannel {
            active: false,
            mode: ChannelMode::Closed,
            track: 0,
            sector: 0,
            buffer: [0; 256],
            buffer_position: 0,
            eof: false,
            next_track: 0,
            next_sector: 0,
            last_byte: 0,
        };
        assert(r@.buffer =~= zero_buffer());
        r
    }
}

impl DriveChannel {
    /// Create a new closed channel.
    pub fn new() -> (r: Self)
        ensures
            r@ == idle_channel(),
    {
        Self::default()
    }

    /// Close the channel.
    pub fn close(&mut self)
        ensures
            final(self)@ == closed_channel(old(self)@),
    {
        self.active = false;
        self.mode = ChannelMode::Closed;
        self.track = 0;
        self.sector = 0;
        self.buffer_position = 0;
        self.eof = false;
        self.next_track = 0;
        self.next_sector = 0;
        self.last_byte = 0;
    }
}

/// A drive status with its message as a character sequence.
#[verifier::ext_equal]
pub struct StatusView {
    pub error_number: u8,
    pub message: Seq<char>,
    pub track: u8,
    pub sector: u8,
}

/// Drive status information.
#[derive(Debug, Clone)]
pub struct DriveStatus {
    /// Error number (0 = OK).
    pub error_number: u8,
    /// Error message.
    pub message: String,
    /// Track where error occurred.
    pub track: u8,
    /// Sector where error occurred.
    pub sector: u8,
}

impl View for DriveStatus {
    type V = StatusView;

    open spec fn view(&self) -> StatusView {
        StatusView {
            error_number: self.error_number,
            message: self.message@,
            track: self.track,
            sector: self.sector,
        }
    }
}

pub open spec fn status_of(error_number: u8, message: Seq<char>, track: u8, sector: u8) -> StatusView {
    StatusView { error_number, message, track, sector }
}

pub open spec fn status_ok() -> StatusView {
    status_of(0, "OK"@, 0, 0)
}

pub open spec fn status_file_not_found() -> StatusView {
    status_of(62, "FILE NOT FOUND"@, 0, 0)
}

pub open spec fn status_file_exists() -> StatusView {
    status_of(63, "FILE EXISTS"@, 0, 0)
}

pub open spec fn status_syntax_error() -> StatusView {
    status_of(30, "SYNTAX ERROR"@, 0, 0)
}

pub open spec fn status_read_error(track: u8, sector: u8) -> StatusView {
    status_of(21, "READ ERROR"@, track, sector)
}

pub open spec fn status_disk_full(track: u8, sector: u8) -> StatusView {
    status_of(72, "DISK FULL"@, track, sector)
}

/// The status after a successful scratch: one file scratched.
pub open spec fn status_scratched() -> StatusView {
    status_of(1, "FILES SCRATCHED"@, 1, 0)
}

/// The status line the command channel sends, as
/// `"{:02}, {},  {:02}, {:02}\r"` formats number, message, track and sector.
pub open spec fn status_line(s: StatusView) -> Seq<char> {
    decimal2(s.error_number as nat) + ", "@ + s.message + ",  "@ + decimal2(s.track as nat) + ", "@
        + decimal2(s.sector as nat) + "\r"@
}

impl DriveStatus {
    /// Create a new OK status.
    pub fn ok() -> (r: Self)
        ensures
            r@ == status_ok(),
    {
        DriveStatus { error_number: 0, message: String::from_str("OK"), track: 0, sector: 0 }
    }

    /// Create a "File Not Found" error status.
    pub fn file_not_found() -> (r: Self)
        ensures
            r@ == status_file_not_found(),
    {
        DriveStatus {
            error_number: 62,
            message: String::from_str("FILE NOT FOUND"),
            track: 0,
            sector: 0,
        }
    }

    /// Create a "File Exists" error status.
    pub fn file_exists() -> (r: Self)
        ensures
            r@ == status_file_exists(),
    {
        DriveStatus {
            error_number: 63,
            message: String::from_str("FILE EXISTS"),
            track: 0,
            sector: 0,
        }
    }

    /// Create a "Syntax Error" status.
    pub fn syntax_error() -> (r: Self)
        ensures
            r@ == status_syntax_error(),
    {
        DriveStatus {
            error_number: 30,
            message: String::from_str("SYNTAX ERROR"),
            track: 0,
            sector: 0,
        }
    }

    /// Create a "Read Error" status.
    pub fn read_error(track: u8, sector: u8) -> (r: Self)
        ensures
            r@ == status_read_error(track, sector),
    {
        DriveStatus { error_number: 21, message: String::from_str("READ ERROR"), track, sector }
    }

    /// Create a "Disk Full" error status.
    pub fn disk_full(track: u8, sector: u8) -> (r: Self)
        ensures
            r@ == status_disk_full(track, sector),
    {
        DriveStatus { error_number: 72, message: String::from_str("DISK FULL"), track, sector }
    }

    pub(crate) fn files_scratched() -> (r: Self)
        ensures
            r@ == status_scratched(),
    {
        DriveStatus {
            error_number: 1,
            message: String::from_str("FILES SCRATCHED"),
            track: 1,
            sector: 0,
        }
    }

    /// The status line: number, message, track and sector, each number
    /// in at least two digits, ended by a carriage return.
    pub fn to_string(&self) -> (r: String)
        ensures
            r@ == status_line(self@),
    {
        let mut s = String::new();
        push_decimal2(&mut s, self.error_number as u64);
        s.append(", ");
        s.append(self.message.as_str());
        s.append(",  ");
        push_decimal2(&mut s, self.track as u64);
        s.append(", ");
        push_decimal2(&mut s, self.sector as u64);
        s.append("\r");
        assert(s@ =~= status_line(self@));
        s
    }
}

} // verus!
