//! Commodore 1541 disk drive, emulated at the level of the IEC protocol:
//! sixteen channels over a mounted image, channel 15 for commands and the
//! status line.

use vstd::prelude::*;
use vstd::utf8::encode_utf8;
use vstd::slice::slice_to_vec;
use crate::text::{
    chars_of, str_eq, string_of, sub_chars, to_uppercase, trim, trimmed, unicode_uppercase, utf8_len,
    utf8_length,
};
use super::directory::{
    chain_too_long_text, dir_search, directory_search, entry_name, first_match, live_entry,
    name_field_bytes, name_field_of, spec_create_entry, spec_delete, DirSearch,
};
use super::drive::{
    closed_channel, idle_channel, status_disk_full, status_file_exists, status_file_not_found,
    status_ok, status_line, status_scratched, status_syntax_error, zero_buffer, ChannelMode,
    ChannelView, DriveChannel, DriveStatus, StatusView,
};
use super::error::{io_error, res_view, D64Error, DiskFault};
use super::geometry::{image_size_ok, lemma_location_in_image, CHAIN_LIMIT};
use super::image::{
    free_count_upto, location_fault, name_chars, sector_of, spec_allocate, spec_read_sector,
    spec_write_sector, D64Image, D64View, blank_image,
};
use super::listing::{
    chain_lines, listing_footer, listing_header, push_listing_footer, push_listing_header,
    push_sector_lines, sector_lines,
};
use super::names::{last_index, matches_pattern, name_matches, parse_type, type_code_of};
use super::validate::spec_validate;

verus! {

/// A file being written, with its name as a sequence.
#[verifier::ext_equal]
pub struct WriteStateView {
    pub name: Seq<u8>,
    pub file_type: u8,
    pub first_track: u8,
    pub first_sector: u8,
    pub current_track: u8,
    pub current_sector: u8,
    pub prev_track: u8,
    pub prev_sector: u8,
    pub block_count: u16,
    pub is_first_sector: bool,
}

/// State for tracking file write operations.
#[derive(Clone, Copy)]
pub struct WriteState {
    /// The directory name field of the file (16 PETSCII bytes).
    pub name: [u8; 16],
    /// File type (0x02 = PRG, 0x01 = SEQ).
    pub file_type: u8,
    /// First track of the file chain.
    pub first_track: u8,
    /// First sector of the file chain.
    pub first_sector: u8,
    /// Current track being written.
    pub current_track: u8,
    /// Current sector being written.
    pub current_sector: u8,
    /// Previous track (for linking).
    pub prev_track: u8,
    /// Previous sector (for linking).
    pub prev_sector: u8,
    /// Number of blocks allocated.
    pub block_count: u16,
    /// Whether this is the first sector of the file.
    pub is_first_sector: bool,
}

impl View for WriteState {
    type V = WriteStateView;

    open spec fn view(&self) -> WriteStateView {
        WriteStateView {
            name: self.name@,
            file_type: self.file_type,
            first_track: self.first_track,
            first_sector: self.first_sector,
            current_track: self.current_track,
            current_sector: self.current_sector,
            prev_track: self.prev_track,
            prev_sector: self.prev_sector,
            block_count: self.block_count,
            is_first_sector: self.is_first_sector,
        }
    }
}

pub open spec fn ws_view(w: Option<WriteState>) -> Option<WriteStateView> {
    match w {
        Some(s) => Some(s@),
        None => None,
    }
}

/// The state of a drive.
#[verifier::ext_equal]
pub struct DriveView {
    pub image: Option<D64View>,
    pub device_number: u8,
    pub channels: Seq<ChannelView>,
    pub status: StatusView,
    pub status_buffer: Seq<u8>,
    pub status_position: int,
    pub write_states: Seq<Option<WriteStateView>>,
}

/// Commodore 1541 Disk Drive (High-Level Emulation).
///
/// This implements a simplified version of the 1541 disk drive that operates
/// at the IEC protocol level rather than emulating the drive's internal CPU.
pub struct Drive1541 {
    mounted_image: Option<D64Image>,
    device_number: u8,
    channels: [DriveChannel; 16],
    status: DriveStatus,
    status_buffer: Vec<u8>,
    status_position: usize,
    write_states: [Option<WriteState>; 16],
}

impl View for Drive1541 {
    type V = DriveView;

    closed spec fn view(&self) -> DriveView {
        DriveView {
            image: match self.mounted_image {
                Some(img) => Some(img@),
                None => None,
            },
            device_number: self.device_number,
            channels: Seq::new(16, |i: int| self.channels@[i]@),
            status: self.status@,
            status_buffer: self.status_buffer@,
            status_position: self.status_position as int,
            write_states: Seq::new(16, |i: int| ws_view(self.write_states@[i])),
        }
    }
}

/// A drive state that the drive can be in: sixteen channels with full
/// buffers, a mounted image of a D64 size, and no file being written
/// with blocks on disk unless a disk is mounted.
pub open spec fn drive_ok(v: DriveView) -> bool {
    &&& v.channels.len() == 16
    &&& v.write_states.len() == 16
    &&& forall|c: int| 0 <= c < 16 ==> (#[trigger] v.channels[c]).buffer.len() == 256
    &&& forall|c: int|
        0 <= c < 16 && (#[trigger] v.write_states[c]) is Some ==> v.write_states[c]->0.name.len()
            == 16
    &&& forall|c: int|
        0 <= c < 16 && (#[trigger] v.write_states[c]) is Some && v.write_states[c]->0.block_count
            > 0 ==> v.image is Some
    &&& v.image matches Some(img) ==> image_size_ok(img.data.len() as int)
}

/// A file being written on a channel has fewer than 65535 blocks.
pub open spec fn block_room(v: DriveView, c: int) -> bool {
    v.write_states[c] matches Some(w) ==> w.block_count < 0xFFFF
}

/// The counters of a channel have room to advance: a file being written
/// has fewer than 65535 blocks, and a write channel's buffer position is
/// below 255.
pub open spec fn counters_ok(v: DriveView, c: int) -> bool {
    &&& block_room(v, c)
    &&& v.channels[c].active && v.channels[c].mode == ChannelMode::Write ==> v.channels[c].buffer_position
        < 255
}

pub open spec fn all_counters_ok(v: DriveView) -> bool {
    forall|c: int| 0 <= c < 16 ==> #[trigger] counters_ok(v, c)
}

pub open spec fn with_image(v: DriveView, img: D64View) -> DriveView {
    DriveView { image: Some(img), ..v }
}

pub open spec fn with_status(v: DriveView, s: StatusView) -> DriveView {
    DriveView { status: s, ..v }
}

pub open spec fn with_channel(v: DriveView, c: int, ch: ChannelView) -> DriveView {
    DriveView { channels: v.channels.update(c, ch), ..v }
}

pub open spec fn with_write_state(v: DriveView, c: int, w: Option<WriteStateView>) -> DriveView {
    DriveView { write_states: v.write_states.update(c, w), ..v }
}

pub open spec fn no_disk_text() -> Seq<char> {
    "No disk mounted"@
}

pub open spec fn bad_channel_text() -> Seq<char> {
    "Invalid channel number"@
}

/// Point the previous block of a file at a new block.
pub open spec fn spec_link(img: D64View, prev_track: u8, prev_sector: u8, track: u8, sector: u8) -> (D64View, Result<(), DiskFault>) {
    match spec_read_sector(img, prev_track, prev_sector) {
        Err(f) => (img, Err(f)),
        Ok(prev) => (
            spec_write_sector(img, prev_track, prev_sector, prev.update(0, track).update(1, sector)).0,
            Ok(()),
        ),
    }
}

/// Write a full buffer of a write channel to a newly allocated block,
/// linked from the file's previous block.
pub open spec fn spec_flush(v: DriveView, c: int) -> (DriveView, Result<(), DiskFault>) {
    match v.image {
        None => (v, Err(DiskFault::IoError(no_disk_text()))),
        Some(img) => {
            let (img1, ra) = spec_allocate(img);
            match ra {
                Err(f) => (with_image(v, img1), Err(f)),
                Ok((t, s)) => {
                    let w = v.write_states[c];
                    let is_first = match w {
                        Some(ws) => ws.is_first_sector,
                        None => true,
                    };
                    let (img2, rl) = if is_first {
                        (img1, Ok(()))
                    } else {
                        spec_link(img1, w->0.prev_track, w->0.prev_sector, t, s)
                    };
                    match rl {
                        Err(f) => (with_image(v, img2), Err(f)),
                        Ok(()) => {
                            let block = v.channels[c].buffer.update(0, 0u8).update(1, 253u8);
                            let img3 = spec_write_sector(img2, t, s, block).0;
                            let w2 = match w {
                                Some(ws) => Some(
                                    WriteStateView {
                                        first_track: if ws.is_first_sector {
                                            t
                                        } else {
                                            ws.first_track
                                        },
                                        first_sector: if ws.is_first_sector {
                                            s
                                        } else {
                                            ws.first_sector
                                        },
                                        is_first_sector: false,
                                        prev_track: t,
                                        prev_sector: s,
                                        current_track: t,
                                        current_sector: s,
                                        block_count: (ws.block_count + 1) as u16,
                                        ..ws
                                    },
                                ),
                                None => None,
                            };
                            let ch = ChannelView {
                                buffer: zero_buffer(),
                                buffer_position: 2,
                                track: t,
                                sector: s,
                                ..v.channels[c]
                            };
                            (
                                with_write_state(with_channel(with_image(v, img3), c, ch), c, w2),
                                Ok(()),
                            )
                        },
                    }
                },
            }
        },
    }
}

/// Finish a file written on a channel: write what is left in the buffer
/// as its last block, then enter the file in the directory.
pub open spec fn spec_finalize(v: DriveView, c: int) -> (DriveView, Result<(), DiskFault>) {
    match v.write_states[c] {
        None => (v, Ok(())),
        Some(ws) => {
            let v0 = with_write_state(v, c, None);
            let pos = v.channels[c].buffer_position;
            if pos > 2 {
                match v0.image {
                    None => (v0, Err(DiskFault::IoError(no_disk_text()))),
                    Some(img) => {
                        let (img1, ra) = spec_allocate(img);
                        match ra {
                            Err(f) => (with_image(v0, img1), Err(f)),
                            Ok((t, s)) => {
                                let block = v.channels[c].buffer.update(0, 0u8).update(
                                    1,
                                    (pos - 1) as u8,
                                );
                                let (img2, rl) = if ws.is_first_sector {
                                    (img1, Ok(()))
                                } else {
                                    spec_link(img1, ws.prev_track, ws.prev_sector, t, s)
                                };
                                match rl {
                                    Err(f) => (with_image(v0, img2), Err(f)),
                                    Ok(()) => {
                                        let img3 = spec_write_sector(img2, t, s, block).0;
                                        let ft = if ws.is_first_sector {
                                            t
                                        } else {
                                            ws.first_track
                                        };
                                        let fs = if ws.is_first_sector {
                                            s
                                        } else {
                                            ws.first_sector
                                        };
                                        let (img4, rc) = spec_create_entry(
                                            img3,
                                            ws.name,
                                            ws.file_type,
                                            ft,
                                            fs,
                                            (ws.block_count + 1) as u16,
                                        );
                                        match rc {
                                            Err(f) => (with_image(v0, img4), Err(f)),
                                            Ok(_) => (
                                                with_status(with_image(v0, img4), status_ok()),
                                                Ok(()),
                                            ),
                                        }
                                    },
                                }
                            },
                        }
                    },
                }
            } else if ws.block_count > 0 {
                let (img1, rc) = spec_create_entry(
                    v0.image->0,
                    ws.name,
                    ws.file_type,
                    ws.first_track,
                    ws.first_sector,
                    ws.block_count,
                );
                match rc {
                    Err(f) => (with_image(v0, img1), Err(f)),
                    Ok(_) => (with_status(with_image(v0, img1), status_ok()), Ok(())),
                }
            } else {
                (v0, Ok(()))
            }
        },
    }
}

/// Close one channel as closing all channels does: finish a file being
/// written on it, ignoring errors.
pub open spec fn close_one(v: DriveView, c: int) -> DriveView {
    let v1 = if v.channels[c].mode == ChannelMode::Write {
        spec_finalize(v, c).0
    } else {
        v
    };
    with_write_state(with_channel(v1, c, closed_channel(v1.channels[c])), c, None)
}

pub open spec fn close_all_from(v: DriveView, c: int) -> DriveView
    decreases 16 - c,
{
    if c < 0 || c >= 16 {
        v
    } else {
        close_all_from(close_one(v, c), c + 1)
    }
}

pub open spec fn spec_close_channel(v: DriveView, c: u8) -> DriveView {
    if c >= 16 {
        v
    } else {
        let v1 = if v.channels[c as int].mode == ChannelMode::Write {
            let (v2, r) = spec_finalize(v, c as int);
            if r is Err {
                with_status(v2, status_disk_full(0, 0))
            } else {
                v2
            }
        } else {
            v
        };
        with_write_state(
            with_channel(v1, c as int, closed_channel(v1.channels[c as int])),
            c as int,
            None,
        )
    }
}

/// Read the next byte of the status channel, refreshing its buffer from
/// the status (and clearing the status) when all of it was read.
pub open spec fn spec_read_status(v: DriveView) -> (DriveView, Option<u8>) {
    let v1 = if v.status_buffer.len() == 0 || v.status_position >= v.status_buffer.len() {
        DriveView {
            status_buffer: encode_utf8(status_line(v.status)),
            status_position: 0,
            status: status_ok(),
            ..v
        }
    } else {
        v
    };
    if v1.status_position < v1.status_buffer.len() {
        (
            DriveView { status_position: v1.status_position + 1, ..v1 },
            Some(v1.status_buffer[v1.status_position]),
        )
    } else {
        (v1, None)
    }
}

pub open spec fn spec_read_byte(v: DriveView, c: u8) -> (DriveView, Result<Option<u8>, DiskFault>) {
    if c >= 16 {
        (v, Err(DiskFault::IoError(bad_channel_text())))
    } else if c == 15 {
        let (v1, b) = spec_read_status(v);
        (v1, Ok(b))
    } else {
        let ch = v.channels[c as int];
        if !ch.active || ch.mode != ChannelMode::Read {
            (v, Ok(None))
        } else if ch.buffer_position > 254 || (ch.eof && ch.buffer_position > ch.last_byte) {
            if ch.eof || ch.next_track == 0 {
                (v, Ok(None))
            } else {
                match v.image {
                    None => (v, Err(DiskFault::IoError(no_disk_text()))),
                    Some(img) => match spec_read_sector(img, ch.next_track, ch.next_sector) {
                        Err(f) => (v, Err(f)),
                        Ok(sec) => (
                            with_channel(
                                v,
                                c as int,
                                ChannelView {
                                    track: ch.next_track,
                                    sector: ch.next_sector,
                                    buffer: sec,
                                    next_track: sec[0],
                                    next_sector: sec[1],
                                    last_byte: sec[1],
                                    buffer_position: 3,
                                    eof: sec[0] == 0,
                                    ..ch
                                },
                            ),
                            Ok(Some(sec[2])),
                        ),
                    },
                }
            }
        } else {
            (
                with_channel(
                    v,
                    c as int,
                    ChannelView { buffer_position: (ch.buffer_position + 1) as u8, ..ch },
                ),
                Ok(Some(ch.buffer[ch.buffer_position as int])),
            )
        }
    }
}

pub open spec fn spec_write_byte(v: DriveView, c: u8, byte: u8) -> (DriveView, Result<(), DiskFault>) {
    if c >= 16 {
        (v, Err(DiskFault::IoError(bad_channel_text())))
    } else {
        let ch = v.channels[c as int];
        if !ch.active || ch.mode != ChannelMode::Write {
            (v, Err(DiskFault::IoError("Channel not open for writing"@)))
        } else {
            let ch1 = ChannelView {
                buffer: ch.buffer.update(ch.buffer_position as int, byte),
                buffer_position: (ch.buffer_position + 1) as u8,
                ..ch
            };
            let v1 = with_channel(v, c as int, ch1);
            if ch1.buffer_position >= 254 {
                spec_flush(v1, c as int)
            } else {
                (v1, Ok(()))
            }
        }
    }
}

/// A closed file whose name matches a pattern.
pub open spec fn file_matcher(search: Seq<char>) -> spec_fn(Seq<u8>, int) -> bool {
    |sec: Seq<u8>, off: int| live_entry(sec, off) && name_matches(search, entry_name(sec, off))
}

/// The first data block of the first file matching a name, taken in
/// upper case as a pattern.
pub open spec fn spec_find_file(v: DriveView, name: Seq<char>) -> Result<(u8, u8), DiskFault> {
    match v.image {
        None => Err(DiskFault::IoError(no_disk_text())),
        Some(img) => match directory_search(img.data, file_matcher(unicode_uppercase(name))) {
            DirSearch::Found { track, sector, offset } => {
                let sec = sector_of(img.data, track as int, sector as int);
                Ok((sec[offset + 3], sec[offset + 4]))
            },
            DirSearch::End { .. } => Err(DiskFault::FileNotFound(name)),
            DirSearch::Fault(f) => Err(f),
        },
    }
}

pub open spec fn spec_open_read(v: DriveView, c: int, name: Seq<char>) -> (DriveView, Result<(), DiskFault>) {
    match spec_find_file(v, name) {
        Err(f) => (with_status(v, status_file_not_found()), Err(f)),
        Ok((t, s)) => match v.image {
            None => (v, Err(DiskFault::IoError(no_disk_text()))),
            Some(img) => match spec_read_sector(img, t, s) {
                Err(f) => (v, Err(f)),
                Ok(sec) => (
                    with_status(
                        with_channel(
                            v,
                            c,
                            ChannelView {
                                active: true,
                                mode: ChannelMode::Read,
                                track: t,
                                sector: s,
                                buffer: sec,
                                next_track: sec[0],
                                next_sector: sec[1],
                                last_byte: sec[1],
                                buffer_position: 2,
                                eof: sec[0] == 0,
                            },
                        ),
                        status_ok(),
                    ),
                    Ok(()),
                ),
            },
        },
    }
}

/// A new file on a channel: the channel opened for writing with an empty
/// buffer, and a write state for the name and type given.
pub open spec fn spec_open_write(v: DriveView, c: int, name: Seq<char>) -> (DriveView, Result<(), DiskFault>) {
    if spec_find_file(v, name) is Ok {
        (with_status(v, status_file_exists()), Err(DiskFault::IoError("File exists"@)))
    } else if v.image is None {
        (with_status(v, status_file_not_found()), Err(DiskFault::IoError(no_disk_text())))
    } else {
        let (n, ft) = parse_type(name);
        let ch = ChannelView {
            active: true,
            mode: ChannelMode::Write,
            track: 0,
            sector: 0,
            buffer: zero_buffer(),
            buffer_position: 2,
            eof: false,
            ..v.channels[c]
        };
        let ws = WriteStateView {
            name: name_field_bytes(n),
            file_type: ft,
            first_track: 0,
            first_sector: 0,
            current_track: 0,
            current_sector: 0,
            prev_track: 0,
            prev_sector: 0,
            block_count: 0,
            is_first_sector: true,
        };
        (with_status(with_write_state(with_channel(v, c, ch), c, Some(ws)), status_ok()), Ok(()))
    }
}

/// The listing of a disk: header, one line per listed entry of the
/// directory chain, and the free block count.
pub open spec fn disk_listing(img: D64View) -> Result<Seq<u8>, DiskFault> {
    match chain_lines(img.data, 18, 1, CHAIN_LIMIT as nat) {
        Err(f) => Err(f),
        Ok(lines) => Ok(
            listing_header(sector_of(img.data, 18, 0)) + lines + listing_footer(
                free_count_upto(img.data, 35) as u16,
            ),
        ),
    }
}

/// A channel loaded with the first 256 bytes of a listing, which ends at
/// the listing's last byte.
pub open spec fn listing_channel(ch: ChannelView, listing: Seq<u8>) -> ChannelView {
    let n = if listing.len() < 256 {
        listing.len() as int
    } else {
        256
    };
    ChannelView {
        active: true,
        mode: ChannelMode::Read,
        buffer: Seq::new(256, |k: int| if k < n { listing[k] } else { ch.buffer[k] }),
        buffer_position: 0,
        eof: listing.len() <= 256,
        next_track: 0,
        last_byte: if n > 0 {
            (n - 1) as u8
        } else {
            0
        },
        ..ch
    }
}

pub open spec fn spec_open_directory(v: DriveView, c: int) -> (DriveView, Result<(), DiskFault>) {
    match v.image {
        None => (with_status(v, status_file_not_found()), Err(DiskFault::IoError(no_disk_text()))),
        Some(img) => match disk_listing(img) {
            Err(f) => (v, Err(f)),
            Ok(listing) => (
                with_status(with_channel(v, c, listing_channel(v.channels[c], listing)), status_ok()),
                Ok(()),
            ),
        },
    }
}

/// The argument of a drive command `X:arg` or `X0:arg`, for its letter.
pub open spec fn command_arg(cmd: Seq<char>, letter: char) -> Option<Seq<char>> {
    if cmd.len() >= 2 && cmd[0] == letter && cmd[1] == ':' {
        Some(cmd.subrange(2, cmd.len() as int))
    } else if utf8_len(cmd) > 3 && cmd.len() > 2 && cmd[1] == '0' && cmd[2] == ':' {
        Some(cmd.subrange(3, cmd.len() as int))
    } else {
        None
    }
}

/// `S:name`: delete a file.
pub open spec fn spec_scratch(v: DriveView, cmd: Seq<char>) -> DriveView {
    match command_arg(cmd, 'S') {
        None => with_status(v, status_syntax_error()),
        Some(name) => if name.len() == 0 {
            with_status(v, status_syntax_error())
        } else {
            match v.image {
                None => with_status(v, status_file_not_found()),
                Some(img) => {
                    let (img1, r) = spec_delete(img, name);
                    let st = match r {
                        Ok(()) => status_scratched(),
                        Err(DiskFault::FileNotFound(_)) => status_file_not_found(),
                        Err(_) => status_syntax_error(),
                    };
                    with_status(with_image(v, img1), st)
                },
            }
        },
    }
}

/// The first position of a character in a sequence.
pub open spec fn first_index_of(s: Seq<char>, c: char) -> Option<int>
    decreases s.len(),
{
    if s.len() == 0 {
        None
    } else if s[0] == c {
        Some(0)
    } else {
        match first_index_of(s.drop_first(), c) {
            Some(i) => Some(i + 1),
            None => None,
        }
    }
}

/// The disk ID of a `N:name,id` command: the first two bytes of the ID
/// text, padded with spaces.
pub open spec fn id_bytes(id: Seq<char>) -> Seq<u8> {
    let b = encode_utf8(id);
    if b.len() >= 2 {
        seq![b[0], b[1]]
    } else if b.len() == 1 {
        seq![b[0], 0x20u8]
    } else {
        seq![0x20u8, 0x20u8]
    }
}

/// `N:name,id`: format a new blank disk in the drive.
pub open spec fn spec_new_disk(v: DriveView, cmd: Seq<char>) -> DriveView {
    match command_arg(cmd, 'N') {
        None => with_status(v, status_syntax_error()),
        Some(params) => {
            let (name, id) = match first_index_of(params, ',') {
                Some(p) => (params.subrange(0, p), id_bytes(params.subrange(p + 1, params.len() as int))),
                None => (params, seq![0x20u8, 0x20u8]),
            };
            if name.len() == 0 {
                with_status(v, status_syntax_error())
            } else {
                let v1 = with_image(v, D64View { data: blank_image(name, id), modified: true });
                with_status(close_all_from(v1, 0), status_ok())
            }
        },
    }
}

/// A command on channel 15, trimmed and taken in upper case; the status
/// line is prepared for reading afterwards.
pub open spec fn spec_handle_command(v: DriveView, command: Seq<char>) -> DriveView {
    let cmd = unicode_uppercase(trimmed(command));
    if cmd.len() == 0 {
        v
    } else {
        let c0 = cmd[0];
        let v1 = if c0 == 'I' || c0 == 'V' || c0 == 'R' || c0 == 'C' {
            with_status(v, status_ok())
        } else if c0 == 'N' {
            spec_new_disk(v, cmd)
        } else if c0 == 'S' {
            spec_scratch(v, cmd)
        } else {
            with_status(v, status_syntax_error())
        };
        DriveView {
            status_buffer: encode_utf8(status_line(v1.status)),
            status_position: 0,
            ..v1
        }
    }
}

pub open spec fn spec_open_channel(v: DriveView, c: u8, name: Seq<char>, mode: ChannelMode) -> (DriveView, Result<(), DiskFault>) {
    if c >= 16 {
        (v, Err(DiskFault::IoError(bad_channel_text())))
    } else if c == 15 {
        (spec_handle_command(v, name), Ok(()))
    } else if name == "$"@ {
        spec_open_directory(v, c as int)
    } else {
        match mode {
            ChannelMode::Read => spec_open_read(v, c as int, name),
            ChannelMode::Write => spec_open_write(v, c as int, name),
            _ => (v, Err(DiskFault::IoError("Invalid mode for file"@))),
        }
    }
}

pub open spec fn spec_mount(v: DriveView, data: Seq<u8>) -> (DriveView, Result<(), DiskFault>) {
    if !image_size_ok(data.len() as int) {
        (v, Err(DiskFault::InvalidSize { expected: super::geometry::D64_SIZE, got: data.len() as usize }))
    } else {
        match spec_validate(data) {
            Err(f) => (v, Err(f)),
            Ok(()) => (
                close_all_from(
                    with_status(with_image(v, D64View { data, modified: false }), status_ok()),
                    0,
                ),
                Ok(()),
            ),
        }
    }
}

/// The argument of a drive command, as `command_arg` says.
fn command_argument(cmd: &Vec<char>, letter: char) -> (r: Option<Vec<char>>)
    ensures
        match command_arg(cmd@, letter) {
            Some(a) => r matches Some(x) && x@ == a,
            None => r is None,
        },
{
    let from: usize = if cmd.len() >= 2 && cmd[0] == letter && cmd[1] == ':' {
        2
    } else if utf8_length(cmd) > 3 && cmd.len() > 2 && cmd[1] == '0' && cmd[2] == ':' {
        3
    } else {
        return None;
    };
    Some(sub_chars(cmd, from, cmd.len()))
}

fn first_index(s: &Vec<char>, c: char) -> (r: Option<usize>)
    ensures
        match first_index_of(s@, c) {
            Some(p) => r == Some(p as usize) && 0 <= p < s.len(),
            None => r is None,
        },
{
    let mut i: usize = 0;
    assert(s@.subrange(0, s.len() as int) =~= s@);
    while i < s.len()
        invariant
            i <= s.len(),
            first_index_of(s@, c) == match first_index_of(s@.subrange(i as int, s.len() as int), c) {
                Some(p) => Some(p + i),
                None => None,
            },
        decreases s.len() - i,
    {
        let ghost rest = s@.subrange(i as int, s.len() as int);
        assert(rest[0] == s@[i as int]);
        if s[i] == c {
            return Some(i);
        }
        assert(rest.drop_first() =~= s@.subrange(i + 1, s.len() as int));
        i += 1;
    }
    None
}

/// The drive without its disk, status OK.
pub open spec fn unmounted(v: DriveView) -> DriveView {
    DriveView { image: None, status: status_ok(), ..v }
}

/// The state of a new drive: no disk, all channels closed, status OK.
pub open spec fn new_drive(device_number: u8) -> DriveView {
    DriveView {
        image: None,
        device_number,
        channels: Seq::new(16, |i: int| idle_channel()),
        status: status_ok(),
        status_buffer: Seq::empty(),
        status_position: 0,
        write_states: Seq::new(16, |i: int| None),
    }
}

/// Point the previous block of a file at a new block.
fn link_blocks(img: &mut D64Image, prev_track: u8, prev_sector: u8, track: u8, sector: u8) -> (r: Result<(), D64Error>)
    requires
        old(img).wf(),
    ensures
        final(img).wf(),
        (final(img)@, res_view(r)) == spec_link(old(img)@, prev_track, prev_sector, track, sector),
{
    let mut prev = match img.read_sector(prev_track, prev_sector) {
        Ok(b) => b,
        Err(e) => return Err(e),
    };
    prev[0] = track;
    prev[1] = sector;
    let _ = img.write_sector(prev_track, prev_sector, &prev);
    Ok(())
}

impl Default for Drive1541 {
    fn default() -> (r: Self)
        ensures
            r.wf(),
            r@ == new_drive(8),
    {
        Self::new(8)
    }
}

impl Drive1541 {
    pub open spec fn wf(&self) -> bool {
        drive_ok(self@)
    }

    /// Create a new 1541 drive with the specified device number.
    pub fn new(device_number: u8) -> (r: Self)
        ensures
            r.wf(),
            r@ == new_drive(device_number),
    {
        let ch = DriveChannel::new();
        let r = Drive1541 {
            mounted_image: None,
            device_number,
            channels: [ch; 16],
            status: DriveStatus::ok(),
            status_buffer: Vec::new(),
            status_position: 0,
            write_states: [None; 16],
        };
        assert(r@ =~= new_drive(device_number));
        r
    }

    /// Get the device number.
    pub fn device_number(&self) -> (r: u8)
        ensures
            r == self@.device_number,
    {
        self.device_number
    }

    /// Check if a disk is mounted.
    pub fn has_disk(&self) -> (r: bool)
        ensures
            r == self@.image is Some,
    {
        self.mounted_image.is_some()
    }

    /// Get a reference to the mounted image.
    pub fn image(&self) -> (r: Option<&D64Image>)
        ensures
            match r {
                Some(img) => self@.image == Some(img@),
                None => self@.image is None,
            },
    {
        match &self.mounted_image {
            Some(img) => Some(img),
            None => None,
        }
    }

    /// Get a mutable reference to the mounted image.
    pub fn image_mut(&mut self) -> (r: Option<&mut D64Image>)
        ensures
            match r {
                Some(img) => old(self)@.image == Some(img@) && final(self)@ == with_image(
                    old(self)@,
                    final(img)@,
                ),
                None => old(self)@.image is None && final(self)@ == old(self)@,
            },
    {
        match &mut self.mounted_image {
            Some(img) => Some(img),
            None => None,
        }
    }

    /// Get the current drive status.
    pub fn status(&self) -> (r: &DriveStatus)
        ensures
            r@ == self@.status,
    {
        &self.status
    }

    /// Check if the mounted disk has been modified.
    pub fn is_disk_modified(&self) -> (r: bool)
        ensures
            r == (self@.image matches Some(img) && img.modified),
    {
        match &self.mounted_image {
            Some(img) => img.is_modified(),
            None => false,
        }
    }

    /// Get the raw D64 data for saving/downloading.
    ///
    /// Returns None if no disk is mounted.
    pub fn get_disk_data(&self) -> (r: Option<&[u8]>)
        ensures
            match r {
                Some(d) => self@.image matches Some(img) && d@ == img.data,
                None => self@.image is None,
            },
    {
        match &self.mounted_image {
            Some(img) => Some(img.data()),
            None => None,
        }
    }

    /// Get the number of free blocks on the disk.
    pub fn free_blocks(&self) -> (r: Option<u16>)
        requires
            self.wf(),
        ensures
            match r {
                Some(n) => self@.image matches Some(img) && n == free_count_upto(img.data, 35),
                None => self@.image is None,
            },
    {
        match &self.mounted_image {
            Some(img) => Some(img.free_blocks()),
            None => None,
        }
    }

    /// Clear the modified flag on the mounted disk.
    ///
    /// Call this after successfully saving the disk to indicate
    /// there are no unsaved changes.
    pub fn clear_disk_modified(&mut self)
        requires
            old(self).wf(),
        ensures
            final(self).wf(),
            final(self)@ == match old(self)@.image {
                Some(img) => with_image(old(self)@, D64View { modified: false, ..img }),
                None => old(self)@,
            },
    {
        match &mut self.mounted_image {
            Some(img) => img.clear_modified(),
            None => {},
        }
    }

    /// Write the buffer of a write channel to a newly allocated block.
    fn flush_write_buffer(&mut self, channel: u8) -> (r: Result<(), D64Error>)
        requires
            old(self).wf(),
            channel < 16,
            block_room(old(self)@, channel as int),
        ensures
            final(self).wf(),
            (final(self)@, res_view(r)) == spec_flush(old(self)@, channel as int),
    {
        let ghost v = self@;
        let ci = channel as usize;
        let (track, sector) = match &mut self.mounted_image {
            Some(img) => match img.allocate_sector() {
                Ok(ts) => ts,
                Err(e) => {
                    assert(self@ =~= spec_flush(v, ci as int).0);
                    return Err(e);
                },
            },
            None => return Err(io_error("No disk mounted")),
        };
        let mut sector_data = self.channels[ci].buffer;
        let is_first = match self.write_states[ci] {
            Some(ws) => ws.is_first_sector,
            None => true,
        };
        if !is_first {
            let ws = match self.write_states[ci] {
                Some(w) => w,
                None => return Ok(()),
            };
            let rl = match &mut self.mounted_image {
                Some(img) => link_blocks(img, ws.prev_track, ws.prev_sector, track, sector),
                None => Ok(()),
            };
            match rl {
                Err(e) => {
                    assert(self@ =~= spec_flush(v, ci as int).0);
                    return Err(e);
                },
                Ok(()) => {},
            }
        }
        sector_data[0] = 0;
        sector_data[1] = 253;
        match &mut self.mounted_image {
            Some(img) => {
                let _ = img.write_sector(track, sector, &sector_data);
            },
            None => {},
        }
        match self.write_states[ci] {
            Some(ws) => {
                let mut w = ws;
                if w.is_first_sector {
                    w.first_track = track;
                    w.first_sector = sector;
                    w.is_first_sector = false;
                }
                w.prev_track = track;
                w.prev_sector = sector;
                w.current_track = track;
                w.current_sector = sector;
                w.block_count = w.block_count + 1;
                self.write_states[ci] = Some(w);
            },
            None => {},
        }
        let mut ch = self.channels[ci];
        ch.buffer = [0; 256];
        ch.buffer_position = 2;
        ch.track = track;
        ch.sector = sector;
        self.channels[ci] = ch;
        assert(ch@.buffer =~= zero_buffer());
        assert(self@ =~= spec_flush(v, ci as int).0);
        Ok(())
    }

    /// Finish the file written on a channel: write what is left in its
    /// buffer as the last block and enter the file in the directory.
    fn finalize_write(&mut self, channel: u8) -> (r: Result<(), D64Error>)
        requires
            old(self).wf(),
            channel < 16,
            block_room(old(self)@, channel as int),
        ensures
            final(self).wf(),
            (final(self)@, res_view(r)) == spec_finalize(old(self)@, channel as int),
            final(self)@.channels == old(self)@.channels,
            final(self)@.device_number == old(self)@.device_number,
            forall|c: int|
                0 <= c < 16 && c != channel ==> final(self)@.write_states[c] == old(
                    self,
                )@.write_states[c],
    {
        let ghost v = self@;
        let ci = channel as usize;
        let ws = match self.write_states[ci] {
            Some(w) => w,
            None => return Ok(()),
        };
        self.write_states[ci] = None;
        let ghost v0 = self@;
        assert(v0 =~= with_write_state(v, ci as int, None));
        let buffer_position = self.channels[ci].buffer_position;
        if buffer_position > 2 {
            let (track, sector) = match &mut self.mounted_image {
                Some(img) => match img.allocate_sector() {
                    Ok(ts) => ts,
                    Err(e) => {
                        assert(self@ =~= spec_finalize(v, ci as int).0);
                        return Err(e);
                    },
                },
                None => return Err(io_error("No disk mounted")),
            };
            let mut sector_data = self.channels[ci].buffer;
            sector_data[0] = 0;
            sector_data[1] = buffer_position - 1;
            if !ws.is_first_sector {
                let rl = match &mut self.mounted_image {
                    Some(img) => link_blocks(img, ws.prev_track, ws.prev_sector, track, sector),
                    None => Ok(()),
                };
                match rl {
                    Err(e) => {
                        assert(self@ =~= spec_finalize(v, ci as int).0);
                        return Err(e);
                    },
                    Ok(()) => {},
                }
            }
            match &mut self.mounted_image {
                Some(img) => {
                    let _ = img.write_sector(track, sector, &sector_data);
                },
                None => {},
            }
            let (first_track, first_sector) = if ws.is_first_sector {
                (track, sector)
            } else {
                (ws.first_track, ws.first_sector)
            };
            let block_count = ws.block_count + 1;
            let rc = match &mut self.mounted_image {
                Some(img) => img.write_directory_entry(
                    &ws.name,
                    ws.file_type,
                    first_track,
                    first_sector,
                    block_count,
                ),
                None => Ok((0, 0, 0)),
            };
            match rc {
                Err(e) => {
                    assert(self@ =~= spec_finalize(v, ci as int).0);
                    return Err(e);
                },
                Ok(_) => {},
            }
            self.status = DriveStatus::ok();
            assert(self@ =~= spec_finalize(v, ci as int).0);
        } else if ws.block_count > 0 {
            let rc = match &mut self.mounted_image {
                Some(img) => img.write_directory_entry(
                    &ws.name,
                    ws.file_type,
                    ws.first_track,
                    ws.first_sector,
                    ws.block_count,
                ),
                None => Ok((0, 0, 0)),
            };
            match rc {
                Err(e) => {
                    assert(self@ =~= spec_finalize(v, ci as int).0);
                    return Err(e);
                },
                Ok(_) => {},
            }
            self.status = DriveStatus::ok();
            assert(self@ =~= spec_finalize(v, ci as int).0);
        }
        Ok(())
    }

    /// Close all channels, finishing files being written.
    pub fn close_all_channels(&mut self)
        requires
            old(self).wf(),
            all_counters_ok(old(self)@),
        ensures
            final(self).wf(),
            final(self)@ == close_all_from(old(self)@, 0),
            forall|c: int| 0 <= c < 16 ==> #[trigger] final(self)@.write_states[c] is None,
            final(self)@.device_number == old(self)@.device_number,
    {
        let mut i: usize = 0;
        assert forall|c: int| 0 <= c < 16 implies #[trigger] block_room(self@, c) by {
            assert(counters_ok(self@, c));
        }
        while i < 16
            invariant
                i <= 16,
                self.wf(),
                close_all_from(old(self)@, 0) == close_all_from(self@, i as int),
                forall|c: int| i <= c < 16 ==> #[trigger] block_room(self@, c),
                forall|c: int| 0 <= c < i ==> #[trigger] self@.write_states[c] is None,
                self@.device_number == old(self)@.device_number,
            decreases 16 - i,
        {
            let ghost v = self@;
            if self.channels[i].mode == ChannelMode::Write {
                let _ = self.finalize_write(i as u8);
            }
            let ghost v1 = self@;
            let mut ch = self.channels[i];
            ch.close();
            self.channels[i] = ch;
            self.write_states[i] = None;
            assert(self@ =~= close_one(v, i as int));
            assert forall|c: int| i + 1 <= c < 16 implies #[trigger] block_room(self@, c) by {
                assert(block_room(v, c));
                assert(self@.write_states[c] == v1.write_states[c]);
            }
            assert forall|c: int| 0 <= c < i + 1 implies #[trigger] self@.write_states[c] is None by {
                if c < i {
                    assert(v1.write_states[c] == v.write_states[c]);
                }
            }
            i += 1;
        }
    }

    /// Close a channel.
    ///
    /// For write channels, this finalizes the file by writing any remaining
    /// data and creating the directory entry; when that fails, the status
    /// becomes "DISK FULL".
    pub fn close_channel(&mut self, channel: u8)
        requires
            old(self).wf(),
            channel < 16 ==> block_room(old(self)@, channel as int),
        ensures
            final(self).wf(),
            final(self)@ == spec_close_channel(old(self)@, channel),
    {
        if channel >= 16 {
            return;
        }
        let ghost v = self@;
        let ci = channel as usize;
        if self.channels[ci].mode == ChannelMode::Write {
            match self.finalize_write(channel) {
                Err(_) => {
                    self.status = DriveStatus::disk_full(0, 0);
                },
                Ok(()) => {},
            }
        }
        let mut ch = self.channels[ci];
        ch.close();
        self.channels[ci] = ch;
        self.write_states[ci] = None;
        assert(self@ =~= spec_close_channel(v, channel));
    }

    /// Check if a filename matches a pattern (with wildcards).
    pub fn filename_matches(&self, pattern: &str, filename: &str) -> (r: bool)
        ensures
            r == name_matches(pattern@, filename@),
    {
        matches_pattern(pattern, filename)
    }

    /// Parse filename for type specifier.
    ///
    /// Handles filenames like "MYFILE,P" (PRG) or "DATA,S" (SEQ).
    /// Returns (name, file_type_byte).
    pub fn parse_filename_type(filename: &str) -> (r: (&str, u8))
        ensures
            (r.0@, r.1) == parse_type(filename@),
    {
        let cs = chars_of(filename);
        match last_index(&cs, ',') {
            Some(pos) => {
                let name = filename.substring_char(0, pos);
                let c = if pos + 1 < cs.len() {
                    cs[pos + 1]
                } else {
                    'P'
                };
                (name, type_code_of(c))
            },
            None => (filename, 0x02),
        }
    }

    /// Find a file in the directory, the name taken in upper case as a
    /// pattern.
    ///
    /// Returns the track and sector of the first data block.
    /// Does not modify drive status - caller should set status on error.
    #[verifier::loop_isolation(false)]
    pub fn find_file(&self, filename: &str) -> (r: Result<(u8, u8), D64Error>)
        requires
            self.wf(),
        ensures
            res_view(r) == spec_find_file(self@, filename@),
    {
        let image = match &self.mounted_image {
            Some(img) => img,
            None => return Err(io_error("No disk mounted")),
        };
        let name = chars_of(filename);
        let upper = to_uppercase(&name);
        let search = string_of(&upper);
        let ghost m = file_matcher(unicode_uppercase(filename@));
        let ghost d = image@.data;
        let mut dir_track: u8 = 18;
        let mut dir_sector: u8 = 1;
        let mut fuel: usize = CHAIN_LIMIT;
        loop
            invariant
                1 <= fuel <= CHAIN_LIMIT,
                directory_search(d, m) == dir_search(d, dir_track, dir_sector, fuel as nat, m),
            decreases fuel,
        {
            let sector = match image.read_sector(dir_track, dir_sector) {
                Ok(b) => b,
                Err(e) => return Err(e),
            };
            assert(location_fault(dir_track, dir_sector) is None);
            assert(sector@ == sector_of(d, dir_track as int, dir_sector as int));
            let mut i: usize = 0;
            while i < 8
                invariant
                    i <= 8,
                    first_match(sector@, m, 0) == first_match(sector@, m, i as int),
                decreases 8 - i,
            {
                let offset = i * 32;
                let file_type = sector[offset + 2];
                let ghost matched = m(sector@, offset as int);
                assert(matched == (live_entry(sector@, offset as int) && name_matches(
                    search@,
                    entry_name(sector@, offset as int),
                )));
                if file_type != 0 && file_type & 0x80 != 0 {
                    let entry = string_of(&name_chars(&sector, offset + 5));
                    if self.filename_matches(search.as_str(), entry.as_str()) {
                        return Ok((sector[offset + 3], sector[offset + 4]));
                    }
                }
                i += 1;
            }
            if sector[0] == 0 {
                return Err(D64Error::FileNotFound(String::from_str(filename)));
            }
            if fuel <= 1 {
                return Err(super::directory::chain_too_long());
            }
            dir_track = sector[0];
            dir_sector = sector[1];
            fuel -= 1;
        }
    }

    /// Open a file for reading.
    fn open_file_read(&mut self, channel: u8, filename: &str) -> (r: Result<(), D64Error>)
        requires
            old(self).wf(),
            channel < 16,
        ensures
            final(self).wf(),
            (final(self)@, res_view(r)) == spec_open_read(old(self)@, channel as int, filename@),
    {
        let ghost v = self@;
        let (track, sector) = match self.find_file(filename) {
            Ok(result) => result,
            Err(e) => {
                self.status = DriveStatus::file_not_found();
                assert(self@ =~= spec_open_read(v, channel as int, filename@).0);
                return Err(e);
            },
        };
        let sector_data = match &self.mounted_image {
            Some(img) => match img.read_sector(track, sector) {
                Ok(b) => b,
                Err(e) => return Err(e),
            },
            None => return Err(io_error("No disk mounted")),
        };
        let ci = channel as usize;
        let mut ch = self.channels[ci];
        ch.active = true;
        ch.mode = ChannelMode::Read;
        ch.track = track;
        ch.sector = sector;
        ch.buffer = sector_data;
        ch.next_track = sector_data[0];
        ch.next_sector = sector_data[1];
        ch.last_byte = sector_data[1];
        ch.buffer_position = 2;
        ch.eof = ch.next_track == 0;
        self.channels[ci] = ch;
        self.status = DriveStatus::ok();
        assert(self@ =~= spec_open_read(v, channel as int, filename@).0);
        Ok(())
    }

    /// Open a file for writing. The name may end in a type suffix such as
    /// `,S`; the file is entered in the directory when it is closed.
    fn open_file_write(&mut self, channel: u8, filename: &str) -> (r: Result<(), D64Error>)
        requires
            old(self).wf(),
            channel < 16,
        ensures
            final(self).wf(),
            (final(self)@, res_view(r)) == spec_open_write(old(self)@, channel as int, filename@),
    {
        let ghost v = self@;
        if self.find_file(filename).is_ok() {
            self.status = DriveStatus::file_exists();
            assert(self@ =~= spec_open_write(v, channel as int, filename@).0);
            return Err(io_error("File exists"));
        }
        if self.mounted_image.is_none() {
            self.status = DriveStatus::file_not_found();
            assert(self@ =~= spec_open_write(v, channel as int, filename@).0);
            return Err(io_error("No disk mounted"));
        }
        let (name, file_type) = Self::parse_filename_type(filename);
        let field = name_field_of(&chars_of(name));
        let ci = channel as usize;
        let mut ch = self.channels[ci];
        ch.active = true;
        ch.mode = ChannelMode::Write;
        ch.track = 0;
        ch.sector = 0;
        ch.buffer = [0; 256];
        ch.buffer_position = 2;
        ch.eof = false;
        self.channels[ci] = ch;
        self.write_states[ci] = Some(
            WriteState {
                name: field,
                file_type,
                first_track: 0,
                first_sector: 0,
                current_track: 0,
                current_sector: 0,
                prev_track: 0,
                prev_sector: 0,
                block_count: 0,
                is_first_sector: true,
            },
        );
        self.status = DriveStatus::ok();
        assert(ch@.buffer =~= zero_buffer());
        assert(self@ =~= spec_open_write(v, channel as int, filename@).0);
        Ok(())
    }

    /// Count free blocks on the disk.
    fn count_free_blocks(&self) -> (r: Result<u16, D64Error>)
        requires
            self.wf(),
        ensures
            match self@.image {
                Some(img) => r == Ok::<u16, D64Error>(free_count_upto(img.data, 35) as u16),
                None => r matches Err(e) && e@ == DiskFault::IoError(no_disk_text()),
            },
    {
        match &self.mounted_image {
            Some(img) => Ok(img.free_blocks()),
            None => Err(io_error("No disk mounted")),
        }
    }

    /// Open the directory for reading: the channel is loaded with the
    /// listing as a BASIC program.
    #[verifier::loop_isolation(false)]
    fn open_directory(&mut self, channel: u8) -> (r: Result<(), D64Error>)
        requires
            old(self).wf(),
            channel < 16,
        ensures
            final(self).wf(),
            (final(self)@, res_view(r)) == spec_open_directory(old(self)@, channel as int),
    {
        let ghost v = self@;
        let mut listing: Vec<u8> = Vec::new();
        let ghost mut acc: Seq<u8> = Seq::empty();
        let ghost mut header: Seq<u8> = Seq::empty();
        match &self.mounted_image {
            None => {
                self.status = DriveStatus::file_not_found();
                assert(self@ =~= spec_open_directory(v, channel as int).0);
                return Err(io_error("No disk mounted"));
            },
            Some(image) => {
                let bam = match image.read_bam() {
                    Ok(b) => b,
                    Err(e) => return Err(e),
                };
                push_listing_header(&mut listing, &bam);
                let ghost d = image@.data;
                proof {
                    header = listing@;
                }
                let mut dir_track: u8 = 18;
                let mut dir_sector: u8 = 1;
                let mut fuel: usize = CHAIN_LIMIT;
                loop
                    invariant
                        1 <= fuel <= CHAIN_LIMIT,
                        listing@ == header + acc,
                        chain_lines(d, 18, 1, CHAIN_LIMIT as nat) == match chain_lines(
                            d,
                            dir_track,
                            dir_sector,
                            fuel as nat,
                        ) {
                            Ok(rest) => Ok(acc + rest),
                            Err(f) => Err(f),
                        },
                    decreases fuel,
                {
                    let sector = match image.read_sector(dir_track, dir_sector) {
                        Ok(b) => b,
                        Err(e) => return Err(e),
                    };
                    assert(location_fault(dir_track, dir_sector) is None);
                    assert(sector@ == sector_of(d, dir_track as int, dir_sector as int));
                    let ghost acc_old = acc;
                    push_sector_lines(&mut listing, &sector);
                    proof {
                        acc = acc + sector_lines(sector@, 0);
                        assert(listing@ =~= header + acc);
                    }
                    if sector[0] == 0 {
                        break;
                    }
                    if fuel <= 1 {
                        return Err(super::directory::chain_too_long());
                    }
                    proof {
                        let rest_r = chain_lines(d, sector[0], sector[1], (fuel - 1) as nat);
                        if let Ok(rest) = rest_r {
                            assert(acc + rest =~= acc_old + (sector_lines(sector@, 0) + rest));
                        }
                    }
                    dir_track = sector[0];
                    dir_sector = sector[1];
                    fuel -= 1;
                }
            },
        }
        let ghost img = v.image->0;
        assert(header == listing_header(sector_of(img.data, 18, 0)));
        assert(chain_lines(img.data, 18, 1, CHAIN_LIMIT as nat) == Ok::<Seq<u8>, DiskFault>(acc));
        let free = match self.count_free_blocks() {
            Ok(n) => n,
            Err(e) => return Err(e),
        };
        push_listing_footer(&mut listing, free);
        assert(disk_listing(img) == Ok::<Seq<u8>, DiskFault>(listing@));
        let ci = channel as usize;
        let mut ch = self.channels[ci];
        ch.active = true;
        ch.mode = ChannelMode::Read;
        let n = if listing.len() < 256 {
            listing.len()
        } else {
            256
        };
        let ghost old_buffer = ch.buffer@;
        let mut k: usize = 0;
        while k < n
            invariant
                k <= n <= 256,
                n <= listing.len(),
                ch.buffer@.len() == 256,
                ch.active,
                ch.mode == ChannelMode::Read,
                ch.track == v.channels[ci as int].track,
                ch.sector == v.channels[ci as int].sector,
                ch.next_sector == v.channels[ci as int].next_sector,
                forall|j: int|
                    0 <= j < 256 ==> #[trigger] ch.buffer@[j] == if j < k {
                        listing@[j]
                    } else {
                        old_buffer[j]
                    },
            decreases n - k,
        {
            ch.buffer[k] = listing[k];
            k += 1;
        }
        ch.buffer_position = 0;
        ch.eof = listing.len() <= 256;
        ch.next_track = 0;
        ch.last_byte = if n > 0 {
            (n - 1) as u8
        } else {
            0
        };
        self.channels[ci] = ch;
        self.status = DriveStatus::ok();
        assert(ch@.buffer =~= listing_channel(v.channels[ci as int], listing@).buffer);
        assert(self@ =~= spec_open_directory(v, channel as int).0);
        Ok(())
    }

    /// Handle a command on channel 15: `I` (initialize), `V` (validate),
    /// `R` (rename) and `C` (copy) answer OK, `N:name,id` formats a new
    /// disk, `S:name` scratches a file, anything else is a syntax error.
    /// The command is trimmed and taken in upper case.
    pub fn handle_command(&mut self, command: &str)
        requires
            old(self).wf(),
            all_counters_ok(old(self)@),
        ensures
            final(self).wf(),
            final(self)@ == spec_handle_command(old(self)@, command@),
    {
        let ghost v = self@;
        let chars = chars_of(command);
        let trimmed_command = trim(&chars);
        let cmd = to_uppercase(&trimmed_command);
        if cmd.len() == 0 {
            return;
        }
        let c0 = cmd[0];
        if c0 == 'I' || c0 == 'V' || c0 == 'R' || c0 == 'C' {
            self.status = DriveStatus::ok();
        } else if c0 == 'N' {
            self.handle_new_command(string_of(&cmd).as_str());
        } else if c0 == 'S' {
            self.handle_scratch_command(string_of(&cmd).as_str());
        } else {
            self.status = DriveStatus::syntax_error();
        }
        let line = self.status.to_string();
        self.status_buffer = slice_to_vec(line.as_str().as_bytes());
        self.status_position = 0;
        assert(self@ =~= spec_handle_command(v, command@));
    }

    /// Handle the SCRATCH command (S:filename).
    fn handle_scratch_command(&mut self, cmd: &str)
        requires
            old(self).wf(),
            cmd@.len() > 0,
            cmd@[0] == 'S',
        ensures
            final(self).wf(),
            final(self)@ == spec_scratch(old(self)@, cmd@),
    {
        let ghost v = self@;
        let cs = chars_of(cmd);
        let filename = match command_argument(&cs, 'S') {
            Some(f) => f,
            None => {
                self.status = DriveStatus::syntax_error();
                return;
            },
        };
        if filename.len() == 0 {
            self.status = DriveStatus::syntax_error();
            return;
        }
        let name = string_of(&filename);
        match &mut self.mounted_image {
            None => {
                self.status = DriveStatus::file_not_found();
            },
            Some(image) => {
                let r = image.delete_file(name.as_str());
                match r {
                    Ok(()) => {
                        self.status = DriveStatus::files_scratched();
                    },
                    Err(D64Error::FileNotFound(_)) => {
                        self.status = DriveStatus::file_not_found();
                    },
                    Err(_) => {
                        self.status = DriveStatus::syntax_error();
                    },
                }
            },
        }
        assert(self@ =~= spec_scratch(v, cmd@));
    }

    /// Handle the NEW command (N:diskname,id or N0:diskname,id).
    fn handle_new_command(&mut self, cmd: &str)
        requires
            old(self).wf(),
            all_counters_ok(old(self)@),
            cmd@.len() > 0,
            cmd@[0] == 'N',
        ensures
            final(self).wf(),
            final(self)@ == spec_new_disk(old(self)@, cmd@),
    {
        let ghost v = self@;
        let cs = chars_of(cmd);
        let params = match command_argument(&cs, 'N') {
            Some(p) => p,
            None => {
                self.status = DriveStatus::syntax_error();
                return;
            },
        };
        let (name, id) = match first_index(&params, ',') {
            Some(p) => {
                let name = sub_chars(&params, 0, p);
                let id_chars = sub_chars(&params, p + 1, params.len());
                let id_str = string_of(&id_chars);
                let b = id_str.as_str().as_bytes();
                let id: [u8; 2] = if b.len() >= 2 {
                    [b[0], b[1]]
                } else if b.len() == 1 {
                    [b[0], 0x20]
                } else {
                    [0x20, 0x20]
                };
                assert(id@ =~= id_bytes(id_chars@));
                (name, id)
            },
            None => {
                let id: [u8; 2] = [0x20, 0x20];
                assert(id@ =~= seq![0x20u8, 0x20u8]);
                (params, id)
            },
        };
        if name.len() == 0 {
            self.status = DriveStatus::syntax_error();
            return;
        }
        let name_str = string_of(&name);
        self.mounted_image = Some(D64Image::create_blank(name_str.as_str(), &id));
        assert(self@ =~= with_image(v, D64View { data: blank_image(name@, id@), modified: true }));
        assert forall|c: int| 0 <= c < 16 implies #[trigger] counters_ok(self@, c) by {
            assert(counters_ok(v, c));
        }
        self.close_all_channels();
        self.status = DriveStatus::ok();
        assert(self@ =~= spec_new_disk(v, cmd@));
    }

    /// Open a channel for reading/writing.
    ///
    /// # Arguments
    /// * `channel` - Channel number (0-15)
    /// * `filename` - Filename to open (in PETSCII or ASCII)
    /// * `mode` - Access mode
    pub fn open_channel(&mut self, channel: u8, filename: &str, mode: ChannelMode) -> (r: Result<(), D64Error>)
        requires
            old(self).wf(),
            all_counters_ok(old(self)@),
        ensures
            final(self).wf(),
            (final(self)@, res_view(r)) == spec_open_channel(old(self)@, channel, filename@, mode),
    {
        if channel >= 16 {
            return Err(io_error("Invalid channel number"));
        }
        if channel == 15 {
            self.handle_command(filename);
            return Ok(());
        }
        if str_eq(filename, "$") {
            return self.open_directory(channel);
        }
        match mode {
            ChannelMode::Read => self.open_file_read(channel, filename),
            ChannelMode::Write => self.open_file_write(channel, filename),
            _ => Err(io_error("Invalid mode for file")),
        }
    }

    /// Mount a D64 disk image.
    ///
    /// Validates the image structure before mounting. Returns an error
    /// if the image appears corrupted or has an invalid format.
    pub fn mount(&mut self, data: Vec<u8>) -> (r: Result<(), D64Error>)
        requires
            old(self).wf(),
            all_counters_ok(old(self)@),
        ensures
            final(self).wf(),
            (final(self)@, res_view(r)) == spec_mount(old(self)@, data@),
    {
        let ghost v = self@;
        let ghost bytes = data@;
        let image = match D64Image::new(data) {
            Ok(img) => img,
            Err(e) => return Err(e),
        };
        match image.validate() {
            Ok(()) => {},
            Err(e) => return Err(e),
        }
        self.mounted_image = Some(image);
        self.status = DriveStatus::ok();
        assert(self@ =~= with_status(with_image(v, D64View { data: bytes, modified: false }), status_ok()));
        assert forall|c: int| 0 <= c < 16 implies #[trigger] counters_ok(self@, c) by {
            assert(counters_ok(v, c));
        }
        self.close_all_channels();
        Ok(())
    }

    /// Unmount the current disk image, after closing all channels.
    pub fn unmount(&mut self) -> (r: Option<D64Image>)
        requires
            old(self).wf(),
            all_counters_ok(old(self)@),
        ensures
            final(self).wf(),
            final(self)@ == unmounted(close_all_from(old(self)@, 0)),
            match r {
                Some(img) => close_all_from(old(self)@, 0).image == Some(img@) && img.wf(),
                None => close_all_from(old(self)@, 0).image is None,
            },
    {
        self.close_all_channels();
        let ghost v1 = self@;
        self.status = DriveStatus::ok();
        let mut taken: Option<D64Image> = None;
        std::mem::swap(&mut taken, &mut self.mounted_image);
        assert(self@ =~= unmounted(v1));
        taken
    }

    /// Read from the status channel (channel 15).
    fn read_status_byte(&mut self) -> (r: Option<u8>)
        requires
            old(self).wf(),
        ensures
            final(self).wf(),
            (final(self)@, r) == spec_read_status(old(self)@),
    {
        let ghost v = self@;
        if self.status_buffer.len() == 0 || self.status_position >= self.status_buffer.len() {
            let line = self.status.to_string();
            self.status_buffer = slice_to_vec(line.as_str().as_bytes());
            self.status_position = 0;
            self.status = DriveStatus::ok();
        }
        let ghost v1 = self@;
        if self.status_position < self.status_buffer.len() {
            let byte = self.status_buffer[self.status_position];
            self.status_position += 1;
            assert(self@ =~= spec_read_status(v).0);
            Some(byte)
        } else {
            None
        }
    }

    /// Read a byte from a channel.
    ///
    /// A read channel gives the bytes of its buffer and then those of the
    /// following blocks of the file; `None` at the end of the file or on a
    /// channel not open for reading. Channel 15 gives the status line.
    pub fn read_byte(&mut self, channel: u8) -> (r: Result<Option<u8>, D64Error>)
        requires
            old(self).wf(),
        ensures
            final(self).wf(),
            (final(self)@, res_view(r)) == spec_read_byte(old(self)@, channel),
    {
        let ghost v = self@;
        if channel >= 16 {
            return Err(io_error("Invalid channel number"));
        }
        if channel == 15 {
            let b = self.read_status_byte();
            return Ok(b);
        }
        let ci = channel as usize;
        let mut ch = self.channels[ci];
        if !ch.active || ch.mode != ChannelMode::Read {
            return Ok(None);
        }
        if ch.buffer_position > 254 || (ch.eof && ch.buffer_position > ch.last_byte) {
            if ch.eof || ch.next_track == 0 {
                return Ok(None);
            }
            let sector_data = match &self.mounted_image {
                Some(img) => match img.read_sector(ch.next_track, ch.next_sector) {
                    Ok(b) => b,
                    Err(e) => return Err(e),
                },
                None => return Err(io_error("No disk mounted")),
            };
            ch.track = ch.next_track;
            ch.sector = ch.next_sector;
            ch.buffer = sector_data;
            ch.next_track = sector_data[0];
            ch.next_sector = sector_data[1];
            ch.last_byte = sector_data[1];
            ch.buffer_position = 2;
            ch.eof = ch.next_track == 0;
        }
        let byte = ch.buffer[ch.buffer_position as usize];
        ch.buffer_position += 1;
        self.channels[ci] = ch;
        assert(self@ =~= spec_read_byte(v, channel).0);
        Ok(Some(byte))
    }

    /// Write a byte to a channel open for writing; a full buffer is
    /// written to a new block of the file.
    pub fn write_byte(&mut self, channel: u8, byte: u8) -> (r: Result<(), D64Error>)
        requires
            old(self).wf(),
            channel < 16 ==> counters_ok(old(self)@, channel as int),
        ensures
            final(self).wf(),
            (final(self)@, res_view(r)) == spec_write_byte(old(self)@, channel, byte),
    {
        let ghost v = self@;
        if channel >= 16 {
            return Err(io_error("Invalid channel number"));
        }
        let ci = channel as usize;
        let mut ch = self.channels[ci];
        if !ch.active || ch.mode != ChannelMode::Write {
            return Err(io_error("Channel not open for writing"));
        }
        ch.buffer[ch.buffer_position as usize] = byte;
        ch.buffer_position += 1;
        let buffer_position = ch.buffer_position;
        self.channels[ci] = ch;
        assert(self@ =~= with_channel(
            v,
            ci as int,
            ChannelView {
                buffer: v.channels[ci as int].buffer.update(
                    v.channels[ci as int].buffer_position as int,
                    byte,
                ),
                buffer_position: (v.channels[ci as int].buffer_position + 1) as u8,
                ..v.channels[ci as int]
            },
        ));
        if buffer_position >= 254 {
            return self.flush_write_buffer(channel);
        }
        Ok(())
    }
}

} // verus!
