//! Properties of the drive's channels over several calls: what writing
//! bytes does to a channel's buffer, and what reading a file's last block
//! gives back.

use vstd::prelude::*;
use crate::text::{ascii_upper, is_white_space, leading_ws, trailing_ws, trimmed, unicode_uppercase};
use super::directory::{
    directory_search, entry_name, first_match, free_slot_matcher, live_entry, name_field_bytes,
    spec_create_entry, with_entry, DirSearch,
};
use super::directory_laws::{
    chain_count, lemma_found_in_chain, lemma_no_match_ends, lemma_search_finds_new_entry,
    lemma_search_same_track, lemma_sound_for_any_matcher, same_directory_track,
};
use super::drive::{ChannelMode, ChannelView};
use super::error::DiskFault;
use super::geometry::{
    image_size_ok, lemma_location_in_image, lemma_locations_disjoint, track_sectors,
    valid_location, BAM_OFFSET, CHAIN_LIMIT,
};
use super::geometry::bam_entry;
use super::image::{
    alloc_search, bitmap_byte, free_count_upto, sector_bit, sector_free_in, sector_of, spec_allocate,
    spec_mark_used, spec_read_sector, spec_write_sector, D64View,
};
use super::laws::{
    lemma_alloc_search_found, lemma_allocate_takes_free_block, lemma_bit_ops, lemma_new_entry,
    lemma_sector_write_read,
};
use super::names::{last_index_of, name_matches, parse_type};
use super::petscii::{petscii_char, petscii_upper};
use super::unit::{
    block_room, drive_ok, spec_finalize, spec_flush, spec_open_write, file_matcher, spec_close_channel, spec_find_file, spec_open_channel, spec_read_byte,
    spec_write_byte, with_channel, DriveView,
};

verus! {

/// Write bytes one after the other to a channel, stopping at the first
/// error.
pub open spec fn spec_write_bytes(v: DriveView, c: u8, bytes: Seq<u8>) -> (DriveView, Result<(), DiskFault>)
    decreases bytes.len(),
{
    if bytes.len() == 0 {
        (v, Ok(()))
    } else {
        let (v1, r) = spec_write_byte(v, c, bytes[0]);
        if r is Err {
            (v1, r)
        } else {
            spec_write_bytes(v1, c, bytes.drop_first())
        }
    }
}

/// Read up to `n` bytes from a channel, stopping at the first read that
/// gives no byte or fails.
pub open spec fn spec_read_bytes(v: DriveView, c: u8, n: nat) -> (DriveView, Seq<u8>)
    decreases n,
{
    if n == 0 {
        (v, Seq::empty())
    } else {
        let (v1, r) = spec_read_byte(v, c);
        match r {
            Ok(Some(b)) => {
                let (v2, rest) = spec_read_bytes(v1, c, (n - 1) as nat);
                (v2, seq![b] + rest)
            },
            _ => (v1, Seq::empty()),
        }
    }
}

/// A buffer with bytes laid in from a position on.
pub open spec fn splice(buffer: Seq<u8>, at: int, bytes: Seq<u8>) -> Seq<u8> {
    Seq::new(buffer.len(), |i: int| if at <= i < at + bytes.len() { bytes[i - at] } else { buffer[i] })
}

/// Bytes written to a write channel that stay short of a full buffer land
/// in the buffer one after the other, from the buffer position on.
pub proof fn lemma_write_bytes_fill_buffer(v: DriveView, c: u8, bytes: Seq<u8>)
    requires
        v.channels.len() == 16,
        c < 16,
        v.channels[c as int].buffer.len() == 256,
        v.channels[c as int].active,
        v.channels[c as int].mode == ChannelMode::Write,
        v.channels[c as int].buffer_position + bytes.len() < 254,
    ensures
        ({
            let ch = v.channels[c as int];
            let (v1, r) = spec_write_bytes(v, c, bytes);
            &&& r is Ok
            &&& v1 == with_channel(
                v,
                c as int,
                ChannelView {
                    buffer: splice(ch.buffer, ch.buffer_position as int, bytes),
                    buffer_position: (ch.buffer_position + bytes.len()) as u8,
                    ..ch
                },
            )
        }),
    decreases bytes.len(),
{
    let ch = v.channels[c as int];
    if bytes.len() == 0 {
        assert(splice(ch.buffer, ch.buffer_position as int, bytes) =~= ch.buffer);
        assert(v.channels.update(c as int, ch) =~= v.channels);
        assert(with_channel(v, c as int, ch) =~= v);
    } else {
        let ch1 = ChannelView {
            buffer: ch.buffer.update(ch.buffer_position as int, bytes[0]),
            buffer_position: (ch.buffer_position + 1) as u8,
            ..ch
        };
        let v1 = with_channel(v, c as int, ch1);
        assert(spec_write_byte(v, c, bytes[0]) == (v1, Ok::<(), DiskFault>(())));
        assert(v1.channels[c as int] == ch1);
        lemma_write_bytes_fill_buffer(v1, c, bytes.drop_first());
        assert(splice(ch1.buffer, ch1.buffer_position as int, bytes.drop_first()) =~= splice(
            ch.buffer,
            ch.buffer_position as int,
            bytes,
        ));
        assert(v1.channels.update(
            c as int,
            ChannelView {
                buffer: splice(ch.buffer, ch.buffer_position as int, bytes),
                buffer_position: (ch.buffer_position + bytes.len()) as u8,
                ..ch
            },
        ) =~= v.channels.update(
            c as int,
            ChannelView {
                buffer: splice(ch.buffer, ch.buffer_position as int, bytes),
                buffer_position: (ch.buffer_position + bytes.len()) as u8,
                ..ch
            },
        ));
    }
}

/// Writing `a` and then `b` is writing `a + b`.
pub proof fn lemma_write_bytes_append(v: DriveView, c: u8, a: Seq<u8>, b: Seq<u8>)
    ensures
        spec_write_bytes(v, c, a + b) == ({
            let (v1, r) = spec_write_bytes(v, c, a);
            if r is Err {
                (v1, r)
            } else {
                spec_write_bytes(v1, c, b)
            }
        }),
    decreases a.len(),
{
    if a.len() == 0 {
        assert(a + b =~= b);
    } else {
        assert((a + b)[0] == a[0]);
        assert((a + b).drop_first() =~= a.drop_first() + b);
        let (v1, r) = spec_write_byte(v, c, a[0]);
        if r is Ok {
            lemma_write_bytes_append(v1, c, a.drop_first(), b);
        }
    }
}

/// Reading a channel that holds the end of its data gives the bytes of
/// the buffer from the buffer position up to its last data byte (for a
/// file's last block, the position its byte 1 names), and then no more.
pub proof fn lemma_read_last_block(v: DriveView, c: u8, n: nat)
    requires
        v.channels.len() == 16,
        c < 15,
        v.channels[c as int].buffer.len() == 256,
        v.channels[c as int].active,
        v.channels[c as int].mode == ChannelMode::Read,
        v.channels[c as int].eof,
        v.channels[c as int].last_byte <= 254,
        v.channels[c as int].buffer_position <= v.channels[c as int].last_byte + 1,
        n == v.channels[c as int].last_byte + 1 - v.channels[c as int].buffer_position,
    ensures
        spec_read_bytes(v, c, n + 1).1 == v.channels[c as int].buffer.subrange(
            v.channels[c as int].buffer_position as int,
            v.channels[c as int].last_byte + 1,
        ),
    decreases n,
{
    let ch = v.channels[c as int];
    let pos = ch.buffer_position;
    if n == 0 {
        assert(ch.buffer.subrange(pos as int, ch.last_byte + 1) =~= Seq::<u8>::empty());
    } else {
        let ch1 = ChannelView { buffer_position: (pos + 1) as u8, ..ch };
        let v1 = with_channel(v, c as int, ch1);
        assert(spec_read_byte(v, c) == (v1, Ok::<Option<u8>, DiskFault>(Some(ch.buffer[pos as int]))));
        assert(v1.channels[c as int] == ch1);
        lemma_read_last_block(v1, c, (n - 1) as nat);
        assert(seq![ch.buffer[pos as int]] + ch.buffer.subrange(pos + 1, ch.last_byte + 1)
            =~= ch.buffer.subrange(pos as int, ch.last_byte + 1));
    }
}

proof fn lemma_no_comma(name: Seq<char>)
    requires
        !name.contains(','),
    ensures
        last_index_of(name, ',') is None,
        parse_type(name) == (name, 0x02u8),
    decreases name.len(),
{
    if name.len() > 0 {
        assert(name.last() == name[name.len() - 1]);
        assert(!name.drop_last().contains(',')) by {
            if name.drop_last().contains(',') {
                let i = choose|i: int| 0 <= i < name.drop_last().len() && name.drop_last()[i] == ',';
                assert(name[i] == ',');
            }
        }
        lemma_no_comma(name.drop_last());
    }
}

proof fn lemma_trim_plain(s: Seq<char>)
    requires
        forall|i: int| 0 <= i < s.len() ==> !is_white_space(#[trigger] s[i]),
    ensures
        trimmed(s) == s,
{
    if s.len() > 0 {
        assert(!is_white_space(s[0]));
        assert(!is_white_space(s.last()));
    }
    assert(leading_ws(s) == 0);
    assert(s.subrange(0, s.len() as int) =~= s);
    assert(trailing_ws(s) == 0);
}

/// A name with no white space, `*`, `?` or comma, taken as a pattern,
/// matches itself.
proof fn lemma_plain_name_matches(p: Seq<char>)
    requires
        p.len() > 0,
        forall|i: int|
            0 <= i < p.len() ==> #[trigger] p[i] != '*' && p[i] != '?' && !is_white_space(p[i]),
    ensures
        name_matches(p, p),
{
    lemma_trim_plain(p);
    assert(p[0] != '*');
    assert(p.last() != '*');
    assert(!p.contains('?'));
}

/// Upper-casing keeps a plain name plain.
proof fn lemma_upper_plain(name: Seq<char>)
    requires
        forall|i: int|
            0 <= i < name.len() ==> #[trigger] name[i] != '*' && name[i] != '?' && name[i] != ','
                && !is_white_space(name[i]),
    ensures
        ({
            let p = name.map_values(|c: char| ascii_upper(c));
            forall|i: int|
                0 <= i < p.len() ==> #[trigger] p[i] != '*' && p[i] != '?' && !is_white_space(p[i])
        }),
{
}

/// Marking a block used changes no sector of the directory track but
/// the map.
proof fn lemma_mark_used_keeps_directory(img: D64View, t: u8, s: u8)
    requires
        image_size_ok(img.data.len() as int),
        valid_location(t as int, s as int),
    ensures
        same_directory_track(img.data, spec_mark_used(img, t, s).0.data),
        spec_mark_used(img, t, s).0.data.len() == img.data.len(),
{
    let w = spec_mark_used(img, t, s).0;
    lemma_location_in_image(18, 0);
    assert forall|k: int| 0 < k < track_sectors(18) implies #[trigger] sector_of(w.data, 18, k)
        == sector_of(img.data, 18, k) by {
        lemma_location_in_image(18, k);
        lemma_locations_disjoint(18, k, 18, 0);
        assert(sector_of(w.data, 18, k) =~= sector_of(img.data, 18, k));
    }
}

/// Writing a sector off the directory track changes no sector on it.
proof fn lemma_write_off_directory_track(img: D64View, t: u8, s: u8, buf: Seq<u8>)
    requires
        image_size_ok(img.data.len() as int),
        valid_location(t as int, s as int),
        t != 18,
        buf.len() == 256,
    ensures
        same_directory_track(img.data, spec_write_sector(img, t, s, buf).0.data),
        spec_write_sector(img, t, s, buf).0.data.len() == img.data.len(),
{
    let w = spec_write_sector(img, t, s, buf).0;
    lemma_location_in_image(t as int, s as int);
    assert forall|k: int| 0 < k < track_sectors(18) implies #[trigger] sector_of(w.data, 18, k)
        == sector_of(img.data, 18, k) by {
        lemma_location_in_image(18, k);
        lemma_locations_disjoint(18, k, t as int, s as int);
        assert(sector_of(w.data, 18, k) =~= sector_of(img.data, 18, k));
    }
}

/// The entry for a new file goes to the free slot a search finds, and a
/// search for the file's name then finds it there, naming the file's first
/// block; blocks off the directory track are left as they were.
proof fn lemma_entry_into_free_slot(
    img0: D64View,
    img3: D64View,
    name: Seq<char>,
    t: u8,
    s: u8,
)
    requires
        image_size_ok(img0.data.len() as int),
        img3.data.len() == img0.data.len(),
        same_directory_track(img0.data, img3.data),
        directory_search(img0.data, free_slot_matcher()) is Found,
        chain_count(img0.data, 18, 1, CHAIN_LIMIT as nat, file_matcher(unicode_uppercase(name)))
            == Some(0nat),
        1 <= name.len() <= 16,
        forall|i: int|
            0 <= i < name.len() ==> #[trigger] name[i] != '*' && name[i] != '?' && name[i] != ','
                && !is_white_space(name[i]),
        forall|i: int|
            0 <= i < name.len() ==> (#[trigger] name[i] as u8) != 0 && (name[i] as u8) != 0xA0,
        forall|i: int|
            0 <= i < name.len() ==> petscii_char(petscii_upper(#[trigger] name[i] as u8))
                == ascii_upper(name[i]),
        unicode_uppercase(name) == name.map_values(|c: char| ascii_upper(c)),
    ensures
        ({
            let (img4, r) = spec_create_entry(img3, name_field_bytes(name), 0x02u8, t, s, 1u16);
            &&& r is Ok
            &&& img4.data.len() == img3.data.len()
            &&& match directory_search(img4.data, file_matcher(unicode_uppercase(name))) {
                DirSearch::Found { track, sector, offset } => {
                    &&& sector_of(img4.data, track as int, sector as int)[offset + 3] == t
                    &&& sector_of(img4.data, track as int, sector as int)[offset + 4] == s
                },
                _ => false,
            }
            &&& (t != 18 && valid_location(t as int, s as int)) ==> spec_read_sector(img4, t, s)
                == spec_read_sector(img3, t, s)
        }),
{
    let m = file_matcher(unicode_uppercase(name));
    let free = free_slot_matcher();
    lemma_search_same_track(img0.data, img3.data, 18, 1, CHAIN_LIMIT as nat, m, free);
    lemma_sound_for_any_matcher(img0.data, 18, 1, CHAIN_LIMIT as nat, m, free);
    lemma_found_in_chain(img0.data, 18, 1, CHAIN_LIMIT as nat, free);
    let (dt, ds, off) = match directory_search(img0.data, free) {
        DirSearch::Found { track, sector, offset } => (track, sector, offset),
        _ => (0u8, 0u8, 0int),
    };
    assert(directory_search(img3.data, free) == DirSearch::Found {
        track: dt,
        sector: ds,
        offset: off,
    });
    let sec = sector_of(img3.data, dt as int, ds as int);
    lemma_location_in_image(18, ds as int);
    assert(sec == sector_of(img0.data, dt as int, ds as int));
    let field = name_field_bytes(name);
    let new_sec = with_entry(sec, off, field, 0x02u8, t, s, 1u16);
    let img4 = spec_write_sector(img3, dt, ds, new_sec).0;
    assert(spec_create_entry(img3, field, 0x02u8, t, s, 1u16) == (img4, Ok::<(u8, u8, usize), DiskFault>((dt, ds, off as usize))));
    lemma_new_entry(sec, off, name, 0x02u8, t, s, 1u16);
    lemma_sector_write_read(img3, dt, ds, new_sec, dt, ds);
    assert(sector_of(img4.data, dt as int, ds as int) =~= new_sec);
    let upper = name.map_values(|c: char| ascii_upper(c));
    lemma_upper_plain(name);
    lemma_plain_name_matches(upper);
    assert(m(new_sec, off));
    assert forall|j: int| 0 <= j < 8 && 32 * j != off implies #[trigger] m(new_sec, 32 * j) == m(
        sec,
        32 * j,
    ) by {
        assert(new_sec[32 * j + 2] == sec[32 * j + 2]);
        assert(new_sec.subrange(32 * j + 5, 32 * j + 21) =~= sec.subrange(32 * j + 5, 32 * j + 21));
    }
    assert forall|q: int| 0 < q < track_sectors(18) && q != ds implies #[trigger] sector_of(
        img4.data,
        18,
        q,
    ) == sector_of(img0.data, 18, q) by {
        lemma_location_in_image(18, q);
        lemma_sector_write_read(img3, dt, ds, new_sec, 18, q as u8);
        assert(sector_of(img4.data, 18, q) == sector_of(img3.data, 18, q));
    }
    lemma_search_finds_new_entry(
        img0.data,
        img4.data,
        dt,
        ds,
        off,
        18,
        1,
        CHAIN_LIMIT as nat,
        free,
        m,
    );
    if t != 18 && valid_location(t as int, s as int) {
        lemma_sector_write_read(img3, dt, ds, new_sec, t, s);
    }
}

/// What is written to a new file and closed reads back: on a disk with
/// room for a block, a sound directory chain with a free slot and no
/// file the name matches, writing 1 to 252 bytes (one block) to a channel
/// opened for writing, closing it, and opening the name for reading on a
/// channel gives the same bytes back, and then no more. The name is 1 to
/// 16 ASCII characters with no white space, `*`, `?`, comma, zero or
/// shifted-space byte, each shown by PETSCII as its ASCII upper case.
pub proof fn lemma_file_write_read(
    v0: DriveView,
    wc: u8,
    rc: u8,
    name: Seq<char>,
    bytes: Seq<u8>,
)
    requires
        super::unit::drive_ok(v0),
        wc < 15,
        rc < 15,
        v0.image is Some,
        directory_search(v0.image->0.data, free_slot_matcher()) is Found,
        chain_count(
            v0.image->0.data,
            18,
            1,
            CHAIN_LIMIT as nat,
            file_matcher(unicode_uppercase(name)),
        ) == Some(0nat),
        alloc_search(v0.image->0.data, 0) is Some,
        1 <= name.len() <= 16,
        name != "$"@,
        forall|i: int|
            0 <= i < name.len() ==> #[trigger] name[i] != '*' && name[i] != '?' && name[i] != ','
                && !is_white_space(name[i]),
        forall|i: int|
            0 <= i < name.len() ==> (#[trigger] name[i] as u8) != 0 && (name[i] as u8) != 0xA0,
        forall|i: int|
            0 <= i < name.len() ==> petscii_char(petscii_upper(#[trigger] name[i] as u8))
                == ascii_upper(name[i]),
        unicode_uppercase(name) == name.map_values(|c: char| ascii_upper(c)),
        1 <= bytes.len() <= 252,
    ensures
        ({
            let (v1, r1) = spec_open_channel(v0, wc, name, ChannelMode::Write);
            let (v2, r2) = spec_write_bytes(v1, wc, bytes);
            let v3 = spec_close_channel(v2, wc);
            let (v4, r4) = spec_open_channel(v3, rc, name, ChannelMode::Read);
            &&& r1 is Ok
            &&& r2 is Ok
            &&& r4 is Ok
            &&& spec_read_bytes(v4, rc, bytes.len() + 1).1 == bytes
        }),
{
    let img0 = v0.image->0;
    let k = bytes.len();
    let m = file_matcher(unicode_uppercase(name));
    // No file of the name yet.
    lemma_no_match_ends(img0.data, 18, 1, CHAIN_LIMIT as nat, m);
    assert(spec_find_file(v0, name) is Err);
    // Opening for writing.
    assert(!name.contains(',')) by {
        if name.contains(',') {
            let i = choose|i: int| 0 <= i < name.len() && name[i] == ',';
            assert(name[i] != ',');
        }
    }
    lemma_no_comma(name);
    let (v1, r1) = spec_open_channel(v0, wc, name, ChannelMode::Write);
    assert(r1 is Ok);
    let ch1 = v1.channels[wc as int];
    assert(ch1.buffer == super::drive::zero_buffer());
    assert(ch1.active && ch1.mode == ChannelMode::Write && ch1.buffer_position == 2);
    // The block the file ends up in.
    let buf = splice(ch1.buffer, 2, bytes);
    lemma_alloc_search_found(img0.data, 0);
    let (t, s) = alloc_search(img0.data, 0)->0;
    let img1 = spec_mark_used(img0, t, s).0;
    assert(spec_allocate(img0) == (img1, Ok::<(u8, u8), DiskFault>((t, s))));
    let block = buf.update(0, 0u8).update(1, (k + 1) as u8);
    let img3 = spec_write_sector(img1, t, s, block).0;
    lemma_mark_used_keeps_directory(img0, t, s);
    lemma_write_off_directory_track(img1, t, s, block);
    assert(same_directory_track(img0.data, img3.data));
    // The directory entry.
    lemma_entry_into_free_slot(img0, img3, name, t, s);
    let field = name_field_bytes(name);
    let img4 = spec_create_entry(img3, field, 0x02u8, t, s, 1u16).0;
    // Writing the bytes, then closing.
    let (v2, r2) = spec_write_bytes(v1, wc, bytes);
    let v3 = spec_close_channel(v2, wc);
    if k <= 251 {
        // The bytes stay in the buffer; closing writes the block.
        lemma_write_bytes_fill_buffer(v1, wc, bytes);
        assert(v2.channels[wc as int].buffer == buf);
        assert(v2.channels[wc as int].buffer_position == 2 + k);
        assert(v2.image == v0.image);
        assert(v3.image == Some(img4));
    } else {
        // The last byte fills the buffer, which is written out as the
        // block; closing only enters the file.
        let a = bytes.take(251);
        let b = bytes.subrange(251, 252);
        assert(bytes =~= a + b);
        lemma_write_bytes_append(v1, wc, a, b);
        lemma_write_bytes_fill_buffer(v1, wc, a);
        let (va, ra) = spec_write_bytes(v1, wc, a);
        let cha = va.channels[wc as int];
        assert(cha.buffer == splice(ch1.buffer, 2, a));
        assert(cha.buffer_position == 253);
        assert(va.image == v0.image);
        assert(cha.buffer.update(253, bytes[251]) =~= buf);
        assert(b.drop_first() =~= Seq::<u8>::empty());
        assert(b[0] == bytes[251]);
        let (vb, rb) = spec_write_byte(va, wc, bytes[251]);
        assert(spec_write_bytes(vb, wc, b.drop_first()) == (vb, Ok::<(), DiskFault>(())));
        assert(spec_write_bytes(va, wc, b) == spec_write_byte(va, wc, bytes[251]));
        assert(v2.image == Some(img3));
        assert(v2.write_states[wc as int] is Some);
        assert(v2.write_states[wc as int]->0.block_count == 1);
        assert(v2.write_states[wc as int]->0.first_track == t);
        assert(v2.write_states[wc as int]->0.first_sector == s);
        assert(v2.channels[wc as int].buffer_position == 2);
        assert(v3.image == Some(img4));
    }
    // Opening for reading finds the new entry.
    assert(spec_find_file(v3, name) == Ok::<(u8, u8), DiskFault>((t, s)));
    lemma_sector_write_read(img1, t, s, block, t, s);
    assert(spec_read_sector(img4, t, s) == Ok::<Seq<u8>, DiskFault>(block));
    let (v4, r4) = spec_open_channel(v3, rc, name, ChannelMode::Read);
    assert(r4 is Ok);
    let ch4 = v4.channels[rc as int];
    assert(ch4.buffer == block);
    assert(ch4.buffer_position == 2 && ch4.eof && ch4.active && ch4.mode == ChannelMode::Read);
    // Reading the block back.
    lemma_read_last_block(v4, rc, k);
    assert(block.subrange(2, k + 2 as int) =~= bytes);
}


/// Free counts and bitmap bits of two images that agree on the map sector.
proof fn lemma_same_map(d1: Seq<u8>, d2: Seq<u8>, n: int)
    requires
        forall|i: int| BAM_OFFSET <= i < BAM_OFFSET + 256 ==> #[trigger] d1[i] == d2[i],
        0 <= n <= 35,
    ensures
        free_count_upto(d1, n) == free_count_upto(d2, n),
        forall|t: int, s: int|
            valid_location(t, s) ==> #[trigger] sector_free_in(d1, t, s) == sector_free_in(d2, t, s),
    decreases n,
{
    if n > 0 {
        lemma_same_map(d1, d2, n - 1);
        if n != 18 {
            assert(d1[bam_entry(n)] == d2[bam_entry(n)]);
        }
    }
    assert forall|t: int, s: int| valid_location(t, s) implies #[trigger] sector_free_in(d1, t, s)
        == sector_free_in(d2, t, s) by {
        assert(d1[bitmap_byte(t, s)] == d2[bitmap_byte(t, s)]);
    }
}

/// Writing a sector other than the map sector keeps the map sector.
proof fn lemma_write_keeps_map(img: D64View, t: u8, s: u8, buf: Seq<u8>)
    requires
        image_size_ok(img.data.len() as int),
        valid_location(t as int, s as int),
        t != 18 || s != 0,
    ensures
        forall|i: int|
            BAM_OFFSET <= i < BAM_OFFSET + 256 ==> #[trigger] spec_write_sector(img, t, s, buf).0.data[i]
                == img.data[i],
        free_count_upto(spec_write_sector(img, t, s, buf).0.data, 35) == free_count_upto(img.data, 35),
        forall|tt: int, ss: int|
            valid_location(tt, ss) ==> #[trigger] sector_free_in(
                spec_write_sector(img, t, s, buf).0.data,
                tt,
                ss,
            ) == sector_free_in(img.data, tt, ss),
{
    lemma_location_in_image(t as int, s as int);
    lemma_location_in_image(18, 0);
    lemma_locations_disjoint(t as int, s as int, 18, 0);
    let w = spec_write_sector(img, t, s, buf).0;
    assert forall|i: int| BAM_OFFSET <= i < BAM_OFFSET + 256 implies #[trigger] w.data[i]
        == img.data[i] by {}
    lemma_same_map(w.data, img.data, 35);
}

/// Writing out a full buffer of a file takes one block of the disk. On
/// success the file's block count rises by one and the disk's free block
/// count drops by one; the new block, which the map now marks used, holds
/// the buffer behind the link bytes (0, 253); the block before it, if
/// any, now links to it; and the buffer starts over at position 2. The
/// file's earlier block is one the map marks used, off the directory
/// track, as every block the drive allocates is.
pub proof fn lemma_flush_accounting(v: DriveView, c: int)
    requires
        drive_ok(v),
        0 <= c < 16,
        v.image is Some,
        v.write_states[c] is Some,
        block_room(v, c),
        !v.write_states[c]->0.is_first_sector ==> v.write_states[c]->0.prev_track != 18
            && !sector_free_in(
            v.image->0.data,
            v.write_states[c]->0.prev_track as int,
            v.write_states[c]->0.prev_sector as int,
        ),
        spec_flush(v, c).1 is Ok,
    ensures
        ({
            let v1 = spec_flush(v, c).0;
            let ws = v.write_states[c]->0;
            let ws1 = v1.write_states[c]->0;
            let img = v.image->0;
            let img1 = v1.image->0;
            &&& v1.write_states[c] is Some
            &&& ws1.block_count == ws.block_count + 1
            &&& !ws1.is_first_sector
            &&& ws1.prev_track == ws1.current_track && ws1.prev_sector == ws1.current_sector
            &&& ws1.current_track != 18
            &&& !sector_free_in(img1.data, ws1.current_track as int, ws1.current_sector as int)
            &&& free_count_upto(img1.data, 35) == free_count_upto(img.data, 35) - 1
            &&& spec_read_sector(img1, ws1.current_track, ws1.current_sector) == Ok::<
                Seq<u8>,
                DiskFault,
            >(v.channels[c].buffer.update(0, 0u8).update(1, 253u8))
            &&& !ws.is_first_sector ==> (spec_read_sector(img1, ws.prev_track, ws.prev_sector) matches Ok(
                p,
            ) && p[0] == ws1.current_track && p[1] == ws1.current_sector)
            &&& ws.is_first_sector ==> ws1.first_track == ws1.current_track && ws1.first_sector
                == ws1.current_sector
            &&& !ws.is_first_sector ==> ws1.first_track == ws.first_track && ws1.first_sector
                == ws.first_sector
            &&& v1.channels[c].buffer_position == 2
            &&& v1.channels[c].active == v.channels[c].active
            &&& v1.channels[c].mode == v.channels[c].mode
            &&& v1.image is Some
            &&& drive_ok(v1)
            &&& ws1.name == ws.name && ws1.file_type == ws.file_type
        }),
{
    let img = v.image->0;
    let ws = v.write_states[c]->0;
    lemma_alloc_search_found(img.data, 0);
    lemma_allocate_takes_free_block(img);
    let (img1, ra) = spec_allocate(img);
    let (t, s) = ra->Ok_0;
    lemma_mark_used_keeps_directory(img, t, s);
    let block = v.channels[c].buffer.update(0, 0u8).update(1, 253u8);
    if ws.is_first_sector {
        lemma_write_keeps_map(img1, t, s, block);
        lemma_sector_write_read(img1, t, s, block, t, s);
    } else {
        let prev = sector_of(img1.data, ws.prev_track as int, ws.prev_sector as int);
        let linked = prev.update(0, t).update(1, s);
        assert(spec_read_sector(img1, ws.prev_track, ws.prev_sector) is Ok);
        assert(valid_location(ws.prev_track as int, ws.prev_sector as int));
        assert(t != ws.prev_track || s != ws.prev_sector);
        lemma_mark_used_keeps_map_bits(img, t, s, ws.prev_track, ws.prev_sector);
        let img2 = spec_write_sector(img1, ws.prev_track, ws.prev_sector, linked).0;
        lemma_write_keeps_map(img1, ws.prev_track, ws.prev_sector, linked);
        lemma_write_keeps_map(img2, t, s, block);
        lemma_sector_write_read(img1, ws.prev_track, ws.prev_sector, linked, t, s);
        lemma_sector_write_read(img2, t, s, block, ws.prev_track, ws.prev_sector);
    }
}

/// Blocks taken while bytes are written to a file. When writing the
/// bytes succeeds, every 252 bytes that fill the buffer (from its position
/// 2 on) went to one new block: the file's block count and the disk's free
/// block count move by the number of such blocks, and the buffer keeps the
/// rest. With no block filled, the disk and the file's record are left as
/// they were. The file's earlier block is one the map marks used, off the
/// directory track, as every block the drive allocates is.
pub proof fn lemma_write_bytes_accounting(v: DriveView, c: u8, bytes: Seq<u8>)
    requires
        drive_ok(v),
        c < 16,
        v.image is Some,
        v.channels[c as int].active,
        v.channels[c as int].mode == ChannelMode::Write,
        v.write_states[c as int] is Some,
        2 <= v.channels[c as int].buffer_position < 254,
        v.write_states[c as int]->0.block_count + (v.channels[c as int].buffer_position - 2
            + bytes.len()) / 252 < 0xFFFF,
        !v.write_states[c as int]->0.is_first_sector ==> v.write_states[c as int]->0.prev_track
            != 18 && !sector_free_in(
            v.image->0.data,
            v.write_states[c as int]->0.prev_track as int,
            v.write_states[c as int]->0.prev_sector as int,
        ),
    ensures
        ({
            let (v1, r) = spec_write_bytes(v, c, bytes);
            let ws = v.write_states[c as int]->0;
            let ws1 = v1.write_states[c as int]->0;
            let m = v.channels[c as int].buffer_position - 2 + bytes.len();
            r is Ok ==> {
                &&& drive_ok(v1)
                &&& v1.image is Some
                &&& v1.channels[c as int].active
                &&& v1.channels[c as int].mode == ChannelMode::Write
                &&& v1.write_states[c as int] is Some
                &&& ws1.block_count == ws.block_count + m / 252
                &&& v1.channels[c as int].buffer_position == 2 + m % 252
                &&& free_count_upto(v1.image->0.data, 35) == free_count_upto(v.image->0.data, 35)
                    - m / 252
                &&& !ws1.is_first_sector ==> ws1.prev_track != 18 && !sector_free_in(
                    v1.image->0.data,
                    ws1.prev_track as int,
                    ws1.prev_sector as int,
                )
                &&& m / 252 > 0 ==> !ws1.is_first_sector
                &&& m / 252 == 0 ==> v1.image == v.image && ws1 == ws
                &&& ws1.name == ws.name && ws1.file_type == ws.file_type
            }
        }),
    decreases bytes.len(),
{
    let ch = v.channels[c as int];
    let pos = ch.buffer_position;
    let n = bytes.len();
    if n > 0 {
        let ch1 = ChannelView {
            buffer: ch.buffer.update(pos as int, bytes[0]),
            buffer_position: (pos + 1) as u8,
            ..ch
        };
        let v1 = with_channel(v, c as int, ch1);
        assert(v1.channels[c as int] == ch1);
        assert(drive_ok(v1)) by {
            assert forall|k: int| 0 <= k < 16 implies (#[trigger] v1.channels[k]).buffer.len()
                == 256 by {
                if k != c as int {
                    assert(v1.channels[k] == v.channels[k]);
                }
            }
        }
        if pos + 1 >= 254 {
            assert(spec_write_byte(v, c, bytes[0]) == spec_flush(v1, c as int));
            let (vf, rf) = spec_flush(v1, c as int);
            if rf is Ok {
                assert((pos - 2 + n) / 252 == 1 + (n - 1) / 252);
                lemma_flush_accounting(v1, c as int);
                assert(vf.channels[c as int].buffer_position == 2);
                lemma_write_bytes_accounting(vf, c, bytes.drop_first());
                assert((n - 1) % 252 == (pos - 2 + n) % 252);
            }
        } else {
            assert(spec_write_byte(v, c, bytes[0]) == (v1, Ok::<(), DiskFault>(())));
            assert(pos + 1 - 2 + (n - 1) == pos - 2 + n);
            lemma_write_bytes_accounting(v1, c, bytes.drop_first());
        }
    } else {
        assert((pos - 2 + n) / 252 == 0);
        assert((pos - 2 + n) % 252 == pos - 2);
    }
}

/// Finishing a file written on a channel. With nothing left in the
/// buffer and no block written, the disk is left as it was and no entry
/// is made. With nothing left in the buffer but blocks written, the file
/// is entered with that block count. With bytes left in the buffer (the
/// position past 2), they go to one more block, which the map now marks
/// used and which holds the buffer behind the link bytes (0, position - 1);
/// the block before it, if any, links to it; the free block count drops
/// by one; and the file is entered with its first block and one block
/// more than before. The file's earlier block is one the map marks used,
/// off the directory track, as every block the drive allocates is.
pub proof fn lemma_finalize_accounting(v: DriveView, c: int)
    requires
        drive_ok(v),
        0 <= c < 16,
        v.image is Some,
        v.write_states[c] is Some,
        block_room(v, c),
        v.channels[c].buffer_position < 256,
        !v.write_states[c]->0.is_first_sector ==> v.write_states[c]->0.prev_track != 18
            && !sector_free_in(
            v.image->0.data,
            v.write_states[c]->0.prev_track as int,
            v.write_states[c]->0.prev_sector as int,
        ),
    ensures
        ({
            let (v1, r) = spec_finalize(v, c);
            let ws = v.write_states[c]->0;
            let img = v.image->0;
            let pos = v.channels[c].buffer_position;
            &&& v1.write_states[c] is None
            &&& pos <= 2 && ws.block_count == 0 ==> v1.image == v.image && r is Ok
            &&& pos <= 2 && ws.block_count > 0 ==> v1.image == Some(
                spec_create_entry(
                    img,
                    ws.name,
                    ws.file_type,
                    ws.first_track,
                    ws.first_sector,
                    ws.block_count,
                ).0,
            )
            &&& pos > 2 && r is Ok ==> exists|img3: D64View, t: u8, s: u8|
                {
                    &&& t != 18
                    &&& !sector_free_in(img3.data, t as int, s as int)
                    &&& free_count_upto(img3.data, 35) == free_count_upto(img.data, 35) - 1
                    &&& #[trigger] spec_read_sector(img3, t, s) == Ok::<Seq<u8>, DiskFault>(
                        v.channels[c].buffer.update(0, 0u8).update(1, (pos - 1) as u8),
                    )
                    &&& !ws.is_first_sector ==> (spec_read_sector(
                        img3,
                        ws.prev_track,
                        ws.prev_sector,
                    ) matches Ok(p) && p[0] == t && p[1] == s)
                    &&& v1.image == Some(
                        spec_create_entry(
                            img3,
                            ws.name,
                            ws.file_type,
                            if ws.is_first_sector {
                                t
                            } else {
                                ws.first_track
                            },
                            if ws.is_first_sector {
                                s
                            } else {
                                ws.first_sector
                            },
                            (ws.block_count + 1) as u16,
                        ).0,
                    )
                }
        }),
{
    let img = v.image->0;
    let ws = v.write_states[c]->0;
    let pos = v.channels[c].buffer_position;
    if pos > 2 && spec_finalize(v, c).1 is Ok {
        lemma_alloc_search_found(img.data, 0);
        lemma_allocate_takes_free_block(img);
        let (img1, ra) = spec_allocate(img);
        let (t, s) = ra->Ok_0;
        let block = v.channels[c].buffer.update(0, 0u8).update(1, (pos - 1) as u8);
        if ws.is_first_sector {
            lemma_write_keeps_map(img1, t, s, block);
            lemma_sector_write_read(img1, t, s, block, t, s);
            let img3 = spec_write_sector(img1, t, s, block).0;
            assert(spec_read_sector(img3, t, s) is Ok);
        } else {
            let prev = sector_of(img1.data, ws.prev_track as int, ws.prev_sector as int);
            let linked = prev.update(0, t).update(1, s);
            assert(spec_read_sector(img1, ws.prev_track, ws.prev_sector) is Ok);
            assert(t != ws.prev_track || s != ws.prev_sector);
            lemma_mark_used_keeps_map_bits(img, t, s, ws.prev_track, ws.prev_sector);
            let img2 = spec_write_sector(img1, ws.prev_track, ws.prev_sector, linked).0;
            lemma_write_keeps_map(img1, ws.prev_track, ws.prev_sector, linked);
            lemma_write_keeps_map(img2, t, s, block);
            lemma_sector_write_read(img1, ws.prev_track, ws.prev_sector, linked, t, s);
            lemma_sector_write_read(img2, t, s, block, ws.prev_track, ws.prev_sector);
            let img3 = spec_write_sector(img2, t, s, block).0;
            assert(spec_read_sector(img3, t, s) is Ok);
        }
    }
}

/// A new file takes one block of the disk per 252 bytes written to it,
/// rounded up. Opening a name for writing on a channel, writing the bytes
/// and closing the channel: while the bytes are written, each 252 of them
/// take one block off the free count; closing a file of no bytes leaves
/// the disk as it was, with no entry; closing a file of some bytes, when
/// finishing it succeeds, enters it in the directory, under the name and
/// type given, with that many blocks, the disk having that many fewer free
/// blocks than before the file was opened.
pub proof fn lemma_write_session_blocks(v0: DriveView, c: u8, name: Seq<char>, bytes: Seq<u8>)
    requires
        drive_ok(v0),
        c < 15,
        name != "$"@,
        (bytes.len() + 251) / 252 < 0xFFFF,
    ensures
        ({
            let (v1, r1) = spec_open_channel(v0, c, name, ChannelMode::Write);
            let (v2, r2) = spec_write_bytes(v1, c, bytes);
            let v3 = spec_close_channel(v2, c);
            let n = bytes.len();
            let k = (n + 251) / 252;
            r1 is Ok && r2 is Ok ==> {
                &&& v0.image is Some && v2.image is Some && v3.image is Some
                &&& free_count_upto(v2.image->0.data, 35) == free_count_upto(v0.image->0.data, 35)
                    - n / 252
                &&& n == 0 ==> v3.image == v0.image
                &&& n > 0 && spec_finalize(v2, c as int).1 is Ok ==> exists|
                    img3: D64View,
                    ft: u8,
                    fs: u8,
                |
                    #![trigger spec_create_entry(img3, name_field_bytes(parse_type(name).0), parse_type(name).1, ft, fs, k as u16)]
                    free_count_upto(img3.data, 35) == free_count_upto(v0.image->0.data, 35) - k
                        && v3.image == Some(
                        spec_create_entry(
                            img3,
                            name_field_bytes(parse_type(name).0),
                            parse_type(name).1,
                            ft,
                            fs,
                            k as u16,
                        ).0,
                    )
            }
        }),
{
    let (v1, r1) = spec_open_channel(v0, c, name, ChannelMode::Write);
    let (v2, r2) = spec_write_bytes(v1, c, bytes);
    let n = bytes.len();
    if r1 is Ok && r2 is Ok {
        assert(v1 == spec_open_write(v0, c as int, name).0);
        assert(v1.image == v0.image);
        assert(drive_ok(v1)) by {
            assert forall|k: int| 0 <= k < 16 implies (#[trigger] v1.channels[k]).buffer.len()
                == 256 by {
                if k != c as int {
                    assert(v1.channels[k] == v0.channels[k]);
                }
            }
            assert forall|k: int|
                0 <= k < 16 && (#[trigger] v1.write_states[k]) is Some implies v1.write_states[k]->0.name.len()
                    == 16 by {
                if k != c as int {
                    assert(v1.write_states[k] == v0.write_states[k]);
                }
            }
        }
        let ws = v1.write_states[c as int]->0;
        assert(ws.block_count == 0 && ws.is_first_sector);
        assert(v1.channels[c as int].buffer_position == 2);
        lemma_write_bytes_accounting(v1, c, bytes);
        let ws2 = v2.write_states[c as int]->0;
        assert(n % 252 != 0 ==> (n + 251) / 252 == n / 252 + 1);
        assert(n % 252 == 0 ==> (n + 251) / 252 == n / 252);
        lemma_finalize_accounting(v2, c as int);
        if n > 0 && spec_finalize(v2, c as int).1 is Ok {
            let img2 = v2.image->0;
            if n % 252 == 0 {
                assert(n / 252 > 0);
                let img3 = img2;
                assert(free_count_upto(img3.data, 35) == free_count_upto(v0.image->0.data, 35) - (
                n + 251) / 252);
                assert(spec_close_channel(v2, c).image == Some(
                    spec_create_entry(
                        img3,
                        name_field_bytes(parse_type(name).0),
                        parse_type(name).1,
                        ws2.first_track,
                        ws2.first_sector,
                        ((n + 251) / 252) as u16,
                    ).0,
                ));
            }
        }
    }
}

/// Opening a name for writing when a closed file of that name is on the
/// disk is refused with "File exists": the status becomes 63 FILE EXISTS,
/// and the disk, the channels and the files being written stay as they
/// were.
pub proof fn lemma_open_existing_for_write(v: DriveView, c: u8, name: Seq<char>)
    requires
        c < 15,
        name != "$"@,
        spec_find_file(v, name) is Ok,
    ensures
        ({
            let (v1, r) = spec_open_channel(v, c, name, ChannelMode::Write);
            &&& r == Err::<(), DiskFault>(DiskFault::IoError("File exists"@))
            &&& v1.status.error_number == 63
            &&& v1.status.message == "FILE EXISTS"@
            &&& v1.image == v.image
            &&& v1.channels == v.channels
            &&& v1.write_states == v.write_states
        }),
{
}

/// Marking one block used leaves the map bit of every other block.
proof fn lemma_mark_used_keeps_map_bits(img: D64View, t: u8, s: u8, t2: u8, s2: u8)
    requires
        image_size_ok(img.data.len() as int),
        valid_location(t as int, s as int),
        valid_location(t2 as int, s2 as int),
        t != t2 || s != s2,
    ensures
        sector_free_in(spec_mark_used(img, t, s).0.data, t2 as int, s2 as int) == sector_free_in(
            img.data,
            t2 as int,
            s2 as int,
        ),
{
    let b = bitmap_byte(t as int, s as int);
    let b2 = bitmap_byte(t2 as int, s2 as int);
    let e = bam_entry(t as int);
    let c = img.data[e];
    let d1 = img.data.update(e, if c > 0 { (c - 1) as u8 } else { c });
    let d2 = d1.update(b, d1[b] & !sector_bit(s as int));
    assert(spec_mark_used(img, t, s).0.data == d2);
    assert(b2 != e);
    if b == b2 {
        assert(t == t2);
        assert(s % 8 != s2 % 8);
        let x = img.data[b];
        assert(d1[b] == x);
        let sh = (s % 8) as u8;
        let sh2 = (s2 % 8) as u8;
        assert(sh != sh2 && sh < 8 && sh2 < 8);
        lemma_bit_ops(x, sh);
        assert((x & !(1u8 << sh)) & (1u8 << sh2) != 0 <==> x & (1u8 << sh2) != 0);
    } else {
        assert(d2[b2] == img.data[b2]);
    }
}

} // verus!
