//! Properties of disk images that hold across operations.

use vstd::prelude::*;
use super::geometry::{
    bam_entry, image_size_ok, lemma_location_in_image, lemma_locations_disjoint, location_offset,
    track_sectors, valid_location, BAM_OFFSET,
};
use crate::text::{ascii_ci_eq, ascii_upper, unicode_uppercase};
use super::directory::{
    dir_search, directory_search, entry_byte, entry_name, first_match, free_slot_matcher,
    live_entry, name_field_bytes, name_matcher, spec_create_entry, spec_find_entry,
    spec_free_slot, with_entry, DirSearch,
};
use super::petscii::{petscii_char, petscii_upper};
use super::image::{
    blank_bam_byte, blank_bitmap_byte, blank_image, name_text, name_field,
    alloc_search, allocation_track, first_free_sector, free_count_upto, location_fault,
    sector_bit, sector_free_in, sector_of, bitmap_byte, spec_allocate, spec_is_free, spec_mark_free,
    spec_mark_used, spec_read_sector, spec_write_sector, with_sector, D64View,
};

verus! {

/// Reading a sector gives back what was written to it, and writing a
/// sector leaves every other sector as it was.
pub proof fn lemma_sector_write_read(v: D64View, track: u8, sector: u8, buf: Seq<u8>, other_track: u8, other_sector: u8)
    requires
        image_size_ok(v.data.len() as int),
        buf.len() == 256,
        location_fault(track, sector) is None,
    ensures
        spec_read_sector(spec_write_sector(v, track, sector, buf).0, track, sector) == Ok::<Seq<u8>, super::error::DiskFault>(buf),
        (other_track != track || other_sector != sector) ==> spec_read_sector(
            spec_write_sector(v, track, sector, buf).0,
            other_track,
            other_sector,
        ) == spec_read_sector(v, other_track, other_sector),
{
    let w = spec_write_sector(v, track, sector, buf).0;
    lemma_location_in_image(track as int, sector as int);
    assert(sector_of(w.data, track as int, sector as int) =~= buf);
    if (other_track != track || other_sector != sector) && location_fault(other_track, other_sector) is None {
        lemma_location_in_image(other_track as int, other_sector as int);
        lemma_locations_disjoint(track as int, sector as int, other_track as int, other_sector as int);
        assert(sector_of(w.data, other_track as int, other_sector as int) =~= sector_of(
            v.data,
            other_track as int,
            other_sector as int,
        ));
    }
}

pub(crate) proof fn lemma_bit_ops(x: u8, k: u8)
    requires
        k < 8,
    ensures
        (x | (1u8 << k)) & (1u8 << k) != 0,
        (x & !(1u8 << k)) & (1u8 << k) == 0,
        forall|j: u8|
            j < 8 && j != k ==> ((x | (1u8 << k)) & (1u8 << j) != 0) == (x & (1u8 << j) != 0) && ((x
                & !(1u8 << k)) & (1u8 << j) != 0) == (x & (1u8 << j) != 0),
{
    assert((x | (1u8 << k)) & (1u8 << k) != 0 && (x & !(1u8 << k)) & (1u8 << k) == 0)
        by (bit_vector)
        requires
            k < 8,
    ;
    assert forall|j: u8| j < 8 && j != k implies ((x | (1u8 << k)) & (1u8 << j) != 0) == (x & (1u8
        << j) != 0) && ((x & !(1u8 << k)) & (1u8 << j) != 0) == (x & (1u8 << j) != 0) by {
        assert(((x | (1u8 << k)) & (1u8 << j) != 0) == (x & (1u8 << j) != 0) && ((x & !(1u8
            << k)) & (1u8 << j) != 0) == (x & (1u8 << j) != 0)) by (bit_vector)
            requires
                j < 8 && j != k && k < 8,
        ;
    }
}

/// A sector marked free reads as free and one marked used reads as used;
/// marking a sector changes what the map says of no other sector.
pub proof fn lemma_mark_then_query(v: D64View, track: u8, sector: u8, other_track: u8, other_sector: u8)
    requires
        image_size_ok(v.data.len() as int),
        location_fault(track, sector) is None,
    ensures
        spec_is_free(spec_mark_free(v, track, sector).0, track, sector) == Ok::<bool, super::error::DiskFault>(true),
        spec_is_free(spec_mark_used(v, track, sector).0, track, sector) == Ok::<bool, super::error::DiskFault>(false),
        (other_track != track || other_sector != sector) ==> spec_is_free(
            spec_mark_free(v, track, sector).0,
            other_track,
            other_sector,
        ) == spec_is_free(v, other_track, other_sector) && spec_is_free(
            spec_mark_used(v, track, sector).0,
            other_track,
            other_sector,
        ) == spec_is_free(v, other_track, other_sector),
{
    let b = bam_entry(track as int) + 1 + sector / 8;
    let k = (sector % 8) as u8;
    lemma_bit_ops(v.data[b], k);
    if (other_track != track || other_sector != sector) && location_fault(other_track, other_sector) is None {
        let b2 = bam_entry(other_track as int) + 1 + other_sector / 8;
        let k2 = (other_sector % 8) as u8;
        if b2 == b {
            assert(other_track == track);
            assert(k2 != k);
        }
    }
}

/// The search order never reaches the directory track, and a block it
/// finds is on the disk and marked free.
pub(crate) proof fn lemma_alloc_search_found(data: Seq<u8>, i: int)
    requires
        alloc_search(data, i) is Some,
    ensures
        ({
            let (t, s) = alloc_search(data, i)->0;
            &&& t != 18
            &&& valid_location(t as int, s as int)
            &&& data[bam_entry(t as int)] != 0
            &&& sector_free_in(data, t as int, s as int)
        }),
    decreases 34 - i,
{
    let t = allocation_track(i);
    if data[bam_entry(t)] != 0 && first_free_sector(data, t, 0) is Some {
        lemma_first_free(data, t, 0);
    } else {
        lemma_alloc_search_found(data, i + 1);
    }
}

proof fn lemma_first_free(data: Seq<u8>, track: int, from: int)
    requires
        first_free_sector(data, track, from) is Some,
    ensures
        from <= first_free_sector(data, track, from)->0 < track_sectors(track),
        sector_free_in(data, track, first_free_sector(data, track, from)->0),
    decreases track_sectors(track) - from,
{
    if !(from < 0 || from >= track_sectors(track)) && !sector_free_in(data, track, from) {
        lemma_first_free(data, track, from + 1);
    }
}

proof fn lemma_free_count_update(data: Seq<u8>, e: int, x: u8, n: int)
    requires
        BAM_OFFSET <= e,
        forall|t: int| 1 <= t <= 35 ==> bam_entry(t) != e,
        e < data.len(),
        bam_entry(35) < data.len(),
        0 <= n <= 35,
    ensures
        free_count_upto(data.update(e, x), n) == free_count_upto(data, n),
    decreases n,
{
    if n > 0 {
        lemma_free_count_update(data, e, x, n - 1);
    }
}

proof fn lemma_free_count_dec(data: Seq<u8>, t: int, n: int)
    requires
        1 <= t <= 35,
        t != 18,
        data[bam_entry(t)] > 0,
        bam_entry(35) < data.len(),
        0 <= n <= 35,
    ensures
        free_count_upto(data.update(bam_entry(t), (data[bam_entry(t)] - 1) as u8), n)
            == free_count_upto(data, n) - if t <= n {
            1int
        } else {
            0
        },
    decreases n,
{
    if n > 0 {
        lemma_free_count_dec(data, t, n - 1);
    }
}

/// Allocating a block takes a free sector off the directory track, marks
/// it used and lowers the free block count by one.
pub proof fn lemma_allocate_takes_free_block(v: D64View)
    requires
        image_size_ok(v.data.len() as int),
        spec_allocate(v).1 is Ok,
    ensures
        ({
            let (v1, r) = spec_allocate(v);
            let (t, s) = r->Ok_0;
            &&& t != 18
            &&& valid_location(t as int, s as int)
            &&& spec_is_free(v, t, s) == Ok::<bool, super::error::DiskFault>(true)
            &&& spec_is_free(v1, t, s) == Ok::<bool, super::error::DiskFault>(false)
            &&& free_count_upto(v1.data, 35) == free_count_upto(v.data, 35) - 1
        }),
{
    lemma_alloc_search_found(v.data, 0);
    let (t, s) = alloc_search(v.data, 0)->0;
    lemma_mark_then_query(v, t, s, t, s);
    let e = bam_entry(t as int);
    let b = e + 1 + (s as int) / 8;
    let d1 = v.data.update(e, (v.data[e] - 1) as u8);
    lemma_free_count_dec(v.data, t as int, 35);
    assert forall|tt: int| 1 <= tt <= 35 implies bam_entry(tt) != b by {}
    lemma_free_count_update(d1, b, d1[b] & !sector_bit(s as int), 35);
}

/// Whether the map marks some sector of `track` free.
pub open spec fn track_has_free(data: Seq<u8>, track: int) -> bool {
    exists|s: int| 0 <= s < track_sectors(track) && #[trigger] sector_free_in(data, track, s)
}

/// Whether each track's free count is zero exactly when its bitmap marks
/// no sector free (as on any disk whose counts match its bitmaps).
pub open spec fn counts_agree(data: Seq<u8>) -> bool {
    forall|t: int|
        1 <= t <= 35 ==> ((data[bam_entry(t)] != 0) == #[trigger] track_has_free(data, t))
}

proof fn lemma_first_free_least(data: Seq<u8>, track: int, from: int)
    requires
        0 <= from,
    ensures
        match first_free_sector(data, track, from) {
            Some(s) => {
                &&& from <= s < track_sectors(track)
                &&& sector_free_in(data, track, s)
                &&& forall|k: int| from <= k < s ==> !#[trigger] sector_free_in(data, track, k)
            },
            None => forall|k: int|
                from <= k < track_sectors(track) ==> !#[trigger] sector_free_in(data, track, k),
        },
    decreases track_sectors(track) - from,
{
    if from < track_sectors(track) && !sector_free_in(data, track, from) {
        lemma_first_free_least(data, track, from + 1);
    }
}

proof fn lemma_alloc_search_first(data: Seq<u8>, i: int)
    requires
        0 <= i <= 34,
        counts_agree(data),
    ensures
        match alloc_search(data, i) {
            Some((t, s)) => exists|k: int|
                i <= k < 34 && t as int == #[trigger] allocation_track(k) && track_has_free(
                    data,
                    t as int,
                ) && (forall|j: int|
                    i <= j < k ==> !track_has_free(data, #[trigger] allocation_track(j)))
                    && sector_free_in(data, t as int, s as int) && (forall|q: int|
                    0 <= q < s ==> !#[trigger] sector_free_in(data, t as int, q)),
            None => forall|j: int|
                i <= j < 34 ==> !track_has_free(data, #[trigger] allocation_track(j)),
        },
    decreases 34 - i,
{
    if i < 34 {
        let t = allocation_track(i);
        assert(1 <= t <= 35);
        lemma_first_free_least(data, t, 0);
        lemma_alloc_search_first(data, i + 1);
        if data[bam_entry(t)] != 0 && first_free_sector(data, t, 0) is Some {
            let s = first_free_sector(data, t, 0)->0;
            assert(track_has_free(data, t));
            assert((t as u8) as int == t);
            assert((s as u8) as int == s);
            assert(forall|j: int| i <= j < i ==> !track_has_free(data, #[trigger] allocation_track(j)));
        } else {
            assert(!track_has_free(data, t)) by {
                if track_has_free(data, t) {
                    let w = choose|w: int|
                        0 <= w < track_sectors(t) && #[trigger] sector_free_in(data, t, w);
                    assert(!sector_free_in(data, t, w));
                }
            }
            match alloc_search(data, i + 1) {
                Some((t2, s2)) => {
                    let k = choose|k: int|
                        i + 1 <= k < 34 && t2 as int == #[trigger] allocation_track(k)
                            && track_has_free(data, t2 as int) && (forall|j: int|
                            i + 1 <= j < k ==> !track_has_free(data, #[trigger] allocation_track(j)))
                            && sector_free_in(data, t2 as int, s2 as int) && (forall|q: int|
                            0 <= q < s2 ==> !#[trigger] sector_free_in(data, t2 as int, q));
                    assert(forall|j: int|
                        i <= j < k ==> !track_has_free(data, #[trigger] allocation_track(j)));
                },
                None => {},
            }
        }
    }
}

/// Allocation takes the first track in the search order (17, 19, 16, 20,
/// ..., 1, 35) that has a free sector, and on it the lowest free sector;
/// the disk is full exactly when no track in that order has one.
pub proof fn lemma_allocation_order(v: D64View)
    requires
        counts_agree(v.data),
    ensures
        match spec_allocate(v).1 {
            Ok((t, s)) => {
                &&& exists|k: int|
                    0 <= k < 34 && t as int == #[trigger] allocation_track(k) && (forall|j: int|
                        0 <= j < k ==> !track_has_free(v.data, #[trigger] allocation_track(j)))
                &&& sector_free_in(v.data, t as int, s as int)
                &&& forall|q: int| 0 <= q < s ==> !#[trigger] sector_free_in(v.data, t as int, q)
                &&& spec_allocate(v).0 == spec_mark_used(v, t, s).0
            },
            Err(f) => {
                &&& f == super::error::DiskFault::DiskFull
                &&& spec_allocate(v).0 == v
                &&& forall|j: int|
                    0 <= j < 34 ==> !track_has_free(v.data, #[trigger] allocation_track(j))
            },
        },
{
    lemma_alloc_search_first(v.data, 0);
}

/// Free counts of the map of a freshly formatted disk, summed over
/// tracks 1 to `n` but the directory track.
spec fn blank_free_upto(n: int) -> int {
    if n <= 17 {
        21 * n
    } else if n <= 18 {
        357
    } else if n <= 24 {
        357 + 19 * (n - 18)
    } else if n <= 30 {
        471 + 18 * (n - 24)
    } else {
        579 + 17 * (n - 30)
    }
}

proof fn lemma_blank_free_count(name: Seq<char>, id: Seq<u8>, n: int)
    requires
        0 <= n <= 35,
    ensures
        free_count_upto(blank_image(name, id), n) == blank_free_upto(n),
    decreases n,
{
    if n > 0 {
        lemma_blank_free_count(name, id, n - 1);
        let k = 4 + 4 * (n - 1);
        assert((k - 4) / 4 + 1 == n);
        assert((k - 4) % 4 == 0);
        assert(blank_image(name, id)[bam_entry(n)] == blank_bam_byte(name, id, k));
    }
}

/// The text a name shows after being written as a PETSCII name field.
pub open spec fn shown_name(name: Seq<char>) -> Seq<char> {
    name.map_values(|c: char| petscii_char(petscii_upper(c as u8)))
}

proof fn lemma_blank_name(name: Seq<char>, bytes: Seq<u8>)
    requires
        name.len() <= bytes.len(),
        name.len() < bytes.len() ==> bytes[name.len() as int] == 0xA0,
        forall|i: int|
            0 <= i < name.len() ==> (#[trigger] name[i] as u8) != 0 && (name[i] as u8) != 0xA0,
        forall|i: int| 0 <= i < name.len() ==> #[trigger] bytes[i] == petscii_upper(name[i] as u8),
    ensures
        name_text(bytes) == shown_name(name),
    decreases name.len(),
{
    if name.len() > 0 {
        assert(bytes[0] == petscii_upper(name[0] as u8));
        assert(name.drop_first().len() < name.len());
        assert forall|i: int| 0 <= i < name.drop_first().len() implies #[trigger] bytes.drop_first()[i]
            == petscii_upper(name.drop_first()[i] as u8) by {
            assert(bytes[i + 1] == petscii_upper(name[i + 1] as u8));
        }
        assert forall|i: int| 0 <= i < name.drop_first().len() implies (#[trigger] name.drop_first()[i]
            as u8) != 0 && (name.drop_first()[i] as u8) != 0xA0 by {
            assert(name.drop_first()[i] == name[i + 1]);
        }
        lemma_blank_name(name.drop_first(), bytes.drop_first());
        assert(shown_name(name) =~= seq![petscii_char(bytes[0])] + shown_name(name.drop_first()));
    } else {
        assert(shown_name(name) =~= Seq::<char>::empty());
    }
}

proof fn lemma_blank_bit(n: u32, s: u32, dir: bool)
    requires
        17 <= n <= 21,
        s < n,
    ensures
        ({
            let all = ((1u32 << n) - 1) as u32;
            let mask = if dir {
                !0x03u32 & all
            } else {
                all
            };
            let byte = if s / 8 == 0 {
                (mask & 0xFF) as u8
            } else if s / 8 == 1 {
                ((mask >> 8u32) & 0xFF) as u8
            } else {
                ((mask >> 16u32) & 0xFF) as u8
            };
            (byte & (1u8 << ((s % 8) as u8)) != 0) == !(dir && s < 2)
        }),
{
    assert({
        let all = ((1u32 << n) - 1) as u32;
        let mask = if dir {
            !0x03u32 & all
        } else {
            all
        };
        let byte = if s / 8 == 0 {
            (mask & 0xFF) as u8
        } else if s / 8 == 1 {
            ((mask >> 8u32) & 0xFF) as u8
        } else {
            ((mask >> 16u32) & 0xFF) as u8
        };
        (byte & (1u8 << ((s % 8) as u8)) != 0) == !(dir && s < 2)
    }) by (bit_vector)
        requires
            17 <= n <= 21,
            s < n,
    ;
}

/// On a freshly formatted disk the map marks every sector free but its own
/// (track 18, sector 0) and the first directory sector (track 18, sector
/// 1), which it marks used.
pub proof fn lemma_blank_disk_free(name: Seq<char>, id: Seq<u8>, track: int, sector: int)
    requires
        valid_location(track, sector),
    ensures
        sector_free_in(blank_image(name, id), track, sector) == !(track == 18 && sector < 2),
{
    let k = 4 + 4 * (track - 1) + 1 + sector / 8;
    assert(bitmap_byte(track, sector) == BAM_OFFSET + k);
    assert((k - 4) / 4 + 1 == track && (k - 4) % 4 == 1 + sector / 8);
    assert(blank_image(name, id)[BAM_OFFSET + k] == blank_bitmap_byte(track, sector / 8));
    lemma_blank_bit(track_sectors(track) as u32, sector as u32, track == 18);
}

/// The part of a disk name the map keeps: its first 16 characters.
pub open spec fn kept_name(name: Seq<char>) -> Seq<char> {
    if name.len() <= 16 {
        name
    } else {
        name.subrange(0, 16)
    }
}

/// A freshly formatted disk gives back the name and ID it was formatted
/// with (the name's first 16 characters as PETSCII shows them, for a name
/// with no zero or shifted-space byte among them) and has 664 free blocks.
pub proof fn lemma_blank_disk(name: Seq<char>, id: Seq<u8>)
    requires
        id.len() == 2,
        forall|i: int|
            0 <= i < name.len() && i < 16 ==> (#[trigger] name[i] as u8) != 0 && (name[i] as u8)
                != 0xA0,
    ensures
        name_text(sector_of(blank_image(name, id), 18, 0).subrange(0x90, 0xA0)) == shown_name(
            kept_name(name),
        ),
        sector_of(blank_image(name, id), 18, 0).subrange(0xA2, 0xA4) == id,
        free_count_upto(blank_image(name, id), 35) == 664,
{
    let bam = sector_of(blank_image(name, id), 18, 0);
    let field = bam.subrange(0x90, 0xA0);
    let kept = kept_name(name);
    assert forall|i: int| 0 <= i < kept.len() implies #[trigger] field[i] == petscii_upper(
        kept[i] as u8,
    ) by {
        assert(field[i] == blank_bam_byte(name, id, 0x90 + i));
    }
    assert forall|i: int| 0 <= i < kept.len() implies (#[trigger] kept[i] as u8) != 0 && (
    kept[i] as u8) != 0xA0 by {
        assert(kept[i] == name[i]);
    }
    if kept.len() < 16 {
        assert(field[kept.len() as int] == blank_bam_byte(name, id, 0x90 + kept.len() as int));
    }
    lemma_blank_name(kept, field);
    assert(bam.subrange(0xA2, 0xA4) =~= id);
    lemma_blank_free_count(name, id, 35);
}

/// The entry written into a slot of a directory sector for a plain name
/// is a closed file whose name reads back as the name in ASCII upper
/// case; the rest of the sector stays.
pub(crate) proof fn lemma_new_entry(
    sec: Seq<u8>,
    off: int,
    name: Seq<char>,
    file_type: u8,
    first_track: u8,
    first_sector: u8,
    blocks: u16,
)
    requires
        sec.len() == 256,
        0 <= off,
        off + 32 <= 256,
        name.len() <= 16,
        forall|i: int|
            0 <= i < name.len() ==> (#[trigger] name[i] as u8) != 0 && (name[i] as u8) != 0xA0,
        forall|i: int|
            0 <= i < name.len() ==> petscii_char(petscii_upper(#[trigger] name[i] as u8))
                == ascii_upper(name[i]),
    ensures
        ({
            let new_sec = with_entry(
                sec,
                off,
                name_field_bytes(name),
                file_type,
                first_track,
                first_sector,
                blocks,
            );
            &&& new_sec.len() == 256
            &&& live_entry(new_sec, off)
            &&& entry_name(new_sec, off) == name.map_values(|c: char| ascii_upper(c))
            &&& new_sec[off + 3] == first_track
            &&& new_sec[off + 4] == first_sector
            &&& new_sec[0] == sec[0]
            &&& new_sec[1] == sec[1]
            &&& forall|i: int| 0 <= i < 256 && !(off <= i < off + 32) ==> new_sec[i] == sec[i]
        }),
{
    let field = name_field_bytes(name);
    let new_sec = with_entry(sec, off, field, file_type, first_track, first_sector, blocks);
    assert(new_sec[off + 2] == file_type | 0x80u8);
    assert((file_type | 0x80u8) != 0 && (file_type | 0x80u8) & 0x80u8 != 0) by (bit_vector);
    let stored = new_sec.subrange(off + 5, off + 21);
    assert forall|i: int| 0 <= i < name.len() implies #[trigger] stored[i] == petscii_upper(
        name[i] as u8,
    ) by {
        assert(stored[i] == field[i]);
    }
    if name.len() < 16 {
        assert(stored[name.len() as int] == field[name.len() as int]);
    }
    lemma_blank_name(name, stored);
    assert(shown_name(name) =~= name.map_values(|c: char| ascii_upper(c)));
}

/// When the first slot of the first directory sector is empty, an entry
/// written for a file lands there and is found again by the file's name
/// (a name of up to 16 characters with no zero or shifted-space byte,
/// which PETSCII shows as its ASCII upper case and which upper-cases as
/// ASCII text does).
pub proof fn lemma_entry_found_again(
    v: D64View,
    name: Seq<char>,
    file_type: u8,
    first_track: u8,
    first_sector: u8,
    blocks: u16,
)
    requires
        image_size_ok(v.data.len() as int),
        sector_of(v.data, 18, 1)[2] == 0,
        name.len() <= 16,
        forall|i: int|
            0 <= i < name.len() ==> (#[trigger] name[i] as u8) != 0 && (name[i] as u8) != 0xA0,
        forall|i: int|
            0 <= i < name.len() ==> petscii_char(petscii_upper(#[trigger] name[i] as u8))
                == ascii_upper(name[i]),
        unicode_uppercase(name) == name.map_values(|c: char| ascii_upper(c)),
    ensures
        ({
            let (v1, r) = spec_create_entry(
                v,
                name_field_bytes(name),
                file_type,
                first_track,
                first_sector,
                blocks,
            );
            &&& r == Ok::<(u8, u8, usize), super::error::DiskFault>((18u8, 1u8, 0usize))
            &&& spec_find_entry(v1, name) == Ok::<(u8, u8, usize, u8, u8), super::error::DiskFault>(
                (18u8, 1u8, 0usize, first_track, first_sector),
            )
        }),
{
    let sec = sector_of(v.data, 18, 1);
    let free = free_slot_matcher();
    assert(first_match(sec, free, 0) == Some(0int));
    assert(directory_search(v.data, free) == DirSearch::Found { track: 18, sector: 1, offset: 0 });
    let new_sec = with_entry(sec, 0, name_field_bytes(name), file_type, first_track, first_sector, blocks);
    let v1 = spec_write_sector(v, 18, 1, new_sec).0;
    lemma_new_entry(sec, 0, name, file_type, first_track, first_sector, blocks);
    lemma_sector_write_read(v, 18, 1, new_sec, 18, 1);
    assert(sector_of(v1.data, 18, 1) =~= new_sec);
    let upper = name.map_values(|c: char| ascii_upper(c));
    assert(ascii_ci_eq(unicode_uppercase(name), entry_name(new_sec, 0)));
    let m = name_matcher(unicode_uppercase(name));
    assert(m(new_sec, 0));
    assert(first_match(new_sec, m, 0) == Some(0int));
}

/// A directory entry lands in the slot the free-slot search gives (after
/// extending the directory when it is full) and holds, at its offset, the
/// file type with its "closed" bit, the first block, the 16-byte name and
/// the block count, low byte first; the image is marked modified.
pub proof fn lemma_entry_layout(
    v: D64View,
    field: Seq<u8>,
    file_type: u8,
    first_track: u8,
    first_sector: u8,
    blocks: u16,
)
    requires
        image_size_ok(v.data.len() as int),
        field.len() == 16,
        spec_create_entry(v, field, file_type, first_track, first_sector, blocks).1 is Ok,
    ensures
        ({
            let (v1, r) = spec_create_entry(v, field, file_type, first_track, first_sector, blocks);
            let (dt, ds, off) = r->Ok_0;
            let sec = sector_of(v1.data, dt as int, ds as int);
            &&& r == spec_free_slot(v).1
            &&& v1.modified
            &&& sec[off + 2] == file_type | 0x80u8
            &&& sec[off + 3] == first_track
            &&& sec[off + 4] == first_sector
            &&& sec.subrange(off + 5, off + 21) == field
            &&& sec[off + 30] == (blocks & 0xFFu16) as u8
            &&& sec[off + 31] == ((blocks >> 8u16) & 0xFFu16) as u8
        }),
{
    let (v0, r0) = spec_free_slot(v);
    let (dt, ds, off) = r0->Ok_0;
    match directory_search(v.data, free_slot_matcher()) {
        DirSearch::Found { .. } => {
            super::directory_laws::lemma_found_bounds(
                v.data,
                18,
                1,
                super::geometry::CHAIN_LIMIT as nat,
                free_slot_matcher(),
            );
        },
        DirSearch::End { track, sector } => {
            if v.data[bam_entry(18)] != 0 && first_free_sector(v.data, 18, 1) is Some {
                super::directory::lemma_first_free_in_track(v.data, 18, 1);
            }
        },
        DirSearch::Fault(_) => {},
    }
    assert(location_fault(dt, ds) is None);
    assert(off as int + 32 <= 256);
    let sec0 = sector_of(v0.data, dt as int, ds as int);
    lemma_location_in_image(dt as int, ds as int);
    assert(v0.data.len() == v.data.len());
    let new_sec = with_entry(sec0, off as int, field, file_type, first_track, first_sector, blocks);
    lemma_sector_write_read(v0, dt, ds, new_sec, dt, ds);
    let v1 = spec_write_sector(v0, dt, ds, new_sec).0;
    assert(sector_of(v1.data, dt as int, ds as int) =~= new_sec);
    assert(new_sec.subrange(off + 5, off + 21) =~= field);
}

/// An ASCII letter, digit or space.
pub open spec fn plain_name_char(c: char) -> bool {
    ('a' <= c <= 'z') || ('A' <= c <= 'Z') || ('0' <= c <= '9') || c == ' '
}

/// A disk name of ASCII letters, digits and spaces reads back from a
/// freshly formatted disk as its first 16 characters in upper case.
pub proof fn lemma_blank_disk_name_upper(name: Seq<char>, id: Seq<u8>)
    requires
        id.len() == 2,
        forall|i: int| 0 <= i < name.len() ==> plain_name_char(#[trigger] name[i]),
    ensures
        name_text(sector_of(blank_image(name, id), 18, 0).subrange(0x90, 0xA0)) == kept_name(
            name,
        ).map_values(|c: char| ascii_upper(c)),
{
    lemma_blank_disk(name, id);
    let kept = kept_name(name);
    assert forall|i: int| 0 <= i < kept.len() implies #[trigger] shown_name(kept)[i]
        == kept.map_values(|c: char| ascii_upper(c))[i] by {
        assert(kept[i] == name[i]);
    }
    assert(shown_name(kept) =~= kept.map_values(|c: char| ascii_upper(c)));
}

} // verus!
