//! What deleting a file does to later look-ups of its name.

use vstd::prelude::*;
use super::geometry::{
    bam_entry, image_size_ok, lemma_location_in_image, lemma_locations_disjoint, location_offset,
    track_sectors, valid_location, BAM_OFFSET, CHAIN_LIMIT,
};
use crate::text::unicode_uppercase;
use super::directory::{
    dir_search, directory_search, first_match, live_entry, name_matcher, spec_delete,
    spec_find_entry, spec_free_chain, DirSearch, MAX_FILE_CHAIN,
};
use super::error::DiskFault;
use super::laws::lemma_bit_ops;
use super::image::{
    bitmap_byte, location_fault, sector_bit, sector_free_in, sector_of, spec_mark_free,
    spec_read_sector, spec_write_sector, with_sector, D64View,
};

verus! {

/// How many of the eight entries of a sector, from entry `i` on, the
/// matcher accepts.
pub open spec fn count_matches(sec: Seq<u8>, m: spec_fn(Seq<u8>, int) -> bool, i: int) -> nat
    decreases 8 - i,
{
    if i < 0 || i >= 8 {
        0
    } else {
        (if m(sec, 32 * i) { 1nat } else { 0nat }) + count_matches(sec, m, i + 1)
    }
}

/// The number of entries the matcher accepts along a directory chain
/// from a sector to its end, when the chain is sound: every link names a
/// sector of the directory track other than the block availability map,
/// and the chain ends within `fuel` sectors.
pub open spec fn chain_count(
    data: Seq<u8>,
    track: u8,
    sector: u8,
    fuel: nat,
    m: spec_fn(Seq<u8>, int) -> bool,
) -> Option<nat>
    decreases fuel,
{
    if location_fault(track, sector) is Some || track != 18 || sector == 0 {
        None
    } else {
        let sec = sector_of(data, track as int, sector as int);
        let here = count_matches(sec, m, 0);
        if sec[0] == 0 {
            Some(here)
        } else if fuel <= 1 {
            None
        } else {
            match chain_count(data, sec[0], sec[1], (fuel - 1) as nat, m) {
                Some(n) => Some(here + n),
                None => None,
            }
        }
    }
}

/// The number of entries of a name in a sound directory.
pub open spec fn name_count(data: Seq<u8>, name: Seq<char>) -> Option<nat> {
    chain_count(data, 18, 1, CHAIN_LIMIT as nat, name_matcher(unicode_uppercase(name)))
}

proof fn lemma_count_first(sec: Seq<u8>, m: spec_fn(Seq<u8>, int) -> bool, i: int)
    requires
        0 <= i <= 8,
    ensures
        (count_matches(sec, m, i) == 0) == (first_match(sec, m, i) is None),
        first_match(sec, m, i) is Some ==> ({
            let off = first_match(sec, m, i)->0;
            &&& 32 * i <= off < 256
            &&& off % 32 == 0
            &&& m(sec, off)
            &&& (count_matches(sec, m, i) == 1 ==> forall|j: int|
                i <= j < 8 && 32 * j != off ==> !#[trigger] m(sec, 32 * j))
        }),
    decreases 8 - i,
{
    if i < 8 {
        lemma_count_first(sec, m, i + 1);
        if !m(sec, 32 * i) && first_match(sec, m, i) is Some && count_matches(sec, m, i) == 1 {
            let off = first_match(sec, m, i)->0;
            assert forall|j: int| i <= j < 8 && 32 * j != off implies !#[trigger] m(sec, 32 * j) by {
                if j == i {
                } else {
                    assert(i + 1 <= j);
                }
            }
        }
        if m(sec, 32 * i) && count_matches(sec, m, i) == 1 {
            assert(count_matches(sec, m, i + 1) == 0);
            assert forall|j: int| i <= j < 8 && 32 * j != 32 * i implies !#[trigger] m(
                sec,
                32 * j,
            ) by {
                if j > i && m(sec, 32 * j) {
                    lemma_count_positive(sec, m, i + 1, j);
                }
            }
        }
    }
}

proof fn lemma_count_positive(sec: Seq<u8>, m: spec_fn(Seq<u8>, int) -> bool, i: int, j: int)
    requires
        0 <= i <= j < 8,
        m(sec, 32 * j),
    ensures
        count_matches(sec, m, i) > 0,
    decreases j - i,
{
    if i < j {
        lemma_count_positive(sec, m, i + 1, j);
    }
}

/// Two sectors on which the matcher agrees at every entry have the same
/// matches.
proof fn lemma_same_matches(
    a: Seq<u8>,
    b: Seq<u8>,
    m: spec_fn(Seq<u8>, int) -> bool,
    i: int,
)
    requires
        0 <= i <= 8,
        forall|j: int| i <= j < 8 ==> #[trigger] m(a, 32 * j) == m(b, 32 * j),
    ensures
        count_matches(a, m, i) == count_matches(b, m, i),
        first_match(a, m, i) == first_match(b, m, i),
    decreases 8 - i,
{
    if i < 8 {
        assert(m(a, 32 * i) == m(b, 32 * i));
        lemma_same_matches(a, b, m, i + 1);
    }
}

/// A search that finds an entry along a sound chain finds it on a sector
/// of the disk other than the map, at an entry the matcher accepts, and
/// the chain counts at least one match.
pub proof fn lemma_found_in_chain(
    data: Seq<u8>,
    track: u8,
    sector: u8,
    fuel: nat,
    m: spec_fn(Seq<u8>, int) -> bool,
)
    requires
        dir_search(data, track, sector, fuel, m) is Found,
        chain_count(data, track, sector, fuel, m) is Some,
    ensures
        ({
            let (t, s, off) = match dir_search(data, track, sector, fuel, m) {
                DirSearch::Found { track, sector, offset } => (track, sector, offset),
                _ => (0u8, 0u8, 0int),
            };
            &&& location_fault(t, s) is None
            &&& t == 18
            &&& s != 0
            &&& first_match(sector_of(data, t as int, s as int), m, 0) == Some(off)
            &&& 0 <= off < 256
            &&& off % 32 == 0
            &&& chain_count(data, track, sector, fuel, m)->0 > 0
        }),
    decreases fuel,
{
    let sec = sector_of(data, track as int, sector as int);
    lemma_count_first(sec, m, 0);
    if first_match(sec, m, 0) is None {
        lemma_found_in_chain(data, sec[0], sec[1], (fuel - 1) as nat, m);
    }
}

/// Clearing the file type of one entry of a sector: the matcher for names
/// no longer accepts that entry and still judges every other one as
/// before.
proof fn lemma_cleared_entry(sec: Seq<u8>, off: int, search: Seq<char>)
    requires
        sec.len() == 256,
        0 <= off < 256,
        off % 32 == 0,
    ensures
        ({
            let m = name_matcher(search);
            let cleared = sec.update(off + 2, 0u8);
            &&& !m(cleared, off)
            &&& forall|j: int|
                0 <= j < 8 && 32 * j != off ==> #[trigger] m(cleared, 32 * j) == m(sec, 32 * j)
            &&& cleared[0] == sec[0]
            &&& cleared[1] == sec[1]
        }),
{
    let m = name_matcher(search);
    let cleared = sec.update(off + 2, 0u8);
    assert(!live_entry(cleared, off));
    assert forall|j: int| 0 <= j < 8 && 32 * j != off implies #[trigger] m(cleared, 32 * j) == m(
        sec,
        32 * j,
    ) by {
        assert(cleared[32 * j + 2] == sec[32 * j + 2]);
        assert(cleared.subrange(32 * j + 5, 32 * j + 21) =~= sec.subrange(32 * j + 5, 32 * j + 21));
    }
}

/// The relation between the bytes of a directory before and after a
/// delete: the sector of the deleted entry differs only in that entry's
/// file type, and every other sector but the map is unchanged.
pub open spec fn deleted_from(
    before: Seq<u8>,
    after: Seq<u8>,
    dt: u8,
    ds: u8,
    off: int,
) -> bool {
    &&& sector_of(after, dt as int, ds as int) == sector_of(before, dt as int, ds as int).update(
        off + 2,
        0u8,
    )
    &&& forall|t: int, s: int|
        valid_location(t, s) && !(t == 18 && s == 0) && !(t == dt && s == ds) ==> #[trigger] sector_of(
            after,
            t,
            s,
        ) == sector_of(before, t, s)
}

/// Past the deleted entry, along a part of the chain with no match in the
/// old directory, the search in the new one finds none either and ends
/// where the chain ends.
proof fn lemma_rest_not_found(
    before: Seq<u8>,
    after: Seq<u8>,
    dt: u8,
    ds: u8,
    off: int,
    track: u8,
    sector: u8,
    fuel: nat,
    m: spec_fn(Seq<u8>, int) -> bool,
)
    requires
        deleted_from(before, after, dt, ds, off),
        m(sector_of(before, dt as int, ds as int), off),
        0 <= off < 256,
        off % 32 == 0,
        chain_count(before, track, sector, fuel, m) == Some(0nat),
    ensures
        dir_search(after, track, sector, fuel, m) is End,
    decreases fuel,
{
    let sec = sector_of(before, track as int, sector as int);
    lemma_count_first(sec, m, 0);
    if track == dt && sector == ds {
        lemma_count_positive(sec, m, 0, off / 32);
        assert(false);
    }
    assert(valid_location(track as int, sector as int));
    assert(sector_of(after, track as int, sector as int) == sec);
    if sec[0] != 0 {
        lemma_rest_not_found(before, after, dt, ds, off, sec[0], sec[1], (fuel - 1) as nat, m);
    }
}

/// Along a sound chain whose one match is the deleted entry, the search
/// in the new directory finds nothing and ends where the chain ends.
proof fn lemma_search_after_delete(
    before: Seq<u8>,
    after: Seq<u8>,
    dt: u8,
    ds: u8,
    off: int,
    track: u8,
    sector: u8,
    fuel: nat,
    search: Seq<char>,
)
    requires
        image_size_ok(before.len() as int),
        deleted_from(before, after, dt, ds, off),
        dir_search(before, track, sector, fuel, name_matcher(search)) == (DirSearch::Found {
            track: dt,
            sector: ds,
            offset: off,
        }),
        chain_count(before, track, sector, fuel, name_matcher(search)) == Some(1nat),
    ensures
        dir_search(after, track, sector, fuel, name_matcher(search)) is End,
    decreases fuel,
{
    let m = name_matcher(search);
    lemma_found_in_chain(before, track, sector, fuel, m);
    let sec = sector_of(before, track as int, sector as int);
    lemma_location_in_image(track as int, sector as int);
    lemma_count_first(sec, m, 0);
    lemma_location_in_image(dt as int, ds as int);
    let dsec = sector_of(before, dt as int, ds as int);
    lemma_count_first(dsec, m, 0);
    if track == dt && sector == ds {
        let cleared = sec.update(off + 2, 0u8);
        lemma_cleared_entry(sec, off, search);
        assert(sector_of(after, track as int, sector as int) == cleared);
        assert(count_matches(sec, m, 0) == 1) by {
            if sec[0] != 0 {
                assert(chain_count(before, sec[0], sec[1], (fuel - 1) as nat, m) is Some);
            }
        }
        assert(first_match(cleared, m, 0) is None) by {
            assert forall|j: int| 0 <= j < 8 implies !#[trigger] m(cleared, 32 * j) by {
                if 32 * j != off {
                    assert(!m(sec, 32 * j));
                }
            }
            lemma_no_match_none(cleared, m, 0);
        }
        if sec[0] != 0 {
            lemma_rest_not_found(before, after, dt, ds, off, sec[0], sec[1], (fuel - 1) as nat, m);
        }
    } else {
        assert(valid_location(track as int, sector as int));
        assert(sector_of(after, track as int, sector as int) == sec);
        lemma_search_after_delete(
            before,
            after,
            dt,
            ds,
            off,
            sec[0],
            sec[1],
            (fuel - 1) as nat,
            search,
        );
    }
}

proof fn lemma_no_match_none(sec: Seq<u8>, m: spec_fn(Seq<u8>, int) -> bool, i: int)
    requires
        0 <= i <= 8,
        forall|j: int| i <= j < 8 ==> !#[trigger] m(sec, 32 * j),
    ensures
        first_match(sec, m, i) is None,
    decreases 8 - i,
{
    if i < 8 {
        assert(!m(sec, 32 * i));
        lemma_no_match_none(sec, m, i + 1);
    }
}

/// Marking a block free changes no sector but the map.
proof fn lemma_mark_free_frame(v: D64View, track: u8, sector: u8)
    requires
        image_size_ok(v.data.len() as int),
    ensures
        spec_mark_free(v, track, sector).0.data.len() == v.data.len(),
        forall|t: int, s: int|
            valid_location(t, s) && !(t == 18 && s == 0) ==> #[trigger] sector_of(
                spec_mark_free(v, track, sector).0.data,
                t,
                s,
            ) == sector_of(v.data, t, s),
{
    let w = spec_mark_free(v, track, sector).0;
    if location_fault(track, sector) is None {
        lemma_location_in_image(18, 0);
        assert forall|t: int, s: int| valid_location(t, s) && !(t == 18 && s == 0) implies #[trigger] sector_of(
            w.data,
            t,
            s,
        ) == sector_of(v.data, t, s) by {
            lemma_location_in_image(t, s);
            lemma_locations_disjoint(t, s, 18, 0);
            assert(sector_of(w.data, t, s) =~= sector_of(v.data, t, s));
        }
    }
}

/// Freeing the blocks of a file changes no sector but the map.
proof fn lemma_free_chain_frame(v: D64View, track: u8, sector: u8, budget: nat)
    requires
        image_size_ok(v.data.len() as int),
    ensures
        spec_free_chain(v, track, sector, budget).0.data.len() == v.data.len(),
        forall|t: int, s: int|
            valid_location(t, s) && !(t == 18 && s == 0) ==> #[trigger] sector_of(
                spec_free_chain(v, track, sector, budget).0.data,
                t,
                s,
            ) == sector_of(v.data, t, s),
    decreases budget,
{
    if track != 0 && budget != 0 {
        if let Ok(sec) = spec_read_sector(v, track, sector) {
            let v1 = spec_mark_free(v, track, sector).0;
            lemma_mark_free_frame(v, track, sector);
            lemma_free_chain_frame(v1, sec[0], sec[1], (budget - 1) as nat);
        }
    }
}

/// The blocks of a file chain as the image links them: from a block on,
/// following each block's link bytes, at most `budget` blocks, until a
/// link to track 0 or to a place that is not on the disk.
pub open spec fn file_chain(data: Seq<u8>, track: u8, sector: u8, budget: nat) -> Seq<(u8, u8)>
    decreases budget,
{
    if track == 0 || budget == 0 || location_fault(track, sector) is Some {
        Seq::empty()
    } else {
        let sec = sector_of(data, track as int, sector as int);
        seq![(track, sector)] + file_chain(data, sec[0], sec[1], (budget - 1) as nat)
    }
}

/// Marking a block free sets its map bit and clears none.
proof fn lemma_mark_free_bits(v: D64View, track: u8, sector: u8)
    requires
        image_size_ok(v.data.len() as int),
        valid_location(track as int, sector as int),
    ensures
        forall|t: int, s: int|
            valid_location(t, s) ==> #[trigger] sector_free_in(
                spec_mark_free(v, track, sector).0.data,
                t,
                s,
            ) == (sector_free_in(v.data, t, s) || (t == track && s == sector)),
{
    let e = bam_entry(track as int);
    let b = bitmap_byte(track as int, sector as int);
    let c = v.data[e];
    let d1 = v.data.update(
        e,
        if (c as int) < track_sectors(track as int) { (c + 1) as u8 } else { c },
    );
    let d2 = d1.update(b, d1[b] | sector_bit(sector as int));
    assert(spec_mark_free(v, track, sector).0.data == d2);
    assert forall|t: int, s: int| valid_location(t, s) implies #[trigger] sector_free_in(d2, t, s)
        == (sector_free_in(v.data, t, s) || (t == track && s == sector)) by {
        let b2 = bitmap_byte(t, s);
        assert(b2 != e);
        if b2 == b {
            assert(t == track);
            assert(s / 8 == sector / 8);
            let x = v.data[b];
            assert(d1[b] == x);
            let sh = (sector % 8) as u8;
            let sh2 = (s % 8) as u8;
            assert(sh < 8 && sh2 < 8);
            lemma_bit_ops(x, sh);
            assert(((x | (1u8 << sh)) & (1u8 << sh2) != 0) <==> (x & (1u8 << sh2) != 0 || sh
                == sh2));
        } else {
            assert(d2[b2] == v.data[b2]);
        }
    }
}

/// Two images that agree on every sector but the map link a file the same
/// way, as long as the chain keeps off the map sector.
proof fn lemma_file_chain_same(d1: Seq<u8>, d2: Seq<u8>, track: u8, sector: u8, budget: nat)
    requires
        forall|t: int, s: int|
            valid_location(t, s) && !(t == 18 && s == 0) ==> #[trigger] sector_of(d1, t, s)
                == sector_of(d2, t, s),
        forall|i: int|
            0 <= i < file_chain(d2, track, sector, budget).len() ==> #[trigger] file_chain(
                d2,
                track,
                sector,
                budget,
            )[i] != (18u8, 0u8),
    ensures
        file_chain(d1, track, sector, budget) == file_chain(d2, track, sector, budget),
    decreases budget,
{
    if !(track == 0 || budget == 0 || location_fault(track, sector) is Some) {
        let c2 = file_chain(d2, track, sector, budget);
        assert(c2[0] == (track, sector));
        assert(!(track == 18 && sector == 0));
        assert(sector_of(d1, track as int, sector as int) == sector_of(d2, track as int, sector as int));
        let sec = sector_of(d2, track as int, sector as int);
        let rest = file_chain(d2, sec[0], sec[1], (budget - 1) as nat);
        assert forall|i: int| 0 <= i < rest.len() implies #[trigger] rest[i] != (18u8, 0u8) by {
            assert(rest[i] == c2[i + 1]);
        }
        lemma_file_chain_same(d1, d2, sec[0], sec[1], (budget - 1) as nat);
    }
}

/// Freeing a file chain marks every block on it free and clears no map
/// bit, when the chain keeps off the map sector.
proof fn lemma_free_chain_frees(v: D64View, track: u8, sector: u8, budget: nat)
    requires
        image_size_ok(v.data.len() as int),
        spec_free_chain(v, track, sector, budget).1 is Ok,
        forall|i: int|
            0 <= i < file_chain(v.data, track, sector, budget).len() ==> #[trigger] file_chain(
                v.data,
                track,
                sector,
                budget,
            )[i] != (18u8, 0u8),
    ensures
        ({
            let w = spec_free_chain(v, track, sector, budget).0;
            let chain = file_chain(v.data, track, sector, budget);
            &&& forall|i: int|
                0 <= i < chain.len() ==> sector_free_in(
                    w.data,
                    (#[trigger] chain[i]).0 as int,
                    chain[i].1 as int,
                )
            &&& forall|t: int, s: int|
                valid_location(t, s) && sector_free_in(v.data, t, s) ==> #[trigger] sector_free_in(
                    w.data,
                    t,
                    s,
                )
        }),
    decreases budget,
{
    if !(track == 0 || budget == 0) {
        assert(location_fault(track, sector) is None);
        let sec = sector_of(v.data, track as int, sector as int);
        let v1 = spec_mark_free(v, track, sector).0;
        let chain = file_chain(v.data, track, sector, budget);
        let rest = file_chain(v.data, sec[0], sec[1], (budget - 1) as nat);
        assert(chain[0] == (track, sector));
        assert forall|i: int| 0 <= i < rest.len() implies #[trigger] rest[i] != (18u8, 0u8) by {
            assert(rest[i] == chain[i + 1]);
        }
        lemma_mark_free_frame(v, track, sector);
        lemma_mark_free_bits(v, track, sector);
        lemma_file_chain_same(v1.data, v.data, sec[0], sec[1], (budget - 1) as nat);
        lemma_free_chain_frees(v1, sec[0], sec[1], (budget - 1) as nat);
        let w = spec_free_chain(v, track, sector, budget).0;
        assert forall|i: int| 0 <= i < chain.len() implies sector_free_in(
            w.data,
            (#[trigger] chain[i]).0 as int,
            chain[i].1 as int,
        ) by {
            if i > 0 {
                assert(chain[i] == rest[i - 1]);
            }
        }
    }
}

/// Deleting a file frees every block of its chain: when deleting succeeds,
/// each block its directory entry's chain links (as the image linked them
/// before), up to the longest chain followed, is marked free in the map,
/// and no block the map marked free is marked used. This holds when
/// neither the chain nor the file's directory sector is the map sector.
pub proof fn lemma_delete_frees_chain(v: D64View, name: Seq<char>)
    requires
        image_size_ok(v.data.len() as int),
        spec_delete(v, name).1 is Ok,
        ({
            let (dt, ds, off, ft, fs) = spec_find_entry(v, name)->Ok_0;
            &&& !(dt == 18 && ds == 0)
            &&& forall|i: int|
                0 <= i < file_chain(v.data, ft, fs, MAX_FILE_CHAIN as nat).len() ==> #[trigger] file_chain(
                    v.data,
                    ft,
                    fs,
                    MAX_FILE_CHAIN as nat,
                )[i] != (18u8, 0u8)
        }),
    ensures
        ({
            let (dt, ds, off, ft, fs) = spec_find_entry(v, name)->Ok_0;
            let w = spec_delete(v, name).0;
            let chain = file_chain(v.data, ft, fs, MAX_FILE_CHAIN as nat);
            &&& forall|i: int|
                0 <= i < chain.len() ==> sector_free_in(
                    w.data,
                    (#[trigger] chain[i]).0 as int,
                    chain[i].1 as int,
                )
            &&& forall|t: int, s: int|
                valid_location(t, s) && sector_free_in(v.data, t, s) ==> #[trigger] sector_free_in(
                    w.data,
                    t,
                    s,
                )
        }),
{
    let (dt, ds, off, ft, fs) = spec_find_entry(v, name)->Ok_0;
    let v1 = spec_free_chain(v, ft, fs, MAX_FILE_CHAIN as nat).0;
    lemma_free_chain_frees(v, ft, fs, MAX_FILE_CHAIN as nat);
    lemma_free_chain_frame(v, ft, fs, MAX_FILE_CHAIN as nat);
    let sec = sector_of(v1.data, dt as int, ds as int).update(off + 2, 0u8);
    let w = spec_write_sector(v1, dt, ds, sec).0;
    assert(w == spec_delete(v, name).0);
    lemma_found_bounds(v.data, 18, 1, CHAIN_LIMIT as nat, name_matcher(unicode_uppercase(name)));
    assert(location_fault(dt, ds) is None);
    lemma_location_in_image(dt as int, ds as int);
    lemma_location_in_image(18, 0);
    lemma_locations_disjoint(dt as int, ds as int, 18, 0);
    assert forall|t: int, s: int| valid_location(t, s) implies #[trigger] sector_free_in(w.data, t, s)
        == sector_free_in(v1.data, t, s) by {
        assert(w.data[bitmap_byte(t, s)] == v1.data[bitmap_byte(t, s)]);
    }
    let chain = file_chain(v.data, ft, fs, MAX_FILE_CHAIN as nat);
    assert forall|i: int| 0 <= i < chain.len() implies sector_free_in(
        w.data,
        (#[trigger] chain[i]).0 as int,
        chain[i].1 as int,
    ) by {
        lemma_file_chain_valid(v.data, ft, fs, MAX_FILE_CHAIN as nat, i);
    }
}

/// Every block of a file chain is a place on the disk.
proof fn lemma_file_chain_valid(data: Seq<u8>, track: u8, sector: u8, budget: nat, i: int)
    requires
        0 <= i < file_chain(data, track, sector, budget).len(),
    ensures
        valid_location(
            file_chain(data, track, sector, budget)[i].0 as int,
            file_chain(data, track, sector, budget)[i].1 as int,
        ),
    decreases budget,
{
    let sec = sector_of(data, track as int, sector as int);
    if i > 0 {
        lemma_file_chain_valid(data, sec[0], sec[1], (budget - 1) as nat, i - 1);
    }
}

/// A file that the directory lists once is no longer found after it is
/// deleted: when the directory chain is sound and holds exactly one
/// closed file of the name, and deleting it succeeds, looking the name up
/// again reports that the file is not there.
pub proof fn lemma_delete_then_not_found(v: D64View, name: Seq<char>)
    requires
        image_size_ok(v.data.len() as int),
        name_count(v.data, name) == Some(1nat),
        spec_delete(v, name).1 is Ok,
    ensures
        spec_find_entry(spec_delete(v, name).0, name) == Err::<(u8, u8, usize, u8, u8), DiskFault>(
            DiskFault::FileNotFound(name),
        ),
{
    let search = unicode_uppercase(name);
    let m = name_matcher(search);
    let found = directory_search(v.data, m);
    lemma_found_in_chain(v.data, 18, 1, CHAIN_LIMIT as nat, m);
    let (dt, ds, off) = match found {
        DirSearch::Found { track, sector, offset } => (track, sector, offset),
        _ => (0u8, 0u8, 0int),
    };
    let dsec = sector_of(v.data, dt as int, ds as int);
    let ft = dsec[off + 3];
    let fs = dsec[off + 4];
    let v1 = spec_free_chain(v, ft, fs, 768).0;
    lemma_free_chain_frame(v, ft, fs, 768);
    lemma_location_in_image(dt as int, ds as int);
    assert(valid_location(dt as int, ds as int));
    assert(sector_of(v1.data, dt as int, ds as int) == dsec);
    let cleared = dsec.update(off + 2, 0u8);
    let v2 = spec_write_sector(v1, dt, ds, cleared).0;
    assert(v2 == spec_delete(v, name).0);
    assert(sector_of(v2.data, dt as int, ds as int) =~= cleared);
    assert forall|t: int, s: int|
        valid_location(t, s) && !(t == 18 && s == 0) && !(t == dt && s == ds) implies #[trigger] sector_of(
        v2.data,
        t,
        s,
    ) == sector_of(v.data, t, s) by {
        lemma_location_in_image(t, s);
        lemma_locations_disjoint(t, s, dt as int, ds as int);
        assert(sector_of(v2.data, t, s) =~= sector_of(v1.data, t, s));
    }
    assert(deleted_from(v.data, v2.data, dt, ds, off));
    lemma_search_after_delete(v.data, v2.data, dt, ds, off, 18, 1, CHAIN_LIMIT as nat, search);
}

/// Two images that agree on every sector of the directory track but the
/// map.
pub open spec fn same_directory_track(d1: Seq<u8>, d2: Seq<u8>) -> bool {
    forall|s: int|
        0 < s < track_sectors(18) ==> #[trigger] sector_of(d2, 18, s) == sector_of(d1, 18, s)
}

/// A sound chain is sound for any matcher.
pub proof fn lemma_sound_for_any_matcher(
    data: Seq<u8>,
    track: u8,
    sector: u8,
    fuel: nat,
    m: spec_fn(Seq<u8>, int) -> bool,
    m2: spec_fn(Seq<u8>, int) -> bool,
)
    requires
        chain_count(data, track, sector, fuel, m) is Some,
    ensures
        chain_count(data, track, sector, fuel, m2) is Some,
    decreases fuel,
{
    let sec = sector_of(data, track as int, sector as int);
    if sec[0] != 0 && fuel > 1 {
        lemma_sound_for_any_matcher(data, sec[0], sec[1], (fuel - 1) as nat, m, m2);
    }
}

/// Along a chain with no match, the search reaches the chain's end.
pub proof fn lemma_no_match_ends(
    data: Seq<u8>,
    track: u8,
    sector: u8,
    fuel: nat,
    m: spec_fn(Seq<u8>, int) -> bool,
)
    requires
        chain_count(data, track, sector, fuel, m) == Some(0nat),
    ensures
        dir_search(data, track, sector, fuel, m) is End,
    decreases fuel,
{
    let sec = sector_of(data, track as int, sector as int);
    lemma_count_first(sec, m, 0);
    if sec[0] != 0 {
        lemma_no_match_ends(data, sec[0], sec[1], (fuel - 1) as nat, m);
    }
}

/// Along a sound chain, a search only sees the directory track: an image
/// that agrees there (but for the map) is searched alike.
pub proof fn lemma_search_same_track(
    d1: Seq<u8>,
    d2: Seq<u8>,
    track: u8,
    sector: u8,
    fuel: nat,
    sound: spec_fn(Seq<u8>, int) -> bool,
    m: spec_fn(Seq<u8>, int) -> bool,
)
    requires
        chain_count(d1, track, sector, fuel, sound) is Some,
        same_directory_track(d1, d2),
    ensures
        dir_search(d2, track, sector, fuel, m) == dir_search(d1, track, sector, fuel, m),
    decreases fuel,
{
    let sec = sector_of(d1, track as int, sector as int);
    assert(sector_of(d2, track as int, sector as int) == sec);
    if sec[0] != 0 && fuel > 1 {
        lemma_search_same_track(d1, d2, sec[0], sec[1], (fuel - 1) as nat, sound, m);
    }
}

proof fn lemma_first_match_at(sec: Seq<u8>, m: spec_fn(Seq<u8>, int) -> bool, i: int, off: int)
    requires
        0 <= i,
        32 * i <= off < 256,
        off % 32 == 0,
        m(sec, off),
        forall|j: int| i <= j && 32 * j < off ==> !#[trigger] m(sec, 32 * j),
    ensures
        first_match(sec, m, i) == Some(off),
    decreases off - 32 * i,
{
    if 32 * i < off {
        assert(!m(sec, 32 * i));
        lemma_first_match_at(sec, m, i + 1, off);
    }
}

/// A new entry written into the free slot a search finds: along a sound
/// chain with no match for `m`, where the search for a free slot finds
/// `(dt, ds, off)`, an image that agrees on the directory track but for
/// that sector, where the new sector keeps the link bytes and every other
/// entry as `m` judges it and `m` accepts the entry at `off`, is searched
/// by `m` to exactly that entry.
pub proof fn lemma_search_finds_new_entry(
    d0: Seq<u8>,
    d4: Seq<u8>,
    dt: u8,
    ds: u8,
    off: int,
    track: u8,
    sector: u8,
    fuel: nat,
    free: spec_fn(Seq<u8>, int) -> bool,
    m: spec_fn(Seq<u8>, int) -> bool,
)
    requires
        image_size_ok(d0.len() as int),
        dir_search(d0, track, sector, fuel, free) == (DirSearch::Found {
            track: dt,
            sector: ds,
            offset: off,
        }),
        chain_count(d0, track, sector, fuel, m) == Some(0nat),
        forall|s: int|
            0 < s < track_sectors(18) && s != ds ==> #[trigger] sector_of(d4, 18, s)
                == sector_of(d0, 18, s),
        ({
            let old_sec = sector_of(d0, dt as int, ds as int);
            let new_sec = sector_of(d4, dt as int, ds as int);
            &&& new_sec[0] == old_sec[0]
            &&& new_sec[1] == old_sec[1]
            &&& m(new_sec, off)
            &&& forall|j: int|
                0 <= j < 8 && 32 * j != off ==> #[trigger] m(new_sec, 32 * j) == m(old_sec, 32 * j)
        }),
    ensures
        dir_search(d4, track, sector, fuel, m) == (DirSearch::Found {
            track: dt,
            sector: ds,
            offset: off,
        }),
    decreases fuel,
{
    let sec = sector_of(d0, track as int, sector as int);
    lemma_count_first(sec, m, 0);
    lemma_count_first(sec, free, 0);
    lemma_sound_for_any_matcher(d0, track, sector, fuel, m, free);
    lemma_found_in_chain(d0, track, sector, fuel, free);
    if track == dt && sector == ds {
        let new_sec = sector_of(d4, dt as int, ds as int);
        assert forall|j: int| 0 <= j && 32 * j < off implies !#[trigger] m(new_sec, 32 * j) by {
            if m(sec, 32 * j) {
                lemma_count_positive(sec, m, 0, j);
            }
        }
        lemma_first_match_at(new_sec, m, 0, off);
    } else {
        assert(sector_of(d4, 18, sector as int) == sector_of(d0, 18, sector as int));
        if sec[0] != 0 && fuel > 1 {
            lemma_search_finds_new_entry(
                d0,
                d4,
                dt,
                ds,
                off,
                sec[0],
                sec[1],
                (fuel - 1) as nat,
                free,
                m,
            );
        }
    }
}

/// A search finds an entry only on a sector of the disk, at the start of
/// one of its eight entries.
pub proof fn lemma_found_bounds(
    data: Seq<u8>,
    track: u8,
    sector: u8,
    fuel: nat,
    m: spec_fn(Seq<u8>, int) -> bool,
)
    requires
        dir_search(data, track, sector, fuel, m) is Found,
    ensures
        ({
            let (t, s, off) = match dir_search(data, track, sector, fuel, m) {
                DirSearch::Found { track, sector, offset } => (track, sector, offset),
                _ => (0u8, 0u8, 0int),
            };
            &&& location_fault(t, s) is None
            &&& 0 <= off < 256
            &&& off % 32 == 0
        }),
    decreases fuel,
{
    let sec = sector_of(data, track as int, sector as int);
    lemma_count_first(sec, m, 0);
    if location_fault(track, sector) is None && first_match(sec, m, 0) is None && sec[0] != 0
        && fuel > 1 {
        lemma_found_bounds(data, sec[0], sec[1], (fuel - 1) as nat, m);
    }
}

} // verus!
