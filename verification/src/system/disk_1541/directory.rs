//! The directory of a D64 image: a chain of sectors on the directory
//! track, each holding eight 32-byte file entries.
//!
//! A directory sector starts with the track and sector of the next one
//! (track 0 ends the chain). An entry holds the file type at byte 2 (bit 7
//! set for a closed file, 0 for an empty slot), the first data block at
//! bytes 3 and 4, the name at bytes 5 to 20 and the block count at bytes
//! 30 and 31.
//!
//! A chain that has not ended after as many sectors as the disk holds
//! comes back to a sector it passed: walking it would never end, so the
//! walk stops there with an error.

use vstd::prelude::*;
use crate::text::{ascii_ci_eq, chars_of, eq_ignore_ascii_case, to_uppercase, unicode_uppercase};
use super::error::{D64Error, DiskFault, res_view};
use super::geometry::{lemma_location_in_image, valid_location, CHAIN_LIMIT, DIRECTORY_TRACK};
use super::image::{
    location_fault, name_chars, name_field, name_text, sector_of, spec_allocate_directory,
    spec_mark_free, spec_read_sector, spec_write_sector, D64Image, D64View, first_free_sector,
};

verus! {

/// Where a walk of the directory chain stopped.
pub enum DirSearch {
    /// An entry that the walk looked for, in the given sector.
    Found { track: u8, sector: u8, offset: int },
    /// The last sector of the chain, where nothing was found.
    End { track: u8, sector: u8 },
    /// A link to a place that is not on the disk, or a chain that does
    /// not end.
    Fault(DiskFault),
}

/// Message of the error for a directory chain that does not end.
pub open spec fn chain_too_long_text() -> Seq<char> {
    "Directory chain exceeds maximum expected length"@
}

/// The offset of the first of the eight entries of a sector, from entry
/// `i` on, that the matcher accepts.
pub open spec fn first_match(sec: Seq<u8>, m: spec_fn(Seq<u8>, int) -> bool, i: int) -> Option<int>
    decreases 8 - i,
{
    if i < 0 || i >= 8 {
        None
    } else if m(sec, 32 * i) {
        Some(32 * i)
    } else {
        first_match(sec, m, i + 1)
    }
}

/// Walk the directory chain from a sector, visiting at most `fuel`
/// sectors, to the first entry the matcher accepts.
pub open spec fn dir_search(
    data: Seq<u8>,
    track: u8,
    sector: u8,
    fuel: nat,
    m: spec_fn(Seq<u8>, int) -> bool,
) -> DirSearch
    decreases fuel,
{
    match location_fault(track, sector) {
        Some(f) => DirSearch::Fault(f),
        None => {
            let sec = sector_of(data, track as int, sector as int);
            match first_match(sec, m, 0) {
                Some(off) => DirSearch::Found { track, sector, offset: off },
                None => if sec[0] == 0 {
                    DirSearch::End { track, sector }
                } else if fuel <= 1 {
                    DirSearch::Fault(DiskFault::CorruptedImage(chain_too_long_text()))
                } else {
                    dir_search(data, sec[0], sec[1], (fuel - 1) as nat, m)
                },
            }
        },
    }
}

/// The walk of the whole directory, from its first sector.
pub open spec fn directory_search(data: Seq<u8>, m: spec_fn(Seq<u8>, int) -> bool) -> DirSearch {
    dir_search(data, 18, 1, CHAIN_LIMIT as nat, m)
}

/// An empty directory slot.
pub open spec fn free_slot_matcher() -> spec_fn(Seq<u8>, int) -> bool {
    |sec: Seq<u8>, off: int| sec[off + 2] == 0
}

/// An entry of a closed file.
pub open spec fn live_entry(sec: Seq<u8>, off: int) -> bool {
    sec[off + 2] != 0 && sec[off + 2] & 0x80u8 != 0
}

/// The name of the entry at an offset of a directory sector.
pub open spec fn entry_name(sec: Seq<u8>, off: int) -> Seq<char> {
    name_text(sec.subrange(off + 5, off + 21))
}

/// An entry of a closed file with the given name, compared without
/// regard to ASCII case.
pub open spec fn name_matcher(search: Seq<char>) -> spec_fn(Seq<u8>, int) -> bool {
    |sec: Seq<u8>, off: int| live_entry(sec, off) && ascii_ci_eq(search, entry_name(sec, off))
}

/// A new, empty directory sector that ends the chain.
pub open spec fn fresh_directory_sector() -> Seq<u8> {
    Seq::new(256, |i: int| if i == 1 { 0xFFu8 } else { 0u8 })
}

/// Extend the directory chain past its last sector with a newly
/// allocated sector of the directory track.
pub open spec fn spec_extend_directory(v: D64View, track: u8, sector: u8) -> (D64View, Result<(u8, u8, usize), DiskFault>) {
    let (v1, r) = spec_allocate_directory(v);
    match r {
        Err(f) => (v1, Err(f)),
        Ok(ns) => {
            let linked = sector_of(v1.data, track as int, sector as int).update(0, 18u8).update(
                1,
                ns,
            );
            let v2 = spec_write_sector(v1, track, sector, linked).0;
            let v3 = spec_write_sector(v2, 18, ns, fresh_directory_sector()).0;
            (v3, Ok((18u8, ns, 0usize)))
        },
    }
}

pub open spec fn spec_free_slot(v: D64View) -> (D64View, Result<(u8, u8, usize), DiskFault>) {
    match directory_search(v.data, free_slot_matcher()) {
        DirSearch::Found { track, sector, offset } => (v, Ok((track, sector, offset as usize))),
        DirSearch::End { track, sector } => spec_extend_directory(v, track, sector),
        DirSearch::Fault(f) => (v, Err(f)),
    }
}

/// The 16-byte name field written for a name.
pub open spec fn name_field_bytes(name: Seq<char>) -> Seq<u8> {
    Seq::new(16, |k: int| name_field(name, k))
}

/// Byte `k` of a directory entry as it is written: the link bytes are
/// kept, the file type gets its "closed" bit, and the side-sector, record
/// length and replacement bytes are cleared.
pub open spec fn entry_byte(
    sec: Seq<u8>,
    off: int,
    field: Seq<u8>,
    file_type: u8,
    first_track: u8,
    first_sector: u8,
    blocks: u16,
    k: int,
) -> u8 {
    if k < 2 {
        sec[off + k]
    } else if k == 2 {
        file_type | 0x80u8
    } else if k == 3 {
        first_track
    } else if k == 4 {
        first_sector
    } else if k < 21 {
        field[k - 5]
    } else if k < 30 {
        0
    } else if k == 30 {
        (blocks & 0xFFu16) as u8
    } else {
        ((blocks >> 8u16) & 0xFFu16) as u8
    }
}

pub open spec fn with_entry(
    sec: Seq<u8>,
    off: int,
    field: Seq<u8>,
    file_type: u8,
    first_track: u8,
    first_sector: u8,
    blocks: u16,
) -> Seq<u8> {
    Seq::new(
        256,
        |i: int|
            if off <= i < off + 32 {
                entry_byte(sec, off, field, file_type, first_track, first_sector, blocks, i - off)
            } else {
                sec[i]
            },
    )
}

/// Write a directory entry with the given name field into the first free
/// slot of the directory.
pub open spec fn spec_create_entry(
    v: D64View,
    field: Seq<u8>,
    file_type: u8,
    first_track: u8,
    first_sector: u8,
    blocks: u16,
) -> (D64View, Result<(u8, u8, usize), DiskFault>) {
    let (v1, r) = spec_free_slot(v);
    match r {
        Err(f) => (v1, Err(f)),
        Ok((t, s, off)) => {
            let sec = sector_of(v1.data, t as int, s as int);
            let new_sec = with_entry(
                sec,
                off as int,
                field,
                file_type,
                first_track,
                first_sector,
                blocks,
            );
            (spec_write_sector(v1, t, s, new_sec).0, Ok((t, s, off)))
        },
    }
}

/// The entry of a closed file of the given name: its directory sector,
/// offset and first data block.
pub open spec fn spec_find_entry(v: D64View, name: Seq<char>) -> Result<(u8, u8, usize, u8, u8), DiskFault> {
    match directory_search(v.data, name_matcher(unicode_uppercase(name))) {
        DirSearch::Found { track, sector, offset } => {
            let sec = sector_of(v.data, track as int, sector as int);
            Ok((track, sector, offset as usize, sec[offset + 3], sec[offset + 4]))
        },
        DirSearch::End { .. } => Err(DiskFault::FileNotFound(name)),
        DirSearch::Fault(f) => Err(f),
    }
}

/// Free the blocks of a file chain, following at most `budget` links.
pub open spec fn spec_free_chain(v: D64View, track: u8, sector: u8, budget: nat) -> (D64View, Result<(), DiskFault>)
    decreases budget,
{
    if track == 0 || budget == 0 {
        (v, Ok(()))
    } else {
        match spec_read_sector(v, track, sector) {
            Err(f) => (v, Err(f)),
            Ok(sec) => spec_free_chain(
                spec_mark_free(v, track, sector).0,
                sec[0],
                sec[1],
                (budget - 1) as nat,
            ),
        }
    }
}

/// Longest file chain that deleting a file follows.
pub const MAX_FILE_CHAIN: usize = 768;

pub open spec fn spec_delete(v: D64View, name: Seq<char>) -> (D64View, Result<(), DiskFault>) {
    match spec_find_entry(v, name) {
        Err(f) => (v, Err(f)),
        Ok((dt, ds, off, ft, fs)) => {
            let (v1, r) = spec_free_chain(v, ft, fs, MAX_FILE_CHAIN as nat);
            match r {
                Err(f) => (v1, Err(f)),
                Ok(()) => {
                    let sec = sector_of(v1.data, dt as int, ds as int).update(off + 2, 0u8);
                    (spec_write_sector(v1, dt, ds, sec).0, Ok(()))
                },
            }
        },
    }
}

pub(crate) proof fn lemma_first_free_in_track(data: Seq<u8>, track: int, from: int)
    requires
        first_free_sector(data, track, from) is Some,
    ensures
        from <= first_free_sector(data, track, from)->0 < super::geometry::track_sectors(track),
    decreases super::geometry::track_sectors(track) - from,
{
    if from >= 0 && from < super::geometry::track_sectors(track) && !super::image::sector_free_in(
        data,
        track,
        from,
    ) {
        lemma_first_free_in_track(data, track, from + 1);
    }
}

/// The error for a directory chain that does not end.
pub(crate) fn chain_too_long() -> (e: D64Error)
    ensures
        e@ == DiskFault::CorruptedImage(chain_too_long_text()),
{
    D64Error::CorruptedImage(String::from_str("Directory chain exceeds maximum expected length"))
}

impl D64Image {
    /// Find a free directory entry slot, extending the directory by a new
    /// sector when every slot is taken.
    ///
    /// Returns (track, sector, entry_offset_in_sector) or an error.
    #[verifier::loop_isolation(false)]
    pub fn find_free_directory_slot(&mut self) -> (r: Result<(u8, u8, usize), D64Error>)
        requires
            old(self).wf(),
        ensures
            final(self).wf(),
            (final(self)@, res_view(r)) == spec_free_slot(old(self)@),
            r matches Ok(slot) ==> slot.2 <= 224 && valid_location(slot.0 as int, slot.1 as int),
    {
        let ghost m = free_slot_matcher();
        let ghost d = self@.data;
        let mut dir_track: u8 = DIRECTORY_TRACK;
        let mut dir_sector: u8 = 1;
        let mut fuel: usize = CHAIN_LIMIT;
        loop
            invariant
                self.wf(),
                self@ == old(self)@,
                d == self@.data,
                1 <= fuel <= CHAIN_LIMIT,
                directory_search(d, m) == dir_search(d, dir_track, dir_sector, fuel as nat, m),
            decreases fuel,
        {
            let sector = match self.read_sector(dir_track, dir_sector) {
                Ok(b) => b,
                Err(e) => return Err(e),
            };
            assert(location_fault(dir_track, dir_sector) is None);
            assert(sector@ == sector_of(d, dir_track as int, dir_sector as int));
            let mut i: usize = 0;
            while i < 8
                invariant
                    i <= 8,
                    first_match(sector@, m, 0) == first_match(sector@, m, i as int),
                decreases 8 - i,
            {
                assert(m(sector@, 32 * i) == (sector@[32 * i + 2] == 0));
                if sector[i * 32 + 2] == 0 {
                    return Ok((dir_track, dir_sector, i * 32));
                }
                i += 1;
            }
            if sector[0] == 0 {
                let end_track = dir_track;
                let end_sector = dir_sector;
                let new_sector = match self.allocate_directory_sector() {
                    Ok(s) => s,
                    Err(e) => return Err(e),
                };
                proof {
                    lemma_first_free_in_track(d, 18, 1);
                }
                let mut current = match self.read_sector(end_track, end_sector) {
                    Ok(b) => b,
                    Err(e) => return Err(e),
                };
                current[0] = DIRECTORY_TRACK;
                current[1] = new_sector;
                let _ = self.write_sector(end_track, end_sector, &current);
                let mut new_dir = [0u8; 256];
                new_dir[1] = 0xFF;
                assert(new_dir@ =~= fresh_directory_sector());
                let _ = self.write_sector(DIRECTORY_TRACK, new_sector, &new_dir);
                assert(current@ =~= sector_of(
                    spec_allocate_directory(old(self)@).0.data,
                    end_track as int,
                    end_sector as int,
                ).update(0, 18u8).update(1, new_sector));
                return Ok((DIRECTORY_TRACK, new_sector, 0));
            }
            if fuel <= 1 {
                return Err(chain_too_long());
            }
            dir_track = sector[0];
            dir_sector = sector[1];
            fuel -= 1;
        }
    }

    /// Create a new directory entry for a file.
    ///
    /// # Arguments
    /// * `filename` - File name (its first 16 characters are written, padded with shifted spaces)
    /// * `file_type` - File type (0x82 = PRG, 0x81 = SEQ, etc.)
    /// * `first_track` - Track of first data sector
    /// * `first_sector` - Sector of first data sector
    /// * `block_count` - Number of blocks used by the file
    ///
    /// # Returns
    /// The directory slot (track, sector, entry_offset) where the entry was written.
    pub fn create_directory_entry(
        &mut self,
        filename: &str,
        file_type: u8,
        first_track: u8,
        first_sector: u8,
        block_count: u16,
    ) -> (r: Result<(u8, u8, usize), D64Error>)
        requires
            old(self).wf(),
        ensures
            final(self).wf(),
            (final(self)@, res_view(r)) == spec_create_entry(
                old(self)@,
                name_field_bytes(filename@),
                file_type,
                first_track,
                first_sector,
                block_count,
            ),
    {
        let name = chars_of(filename);
        let field = name_field_of(&name);
        self.write_directory_entry(&field, file_type, first_track, first_sector, block_count)
    }

    /// Write a directory entry with a ready name field.
    pub fn write_directory_entry(
        &mut self,
        field: &[u8; 16],
        file_type: u8,
        first_track: u8,
        first_sector: u8,
        block_count: u16,
    ) -> (r: Result<(u8, u8, usize), D64Error>)
        requires
            old(self).wf(),
        ensures
            final(self).wf(),
            (final(self)@, res_view(r)) == spec_create_entry(
                old(self)@,
                field@,
                file_type,
                first_track,
                first_sector,
                block_count,
            ),
    {
        let (dir_track, dir_sector, entry_offset) = match self.find_free_directory_slot() {
            Ok(slot) => slot,
            Err(e) => return Err(e),
        };
        let mut sector = match self.read_sector(dir_track, dir_sector) {
            Ok(b) => b,
            Err(e) => return Err(e),
        };
        let ghost sec0 = sector@;
        let ghost slot = dir_search(old(self)@.data, 18, 1, CHAIN_LIMIT as nat, free_slot_matcher());
        assert(entry_offset <= 224);
        sector[entry_offset + 2] = file_type | 0x80;
        sector[entry_offset + 3] = first_track;
        sector[entry_offset + 4] = first_sector;
        let mut k: usize = 0;
        while k < 16
            invariant
                k <= 16,
                entry_offset <= 224,
                sector@.len() == 256,
                forall|j: int|
                    0 <= j < 256 ==> #[trigger] sector@[j] == if entry_offset + 2 <= j
                        < entry_offset + 5 + k {
                        entry_byte(
                            sec0,
                            entry_offset as int,
                            field@,
                            file_type,
                            first_track,
                            first_sector,
                            block_count,
                            j - entry_offset,
                        )
                    } else {
                        sec0[j]
                    },
            decreases 16 - k,
        {
            sector[entry_offset + 5 + k] = field[k];
            k += 1;
        }
        let mut z: usize = 21;
        while z < 30
            invariant
                21 <= z <= 30,
                entry_offset <= 224,
                sector@.len() == 256,
                forall|j: int|
                    0 <= j < 256 ==> #[trigger] sector@[j] == if entry_offset + 2 <= j
                        < entry_offset + z {
                        entry_byte(
                            sec0,
                            entry_offset as int,
                            field@,
                            file_type,
                            first_track,
                            first_sector,
                            block_count,
                            j - entry_offset,
                        )
                    } else {
                        sec0[j]
                    },
            decreases 30 - z,
        {
            sector[entry_offset + z] = 0;
            z += 1;
        }
        sector[entry_offset + 30] = (block_count & 0xFF) as u8;
        sector[entry_offset + 31] = ((block_count >> 8) & 0xFF) as u8;
        assert(sector@ =~= with_entry(
            sec0,
            entry_offset as int,
            field@,
            file_type,
            first_track,
            first_sector,
            block_count,
        ));
        let _ = self.write_sector(dir_track, dir_sector, &sector);
        Ok((dir_track, dir_sector, entry_offset))
    }

    /// Delete a file from the disk.
    ///
    /// Frees all sectors in the file chain and then marks the directory
    /// entry as empty.
    pub fn delete_file(&mut self, filename: &str) -> (r: Result<(), D64Error>)
        requires
            old(self).wf(),
        ensures
            final(self).wf(),
            (final(self)@, res_view(r)) == spec_delete(old(self)@, filename@),
    {
        let (dir_track, dir_sector, entry_offset, first_track, first_sector) =
            match self.find_file_entry(filename) {
            Ok(found) => found,
            Err(e) => return Err(e),
        };
        match self.free_sector_chain(first_track, first_sector) {
            Ok(()) => {},
            Err(e) => return Err(e),
        }
        let mut sector = match self.read_sector(dir_track, dir_sector) {
            Ok(b) => b,
            Err(e) => return Err(e),
        };
        sector[entry_offset + 2] = 0;
        let _ = self.write_sector(dir_track, dir_sector, &sector);
        Ok(())
    }

    /// Find a file's directory entry. The name is compared in upper case,
    /// without regard to ASCII case.
    ///
    /// Returns (dir_track, dir_sector, entry_offset, first_track, first_sector).
    #[verifier::loop_isolation(false)]
    pub fn find_file_entry(&self, filename: &str) -> (r: Result<(u8, u8, usize, u8, u8), D64Error>)
        requires
            self.wf(),
        ensures
            res_view(r) == spec_find_entry(self@, filename@),
            r matches Ok(found) ==> found.2 <= 224 && valid_location(found.0 as int, found.1 as int),
    {
        let name = chars_of(filename);
        let search = to_uppercase(&name);
        let ghost m = name_matcher(unicode_uppercase(filename@));
        let ghost d = self@.data;
        let mut dir_track: u8 = DIRECTORY_TRACK;
        let mut dir_sector: u8 = 1;
        let mut fuel: usize = CHAIN_LIMIT;
        loop
            invariant
                self.wf(),
                d == self@.data,
                search@ == unicode_uppercase(filename@),
                m == name_matcher(unicode_uppercase(filename@)),
                1 <= fuel <= CHAIN_LIMIT,
                directory_search(d, m) == dir_search(d, dir_track, dir_sector, fuel as nat, m),
            decreases fuel,
        {
            let sector = match self.read_sector(dir_track, dir_sector) {
                Ok(b) => b,
                Err(e) => return Err(e),
            };
            assert(location_fault(dir_track, dir_sector) is None);
            assert(sector@ == sector_of(d, dir_track as int, dir_sector as int));
            let mut i: usize = 0;
            while i < 8
                invariant
                    i <= 8,
                    first_match(sector@, m, 0) == first_match(sector@, m, i as int),
                decreases 8 - i,
            {
                let offset = i * 32;
                let file_type = sector[offset + 2];
                let ghost matched = m(sector@, offset as int);
                assert(matched == (live_entry(sector@, offset as int) && ascii_ci_eq(
                    search@,
                    entry_name(sector@, offset as int),
                )));
                if file_type != 0 && file_type & 0x80 != 0 {
                    let entry = name_chars(&sector, offset + 5);
                    if eq_ignore_ascii_case(&search, &entry) {
                        return Ok((dir_track, dir_sector, offset, sector[offset + 3], sector[offset + 4]));
                    }
                }
                i += 1;
            }
            if sector[0] == 0 {
                return Err(D64Error::FileNotFound(String::from_str(filename)));
            }
            if fuel <= 1 {
                return Err(chain_too_long());
            }
            dir_track = sector[0];
            dir_sector = sector[1];
            fuel -= 1;
        }
    }

    /// Free all sectors in a file chain, following at most 768 links.
    fn free_sector_chain(&mut self, start_track: u8, start_sector: u8) -> (r: Result<(), D64Error>)
        requires
            old(self).wf(),
        ensures
            final(self).wf(),
            (final(self)@, res_view(r)) == spec_free_chain(
                old(self)@,
                start_track,
                start_sector,
                MAX_FILE_CHAIN as nat,
            ),
    {
        let mut track = start_track;
        let mut sector = start_sector;
        let mut count: usize = 0;
        while track != 0 && count < MAX_FILE_CHAIN
            invariant
                self.wf(),
                count <= MAX_FILE_CHAIN,
                spec_free_chain(old(self)@, start_track, start_sector, MAX_FILE_CHAIN as nat)
                    == spec_free_chain(self@, track, sector, (MAX_FILE_CHAIN - count) as nat),
            decreases MAX_FILE_CHAIN - count,
        {
            let sector_data = match self.read_sector(track, sector) {
                Ok(b) => b,
                Err(e) => return Err(e),
            };
            let next_track = sector_data[0];
            let next_sector = sector_data[1];
            match self.mark_sector_free(track, sector) {
                Ok(()) => {},
                Err(e) => return Err(e),
            }
            track = next_track;
            sector = next_sector;
            count += 1;
        }
        Ok(())
    }
}

/// The name field written for a name: its first 16 characters, each
/// taken as a byte and made upper-case PETSCII, padded with shifted spaces.
pub fn name_field_of(name: &Vec<char>) -> (field: [u8; 16])
    ensures
        field@ == name_field_bytes(name@),
{
    let mut field = [0xA0u8; 16];
    let mut k: usize = 0;
    while k < 16
        invariant
            k <= 16,
            field@.len() == 16,
            forall|j: int|
                0 <= j < 16 ==> #[trigger] field@[j] == if j < k {
                    name_field(name@, j)
                } else {
                    0xA0u8
                },
        decreases 16 - k,
    {
        if k < name.len() {
            field[k] = super::petscii::ascii_to_petscii_upper(name[k] as u8);
        }
        k += 1;
    }
    assert(field@ =~= name_field_bytes(name@));
    field
}

} // verus!
