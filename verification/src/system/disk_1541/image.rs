//! The D64 disk image: raw sectors and the block availability map.

use vstd::prelude::*;
use crate::text::{chars_of, string_of};
use super::error::{D64Error, DiskFault, res_view};
use super::geometry::{
    bam_entry, first_sector_of_track, image_size_ok, lemma_location_in_image, location_offset,
    sectors_of_track, track_sectors, valid_track, BAM_OFFSET, D64_SIZE, D64_SIZE_WITH_ERRORS,
    DIRECTORY_FIRST_SECTOR, DIRECTORY_TRACK, BAM_SECTOR, FIRST_DIRECTORY_OFFSET,
};
use super::petscii::{ascii_to_petscii_upper, petscii_char, petscii_to_ascii, petscii_upper};

verus! {

/// The contents of a disk image.
pub struct D64View {
    /// The raw bytes.
    pub data: Seq<u8>,
    /// Whether the image was changed since it was loaded or saved.
    pub modified: bool,
}

/// D64 disk image representation.
///
/// Stores the raw sector data and tracks whether the image has been modified.
#[derive(Clone)]
pub struct D64Image {
    data: Vec<u8>,
    modified: bool,
}

impl View for D64Image {
    type V = D64View;

    closed spec fn view(&self) -> D64View {
        D64View { data: self.data@, modified: self.modified }
    }
}

/// The error for a track and sector that are not on the disk, if they
/// are not.
pub open spec fn location_fault(track: u8, sector: u8) -> Option<DiskFault> {
    if !valid_track(track as int) {
        Some(DiskFault::InvalidTrack(track))
    } else if sector as int >= track_sectors(track as int) {
        Some(DiskFault::InvalidSector { track, sector })
    } else {
        None
    }
}

/// The 256 bytes of a sector.
pub open spec fn sector_of(data: Seq<u8>, track: int, sector: int) -> Seq<u8> {
    data.subrange(location_offset(track, sector), location_offset(track, sector) + 256)
}

/// The bytes with one sector replaced.
pub open spec fn with_sector(data: Seq<u8>, track: int, sector: int, buf: Seq<u8>) -> Seq<u8> {
    let off = location_offset(track, sector);
    Seq::new(data.len(), |i: int| if off <= i < off + 256 { buf[i - off] } else { data[i] })
}

pub open spec fn spec_read_sector(v: D64View, track: u8, sector: u8) -> Result<Seq<u8>, DiskFault> {
    match location_fault(track, sector) {
        Some(f) => Err(f),
        None => Ok(sector_of(v.data, track as int, sector as int)),
    }
}

pub open spec fn spec_write_sector(v: D64View, track: u8, sector: u8, buf: Seq<u8>) -> (D64View, Result<(), DiskFault>) {
    match location_fault(track, sector) {
        Some(f) => (v, Err(f)),
        None => (
            D64View { data: with_sector(v.data, track as int, sector as int, buf), modified: true },
            Ok(()),
        ),
    }
}

/// A read sector, with its error taken by view.
pub open spec fn sector_res(r: Result<[u8; 256], D64Error>) -> Result<Seq<u8>, DiskFault> {
    match r {
        Ok(b) => Ok(b@),
        Err(e) => Err(e@),
    }
}

/// The bit of a sector within its bitmap byte.
pub open spec fn sector_bit(sector: int) -> u8 {
    1u8 << ((sector % 8) as u8)
}

/// Index of the bitmap byte that holds a sector's bit.
pub open spec fn bitmap_byte(track: int, sector: int) -> int {
    bam_entry(track) + 1 + sector / 8
}

/// Whether the map marks a sector free.
pub open spec fn sector_free_in(data: Seq<u8>, track: int, sector: int) -> bool {
    data[bitmap_byte(track, sector)] & sector_bit(sector) != 0
}

pub open spec fn spec_mark_used(v: D64View, track: u8, sector: u8) -> (D64View, Result<(), DiskFault>) {
    match location_fault(track, sector) {
        Some(f) => (v, Err(f)),
        None => {
            let e = bam_entry(track as int);
            let b = bitmap_byte(track as int, sector as int);
            let c = v.data[e];
            let d1 = v.data.update(e, if c > 0 { (c - 1) as u8 } else { c });
            let d2 = d1.update(b, d1[b] & !sector_bit(sector as int));
            (D64View { data: d2, modified: true }, Ok(()))
        },
    }
}

pub open spec fn spec_mark_free(v: D64View, track: u8, sector: u8) -> (D64View, Result<(), DiskFault>) {
    match location_fault(track, sector) {
        Some(f) => (v, Err(f)),
        None => {
            let e = bam_entry(track as int);
            let b = bitmap_byte(track as int, sector as int);
            let c = v.data[e];
            let d1 = v.data.update(
                e,
                if (c as int) < track_sectors(track as int) { (c + 1) as u8 } else { c },
            );
            let d2 = d1.update(b, d1[b] | sector_bit(sector as int));
            (D64View { data: d2, modified: true }, Ok(()))
        },
    }
}

pub open spec fn spec_is_free(v: D64View, track: u8, sector: u8) -> Result<bool, DiskFault> {
    match location_fault(track, sector) {
        Some(f) => Err(f),
        None => Ok(sector_free_in(v.data, track as int, sector as int)),
    }
}

/// The first sector of a track, from `from` on, that the map marks free.
pub open spec fn first_free_sector(data: Seq<u8>, track: int, from: int) -> Option<int>
    decreases track_sectors(track) - from,
{
    if from < 0 || from >= track_sectors(track) {
        None
    } else if sector_free_in(data, track, from) {
        Some(from)
    } else {
        first_free_sector(data, track, from + 1)
    }
}

/// The order in which tracks are searched for a free block: outward from
/// the directory track, alternately below and above it (17, 19, 16, 20,
/// ..., 1, 35). The directory track itself is never taken.
pub open spec fn allocation_track(i: int) -> int {
    if i % 2 == 0 {
        17 - i / 2
    } else {
        19 + i / 2
    }
}

/// The first block found by the search order from position `i` on: in a
/// track whose free count is not zero, its first free sector.
pub open spec fn alloc_search(data: Seq<u8>, i: int) -> Option<(u8, u8)>
    decreases 34 - i,
{
    if i < 0 || i >= 34 {
        None
    } else {
        let t = allocation_track(i);
        if data[bam_entry(t)] != 0 && first_free_sector(data, t, 0) is Some {
            Some((t as u8, first_free_sector(data, t, 0)->0 as u8))
        } else {
            alloc_search(data, i + 1)
        }
    }
}

pub open spec fn spec_allocate(v: D64View) -> (D64View, Result<(u8, u8), DiskFault>) {
    match alloc_search(v.data, 0) {
        None => (v, Err(DiskFault::DiskFull)),
        Some((t, s)) => (spec_mark_used(v, t, s).0, Ok((t, s))),
    }
}

pub open spec fn spec_allocate_directory(v: D64View) -> (D64View, Result<u8, DiskFault>) {
    if v.data[bam_entry(18)] == 0 {
        (v, Err(DiskFault::DirectoryFull))
    } else {
        match first_free_sector(v.data, 18, 1) {
            None => (v, Err(DiskFault::DirectoryFull)),
            Some(s) => (spec_mark_used(v, 18, s as u8).0, Ok(s as u8)),
        }
    }
}

/// Free counts of the map summed over tracks 1 to `n`, leaving out the
/// directory track.
pub open spec fn free_count_upto(data: Seq<u8>, n: int) -> int
    decreases n,
{
    if n <= 0 {
        0
    } else {
        free_count_upto(data, n - 1) + if n == 18 {
            0
        } else {
            data[bam_entry(n)] as int
        }
    }
}

/// The text of a PETSCII name field: the bytes up to the first shifted
/// space (`0xA0`) or zero, each shown as ASCII.
pub open spec fn name_text(bytes: Seq<u8>) -> Seq<char>
    decreases bytes.len(),
{
    if bytes.len() == 0 || bytes[0] == 0xA0 || bytes[0] == 0 {
        Seq::empty()
    } else {
        seq![petscii_char(bytes[0])] + name_text(bytes.drop_first())
    }
}

/// Byte `k` of a 16-byte name field written for a name: its first 16
/// characters as upper-case PETSCII, padded with shifted spaces.
pub open spec fn name_field(name: Seq<char>, k: int) -> u8 {
    if k < name.len() {
        petscii_upper(name[k] as u8)
    } else {
        0xA0
    }
}

/// Byte `j` (0 to 2) of the bitmap of a freshly formatted track: the bits
/// of all its sectors set, but for the map and first directory sector on
/// the directory track.
pub open spec fn blank_bitmap_byte(track: int, j: int) -> u8 {
    let all = ((1u32 << (track_sectors(track) as u32)) - 1) as u32;
    let mask = if track == 18 {
        !0x03u32 & all
    } else {
        all
    };
    if j == 0 {
        (mask & 0xFF) as u8
    } else if j == 1 {
        ((mask >> 8u32) & 0xFF) as u8
    } else {
        ((mask >> 16u32) & 0xFF) as u8
    }
}

/// Byte `k` of the map sector of a freshly formatted disk.
pub open spec fn blank_bam_byte(name: Seq<char>, id: Seq<u8>, k: int) -> u8 {
    if k == 0 {
        DIRECTORY_TRACK
    } else if k == 1 {
        DIRECTORY_FIRST_SECTOR
    } else if k == 2 {
        0x41
    } else if k == 3 {
        0
    } else if k < 0x90 {
        let t = (k - 4) / 4 + 1;
        let f = (k - 4) % 4;
        if f == 0 {
            if t == 18 {
                (track_sectors(t) - 2) as u8
            } else {
                track_sectors(t) as u8
            }
        } else {
            blank_bitmap_byte(t, f - 1)
        }
    } else if k < 0xA0 {
        name_field(name, k - 0x90)
    } else if k == 0xA2 {
        id[0]
    } else if k == 0xA3 {
        id[1]
    } else if k == 0xA5 {
        0x32
    } else if k == 0xA6 {
        0x41
    } else if k <= 0xAA {
        0xA0
    } else {
        0
    }
}

/// A freshly formatted disk: zeros, but for the map sector and the first
/// directory sector, which is empty and ends the directory chain.
pub open spec fn blank_image(name: Seq<char>, id: Seq<u8>) -> Seq<u8> {
    Seq::new(
        D64_SIZE as nat,
        |i: int|
            if BAM_OFFSET <= i < BAM_OFFSET + 256 {
                blank_bam_byte(name, id, i - BAM_OFFSET)
            } else if i == FIRST_DIRECTORY_OFFSET + 1 {
                0xFFu8
            } else {
                0u8
            },
    )
}

impl D64Image {
    /// The image has one of the two D64 sizes.
    pub open spec fn wf(&self) -> bool {
        image_size_ok(self@.data.len() as int)
    }

    /// Create a new D64 image from raw data.
    ///
    /// # Errors
    /// Returns an error if the data size is invalid.
    pub fn new(data: Vec<u8>) -> (r: Result<Self, D64Error>)
        ensures
            match r {
                Ok(img) => image_size_ok(data.len() as int) && img.wf() && img@ == D64View {
                    data: data@,
                    modified: false,
                },
                Err(e) => !image_size_ok(data.len() as int) && e@ == DiskFault::InvalidSize {
                    expected: D64_SIZE,
                    got: data.len(),
                },
            },
    {
        if data.len() != D64_SIZE && data.len() != D64_SIZE_WITH_ERRORS {
            return Err(D64Error::InvalidSize { expected: D64_SIZE, got: data.len() });
        }
        Ok(D64Image { data, modified: false })
    }

    /// Create a blank, formatted D64 disk image.
    ///
    /// Creates a new disk with empty BAM, directory, and given disk name/ID.
    pub fn create_blank(name: &str, id: &[u8; 2]) -> (r: Self)
        ensures
            r.wf(),
            r@ == (D64View { data: blank_image(name@, id@), modified: true }),
    {
        let bam = Self::blank_bam(name, id);
        let mut data: Vec<u8> = Vec::with_capacity(D64_SIZE);
        let mut i: usize = 0;
        while i < D64_SIZE
            invariant
                i <= D64_SIZE,
                bam@ == Seq::new(256, |k: int| blank_bam_byte(name@, id@, k)),
                data@ == blank_image(name@, id@).take(i as int),
            decreases D64_SIZE - i,
        {
            let b: u8 = if BAM_OFFSET <= i && i < BAM_OFFSET + 256 {
                bam[i - BAM_OFFSET]
            } else if i == FIRST_DIRECTORY_OFFSET + 1 {
                0xFF
            } else {
                0
            };
            data.push(b);
            i += 1;
            assert(data@ =~= blank_image(name@, id@).take(i as int));
        }
        assert(data@ =~= blank_image(name@, id@));
        D64Image { data, modified: true }
    }

    /// The map sector of a freshly formatted disk.
    fn blank_bam(name: &str, id: &[u8; 2]) -> (bam: [u8; 256])
        ensures
            bam@ == Seq::new(256, |k: int| blank_bam_byte(name@, id@, k)),
    {
        let mut bam = [0u8; 256];
        bam[0] = DIRECTORY_TRACK;
        bam[1] = DIRECTORY_FIRST_SECTOR;
        bam[2] = 0x41;
        bam[3] = 0x00;
        let mut t: usize = 0;
        while t < 35
            invariant
                t <= 35,
                bam@.len() == 256,
                forall|k: int|
                    0 <= k < 256 ==> #[trigger] bam@[k] == if k < 4 + 4 * t {
                        blank_bam_byte(name@, id@, k)
                    } else {
                        0
                    },
            decreases 35 - t,
        {
            let track = (t + 1) as u8;
            let sectors = sectors_of_track(track);
            let e = 4 + t * 4;
            assert(1u32 << sectors >= 1u32) by (bit_vector)
                requires
                    sectors <= 21u8,
            ;
            let all: u32 = (1u32 << sectors) - 1;
            let mask: u32 = if track == DIRECTORY_TRACK {
                !0x03u32 & all
            } else {
                all
            };
            bam[e] = if track == DIRECTORY_TRACK {
                sectors - 2
            } else {
                sectors
            };
            bam[e + 1] = (mask & 0xFF) as u8;
            bam[e + 2] = ((mask >> 8) & 0xFF) as u8;
            bam[e + 3] = ((mask >> 16) & 0xFF) as u8;
            assert forall|k: int| 0 <= k < 256 implies #[trigger] bam@[k] == if k < 4 + 4 * (t
                + 1) {
                blank_bam_byte(name@, id@, k)
            } else {
                0
            } by {
                if 4 + 4 * t <= k < 4 + 4 * (t + 1) {
                    assert((k - 4) / 4 == t);
                    assert((k - 4) % 4 == k - e);
                }
            }
            t += 1;
        }
        let chars = chars_of(name);
        let mut k: usize = 0;
        while k < 16
            invariant
                k <= 16,
                chars@ == name@,
                bam@.len() == 256,
                forall|j: int|
                    0 <= j < 256 ==> #[trigger] bam@[j] == if j < 0x90 + k {
                        blank_bam_byte(name@, id@, j)
                    } else {
                        0
                    },
            decreases 16 - k,
        {
            bam[0x90 + k] = if k < chars.len() {
                ascii_to_petscii_upper(chars[k] as u8)
            } else {
                0xA0
            };
            k += 1;
        }
        bam[0xA0] = 0xA0;
        bam[0xA1] = 0xA0;
        bam[0xA2] = id[0];
        bam[0xA3] = id[1];
        bam[0xA4] = 0xA0;
        bam[0xA5] = 0x32;
        bam[0xA6] = 0x41;
        bam[0xA7] = 0xA0;
        bam[0xA8] = 0xA0;
        bam[0xA9] = 0xA0;
        bam[0xAA] = 0xA0;
        assert(bam@ =~= Seq::new(256, |k: int| blank_bam_byte(name@, id@, k)));
        bam
    }

    /// Clear the modified flag (useful after saving).
    pub fn clear_modified(&mut self)
        ensures
            final(self)@ == (D64View { modified: false, ..old(self)@ }),
    {
        self.modified = false;
    }

    /// Check if the image has been modified.
    pub fn is_modified(&self) -> (r: bool)
        ensures
            r == self@.modified,
    {
        self.modified
    }

    /// Get the raw data for saving.
    pub fn data(&self) -> (r: &[u8])
        ensures
            r@ == self@.data,
    {
        self.data.as_slice()
    }

    /// Calculate the byte offset for a given track and sector.
    ///
    /// Tracks are 1-indexed (1-35), sectors are 0-indexed.
    fn sector_offset(&self, track: u8, sector: u8) -> (r: Result<usize, D64Error>)
        ensures
            match location_fault(track, sector) {
                Some(f) => r matches Err(e) && e@ == f,
                None => r matches Ok(o) && o == location_offset(track as int, sector as int),
            },
    {
        if track < 1 || track > 35 {
            return Err(D64Error::InvalidTrack(track));
        }
        let max_sector = sectors_of_track(track);
        if sector >= max_sector {
            return Err(D64Error::InvalidSector { track, sector });
        }
        proof {
            lemma_location_in_image(track as int, sector as int);
        }
        Ok((first_sector_of_track(track) + sector as usize) * 256)
    }

    /// Read a sector from the disk image.
    ///
    /// Returns a 256-byte sector buffer.
    pub fn read_sector(&self, track: u8, sector: u8) -> (r: Result<[u8; 256], D64Error>)
        requires
            self.wf(),
        ensures
            sector_res(r) == spec_read_sector(self@, track, sector),
    {
        let offset = match self.sector_offset(track, sector) {
            Ok(o) => o,
            Err(e) => return Err(e),
        };
        proof {
            lemma_location_in_image(track as int, sector as int);
        }
        let mut buffer = [0u8; 256];
        let mut i: usize = 0;
        while i < 256
            invariant
                i <= 256,
                offset + 256 <= self.data.len(),
                buffer@.len() == 256,
                forall|j: int| 0 <= j < i ==> #[trigger] buffer@[j] == self.data@[offset + j],
            decreases 256 - i,
        {
            buffer[i] = self.data[offset + i];
            i += 1;
        }
        assert(buffer@ =~= sector_of(self@.data, track as int, sector as int));
        Ok(buffer)
    }

    /// Write a sector to the disk image.
    ///
    /// Marks the image as modified.
    pub fn write_sector(&mut self, track: u8, sector: u8, data: &[u8; 256]) -> (r: Result<(), D64Error>)
        requires
            old(self).wf(),
        ensures
            final(self).wf(),
            (final(self)@, res_view(r)) == spec_write_sector(old(self)@, track, sector, data@),
    {
        let offset = match self.sector_offset(track, sector) {
            Ok(o) => o,
            Err(e) => return Err(e),
        };
        proof {
            lemma_location_in_image(track as int, sector as int);
        }
        let ghost d0 = self.data@;
        let mut i: usize = 0;
        while i < 256
            invariant
                i <= 256,
                offset + 256 <= d0.len(),
                offset == location_offset(track as int, sector as int),
                self.data@.len() == d0.len(),
                forall|j: int|
                    0 <= j < d0.len() ==> #[trigger] self.data@[j] == if offset <= j < offset + i {
                        data@[j - offset]
                    } else {
                        d0[j]
                    },
            decreases 256 - i,
        {
            self.data.set(offset + i, data[i]);
            i += 1;
        }
        self.modified = true;
        assert(self.data@ =~= with_sector(d0, track as int, sector as int, data@));
        Ok(())
    }

    /// Get number of sectors for a track.
    pub fn sectors_in_track(track: u8) -> (r: Result<u8, D64Error>)
        ensures
            match r {
                Ok(n) => valid_track(track as int) && n == track_sectors(track as int),
                Err(e) => !valid_track(track as int) && e@ == DiskFault::InvalidTrack(track),
            },
    {
        if track < 1 || track > 35 {
            return Err(D64Error::InvalidTrack(track));
        }
        Ok(sectors_of_track(track))
    }

    /// Read the BAM (Block Availability Map) from track 18, sector 0.
    pub fn read_bam(&self) -> (r: Result<[u8; 256], D64Error>)
        requires
            self.wf(),
        ensures
            r matches Ok(b) && b@ == sector_of(self@.data, 18, 0),
    {
        self.read_sector(DIRECTORY_TRACK, BAM_SECTOR)
    }

    /// Get the disk name from the BAM.
    pub fn disk_name(&self) -> (r: Result<String, D64Error>)
        requires
            self.wf(),
        ensures
            r matches Ok(s) && s@ == name_text(sector_of(self@.data, 18, 0).subrange(0x90, 0xA0)),
    {
        let bam = match self.read_bam() {
            Ok(b) => b,
            Err(e) => return Err(e),
        };
        let name = name_chars(&bam, 0x90);
        Ok(string_of(&name))
    }

    /// Get the disk ID from the BAM.
    pub fn disk_id(&self) -> (r: Result<[u8; 2], D64Error>)
        requires
            self.wf(),
        ensures
            r matches Ok(id) && id@ == sector_of(self@.data, 18, 0).subrange(0xA2, 0xA4),
    {
        let bam = match self.read_bam() {
            Ok(b) => b,
            Err(e) => return Err(e),
        };
        let id = [bam[0xA2], bam[0xA3]];
        assert(id@ =~= bam@.subrange(0xA2, 0xA4));
        Ok(id)
    }

    /// Allocate a free sector from the disk.
    ///
    /// Tracks are searched outward from the directory track, alternately
    /// below and above it; within a track whose free count is not zero, the
    /// first sector marked free is taken and marked used.
    ///
    /// Returns the (track, sector) of the allocated block, or an error if disk is full.
    pub fn allocate_sector(&mut self) -> (r: Result<(u8, u8), D64Error>)
        requires
            old(self).wf(),
        ensures
            final(self).wf(),
            (final(self)@, res_view(r)) == spec_allocate(old(self)@),
    {
        let ghost d = self.data@;
        let mut i: usize = 0;
        while i < 34
            invariant
                i <= 34,
                self.data@ == d,
                self@ == old(self)@,
                self.wf(),
                alloc_search(d, 0) == alloc_search(d, i as int),
            decreases 34 - i,
        {
            let track: u8 = if i % 2 == 0 {
                17 - (i / 2) as u8
            } else {
                19 + (i / 2) as u8
            };
            assert(track == allocation_track(i as int));
            if track != DIRECTORY_TRACK {
                let e = BAM_OFFSET + 4 + (track as usize - 1) * 4;
                if self.data[e] != 0 {
                    let max_sector = sectors_of_track(track);
                    let mut s: u8 = 0;
                    while s < max_sector
                        invariant
                            s <= max_sector,
                            max_sector == track_sectors(track as int),
                            e == bam_entry(track as int),
                            valid_track(track as int),
                            self.data@ == d,
                            self@ == old(self)@,
                            self.wf(),
                            d[e as int] != 0,
                            track == allocation_track(i as int),
                            i < 34,
                            alloc_search(d, 0) == alloc_search(d, i as int),
                            first_free_sector(d, track as int, 0) == first_free_sector(
                                d,
                                track as int,
                                s as int,
                            ),
                        decreases max_sector - s,
                    {
                        if self.data[e + 1 + (s / 8) as usize] & (1u8 << (s % 8)) != 0 {
                            proof {
                                assert((1u8 << (s % 8)) == sector_bit(s as int));
                                assert(sector_free_in(d, track as int, s as int));
                                assert(first_free_sector(d, track as int, s as int) == Some(
                                    s as int,
                                ));
                                assert(alloc_search(d, i as int) == Some((track, s)));
                            }
                            let _ = self.mark_sector_used(track, s);
                            return Ok((track, s));
                        }
                        proof {
                            assert((1u8 << (s % 8)) == sector_bit(s as int));
                        }
                        s += 1;
                    }
                }
            }
            i += 1;
        }
        assert(alloc_search(d, 34) is None);
        Err(D64Error::DiskFull)
    }

    /// Allocate a free sector on the directory track, past the map sector.
    ///
    /// Used for extending the directory chain. Returns an error if the directory
    /// track has no free sector.
    pub fn allocate_directory_sector(&mut self) -> (r: Result<u8, D64Error>)
        requires
            old(self).wf(),
        ensures
            final(self).wf(),
            (final(self)@, res_view(r)) == spec_allocate_directory(old(self)@),
    {
        let e = BAM_OFFSET + 4 + 17 * 4;
        if self.data[e] == 0 {
            return Err(D64Error::DirectoryFull);
        }
        let ghost d = self.data@;
        let max_sector = sectors_of_track(DIRECTORY_TRACK);
        let mut s: u8 = 1;
        while s < max_sector
            invariant
                1 <= s <= max_sector,
                max_sector == 19,
                e == bam_entry(18),
                self.data@ == d,
                self@ == old(self)@,
                self.wf(),
                d[e as int] != 0,
                first_free_sector(d, 18, 1) == first_free_sector(d, 18, s as int),
            decreases max_sector - s,
        {
            assert((1u8 << (s % 8)) == sector_bit(s as int));
            if self.data[e + 1 + (s / 8) as usize] & (1u8 << (s % 8)) != 0 {
                assert(first_free_sector(d, 18, s as int) == Some(s as int));
                let _ = self.mark_sector_used(DIRECTORY_TRACK, s);
                return Ok(s);
            }
            s += 1;
        }
        Err(D64Error::DirectoryFull)
    }

    /// Mark a sector as used in the BAM.
    fn mark_sector_used(&mut self, track: u8, sector: u8) -> (r: Result<(), D64Error>)
        requires
            old(self).wf(),
        ensures
            final(self).wf(),
            (final(self)@, res_view(r)) == spec_mark_used(old(self)@, track, sector),
    {
        if track < 1 || track > 35 {
            return Err(D64Error::InvalidTrack(track));
        }
        let max_sector = sectors_of_track(track);
        if sector >= max_sector {
            return Err(D64Error::InvalidSector { track, sector });
        }
        let e = BAM_OFFSET + 4 + (track as usize - 1) * 4;
        let ghost d0 = self.data@;
        let c = self.data[e];
        if c > 0 {
            self.data.set(e, c - 1);
        }
        let ghost d1 = d0.update(e as int, if c > 0 { (c - 1) as u8 } else { c });
        assert(self.data@ =~= d1);
        let b = e + 1 + (sector / 8) as usize;
        assert(b == bitmap_byte(track as int, sector as int));
        assert((1u8 << (sector % 8)) == sector_bit(sector as int));
        let v = self.data[b] & !(1u8 << (sector % 8));
        self.data.set(b, v);
        self.modified = true;
        assert(self.data@ =~= spec_mark_used(old(self)@, track, sector).0.data);
        Ok(())
    }

    /// Mark a sector as free in the BAM.
    pub fn mark_sector_free(&mut self, track: u8, sector: u8) -> (r: Result<(), D64Error>)
        requires
            old(self).wf(),
        ensures
            final(self).wf(),
            (final(self)@, res_view(r)) == spec_mark_free(old(self)@, track, sector),
    {
        if track < 1 || track > 35 {
            return Err(D64Error::InvalidTrack(track));
        }
        let max_sector = sectors_of_track(track);
        if sector >= max_sector {
            return Err(D64Error::InvalidSector { track, sector });
        }
        let e = BAM_OFFSET + 4 + (track as usize - 1) * 4;
        let ghost d0 = self.data@;
        let c = self.data[e];
        if c < max_sector {
            self.data.set(e, c + 1);
        }
        let ghost d1 = d0.update(
            e as int,
            if (c as int) < track_sectors(track as int) { (c + 1) as u8 } else { c },
        );
        assert(self.data@ =~= d1);
        let b = e + 1 + (sector / 8) as usize;
        assert(b == bitmap_byte(track as int, sector as int));
        assert((1u8 << (sector % 8)) == sector_bit(sector as int));
        let v = self.data[b] | (1u8 << (sector % 8));
        self.data.set(b, v);
        self.modified = true;
        assert(self.data@ =~= spec_mark_free(old(self)@, track, sector).0.data);
        Ok(())
    }

    /// Check if a sector is free in the BAM.
    pub fn is_sector_free(&self, track: u8, sector: u8) -> (r: Result<bool, D64Error>)
        requires
            self.wf(),
        ensures
            res_view(r) == spec_is_free(self@, track, sector),
    {
        if track < 1 || track > 35 {
            return Err(D64Error::InvalidTrack(track));
        }
        let max_sector = sectors_of_track(track);
        if sector >= max_sector {
            return Err(D64Error::InvalidSector { track, sector });
        }
        let e = BAM_OFFSET + 4 + (track as usize - 1) * 4;
        Ok(self.data[e + 1 + (sector / 8) as usize] & (1u8 << (sector % 8)) != 0)
    }

    /// Get the number of free blocks on the disk: the free counts of the
    /// map, summed over all tracks but the directory track.
    pub fn free_blocks(&self) -> (r: u16)
        requires
            self.wf(),
        ensures
            r == free_count_upto(self@.data, 35),
    {
        let mut free: u16 = 0;
        let mut t: usize = 1;
        while t <= 35
            invariant
                1 <= t <= 36,
                self.wf(),
                free == free_count_upto(self@.data, t - 1),
                free <= 255 * (t - 1),
            decreases 36 - t,
        {
            if t != 18 {
                free = free + self.data[BAM_OFFSET + 4 + (t - 1) * 4] as u16;
            }
            t += 1;
        }
        free
    }
}

/// The text of the 16-byte PETSCII name field that starts at `start`.
pub fn name_chars(sector: &[u8; 256], start: usize) -> (r: Vec<char>)
    requires
        start + 16 <= 256,
    ensures
        r@ == name_text(sector@.subrange(start as int, start + 16)),
{
    let ghost field = sector@.subrange(start as int, start + 16);
    let mut out: Vec<char> = Vec::new();
    assert(field.subrange(0, 16) =~= field);
    assert(out@ + name_text(field) =~= name_text(field));
    let mut i: usize = 0;
    while i < 16
        invariant
            i <= 16,
            start + 16 <= 256,
            field == sector@.subrange(start as int, start + 16),
            name_text(field) == out@ + name_text(field.subrange(i as int, 16)),
        decreases 16 - i,
    {
        let b = sector[start + i];
        assert(field.subrange(i as int, 16)[0] == b);
        if b == 0xA0 || b == 0 {
            assert(out@ + Seq::empty() =~= out@);
            return out;
        }
        assert(field.subrange(i as int, 16).drop_first() =~= field.subrange(i + 1, 16));
        out.push(petscii_to_ascii(b));
        assert(out@ + name_text(field.subrange(i + 1, 16)) =~= out@.drop_last() + (seq![
            petscii_char(b),
        ] + name_text(field.subrange(i + 1, 16))));
        i += 1;
    }
    assert(field.subrange(16, 16).len() == 0);
    assert(out@ + Seq::empty() =~= out@);
    out
}

} // verus!
