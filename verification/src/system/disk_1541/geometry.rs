//! Track and sector layout of a D64 image, and where the block
//! availability map keeps its entries.

use vstd::prelude::*;

verus! {

/// Size of a standard D64 image: 683 sectors of 256 bytes.
pub const D64_SIZE: usize = 174_848;

/// Size of a D64 image followed by one error byte per sector.
pub const D64_SIZE_WITH_ERRORS: usize = 175_531;

/// The directory track.
pub const DIRECTORY_TRACK: u8 = 18;

/// The first directory sector on the directory track.
pub const DIRECTORY_FIRST_SECTOR: u8 = 1;

/// The sector of the block availability map on the directory track.
pub const BAM_SECTOR: u8 = 0;

/// Number of sectors on a disk.
pub const SECTOR_COUNT: usize = 683;

/// Most blocks a walk along a chain of linked blocks visits: one more than
/// the blocks of a disk, so a chain that does not loop back on itself ends
/// (or reaches a bad link) within it.
pub const CHAIN_LIMIT: usize = 684;

/// Byte offset of the block availability map (track 18, sector 0).
pub const BAM_OFFSET: usize = 91_392;

/// Byte offset of the first directory sector (track 18, sector 1).
pub const FIRST_DIRECTORY_OFFSET: usize = 91_648;

/// Whether an image of this many bytes is a D64 image.
pub open spec fn image_size_ok(len: int) -> bool {
    len == D64_SIZE || len == D64_SIZE_WITH_ERRORS
}

pub open spec fn valid_track(track: int) -> bool {
    1 <= track <= 35
}

/// Sectors on a track (tracks numbered from 1).
pub open spec fn track_sectors(track: int) -> int {
    if track <= 17 {
        21
    } else if track <= 24 {
        19
    } else if track <= 30 {
        18
    } else {
        17
    }
}

/// Index, counted over the whole disk, of the first sector of a track.
pub open spec fn track_first_sector(track: int) -> int {
    if track <= 17 {
        21 * (track - 1)
    } else if track <= 24 {
        357 + 19 * (track - 18)
    } else if track <= 30 {
        490 + 18 * (track - 25)
    } else {
        598 + 17 * (track - 31)
    }
}

pub open spec fn valid_location(track: int, sector: int) -> bool {
    valid_track(track) && 0 <= sector < track_sectors(track)
}

/// Byte offset of a sector in the image.
pub open spec fn location_offset(track: int, sector: int) -> int {
    (track_first_sector(track) + sector) * 256
}

/// Byte offset of the map entry of a track: a free count, then three
/// bitmap bytes with one bit per sector (set when the sector is free).
pub open spec fn bam_entry(track: int) -> int {
    BAM_OFFSET + 4 + 4 * (track - 1)
}

pub proof fn lemma_location_in_image(track: int, sector: int)
    requires
        valid_location(track, sector),
    ensures
        0 <= location_offset(track, sector),
        location_offset(track, sector) + 256 <= D64_SIZE,
        location_offset(track, sector) % 256 == 0,
        track == 18 ==> location_offset(track, sector) == BAM_OFFSET + 256 * sector,
{
}

/// Distinct locations occupy disjoint byte ranges.
pub proof fn lemma_locations_disjoint(t1: int, s1: int, t2: int, s2: int)
    requires
        valid_location(t1, s1),
        valid_location(t2, s2),
        t1 != t2 || s1 != s2,
    ensures
        location_offset(t1, s1) + 256 <= location_offset(t2, s2) || location_offset(t2, s2)
            + 256 <= location_offset(t1, s1),
{
}

/// Sectors on a track.
pub fn sectors_of_track(track: u8) -> (n: u8)
    requires
        valid_track(track as int),
    ensures
        n == track_sectors(track as int),
{
    if track <= 17 {
        21
    } else if track <= 24 {
        19
    } else if track <= 30 {
        18
    } else {
        17
    }
}

/// Index of the first sector of a track, counted over the whole disk.
pub fn first_sector_of_track(track: u8) -> (n: usize)
    requires
        valid_track(track as int),
    ensures
        n == track_first_sector(track as int),
{
    let t = track as usize;
    if t <= 17 {
        21 * (t - 1)
    } else if t <= 24 {
        357 + 19 * (t - 18)
    } else if t <= 30 {
        490 + 18 * (t - 25)
    } else {
        598 + 17 * (t - 31)
    }
}

} // verus!
