//! Structural check of a D64 image: the map's directory pointer and the
//! directory chain.

use vstd::prelude::*;
use crate::text::{decimal, push_decimal};
use super::directory::chain_too_long_text;
use super::error::{D64Error, DiskFault, res_view};
use super::geometry::{sectors_of_track, track_sectors, valid_track, DIRECTORY_TRACK};
use super::image::{sector_of, D64Image};

verus! {

/// Longest directory chain a valid image has: 144 entries at 8 per sector
/// would fill the whole directory track.
pub const MAX_DIRECTORY_CHAIN: usize = 144;

pub open spec fn msg_no_directory_pointer() -> Seq<char> {
    "BAM has no directory pointer (track=0)"@
}

pub open spec fn msg_bad_directory_track(track: u8) -> Seq<char> {
    "Invalid directory track pointer in BAM: track "@ + decimal(track as nat) + " is out of range"@
}

pub open spec fn msg_bad_directory_sector(sector: u8, track: u8, max: nat) -> Seq<char> {
    "Invalid directory sector pointer in BAM: sector "@ + decimal(sector as nat) + " exceeds track "@
        + decimal(track as nat) + " maximum ("@ + decimal(max) + ")"@
}

pub open spec fn msg_circular(track: u8, sector: u8) -> Seq<char> {
    "Directory chain has circular reference at track "@ + decimal(track as nat) + ", sector "@
        + decimal(sector as nat)
}

pub open spec fn msg_chain_bad_track(track: u8, entry: nat) -> Seq<char> {
    "Directory chain has invalid track "@ + decimal(track as nat) + " at entry "@ + decimal(entry)
}

pub open spec fn msg_chain_bad_sector(sector: u8, track: u8, max: nat) -> Seq<char> {
    "Directory chain has invalid sector "@ + decimal(sector as nat) + " on track "@ + decimal(
        track as nat,
    ) + " (max: "@ + decimal(max) + ")"@
}

/// Check the directory chain from a sector, given the sectors already
/// passed and how many there were.
pub open spec fn chain_check(
    data: Seq<u8>,
    track: u8,
    sector: u8,
    visited: Seq<(u8, u8)>,
    n: nat,
) -> Result<(), DiskFault>
    decreases MAX_DIRECTORY_CHAIN - n,
{
    if track == 0 {
        Ok(())
    } else if n >= MAX_DIRECTORY_CHAIN {
        Err(DiskFault::CorruptedImage(chain_too_long_text()))
    } else if visited.contains((track, sector)) {
        Err(DiskFault::CorruptedImage(msg_circular(track, sector)))
    } else if !valid_track(track as int) {
        Err(DiskFault::CorruptedImage(msg_chain_bad_track(track, n)))
    } else if sector as int >= track_sectors(track as int) {
        Err(
            DiskFault::CorruptedImage(
                msg_chain_bad_sector(sector, track, (track_sectors(track as int) - 1) as nat),
            ),
        )
    } else {
        let sec = sector_of(data, track as int, sector as int);
        chain_check(data, sec[0], sec[1], visited.push((track, sector)), n + 1)
    }
}

/// The outcome of validating an image: the map must point at a sector
/// on the disk, and the directory chain from there must stay on the disk,
/// not come back to a sector and end within 144 sectors.
pub open spec fn spec_validate(data: Seq<u8>) -> Result<(), DiskFault> {
    let bam = sector_of(data, 18, 0);
    let dt = bam[0];
    let ds = bam[1];
    if dt == 0 {
        Err(DiskFault::CorruptedImage(msg_no_directory_pointer()))
    } else if dt != DIRECTORY_TRACK && !valid_track(dt as int) {
        Err(DiskFault::CorruptedImage(msg_bad_directory_track(dt)))
    } else if ds as int >= track_sectors(dt as int) {
        Err(
            DiskFault::CorruptedImage(
                msg_bad_directory_sector(ds, dt, (track_sectors(dt as int) - 1) as nat),
            ),
        )
    } else {
        chain_check(data, dt, ds, Seq::empty(), 0)
    }
}

fn corrupted(s: String) -> (e: D64Error)
    ensures
        e@ == DiskFault::CorruptedImage(s@),
{
    D64Error::CorruptedImage(s)
}

fn visited_contains(visited: &Vec<(u8, u8)>, track: u8, sector: u8) -> (r: bool)
    ensures
        r == visited@.contains((track, sector)),
{
    let mut i: usize = 0;
    while i < visited.len()
        invariant
            i <= visited.len(),
            forall|j: int| 0 <= j < i ==> visited@[j] != (track, sector),
        decreases visited.len() - i,
    {
        if visited[i].0 == track && visited[i].1 == sector {
            assert(visited@[i as int] == (track, sector));
            return true;
        }
        i += 1;
    }
    false
}

impl D64Image {
    /// Validate the D64 image for structural integrity.
    ///
    /// Checks that the map (track 18, sector 0) points at a directory
    /// sector on the disk, and that the directory chain from there keeps
    /// to sectors on the disk, passes no sector twice and ends within 144
    /// sectors. The DOS version byte is not checked.
    ///
    /// Returns Ok(()) if the image passes basic validation, or an error describing the issue.
    pub fn validate(&self) -> (r: Result<(), D64Error>)
        requires
            self.wf(),
        ensures
            res_view(r) == spec_validate(self@.data),
    {
        let bam = match self.read_bam() {
            Ok(b) => b,
            Err(e) => return Err(e),
        };
        let dir_track = bam[0];
        let dir_sector = bam[1];
        if dir_track == 0 {
            return Err(corrupted(String::from_str("BAM has no directory pointer (track=0)")));
        }
        if dir_track != DIRECTORY_TRACK {
            if dir_track < 1 || dir_track > 35 {
                let mut s = String::from_str("Invalid directory track pointer in BAM: track ");
                push_decimal(&mut s, dir_track as u64);
                s.append(" is out of range");
                return Err(corrupted(s));
            }
        }
        let max_sectors = sectors_of_track(dir_track);
        if dir_sector >= max_sectors {
            let mut s = String::from_str("Invalid directory sector pointer in BAM: sector ");
            push_decimal(&mut s, dir_sector as u64);
            s.append(" exceeds track ");
            push_decimal(&mut s, dir_track as u64);
            s.append(" maximum (");
            push_decimal(&mut s, (max_sectors - 1) as u64);
            s.append(")");
            return Err(corrupted(s));
        }
        let mut visited: Vec<(u8, u8)> = Vec::new();
        let mut current_track = dir_track;
        let mut current_sector = dir_sector;
        let mut chain_length: usize = 0;
        while current_track != 0 && chain_length < MAX_DIRECTORY_CHAIN
            invariant
                self.wf(),
                chain_length <= MAX_DIRECTORY_CHAIN,
                spec_validate(self@.data) == chain_check(
                    self@.data,
                    current_track,
                    current_sector,
                    visited@,
                    chain_length as nat,
                ),
            decreases MAX_DIRECTORY_CHAIN - chain_length,
        {
            if visited_contains(&visited, current_track, current_sector) {
                let mut s = String::from_str("Directory chain has circular reference at track ");
                push_decimal(&mut s, current_track as u64);
                s.append(", sector ");
                push_decimal(&mut s, current_sector as u64);
                return Err(corrupted(s));
            }
            visited.push((current_track, current_sector));
            if current_track < 1 || current_track > 35 {
                let mut s = String::from_str("Directory chain has invalid track ");
                push_decimal(&mut s, current_track as u64);
                s.append(" at entry ");
                push_decimal(&mut s, chain_length as u64);
                return Err(corrupted(s));
            }
            let max_sect = sectors_of_track(current_track);
            if current_sector >= max_sect {
                let mut s = String::from_str("Directory chain has invalid sector ");
                push_decimal(&mut s, current_sector as u64);
                s.append(" on track ");
                push_decimal(&mut s, current_track as u64);
                s.append(" (max: ");
                push_decimal(&mut s, (max_sect - 1) as u64);
                s.append(")");
                return Err(corrupted(s));
            }
            let sector_data = match self.read_sector(current_track, current_sector) {
                Ok(b) => b,
                Err(e) => return Err(e),
            };
            current_track = sector_data[0];
            current_sector = sector_data[1];
            chain_length += 1;
        }
        if chain_length >= MAX_DIRECTORY_CHAIN && current_track != 0 {
            return Err(corrupted(String::from_str("Directory chain exceeds maximum expected length")));
        }
        Ok(())
    }
}

} // verus!
