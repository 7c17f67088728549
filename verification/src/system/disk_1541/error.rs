//! Errors of disk image and drive operations.

use vstd::prelude::*;
use crate::text::{decimal, push_decimal};

verus! {

/// Errors that can occur during D64 operations.
#[derive(Debug, Clone, PartialEq)]
pub enum D64Error {
    /// The file size is invalid.
    InvalidSize { expected: usize, got: usize },
    /// The track number is out of range (1-35).
    InvalidTrack(u8),
    /// The sector number is out of range for the given track.
    InvalidSector { track: u8, sector: u8 },
    /// The file was not found on disk.
    FileNotFound(String),
    /// The directory is full.
    DirectoryFull,
    /// The disk is full.
    DiskFull,
    /// An I/O error occurred.
    IoError(String),
    /// The D64 image appears to be corrupted.
    CorruptedImage(String),
}

/// A `D64Error` with its texts taken as character sequences.
pub enum DiskFault {
    InvalidSize { expected: usize, got: usize },
    InvalidTrack(u8),
    InvalidSector { track: u8, sector: u8 },
    FileNotFound(Seq<char>),
    DirectoryFull,
    DiskFull,
    IoError(Seq<char>),
    CorruptedImage(Seq<char>),
}

impl View for D64Error {
    type V = DiskFault;

    open spec fn view(&self) -> DiskFault {
        match self {
            D64Error::InvalidSize { expected, got } => DiskFault::InvalidSize {
                expected: *expected,
                got: *got,
            },
            D64Error::InvalidTrack(t) => DiskFault::InvalidTrack(*t),
            D64Error::InvalidSector { track, sector } => DiskFault::InvalidSector {
                track: *track,
                sector: *sector,
            },
            D64Error::FileNotFound(name) => DiskFault::FileNotFound(name@),
            D64Error::DirectoryFull => DiskFault::DirectoryFull,
            D64Error::DiskFull => DiskFault::DiskFull,
            D64Error::IoError(msg) => DiskFault::IoError(msg@),
            D64Error::CorruptedImage(msg) => DiskFault::CorruptedImage(msg@),
        }
    }
}

/// A result with its error taken by view.
pub open spec fn res_view<T>(r: Result<T, D64Error>) -> Result<T, DiskFault> {
    match r {
        Ok(v) => Ok(v),
        Err(e) => Err(e@),
    }
}

/// The message an error prints.
pub open spec fn fault_text(f: DiskFault) -> Seq<char> {
    match f {
        DiskFault::InvalidSize { expected, got } => "Invalid D64 size: expected "@ + decimal(
            expected as nat,
        ) + " bytes, got "@ + decimal(got as nat),
        DiskFault::InvalidTrack(t) => "Invalid track: "@ + decimal(t as nat) + " (must be 1-35)"@,
        DiskFault::InvalidSector { track, sector } => "Invalid sector "@ + decimal(sector as nat)
            + " on track "@ + decimal(track as nat),
        DiskFault::FileNotFound(name) => "File not found: "@ + name,
        DiskFault::DirectoryFull => "Directory full"@,
        DiskFault::DiskFull => "Disk full"@,
        DiskFault::IoError(msg) => "I/O error: "@ + msg,
        DiskFault::CorruptedImage(msg) => "Corrupted D64 image: "@ + msg,
    }
}

impl D64Error {
    /// The message of the error.
    pub fn to_string(&self) -> (r: String)
        ensures
            r@ == fault_text(self@),
    {
        let mut s = String::new();
        match self {
            D64Error::InvalidSize { expected, got } => {
                s.append("Invalid D64 size: expected ");
                push_decimal(&mut s, *expected as u64);
                s.append(" bytes, got ");
                push_decimal(&mut s, *got as u64);
            },
            D64Error::InvalidTrack(t) => {
                s.append("Invalid track: ");
                push_decimal(&mut s, *t as u64);
                s.append(" (must be 1-35)");
            },
            D64Error::InvalidSector { track, sector } => {
                s.append("Invalid sector ");
                push_decimal(&mut s, *sector as u64);
                s.append(" on track ");
                push_decimal(&mut s, *track as u64);
            },
            D64Error::FileNotFound(name) => {
                s.append("File not found: ");
                s.append(name.as_str());
            },
            D64Error::DirectoryFull => {
                s.append("Directory full");
            },
            D64Error::DiskFull => {
                s.append("Disk full");
            },
            D64Error::IoError(msg) => {
                s.append("I/O error: ");
                s.append(msg.as_str());
            },
            D64Error::CorruptedImage(msg) => {
                s.append("Corrupted D64 image: ");
                s.append(msg.as_str());
            },
        }
        assert(s@ =~= fault_text(self@));
        s
    }
}

/// An `IoError` carrying the given text.
pub fn io_error(msg: &str) -> (e: D64Error)
    ensures
        e@ == DiskFault::IoError(msg@),
{
    D64Error::IoError(String::from_str(msg))
}

} // verus!
