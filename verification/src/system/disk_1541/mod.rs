//! Commodore 1541 disk drive, emulated at the level of the IEC protocol,
//! over `.D64` disk images.
//!
//! A D64 image holds 35 tracks of 256-byte sectors: tracks 1-17 have 21
//! sectors, 18-24 have 19, 25-30 have 18 and 31-35 have 17, 683 sectors in
//! all. Track 18 holds the block availability map (sector 0) and the
//! directory (from sector 1 on).

pub mod channel_laws;
pub mod directory;
pub mod directory_laws;
pub mod drive;
pub mod error;
pub mod geometry;
pub mod image;
pub mod laws;
pub mod listing;
pub mod names;
pub mod petscii;
pub mod unit;
pub mod validate;

pub use drive::{ChannelMode, DriveChannel, DriveStatus};
pub use error::D64Error;
pub use geometry::{
    BAM_SECTOR, D64_SIZE, D64_SIZE_WITH_ERRORS, DIRECTORY_FIRST_SECTOR, DIRECTORY_TRACK,
};
pub use image::D64Image;
pub use unit::Drive1541;
pub use petscii::{ascii_to_petscii_upper, petscii_to_ascii};
