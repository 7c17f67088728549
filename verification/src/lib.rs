//! Commodore 64 hardware models: the custom chips (VIC-II, SID, CIA,
//! the 6510 I/O port, colour RAM), the bank-switched memory map, the
//! peripherals (keyboard matrix, joysticks, 1541 disk drive, IEC bus) and
//! save states, with machine-checked contracts.

pub mod devices;
pub mod system;
pub mod text;

pub use devices::{Cia6526, ColorRam, Port6510, Sid6581, VicII};
pub use system::{
    keys, map_pc_keycode, C64Memory, ChannelMode, D64Error, D64Image, Drive1541, DriveChannel,
    DriveStatus, KeyMapping, Keyboard, Region,
};
