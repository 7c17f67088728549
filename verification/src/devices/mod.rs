//! Memory-mapped C64 chips: the VIC-II video chip, the SID sound chip, the
//! two CIAs, the 6510 I/O port and colour RAM.

pub mod cia;
pub mod color_ram;
pub mod port_6510;
pub mod sid;
pub mod vic_ii;

pub use cia::Cia6526;
pub use color_ram::ColorRam;
pub use port_6510::Port6510;
pub use sid::{EnvelopeState, Sid6581, SidFilter, SidVoice};
pub use vic_ii::VicII;
