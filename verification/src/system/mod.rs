//! The memory map, the peripherals (keyboard, joysticks, 1541 drive and
//! serial bus), save states and video timing.

pub mod c64_memory;
pub mod c64_system;
pub mod joystick;
pub mod keyboard;
pub mod disk_1541;
pub mod iec_bus;
pub mod savestate;

pub use c64_memory::snapshot::{CpuFlags, CpuRegisters, MachineState};
pub use c64_memory::timing::FrameRun;
pub use c64_memory::C64Memory;
pub use c64_system::Region;
pub use disk_1541::{ChannelMode, D64Error, D64Image, Drive1541, DriveChannel, DriveStatus};
pub use iec_bus::{IecBus, IecState};
pub use joystick::bits as joystick_bits;
pub use joystick::{JoystickPorts, JoystickState};
pub use keyboard::{keys, map_pc_keycode, KeyMapping, Keyboard};
pub use savestate::{
    CiaState, SaveState, SidFilterState, SidVoiceState, SAVESTATE_MAGIC, SAVESTATE_VERSION,
};
