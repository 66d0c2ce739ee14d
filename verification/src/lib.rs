//! A Nintendo Entertainment System emulator core: the 6502 CPU, the picture
//! processing unit, the audio processing unit's channel logic, cartridge
//! mappers and the address buses that connect them.

pub mod bus;
pub mod memory;
pub mod bits;
pub mod cpu;
pub mod system;
pub mod util;
pub mod video;
pub mod audio;
pub mod scaler;
pub mod frontend;
