//! A verified core for an 8-bit home-console emulator: a 6502-family CPU
//! interpreter, the picture processing unit's register state machine with
//! VRAM mirroring and frame timing, and the address-decoding memory bus
//! that binds them to a parsed cartridge image.

pub mod bus;
pub mod cpu;
pub mod frame;
pub mod mapper;
pub mod ppu;
pub mod rom;

pub use rom::Mirroring;
pub use rom::Rom;
pub use rom::RomError;
