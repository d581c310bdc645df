//! A Game Boy (DMG) emulation core: the SM83 CPU, the memory bus with its
//! memory bank controllers, the picture processing unit and the audio unit,
//! each stated against a mathematical model of the hardware.

pub mod bits;
pub mod hardware;
pub mod memory;
pub mod cpu;
pub mod ppu;
pub mod apu;
pub mod gameboy;
