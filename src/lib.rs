pub mod bits;
pub mod bus;
pub mod control;
pub mod device;
pub mod emu6502;
pub mod loopy;
pub mod opcodes;
pub mod ppu;
pub mod program;
pub mod render;
