//! Emulation engine of a ZX Spectrum 48K: the memory bus and its ports, the
//! keyboard matrix, the video composer, the disassembler, the snapshot
//! loaders, and the step driver that runs a Z80 opcode engine under a
//! debugger.

pub mod bus;
pub mod bin;
pub mod buttons;
pub mod cpu_exec;
pub mod debug_view;
pub mod debugger;
pub mod disasm;
pub mod engine;
pub mod error;
pub mod interrupt;
pub mod keyboard;
pub mod load;
pub mod machine;
pub mod sna;
pub mod stack_tracker;
pub mod text;
pub mod video;
pub mod z80;
