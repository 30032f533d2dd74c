//! A software model of the 8-bit processor of the Nintendo Entertainment
//! System: the address bus, the iNES cartridge loader and the instruction
//! interpreter, each with a machine-checked contract.
//!
//! The machine is defined twice. `state`, `addressing`, `alu`, `execute` and
//! `step` define it as a mathematical function from one `Machine` to the
//! next; `cpu`, `bus` and `emulator` hold the executable processor, bus and
//! console, whose every operation is proved to compute that function without
//! overflow or panic. `laws` states what follows for every program.
//!
//! Decimal mode does not exist on this processor: the decimal flag is
//! stored and ignored. The picture and audio units are not modelled; their
//! register windows read as zero and absorb writes. Cartridges use mapper 0.

pub mod addressing;
pub mod alu;
pub mod bits;
pub mod bus;
pub mod cartridge;
pub mod cpu;
pub mod decode;
pub mod emulator;
pub mod execute;
pub mod laws;
pub mod opcode;
pub mod state;
pub mod status;
pub mod step;
pub mod trace;
