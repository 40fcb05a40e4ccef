//! An emulator core for the MOS 6502 and two small machines built around it.
//!
//! * [`platform`] describes a memory bus and the interface a machine's memory
//!   map implements; [`apple1`] and [`ehbasic`] are two such maps.
//! * [`registers`] holds the register file and the arithmetic of the
//!   instruction set, [`instruction`] the opcode table.
//! * [`machine`] defines, as mathematics, what every instruction does to a
//!   processor and its bus.
//! * [`cpu`] is the interpreter, proved to compute what [`machine`] defines.
//!
//! The laws of the instruction set and of the memory maps are proved beside
//! the definitions they speak of.
pub mod apple1;
pub mod bits;
pub mod cpu;
pub mod ehbasic;
pub mod instruction;
pub mod machine;
pub mod platform;
pub mod registers;
