//! A cycle-counting simulator for an 8-bit CPU of the Z80 / Game Boy family.
//!
//! The simulator executes one decoded instruction at a time against a register
//! file and a memory bus, and accounts for the machine cycles and clock ticks
//! the hardware would have spent on it.

pub mod z80;
