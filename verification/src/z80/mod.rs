pub use self::cpu::{Z80, Z80State};
pub use self::error::Z80Error;
pub use self::instr::Z80Instruction;
pub use self::mmu::Z80MMU;
pub use self::registers::{Z80RegisterName, Z80RegisterPair, Z80Registers};

pub mod cpu;
pub mod error;
pub mod instr;
pub mod mmu;
pub mod model;
pub mod registers;
