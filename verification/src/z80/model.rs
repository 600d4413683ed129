use vstd::prelude::*;
use super::error::Z80Error;
use super::instr::Z80Instruction;
use super::mmu::{mem_read_word, mem_write_word, RAM_SIZE};
use super::registers::{
    compose,
    high_byte,
    low_byte,
    wrap16,
    Z80RegisterName,
    Z80RegisterPair,
    Z80Registers,
    FLAG_CARRY,
};

verus! {

/// The whole state of the simulated machine, as the contracts see it: the
/// register file, the two clock counters as unbounded integers, and the
/// backed memory as a sequence of bytes indexed by address.
pub ghost struct Machine {
    pub registers: Z80Registers,
    pub machine_cycles: int,
    pub time_cycles: int,
    pub memory: Seq<u8>,
}

impl Machine {
    /// The machine as a new CPU finds it: every register zero, the clock
    /// at zero, and `RAM_SIZE` bytes of memory, all zero.
    pub open spec fn fresh() -> Machine {
        Machine {
            registers: Z80Registers::zeroed(),
            machine_cycles: 0,
            time_cycles: 0,
            memory: Seq::new(RAM_SIZE as nat, |a: int| 0u8),
        }
    }

    /// Whether the clock can take the cost of `i` without leaving the range
    /// of its counters.
    pub open spec fn has_room(self, i: Z80Instruction) -> bool {
        &&& self.machine_cycles + i.cycles().0 <= i64::MAX
        &&& self.time_cycles + i.cycles().1 <= i64::MAX
    }
}

/// First address of the I/O ports.
pub const IO_BASE: u16 = 0xFF00;

/// The byte `v` with its two nibbles exchanged.
pub open spec fn swap_nibbles(v: u8) -> u8 {
    ((v % 16) * 16 + v / 16) as u8
}

/// The flags byte `f` with the carry flag set or cleared and the other
/// flags as they are.
pub open spec fn with_carry(f: u8, carry: bool) -> u8 {
    if carry {
        f | FLAG_CARRY
    } else {
        f & !FLAG_CARRY
    }
}

/// For an instruction that reads or writes one byte of memory: the address
/// of that byte.
pub open spec fn byte_address(regs: Z80Registers, i: Z80Instruction) -> int {
    match i {
        Z80Instruction::LDrHLm(_)
        | Z80Instruction::LDHLmr(_)
        | Z80Instruction::LDHLmn(_)
        | Z80Instruction::LDHLIA
        | Z80Instruction::LDAHLI
        | Z80Instruction::LDHLDA
        | Z80Instruction::LDAHLD
        | Z80Instruction::ADDmHL
        | Z80Instruction::ADCmHL
        | Z80Instruction::SUBmHL
        | Z80Instruction::SBCmHL => regs.pair(Z80RegisterPair::HL) as int,
        Z80Instruction::LDrrmA(rr) | Z80Instruction::LDArrm(rr) => regs.pair(rr) as int,
        Z80Instruction::LDmmA(nn) | Z80Instruction::LDAmm(nn) => nn as int,
        Z80Instruction::LDAIOn(n) | Z80Instruction::LDIOnA(n) => IO_BASE + n,
        Z80Instruction::LDAIOC | Z80Instruction::LDIOCA => IO_BASE + regs.c,
        _ => arbitrary(),
    }
}

/// Whether every address that the instruction reads or writes lies within
/// `mem`.
pub open spec fn addresses_backed(regs: Z80Registers, mem: Seq<u8>, i: Z80Instruction) -> bool {
    match i {
        Z80Instruction::LDrHLm(_)
        | Z80Instruction::LDHLmr(_)
        | Z80Instruction::LDHLmn(_)
        | Z80Instruction::LDHLIA
        | Z80Instruction::LDAHLI
        | Z80Instruction::LDHLDA
        | Z80Instruction::LDAHLD
        | Z80Instruction::ADDmHL
        | Z80Instruction::ADCmHL
        | Z80Instruction::SUBmHL
        | Z80Instruction::SBCmHL
        | Z80Instruction::LDrrmA(_)
        | Z80Instruction::LDArrm(_)
        | Z80Instruction::LDmmA(_)
        | Z80Instruction::LDAmm(_)
        | Z80Instruction::LDAIOn(_)
        | Z80Instruction::LDIOnA(_)
        | Z80Instruction::LDAIOC
        | Z80Instruction::LDIOCA => byte_address(regs, i) < mem.len(),
        Z80Instruction::LDHLmm(nn) | Z80Instruction::LDmmHL(nn) => nn + 1 < mem.len(),
        Z80Instruction::PUSH(_) => wrap16(regs.sp - 1) < mem.len() && wrap16(regs.sp - 2)
            < mem.len(),
        Z80Instruction::POP(_) => regs.sp < mem.len() && wrap16(regs.sp + 1) < mem.len(),
        _ => true,
    }
}

/// Why the instruction is refused in this state, if it is: it has no
/// execution rule, or else names a register it cannot work on, or else
/// reaches for memory that is not there.
pub open spec fn fault(m: Machine, i: Z80Instruction) -> Option<Z80Error> {
    if !i.is_supported() {
        Some(Z80Error::UnsupportedInstruction)
    } else if !i.operands_valid() {
        Some(Z80Error::InvalidOperand)
    } else if !addresses_backed(m.registers, m.memory, i) {
        Some(Z80Error::OutOfRangeAddress)
    } else {
        None
    }
}

/// For an 8-bit arithmetic instruction: the value that is added to or
/// subtracted from.
pub open spec fn alu_operand(m: Machine, i: Z80Instruction) -> u8 {
    match i {
        Z80Instruction::ADDr(r)
        | Z80Instruction::ADCr(r)
        | Z80Instruction::SUBr(r)
        | Z80Instruction::SBCr(r) => m.registers.reg(r),
        Z80Instruction::ADDn(n)
        | Z80Instruction::ADCn(n)
        | Z80Instruction::SUBn(n)
        | Z80Instruction::SBCn(n) => n,
        _ => m.memory[byte_address(m.registers, i)],
    }
}

/// The register file after an instruction that is not refused.
pub open spec fn next_registers(m: Machine, i: Z80Instruction) -> Z80Registers {
    let regs = m.registers;
    let hl = regs.pair(Z80RegisterPair::HL);
    let byte = m.memory[byte_address(regs, i)];
    match i {
        Z80Instruction::LDrn(r, n) => regs.with(r, n),
        Z80Instruction::LDrr(dest, src) => regs.with(dest, regs.reg(src)),
        Z80Instruction::LDrHLm(r) => regs.with(r, byte),
        Z80Instruction::LDArrm(_)
        | Z80Instruction::LDAmm(_)
        | Z80Instruction::LDAIOn(_)
        | Z80Instruction::LDAIOC => regs.with(Z80RegisterName::A, byte),
        Z80Instruction::LDAHLI => regs.with(Z80RegisterName::A, byte).with_pair(
            Z80RegisterPair::HL,
            wrap16(hl + 1),
        ),
        Z80Instruction::LDAHLD => regs.with(Z80RegisterName::A, byte).with_pair(
            Z80RegisterPair::HL,
            wrap16(hl - 1),
        ),
        Z80Instruction::LDHLIA => regs.with_pair(Z80RegisterPair::HL, wrap16(hl + 1)),
        Z80Instruction::LDHLDA => regs.with_pair(Z80RegisterPair::HL, wrap16(hl - 1)),
        Z80Instruction::LDrrnn(rr, nn) => regs.with_pair(rr, nn),
        Z80Instruction::LDHLmm(nn) => regs.with_pair(
            Z80RegisterPair::HL,
            mem_read_word(m.memory, nn as int).unwrap(),
        ),
        Z80Instruction::LDHLSPn(n) => regs.with_pair(Z80RegisterPair::HL, wrap16(regs.sp + n)),
        Z80Instruction::PUSH(_) => Z80Registers { sp: wrap16(regs.sp - 2), ..regs },
        Z80Instruction::POP(rr) => Z80Registers {
            sp: wrap16(regs.sp + 2),
            ..regs.with_pair(
                rr,
                compose(m.memory[wrap16(regs.sp + 1) as int], m.memory[regs.sp as int]),
            )
        },
        Z80Instruction::SWAP(r) => regs.with(r, swap_nibbles(regs.reg(r))),
        Z80Instruction::ADDr(_) | Z80Instruction::ADDmHL | Z80Instruction::ADDn(_) => regs.after_add(
            alu_operand(m, i),
            false,
        ),
        Z80Instruction::ADCr(_) | Z80Instruction::ADCmHL | Z80Instruction::ADCn(_) => regs.after_add(
            alu_operand(m, i),
            true,
        ),
        Z80Instruction::SUBr(_) | Z80Instruction::SUBmHL | Z80Instruction::SUBn(_) => regs.after_sub(
            alu_operand(m, i),
            false,
        ),
        Z80Instruction::SBCr(_) | Z80Instruction::SBCmHL | Z80Instruction::SBCn(_) => regs.after_sub(
            alu_operand(m, i),
            true,
        ),
        Z80Instruction::ADDHLrr(rr) => (Z80Registers {
            f: with_carry(regs.f, hl + regs.pair(rr) > 0xFFFF),
            ..regs
        }).with_pair(Z80RegisterPair::HL, wrap16(hl + regs.pair(rr))),
        Z80Instruction::ADDSPn(n) => Z80Registers { sp: wrap16(regs.sp + n), ..regs },
        _ => regs,
    }
}

/// The memory after an instruction that is not refused.
pub open spec fn next_memory(m: Machine, i: Z80Instruction) -> Seq<u8> {
    let regs = m.registers;
    let addr = byte_address(regs, i);
    match i {
        Z80Instruction::LDHLmr(r) => m.memory.update(addr, regs.reg(r)),
        Z80Instruction::LDHLmn(n) => m.memory.update(addr, n),
        Z80Instruction::LDrrmA(_)
        | Z80Instruction::LDmmA(_)
        | Z80Instruction::LDHLIA
        | Z80Instruction::LDHLDA
        | Z80Instruction::LDIOnA(_)
        | Z80Instruction::LDIOCA => m.memory.update(addr, regs.a),
        Z80Instruction::LDmmHL(nn) => mem_write_word(
            m.memory,
            nn as int,
            regs.pair(Z80RegisterPair::HL),
        ).unwrap(),
        Z80Instruction::PUSH(rr) => m.memory.update(
            wrap16(regs.sp - 1) as int,
            high_byte(regs.pair(rr)),
        ).update(wrap16(regs.sp - 2) as int, low_byte(regs.pair(rr))),
        _ => m.memory,
    }
}

/// What executing `i` in state `m` gives: the error for which it is
/// refused, or the state after it, with the clock advanced by the
/// instruction's cost.
pub open spec fn step(m: Machine, i: Z80Instruction) -> Result<Machine, Z80Error> {
    match fault(m, i) {
        Some(e) => Err(e),
        None => Ok(
            Machine {
                registers: next_registers(m, i),
                machine_cycles: m.machine_cycles + i.cycles().0,
                time_cycles: m.time_cycles + i.cycles().1,
                memory: next_memory(m, i),
            },
        ),
    }
}

/// An instruction that is executed moves the clock ahead by exactly its
/// cost, which depends on the form of the instruction alone and is never
/// zero; so the clock never runs backwards. A reserved instruction is
/// always refused.
pub proof fn lemma_step_clock(m: Machine, i: Z80Instruction)
    ensures
        step(m, i) matches Ok(next) ==> {
            &&& next.machine_cycles == m.machine_cycles + i.cycles().0
            &&& next.time_cycles == m.time_cycles + i.cycles().1
            &&& next.machine_cycles > m.machine_cycles
            &&& next.time_cycles > m.time_cycles
        },
        i.is_reserved() ==> step(m, i) == Err::<Machine, Z80Error>(Z80Error::UnsupportedInstruction),
{
}

/// A pop undoes a push: after a pair has been pushed, popping the same
/// pair succeeds and leaves the stack pointer, the pair and every other
/// register as they were before the push, and the memory as the push left
/// it.
pub proof fn lemma_push_then_pop(m: Machine, rr: Z80RegisterPair)
    requires
        step(m, Z80Instruction::PUSH(rr)) is Ok,
    ensures
        step(step(m, Z80Instruction::PUSH(rr)).unwrap(), Z80Instruction::POP(rr)) matches Ok(last)
            && {
            &&& last.registers.sp == m.registers.sp
            &&& last.registers.pair(rr) == m.registers.pair(rr)
            &&& last.registers == m.registers
            &&& last.memory == step(m, Z80Instruction::PUSH(rr)).unwrap().memory
        },
{
}

/// Whether the instruction may change the flags byte: the 8-bit
/// arithmetic rebuilds it, `ADDHLrr` sets or clears its carry flag, and a
/// load, swap or pop that names `F` or `AF` as its destination writes to
/// it.
pub open spec fn writes_flags(i: Z80Instruction) -> bool {
    match i {
        Z80Instruction::LDrn(r, _)
        | Z80Instruction::LDrr(r, _)
        | Z80Instruction::LDrHLm(r)
        | Z80Instruction::SWAP(r) => r == Z80RegisterName::F,
        Z80Instruction::LDrrnn(rr, _) | Z80Instruction::POP(rr) => rr == Z80RegisterPair::AF,
        Z80Instruction::ADDHLrr(_) => true,
        _ => i.is_arith8(),
    }
}

/// The flags byte changes only where an instruction is executed that may
/// change it.
pub proof fn lemma_flags_kept(m: Machine, i: Z80Instruction)
    requires
        step(m, i) is Ok,
        !writes_flags(i),
    ensures
        step(m, i).unwrap().registers.f == m.registers.f,
{
}

} // verus!
