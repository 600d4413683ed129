use vstd::prelude::*;
use super::error::Z80Error;
use super::instr::Z80Instruction;
use super::mmu::{mem_read, mem_write, Z80MMU, RAM_SIZE};
use super::model::{step, Machine, IO_BASE};
use super::registers::{wrap16, Z80RegisterName, Z80RegisterPair, Z80Registers, FLAG_CARRY};

verus! {

/// The registers and the clock of a CPU: what a snapshot of it holds.
#[derive(Clone, Copy, Debug, PartialEq, Eq, Structural)]
pub struct Z80State {
    /// Machine cycles spent since the CPU was made.
    pub machine_cycles: i64,
    /// Clock ticks spent since the CPU was made.
    pub time_cycles: i64,
    pub registers: Z80Registers,
}

impl Z80State {
    /// Advances the clock by `m` machine cycles and `t` ticks. The clock
    /// never runs backwards, and it must have room for the advance.
    pub fn tick(&mut self, m: i64, t: i64)
        requires
            0 <= m,
            0 <= t,
            old(self).machine_cycles + m <= i64::MAX,
            old(self).time_cycles + t <= i64::MAX,
        ensures
            final(self).machine_cycles == old(self).machine_cycles + m,
            final(self).time_cycles == old(self).time_cycles + t,
            final(self).registers == old(self).registers,
    {
        self.machine_cycles += m;
        self.time_cycles += t;
    }
}

/// The CPU: its registers and clock, and the memory bus it owns.
pub struct Z80 {
    state: Z80State,
    mmu: Z80MMU,
}

impl View for Z80 {
    type V = Machine;

    closed spec fn view(&self) -> Machine {
        Machine {
            registers: self.state.registers,
            machine_cycles: self.state.machine_cycles as int,
            time_cycles: self.state.time_cycles as int,
            memory: self.mmu@,
        }
    }
}

/// Whether `res` and `post` are what executing `i` in state `pre` must
/// give: success and the next state, or the error and the state untouched.
///
/// Each rule below is proved against this on its own; it is kept opaque so
/// that `dispatch` only has to pick the rule.
#[verifier::opaque]
spec fn executes(pre: Machine, i: Z80Instruction, res: Result<(), Z80Error>, post: Machine) -> bool {
    match step(pre, i) {
        Ok(next) => res is Ok && post == next,
        Err(e) => res == Err::<(), Z80Error>(e) && post == pre,
    }
}

/// Refuses a register that is not 8 bits wide as an operand.
fn narrow_operand(r: Z80RegisterName) -> (res: Result<(), Z80Error>)
    ensures
        r.is_narrow() ==> res is Ok,
        !r.is_narrow() ==> res == Err::<(), Z80Error>(Z80Error::InvalidOperand),
{
    if r.narrow() {
        Ok(())
    } else {
        Err(Z80Error::InvalidOperand)
    }
}

/// `base` moved by the signed displacement `n`, within 16 bits.
fn displace(base: u16, n: i8) -> (res: u16)
    ensures
        res == wrap16(base + n),
{
    let moved: i32 = base as i32 + n as i32;
    if moved < 0 {
        (moved + 0x1_0000) as u16
    } else if moved > 0xFFFF {
        (moved - 0x1_0000) as u16
    } else {
        moved as u16
    }
}

/// Names the two 8-bit registers of a pair that is pushed or popped, the
/// high one first. The stack pointer is refused as an operand.
fn halves_of(rr: Z80RegisterPair) -> (res: Result<(Z80RegisterName, Z80RegisterName), Z80Error>)
    ensures
        rr.is_composed() ==> res == Ok::<(Z80RegisterName, Z80RegisterName), Z80Error>(
            (rr.high(), rr.low()),
        ),
        !rr.is_composed() ==> res == Err::<(Z80RegisterName, Z80RegisterName), Z80Error>(
            Z80Error::InvalidOperand,
        ),
{
    match (Z80Registers::high_of(rr), Z80Registers::low_of(rr)) {
        (Ok(high), Ok(low)) => Ok((high, low)),
        _ => Err(Z80Error::InvalidOperand),
    }
}

/// Stores the accumulator at `addr`.
fn store_a(cpu: &mut Z80, addr: u16) -> (res: Result<(), Z80Error>)
    ensures
        final(cpu).state == old(cpu).state,
        match mem_write(old(cpu).mmu@, addr as int, old(cpu).state.registers.a) {
            Ok(mem) => res is Ok && final(cpu).mmu@ == mem,
            Err(e) => res == Err::<(), Z80Error>(e) && final(cpu).mmu@ == old(cpu).mmu@,
        },
{
    let a = cpu.state.registers.get(Z80RegisterName::A)?;
    cpu.mmu.write_byte(addr, a)
}

/// Loads the accumulator from `addr`.
fn load_a(cpu: &mut Z80, addr: u16) -> (res: Result<(), Z80Error>)
    ensures
        final(cpu).mmu@ == old(cpu).mmu@,
        match mem_read(old(cpu).mmu@, addr as int) {
            Ok(val) => res is Ok && final(cpu).state == (Z80State {
                registers: old(cpu).state.registers.with(Z80RegisterName::A, val),
                ..old(cpu).state
            }),
            Err(e) => res == Err::<(), Z80Error>(e) && final(cpu).state == old(cpu).state,
        },
{
    let val = cpu.mmu.read_byte(addr)?;
    cpu.state.registers.set(Z80RegisterName::A, val)
}

/// `r1 <- r2`
fn ld_rr(cpu: &mut Z80, r1: Z80RegisterName, r2: Z80RegisterName) -> (res: Result<(), Z80Error>)
    requires
        old(cpu)@.has_room(Z80Instruction::LDrr(r1, r2)),
    ensures
        executes(old(cpu)@, Z80Instruction::LDrr(r1, r2), res, final(cpu)@),
{
    reveal(executes);
    narrow_operand(r1)?;
    narrow_operand(r2)?;
    cpu.state.registers.copy(r1, r2)?;
    cpu.state.tick(1, 4);
    Ok(())
}

/// `r <- (HL)`
fn ld_r_hlm(cpu: &mut Z80, r: Z80RegisterName) -> (res: Result<(), Z80Error>)
    requires
        old(cpu)@.has_room(Z80Instruction::LDrHLm(r)),
    ensures
        executes(old(cpu)@, Z80Instruction::LDrHLm(r), res, final(cpu)@),
{
    reveal(executes);
    narrow_operand(r)?;
    let hl = cpu.state.registers.get_pair(Z80RegisterPair::HL);
    let val = cpu.mmu.read_byte(hl)?;
    cpu.state.registers.set(r, val)?;
    cpu.state.tick(2, 8);
    Ok(())
}

/// `(HL) <- r`
fn ld_hlm_r(cpu: &mut Z80, r: Z80RegisterName) -> (res: Result<(), Z80Error>)
    requires
        old(cpu)@.has_room(Z80Instruction::LDHLmr(r)),
    ensures
        executes(old(cpu)@, Z80Instruction::LDHLmr(r), res, final(cpu)@),
{
    reveal(executes);
    narrow_operand(r)?;
    let hl = cpu.state.registers.get_pair(Z80RegisterPair::HL);
    let val = cpu.state.registers.get(r)?;
    cpu.mmu.write_byte(hl, val)?;
    cpu.state.tick(2, 8);
    Ok(())
}

/// `r <- n`
fn ld_r_n(cpu: &mut Z80, r: Z80RegisterName, n: u8) -> (res: Result<(), Z80Error>)
    requires
        old(cpu)@.has_room(Z80Instruction::LDrn(r, n)),
    ensures
        executes(old(cpu)@, Z80Instruction::LDrn(r, n), res, final(cpu)@),
{
    reveal(executes);
    narrow_operand(r)?;
    cpu.state.registers.set(r, n)?;
    cpu.state.tick(2, 8);
    Ok(())
}

/// `(HL) <- n`
fn ld_hlm_n(cpu: &mut Z80, n: u8) -> (res: Result<(), Z80Error>)
    requires
        old(cpu)@.has_room(Z80Instruction::LDHLmn(n)),
    ensures
        executes(old(cpu)@, Z80Instruction::LDHLmn(n), res, final(cpu)@),
{
    reveal(executes);
    let hl = cpu.state.registers.get_pair(Z80RegisterPair::HL);
    cpu.mmu.write_byte(hl, n)?;
    cpu.state.tick(3, 12);
    Ok(())
}

/// `(rr) <- A`
fn ld_rrm_a(cpu: &mut Z80, rr: Z80RegisterPair) -> (res: Result<(), Z80Error>)
    requires
        old(cpu)@.has_room(Z80Instruction::LDrrmA(rr)),
    ensures
        executes(old(cpu)@, Z80Instruction::LDrrmA(rr), res, final(cpu)@),
{
    reveal(executes);
    let addr = cpu.state.registers.get_pair(rr);
    store_a(cpu, addr)?;
    cpu.state.tick(2, 8);
    Ok(())
}

/// `(nn) <- A`
fn ld_mm_a(cpu: &mut Z80, nn: u16) -> (res: Result<(), Z80Error>)
    requires
        old(cpu)@.has_room(Z80Instruction::LDmmA(nn)),
    ensures
        executes(old(cpu)@, Z80Instruction::LDmmA(nn), res, final(cpu)@),
{
    reveal(executes);
    store_a(cpu, nn)?;
    cpu.state.tick(4, 16);
    Ok(())
}

/// `A <- (rr)`
fn ld_a_rrm(cpu: &mut Z80, rr: Z80RegisterPair) -> (res: Result<(), Z80Error>)
    requires
        old(cpu)@.has_room(Z80Instruction::LDArrm(rr)),
    ensures
        executes(old(cpu)@, Z80Instruction::LDArrm(rr), res, final(cpu)@),
{
    reveal(executes);
    let addr = cpu.state.registers.get_pair(rr);
    load_a(cpu, addr)?;
    cpu.state.tick(2, 8);
    Ok(())
}

/// `A <- (nn)`
fn ld_a_mm(cpu: &mut Z80, nn: u16) -> (res: Result<(), Z80Error>)
    requires
        old(cpu)@.has_room(Z80Instruction::LDAmm(nn)),
    ensures
        executes(old(cpu)@, Z80Instruction::LDAmm(nn), res, final(cpu)@),
{
    reveal(executes);
    load_a(cpu, nn)?;
    cpu.state.tick(4, 16);
    Ok(())
}

/// `rr <- nn`
fn ld_rr_nn(cpu: &mut Z80, rr: Z80RegisterPair, nn: u16) -> (res: Result<(), Z80Error>)
    requires
        old(cpu)@.has_room(Z80Instruction::LDrrnn(rr, nn)),
    ensures
        executes(old(cpu)@, Z80Instruction::LDrrnn(rr, nn), res, final(cpu)@),
{
    reveal(executes);
    cpu.state.registers.set_pair(rr, nn);
    cpu.state.tick(3, 12);
    Ok(())
}

/// `HL <- word at (nn)`
fn ld_hl_mm(cpu: &mut Z80, nn: u16) -> (res: Result<(), Z80Error>)
    requires
        old(cpu)@.has_room(Z80Instruction::LDHLmm(nn)),
    ensures
        executes(old(cpu)@, Z80Instruction::LDHLmm(nn), res, final(cpu)@),
{
    reveal(executes);
    let word = cpu.mmu.read_word(nn)?;
    cpu.state.registers.set_pair(Z80RegisterPair::HL, word);
    cpu.state.tick(5, 20);
    Ok(())
}

/// `word at (nn) <- HL`
fn ld_mm_hl(cpu: &mut Z80, nn: u16) -> (res: Result<(), Z80Error>)
    requires
        old(cpu)@.has_room(Z80Instruction::LDmmHL(nn)),
    ensures
        executes(old(cpu)@, Z80Instruction::LDmmHL(nn), res, final(cpu)@),
{
    reveal(executes);
    let hl = cpu.state.registers.get_pair(Z80RegisterPair::HL);
    cpu.mmu.write_word(nn, hl)?;
    cpu.state.tick(5, 20);
    Ok(())
}

/// `(HL) <- A`, then `HL <- HL + 1`
fn ld_hli_a(cpu: &mut Z80) -> (res: Result<(), Z80Error>)
    requires
        old(cpu)@.has_room(Z80Instruction::LDHLIA),
    ensures
        executes(old(cpu)@, Z80Instruction::LDHLIA, res, final(cpu)@),
{
    reveal(executes);
    let hl = cpu.state.registers.get_pair(Z80RegisterPair::HL);
    store_a(cpu, hl)?;
    cpu.state.registers.set_pair(Z80RegisterPair::HL, displace(hl, 1));
    cpu.state.tick(2, 8);
    Ok(())
}

/// `A <- (HL)`, then `HL <- HL + 1`
fn ld_a_hli(cpu: &mut Z80) -> (res: Result<(), Z80Error>)
    requires
        old(cpu)@.has_room(Z80Instruction::LDAHLI),
    ensures
        executes(old(cpu)@, Z80Instruction::LDAHLI, res, final(cpu)@),
{
    reveal(executes);
    let hl = cpu.state.registers.get_pair(Z80RegisterPair::HL);
    load_a(cpu, hl)?;
    cpu.state.registers.set_pair(Z80RegisterPair::HL, displace(hl, 1));
    cpu.state.tick(2, 8);
    Ok(())
}

/// `(HL) <- A`, then `HL <- HL - 1`
fn ld_hld_a(cpu: &mut Z80) -> (res: Result<(), Z80Error>)
    requires
        old(cpu)@.has_room(Z80Instruction::LDHLDA),
    ensures
        executes(old(cpu)@, Z80Instruction::LDHLDA, res, final(cpu)@),
{
    reveal(executes);
    let hl = cpu.state.registers.get_pair(Z80RegisterPair::HL);
    store_a(cpu, hl)?;
    cpu.state.registers.set_pair(Z80RegisterPair::HL, displace(hl, -1));
    cpu.state.tick(2, 8);
    Ok(())
}

/// `A <- (HL)`, then `HL <- HL - 1`
fn ld_a_hld(cpu: &mut Z80) -> (res: Result<(), Z80Error>)
    requires
        old(cpu)@.has_room(Z80Instruction::LDAHLD),
    ensures
        executes(old(cpu)@, Z80Instruction::LDAHLD, res, final(cpu)@),
{
    reveal(executes);
    let hl = cpu.state.registers.get_pair(Z80RegisterPair::HL);
    load_a(cpu, hl)?;
    cpu.state.registers.set_pair(Z80RegisterPair::HL, displace(hl, -1));
    cpu.state.tick(2, 8);
    Ok(())
}

/// `A <- (0xFF00 + n)`
fn ld_a_io_n(cpu: &mut Z80, n: u8) -> (res: Result<(), Z80Error>)
    requires
        old(cpu)@.has_room(Z80Instruction::LDAIOn(n)),
    ensures
        executes(old(cpu)@, Z80Instruction::LDAIOn(n), res, final(cpu)@),
{
    reveal(executes);
    load_a(cpu, IO_BASE + n as u16)?;
    cpu.state.tick(3, 12);
    Ok(())
}

/// `(0xFF00 + n) <- A`
fn ld_io_n_a(cpu: &mut Z80, n: u8) -> (res: Result<(), Z80Error>)
    requires
        old(cpu)@.has_room(Z80Instruction::LDIOnA(n)),
    ensures
        executes(old(cpu)@, Z80Instruction::LDIOnA(n), res, final(cpu)@),
{
    reveal(executes);
    store_a(cpu, IO_BASE + n as u16)?;
    cpu.state.tick(3, 12);
    Ok(())
}

/// `A <- (0xFF00 + C)`
fn ld_a_io_c(cpu: &mut Z80) -> (res: Result<(), Z80Error>)
    requires
        old(cpu)@.has_room(Z80Instruction::LDAIOC),
    ensures
        executes(old(cpu)@, Z80Instruction::LDAIOC, res, final(cpu)@),
{
    reveal(executes);
    let c = cpu.state.registers.get(Z80RegisterName::C)?;
    load_a(cpu, IO_BASE + c as u16)?;
    cpu.state.tick(2, 8);
    Ok(())
}

/// `(0xFF00 + C) <- A`
fn ld_io_c_a(cpu: &mut Z80) -> (res: Result<(), Z80Error>)
    requires
        old(cpu)@.has_room(Z80Instruction::LDIOCA),
    ensures
        executes(old(cpu)@, Z80Instruction::LDIOCA, res, final(cpu)@),
{
    reveal(executes);
    let c = cpu.state.registers.get(Z80RegisterName::C)?;
    store_a(cpu, IO_BASE + c as u16)?;
    cpu.state.tick(2, 8);
    Ok(())
}

/// `HL <- SP + n`
fn ld_hl_sp_n(cpu: &mut Z80, n: i8) -> (res: Result<(), Z80Error>)
    requires
        old(cpu)@.has_room(Z80Instruction::LDHLSPn(n)),
    ensures
        executes(old(cpu)@, Z80Instruction::LDHLSPn(n), res, final(cpu)@),
{
    reveal(executes);
    let sp = cpu.state.registers.get_pair(Z80RegisterPair::SP_);
    cpu.state.registers.set_pair(Z80RegisterPair::HL, displace(sp, n));
    cpu.state.tick(3, 12);
    Ok(())
}

/// Pushes `rr`: the stack pointer goes down by one and the high byte is
/// stored there, then down by one again and the low byte is stored there.
///
/// Both addresses are looked at before anything is written, so that a
/// refused push leaves no trace.
fn push(cpu: &mut Z80, rr: Z80RegisterPair) -> (res: Result<(), Z80Error>)
    requires
        old(cpu)@.has_room(Z80Instruction::PUSH(rr)),
    ensures
        executes(old(cpu)@, Z80Instruction::PUSH(rr), res, final(cpu)@),
{
    reveal(executes);
    let (high, low) = halves_of(rr)?;
    let sp = cpu.state.registers.get_pair(Z80RegisterPair::SP_);
    let first = displace(sp, -1);
    let second = displace(sp, -2);
    if !cpu.mmu.contains(first) || !cpu.mmu.contains(second) {
        return Err(Z80Error::OutOfRangeAddress);
    }
    let high_val = cpu.state.registers.get(high)?;
    let low_val = cpu.state.registers.get(low)?;
    cpu.state.registers.set_pair(Z80RegisterPair::SP_, first);
    cpu.mmu.write_byte(first, high_val)?;
    cpu.state.registers.set_pair(Z80RegisterPair::SP_, second);
    cpu.mmu.write_byte(second, low_val)?;
    cpu.state.tick(3, 12);
    Ok(())
}

/// Pops `rr`: the low byte is read where the stack pointer points and the
/// stack pointer goes up by one, then the same for the high byte.
fn pop(cpu: &mut Z80, rr: Z80RegisterPair) -> (res: Result<(), Z80Error>)
    requires
        old(cpu)@.has_room(Z80Instruction::POP(rr)),
    ensures
        executes(old(cpu)@, Z80Instruction::POP(rr), res, final(cpu)@),
{
    reveal(executes);
    let (high, low) = halves_of(rr)?;
    let sp = cpu.state.registers.get_pair(Z80RegisterPair::SP_);
    let low_val = cpu.mmu.read_byte(sp)?;
    let high_val = cpu.mmu.read_byte(displace(sp, 1))?;
    cpu.state.registers.set(low, low_val)?;
    cpu.state.registers.set_pair(Z80RegisterPair::SP_, displace(sp, 1));
    cpu.state.registers.set(high, high_val)?;
    cpu.state.registers.set_pair(Z80RegisterPair::SP_, displace(sp, 2));
    cpu.state.tick(3, 12);
    Ok(())
}

/// Swaps the two nibbles of `r`.
fn swap(cpu: &mut Z80, r: Z80RegisterName) -> (res: Result<(), Z80Error>)
    requires
        old(cpu)@.has_room(Z80Instruction::SWAP(r)),
    ensures
        executes(old(cpu)@, Z80Instruction::SWAP(r), res, final(cpu)@),
{
    reveal(executes);
    narrow_operand(r)?;
    let t = cpu.state.registers.get(r)?;
    let up = (t & 0xF0) >> 4;  // upper nibble
    let lw = t & 0x0F;  // lower nibble
    assert(((lw << 4) | up) == (t % 16) * 16 + t / 16) by (bit_vector)
        requires
            up == (t & 0xF0) >> 4,
            lw == t & 0x0F,
    ;
    cpu.state.registers.set(r, (lw << 4) | up)?;
    cpu.state.tick(4, 16);
    Ok(())
}

/// `A <- A + r`
fn add_r(cpu: &mut Z80, r: Z80RegisterName) -> (res: Result<(), Z80Error>)
    requires
        old(cpu)@.has_room(Z80Instruction::ADDr(r)),
    ensures
        executes(old(cpu)@, Z80Instruction::ADDr(r), res, final(cpu)@),
{
    reveal(executes);
    narrow_operand(r)?;
    let v = cpu.state.registers.get(r)?;
    cpu.state.registers.add(v, false);
    cpu.state.tick(1, 4);
    Ok(())
}

/// `A <- A + (HL)`
fn add_hlm(cpu: &mut Z80) -> (res: Result<(), Z80Error>)
    requires
        old(cpu)@.has_room(Z80Instruction::ADDmHL),
    ensures
        executes(old(cpu)@, Z80Instruction::ADDmHL, res, final(cpu)@),
{
    reveal(executes);
    let hl = cpu.state.registers.get_pair(Z80RegisterPair::HL);
    let v = cpu.mmu.read_byte(hl)?;
    cpu.state.registers.add(v, false);
    cpu.state.tick(2, 8);
    Ok(())
}

/// `A <- A + n`
fn add_n(cpu: &mut Z80, n: u8) -> (res: Result<(), Z80Error>)
    requires
        old(cpu)@.has_room(Z80Instruction::ADDn(n)),
    ensures
        executes(old(cpu)@, Z80Instruction::ADDn(n), res, final(cpu)@),
{
    reveal(executes);
    cpu.state.registers.add(n, false);
    cpu.state.tick(2, 8);
    Ok(())
}

/// `HL <- HL + rr`. The carry flag tells whether the sum exceeded 16 bits;
/// the other flags are left alone, the zero flag too.
fn add_hl_rr(cpu: &mut Z80, rr: Z80RegisterPair) -> (res: Result<(), Z80Error>)
    requires
        old(cpu)@.has_room(Z80Instruction::ADDHLrr(rr)),
    ensures
        executes(old(cpu)@, Z80Instruction::ADDHLrr(rr), res, final(cpu)@),
{
    reveal(executes);
    let hl = cpu.state.registers.get_pair(Z80RegisterPair::HL);
    let sum: u32 = hl as u32 + cpu.state.registers.get_pair(rr) as u32;
    let f = cpu.state.registers.get(Z80RegisterName::F)?;
    if sum > 0xFFFF {
        cpu.state.registers.set(Z80RegisterName::F, f | FLAG_CARRY)?;
        cpu.state.registers.set_pair(Z80RegisterPair::HL, (sum - 0x1_0000) as u16);
    } else {
        cpu.state.registers.set(Z80RegisterName::F, f & !FLAG_CARRY)?;
        cpu.state.registers.set_pair(Z80RegisterPair::HL, sum as u16);
    }
    cpu.state.tick(3, 12);
    Ok(())
}

/// `SP <- SP + n`. No flag changes.
fn add_sp_n(cpu: &mut Z80, n: i8) -> (res: Result<(), Z80Error>)
    requires
        old(cpu)@.has_room(Z80Instruction::ADDSPn(n)),
    ensures
        executes(old(cpu)@, Z80Instruction::ADDSPn(n), res, final(cpu)@),
{
    reveal(executes);
    let sp = cpu.state.registers.get_pair(Z80RegisterPair::SP_);
    cpu.state.registers.set_pair(Z80RegisterPair::SP_, displace(sp, n));
    cpu.state.tick(4, 16);
    Ok(())
}

/// `A <- A + r + carry`
fn adc_r(cpu: &mut Z80, r: Z80RegisterName) -> (res: Result<(), Z80Error>)
    requires
        old(cpu)@.has_room(Z80Instruction::ADCr(r)),
    ensures
        executes(old(cpu)@, Z80Instruction::ADCr(r), res, final(cpu)@),
{
    reveal(executes);
    narrow_operand(r)?;
    let v = cpu.state.registers.get(r)?;
    cpu.state.registers.add(v, true);
    cpu.state.tick(1, 4);
    Ok(())
}

/// `A <- A + (HL) + carry`
fn adc_hlm(cpu: &mut Z80) -> (res: Result<(), Z80Error>)
    requires
        old(cpu)@.has_room(Z80Instruction::ADCmHL),
    ensures
        executes(old(cpu)@, Z80Instruction::ADCmHL, res, final(cpu)@),
{
    reveal(executes);
    let hl = cpu.state.registers.get_pair(Z80RegisterPair::HL);
    let v = cpu.mmu.read_byte(hl)?;
    cpu.state.registers.add(v, true);
    cpu.state.tick(2, 8);
    Ok(())
}

/// `A <- A + n + carry`
fn adc_n(cpu: &mut Z80, n: u8) -> (res: Result<(), Z80Error>)
    requires
        old(cpu)@.has_room(Z80Instruction::ADCn(n)),
    ensures
        executes(old(cpu)@, Z80Instruction::ADCn(n), res, final(cpu)@),
{
    reveal(executes);
    cpu.state.registers.add(n, true);
    cpu.state.tick(2, 8);
    Ok(())
}

/// `A <- r - A`
fn sub_r(cpu: &mut Z80, r: Z80RegisterName) -> (res: Result<(), Z80Error>)
    requires
        old(cpu)@.has_room(Z80Instruction::SUBr(r)),
    ensures
        executes(old(cpu)@, Z80Instruction::SUBr(r), res, final(cpu)@),
{
    reveal(executes);
    narrow_operand(r)?;
    let v = cpu.state.registers.get(r)?;
    cpu.state.registers.sub(v, false);
    cpu.state.tick(1, 4);
    Ok(())
}

/// `A <- (HL) - A`
fn sub_hlm(cpu: &mut Z80) -> (res: Result<(), Z80Error>)
    requires
        old(cpu)@.has_room(Z80Instruction::SUBmHL),
    ensures
        executes(old(cpu)@, Z80Instruction::SUBmHL, res, final(cpu)@),
{
    reveal(executes);
    let hl = cpu.state.registers.get_pair(Z80RegisterPair::HL);
    let v = cpu.mmu.read_byte(hl)?;
    cpu.state.registers.sub(v, false);
    cpu.state.tick(2, 8);
    Ok(())
}

/// `A <- n - A`
fn sub_n(cpu: &mut Z80, n: u8) -> (res: Result<(), Z80Error>)
    requires
        old(cpu)@.has_room(Z80Instruction::SUBn(n)),
    ensures
        executes(old(cpu)@, Z80Instruction::SUBn(n), res, final(cpu)@),
{
    reveal(executes);
    cpu.state.registers.sub(n, false);
    cpu.state.tick(2, 8);
    Ok(())
}

/// `A <- r - A - borrow`
fn sbc_r(cpu: &mut Z80, r: Z80RegisterName) -> (res: Result<(), Z80Error>)
    requires
        old(cpu)@.has_room(Z80Instruction::SBCr(r)),
    ensures
        executes(old(cpu)@, Z80Instruction::SBCr(r), res, final(cpu)@),
{
    reveal(executes);
    narrow_operand(r)?;
    let v = cpu.state.registers.get(r)?;
    cpu.state.registers.sub(v, true);
    cpu.state.tick(1, 4);
    Ok(())
}

/// `A <- (HL) - A - borrow`
fn sbc_hlm(cpu: &mut Z80) -> (res: Result<(), Z80Error>)
    requires
        old(cpu)@.has_room(Z80Instruction::SBCmHL),
    ensures
        executes(old(cpu)@, Z80Instruction::SBCmHL, res, final(cpu)@),
{
    reveal(executes);
    let hl = cpu.state.registers.get_pair(Z80RegisterPair::HL);
    let v = cpu.mmu.read_byte(hl)?;
    cpu.state.registers.sub(v, true);
    cpu.state.tick(2, 8);
    Ok(())
}

/// `A <- n - A - borrow`
fn sbc_n(cpu: &mut Z80, n: u8) -> (res: Result<(), Z80Error>)
    requires
        old(cpu)@.has_room(Z80Instruction::SBCn(n)),
    ensures
        executes(old(cpu)@, Z80Instruction::SBCn(n), res, final(cpu)@),
{
    reveal(executes);
    cpu.state.registers.sub(n, true);
    cpu.state.tick(2, 8);
    Ok(())
}

/// Refuses an instruction that has no execution rule.
fn no_rule(cpu: &Z80, i: Z80Instruction) -> (res: Result<(), Z80Error>)
    requires
        !i.is_supported(),
    ensures
        executes(cpu@, i, res, cpu@),
{
    reveal(executes);
    Err(Z80Error::UnsupportedInstruction)
}

/// Executes one instruction on `cpu`: performs its rule on the registers
/// and the memory, then advances the clock by its cost. A refused
/// instruction changes nothing.
pub fn dispatch(cpu: &mut Z80, i: Z80Instruction) -> (res: Result<(), Z80Error>)
    requires
        old(cpu)@.has_room(i),
    ensures
        match step(old(cpu)@, i) {
            Ok(next) => res is Ok && final(cpu)@ == next,
            Err(e) => res == Err::<(), Z80Error>(e) && final(cpu)@ == old(cpu)@,
        },
{
    reveal(executes);
    // The rules below are laid out family by family.
    assert(i.is_supported() || i.is_reserved());
    match i {
        // 8-bit loads
        Z80Instruction::LDrr(r1, r2) => ld_rr(cpu, r1, r2),
        Z80Instruction::LDrHLm(r) => ld_r_hlm(cpu, r),
        Z80Instruction::LDHLmr(r) => ld_hlm_r(cpu, r),
        Z80Instruction::LDrn(r, n) => ld_r_n(cpu, r, n),
        Z80Instruction::LDHLmn(n) => ld_hlm_n(cpu, n),
        // 16-bit loads
        Z80Instruction::LDrrmA(rr) => ld_rrm_a(cpu, rr),
        Z80Instruction::LDmmA(nn) => ld_mm_a(cpu, nn),
        Z80Instruction::LDArrm(rr) => ld_a_rrm(cpu, rr),
        Z80Instruction::LDAmm(nn) => ld_a_mm(cpu, nn),
        Z80Instruction::LDrrnn(rr, nn) => ld_rr_nn(cpu, rr, nn),
        Z80Instruction::LDHLmm(nn) => ld_hl_mm(cpu, nn),
        Z80Instruction::LDmmHL(nn) => ld_mm_hl(cpu, nn),
        Z80Instruction::LDHLIA => ld_hli_a(cpu),
        Z80Instruction::LDAHLI => ld_a_hli(cpu),
        Z80Instruction::LDHLDA => ld_hld_a(cpu),
        Z80Instruction::LDAHLD => ld_a_hld(cpu),
        Z80Instruction::LDAIOn(n) => ld_a_io_n(cpu, n),
        Z80Instruction::LDIOnA(n) => ld_io_n_a(cpu, n),
        Z80Instruction::LDAIOC => ld_a_io_c(cpu),
        Z80Instruction::LDIOCA => ld_io_c_a(cpu),
        Z80Instruction::LDHLSPn(n) => ld_hl_sp_n(cpu, n),
        // Stack
        Z80Instruction::PUSH(rr) => push(cpu, rr),
        Z80Instruction::POP(rr) => pop(cpu, rr),
        // Other
        Z80Instruction::SWAP(r) => swap(cpu, r),
        // Arithmetic
        Z80Instruction::ADDr(r) => add_r(cpu, r),
        Z80Instruction::ADDmHL => add_hlm(cpu),
        Z80Instruction::ADDn(n) => add_n(cpu, n),
        Z80Instruction::ADDHLrr(rr) => add_hl_rr(cpu, rr),
        Z80Instruction::ADDSPn(n) => add_sp_n(cpu, n),
        Z80Instruction::ADCr(r) => adc_r(cpu, r),
        Z80Instruction::ADCmHL => adc_hlm(cpu),
        Z80Instruction::ADCn(n) => adc_n(cpu, n),
        Z80Instruction::SUBr(r) => sub_r(cpu, r),
        Z80Instruction::SUBmHL => sub_hlm(cpu),
        Z80Instruction::SUBn(n) => sub_n(cpu, n),
        Z80Instruction::SBCr(r) => sbc_r(cpu, r),
        Z80Instruction::SBCmHL => sbc_hlm(cpu),
        Z80Instruction::SBCn(n) => sbc_n(cpu, n),
        // Exchange, block transfer and search: no rule
        Z80Instruction::EXDEHL
        | Z80Instruction::EXAFAF
        | Z80Instruction::EXX
        | Z80Instruction::EXSPmHL
        | Z80Instruction::LDI
        | Z80Instruction::LDIR
        | Z80Instruction::LDD
        | Z80Instruction::LDDR
        | Z80Instruction::CPI
        | Z80Instruction::CPIR
        | Z80Instruction::CPD
        | Z80Instruction::CPDR => no_rule(cpu, i),
    }
}

impl Z80 {
    /// A CPU with every register zero, the clock at zero and the memory
    /// all zero.
    pub fn new() -> (res: Z80)
        ensures
            res@ == Machine::fresh(),
    {
        Z80 {
            mmu: Z80MMU::new(),
            state: Z80State {
                machine_cycles: 0,
                time_cycles: 0,
                registers: Z80Registers {
                    a: 0,
                    b: 0,
                    c: 0,
                    d: 0,
                    e: 0,
                    h: 0,
                    l: 0,
                    f: 0,
                    pc: 0,
                    sp: 0,
                    i: 0,
                    r: 0,
                },
            },
        }
    }

    /// What holds of every CPU: its memory is `RAM_SIZE` bytes long and each
    /// clock counter fits in 64 bits.
    pub proof fn lemma_view_bounds(&self)
        ensures
            self@.memory.len() == RAM_SIZE,
            i64::MIN <= self@.machine_cycles <= i64::MAX,
            i64::MIN <= self@.time_cycles <= i64::MAX,
    {
        self.mmu.lemma_size();
    }

    /// The registers and the clock, to look at.
    pub fn state(&self) -> (res: &Z80State)
        ensures
            res.registers == self@.registers,
            res.machine_cycles == self@.machine_cycles,
            res.time_cycles == self@.time_cycles,
    {
        &self.state
    }

    /// The register file, to look at.
    pub fn regs(&self) -> (res: &Z80Registers)
        ensures
            *res == self@.registers,
    {
        &self.state.registers
    }

    /// The memory bus, to look at.
    pub fn mmu(&self) -> (res: &Z80MMU)
        ensures
            res@ == self@.memory,
    {
        &self.mmu
    }

    /// Tells whether the clock has room for the cost of `i`, which is what
    /// `exec` asks for.
    pub fn has_room(&self, i: Z80Instruction) -> (res: bool)
        ensures
            res == self@.has_room(i),
    {
        let (m, t) = i.cost();
        self.state.machine_cycles <= i64::MAX - m && self.state.time_cycles <= i64::MAX - t
    }

    /// Executes one instruction: performs its rule on the registers and
    /// the memory, then advances the clock by its cost. A refused
    /// instruction changes nothing.
    pub fn exec(&mut self, i: Z80Instruction) -> (res: Result<(), Z80Error>)
        requires
            old(self)@.has_room(i),
        ensures
            match step(old(self)@, i) {
                Ok(next) => res is Ok && final(self)@ == next,
                Err(e) => res == Err::<(), Z80Error>(e) && final(self)@ == old(self)@,
            },
    {
        dispatch(self, i)
    }

    /// A copy of the registers and the clock as they are now. What is done
    /// to the copy does not reach the CPU.
    pub fn dump(&self) -> (res: Z80State)
        ensures
            res.registers == self@.registers,
            res.machine_cycles == self@.machine_cycles,
            res.time_cycles == self@.time_cycles,
    {
        self.state.clone()
    }
}

} // verus!
