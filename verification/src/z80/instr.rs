use vstd::prelude::*;
use super::registers::{Z80RegisterName, Z80RegisterPair};

verus! {

/// A decoded instruction, ready to be executed.
///
/// In the names, `r` is an 8-bit register, `rr` a register pair, `n` an
/// immediate byte, `nn` or `mm` an immediate 16-bit value or address, and `m`
/// after a pair means the byte in memory that the pair points to.
#[derive(Clone, Copy, Debug, PartialEq, Eq, Structural)]
pub enum Z80Instruction {
    // 8-bit loads
    /// `r <- n`
    LDrn(Z80RegisterName, u8),
    /// `r1 <- r2`
    LDrr(Z80RegisterName, Z80RegisterName),
    /// `r <- (HL)`
    LDrHLm(Z80RegisterName),
    /// `(HL) <- r`
    LDHLmr(Z80RegisterName),
    /// `(HL) <- n`
    LDHLmn(u8),
    // 16-bit loads
    /// `(rr) <- A`
    LDrrmA(Z80RegisterPair),
    /// `(nn) <- A`
    LDmmA(u16),
    /// `A <- (rr)`
    LDArrm(Z80RegisterPair),
    /// `A <- (nn)`
    LDAmm(u16),
    /// `rr <- nn`
    LDrrnn(Z80RegisterPair, u16),
    /// `HL <- word at (nn)`
    LDHLmm(u16),
    /// `word at (nn) <- HL`
    LDmmHL(u16),
    /// `(HL) <- A`, then `HL <- HL + 1`
    LDHLIA,
    /// `A <- (HL)`, then `HL <- HL + 1`
    LDAHLI,
    /// `(HL) <- A`, then `HL <- HL - 1`
    LDHLDA,
    /// `A <- (HL)`, then `HL <- HL - 1`
    LDAHLD,
    /// `A <- (0xFF00 + n)`
    LDAIOn(u8),
    /// `(0xFF00 + n) <- A`
    LDIOnA(u8),
    /// `A <- (0xFF00 + C)`
    LDAIOC,
    /// `(0xFF00 + C) <- A`
    LDIOCA,
    /// `HL <- SP + n`, with `n` signed
    LDHLSPn(i8),
    // Stack
    /// Pushes the pair on the stack, high byte first.
    PUSH(Z80RegisterPair),
    /// Pops the pair off the stack, low byte first.
    POP(Z80RegisterPair),
    // Other
    /// Swaps the two nibbles of `r`.
    SWAP(Z80RegisterName),
    // Arithmetic
    /// `A <- A + r`
    ADDr(Z80RegisterName),
    /// `A <- A + (HL)`
    ADDmHL,
    /// `A <- A + n`
    ADDn(u8),
    /// `HL <- HL + rr`
    ADDHLrr(Z80RegisterPair),
    /// `SP <- SP + n`, with `n` signed
    ADDSPn(i8),
    /// `A <- A + r + carry`
    ADCr(Z80RegisterName),
    /// `A <- A + (HL) + carry`
    ADCmHL,
    /// `A <- A + n + carry`
    ADCn(u8),
    /// `A <- r - A`
    SUBr(Z80RegisterName),
    /// `A <- (HL) - A`
    SUBmHL,
    /// `A <- n - A`
    SUBn(u8),
    /// `A <- r - A - borrow`
    SBCr(Z80RegisterName),
    /// `A <- (HL) - A - borrow`
    SBCmHL,
    /// `A <- n - A - borrow`
    SBCn(u8),
    // Exchange, block transfer and search: reserved, without execution rule
    EXDEHL,
    EXAFAF,
    EXX,
    EXSPmHL,
    LDI,
    LDIR,
    LDD,
    LDDR,
    CPI,
    CPIR,
    CPD,
    CPDR,
}

impl Z80Instruction {
    /// An 8-bit load: a byte moves between registers, an immediate and
    /// the byte that `HL` points to.
    #[verifier::inline]
    pub open spec fn is_load8(self) -> bool {
        self is LDrn || self is LDrr || self is LDrHLm || self is LDHLmr || self is LDHLmn
    }

    /// A load that involves a 16-bit address or value.
    #[verifier::inline]
    pub open spec fn is_load16(self) -> bool {
        self is LDrrmA
            || self is LDmmA
            || self is LDArrm
            || self is LDAmm
            || self is LDrrnn
            || self is LDHLmm
            || self is LDmmHL
            || self is LDHLIA
            || self is LDAHLI
            || self is LDHLDA
            || self is LDAHLD
            || self is LDAIOn
            || self is LDIOnA
            || self is LDAIOC
            || self is LDIOCA
            || self is LDHLSPn
    }

    /// A push or a pop.
    #[verifier::inline]
    pub open spec fn is_stack(self) -> bool {
        self is PUSH || self is POP
    }

    /// A bit manipulation.
    #[verifier::inline]
    pub open spec fn is_bit_op(self) -> bool {
        self is SWAP
    }

    /// An 8-bit addition or subtraction on the accumulator.
    #[verifier::inline]
    pub open spec fn is_arith8(self) -> bool {
        self is ADDr
            || self is ADDmHL
            || self is ADDn
            || self is ADCr
            || self is ADCmHL
            || self is ADCn
            || self is SUBr
            || self is SUBmHL
            || self is SUBn
            || self is SBCr
            || self is SBCmHL
            || self is SBCn
    }

    /// A 16-bit addition.
    #[verifier::inline]
    pub open spec fn is_arith16(self) -> bool {
        self is ADDHLrr || self is ADDSPn
    }

    /// An exchange, block transfer or search instruction: reserved, without
    /// execution rule.
    #[verifier::inline]
    pub open spec fn is_reserved(self) -> bool {
        self is EXDEHL
            || self is EXAFAF
            || self is EXX
            || self is EXSPmHL
            || self is LDI
            || self is LDIR
            || self is LDD
            || self is LDDR
            || self is CPI
            || self is CPIR
            || self is CPD
            || self is CPDR
    }

    /// Whether the instruction has an execution rule: every instruction but
    /// the reserved ones has.
    #[verifier::inline]
    pub open spec fn is_supported(self) -> bool {
        ||| self.is_load8()
        ||| self.is_load16()
        ||| self.is_stack()
        ||| self.is_bit_op()
        ||| self.is_arith8()
        ||| self.is_arith16()
    }

    /// Whether the registers that the instruction names are ones it can
    /// work on: an 8-bit operand must be an 8-bit register, and a pair that
    /// is pushed or popped must be made of two 8-bit registers.
    pub open spec fn operands_valid(self) -> bool {
        match self {
            Z80Instruction::LDrn(r, _)
            | Z80Instruction::LDrHLm(r)
            | Z80Instruction::LDHLmr(r)
            | Z80Instruction::SWAP(r)
            | Z80Instruction::ADDr(r)
            | Z80Instruction::ADCr(r)
            | Z80Instruction::SUBr(r)
            | Z80Instruction::SBCr(r) => r.is_narrow(),
            Z80Instruction::LDrr(dest, src) => dest.is_narrow() && src.is_narrow(),
            Z80Instruction::PUSH(rr) | Z80Instruction::POP(rr) => rr.is_composed(),
            _ => true,
        }
    }

    /// The machine cycles and clock ticks that the instruction costs,
    /// whatever its operands. An instruction without execution rule costs
    /// nothing, as it is never executed.
    pub open spec fn cycles(self) -> (int, int) {
        match self {
            Z80Instruction::LDrr(_, _) => (1, 4),
            Z80Instruction::LDrn(_, _) => (2, 8),
            Z80Instruction::LDrHLm(_) => (2, 8),
            Z80Instruction::LDHLmr(_) => (2, 8),
            Z80Instruction::LDHLmn(_) => (3, 12),
            Z80Instruction::LDrrmA(_) => (2, 8),
            Z80Instruction::LDmmA(_) => (4, 16),
            Z80Instruction::LDArrm(_) => (2, 8),
            Z80Instruction::LDAmm(_) => (4, 16),
            Z80Instruction::LDrrnn(_, _) => (3, 12),
            Z80Instruction::LDHLmm(_) => (5, 20),
            Z80Instruction::LDmmHL(_) => (5, 20),
            Z80Instruction::LDHLIA => (2, 8),
            Z80Instruction::LDAHLI => (2, 8),
            Z80Instruction::LDHLDA => (2, 8),
            Z80Instruction::LDAHLD => (2, 8),
            Z80Instruction::LDAIOn(_) => (3, 12),
            Z80Instruction::LDIOnA(_) => (3, 12),
            Z80Instruction::LDAIOC => (2, 8),
            Z80Instruction::LDIOCA => (2, 8),
            Z80Instruction::LDHLSPn(_) => (3, 12),
            Z80Instruction::PUSH(_) => (3, 12),
            Z80Instruction::POP(_) => (3, 12),
            Z80Instruction::SWAP(_) => (4, 16),
            Z80Instruction::ADDr(_) => (1, 4),
            Z80Instruction::ADDmHL => (2, 8),
            Z80Instruction::ADDn(_) => (2, 8),
            Z80Instruction::ADDHLrr(_) => (3, 12),
            Z80Instruction::ADDSPn(_) => (4, 16),
            Z80Instruction::ADCr(_) => (1, 4),
            Z80Instruction::ADCmHL => (2, 8),
            Z80Instruction::ADCn(_) => (2, 8),
            Z80Instruction::SUBr(_) => (1, 4),
            Z80Instruction::SUBmHL => (2, 8),
            Z80Instruction::SUBn(_) => (2, 8),
            Z80Instruction::SBCr(_) => (1, 4),
            Z80Instruction::SBCmHL => (2, 8),
            Z80Instruction::SBCn(_) => (2, 8),
            _ => (0, 0),
        }
    }

    /// The machine cycles and clock ticks that the instruction costs.
    pub fn cost(self) -> (res: (i64, i64))
        ensures
            res.0 == self.cycles().0,
            res.1 == self.cycles().1,
    {
        match self {
            Z80Instruction::LDrr(_, _)
            | Z80Instruction::ADDr(_)
            | Z80Instruction::ADCr(_)
            | Z80Instruction::SUBr(_)
            | Z80Instruction::SBCr(_) => (1, 4),
            Z80Instruction::LDrn(_, _)
            | Z80Instruction::LDrHLm(_)
            | Z80Instruction::LDHLmr(_)
            | Z80Instruction::LDrrmA(_)
            | Z80Instruction::LDArrm(_)
            | Z80Instruction::LDHLIA
            | Z80Instruction::LDAHLI
            | Z80Instruction::LDHLDA
            | Z80Instruction::LDAHLD
            | Z80Instruction::LDAIOC
            | Z80Instruction::LDIOCA
            | Z80Instruction::ADDmHL
            | Z80Instruction::ADDn(_)
            | Z80Instruction::ADCmHL
            | Z80Instruction::ADCn(_)
            | Z80Instruction::SUBmHL
            | Z80Instruction::SUBn(_)
            | Z80Instruction::SBCmHL
            | Z80Instruction::SBCn(_) => (2, 8),
            Z80Instruction::LDHLmn(_)
            | Z80Instruction::LDrrnn(_, _)
            | Z80Instruction::LDAIOn(_)
            | Z80Instruction::LDIOnA(_)
            | Z80Instruction::LDHLSPn(_)
            | Z80Instruction::PUSH(_)
            | Z80Instruction::POP(_)
            | Z80Instruction::ADDHLrr(_) => (3, 12),
            Z80Instruction::LDmmA(_)
            | Z80Instruction::LDAmm(_)
            | Z80Instruction::SWAP(_)
            | Z80Instruction::ADDSPn(_) => (4, 16),
            Z80Instruction::LDHLmm(_) | Z80Instruction::LDmmHL(_) => (5, 20),
            Z80Instruction::EXDEHL
            | Z80Instruction::EXAFAF
            | Z80Instruction::EXX
            | Z80Instruction::EXSPmHL
            | Z80Instruction::LDI
            | Z80Instruction::LDIR
            | Z80Instruction::LDD
            | Z80Instruction::LDDR
            | Z80Instruction::CPI
            | Z80Instruction::CPIR
            | Z80Instruction::CPD
            | Z80Instruction::CPDR => (0, 0),
        }
    }
}

} // verus!
