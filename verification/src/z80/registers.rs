use vstd::prelude::*;
use super::error::Z80Error;

verus! {

/// The name of a register.
///
/// `A` to `F` are 8 bits wide. `SP` and `PC` are 16 bits wide and cannot be
/// reached through the 8-bit accessors.
#[derive(Clone, Copy, Debug, PartialEq, Eq, Structural)]
pub enum Z80RegisterName {
    A,
    B,
    C,
    D,
    E,
    H,
    L,
    F,
    SP,
    PC,
}

/// The name of a 16-bit register pair.
///
/// `BC`, `DE`, `HL` and `AF` are each made of two 8-bit registers, the one
/// named first holding the high byte. `SP_` is the stack pointer, a 16-bit
/// register of its own.
#[derive(Clone, Copy, Debug, PartialEq, Eq, Structural)]
pub enum Z80RegisterPair {
    BC,
    DE,
    HL,
    AF,
    SP_,
}

/// Bit of the flags byte that records a result whose low eight bits are zero.
pub const FLAG_ZERO: u8 = 0x80;

/// Bit of the flags byte that records that the last operation subtracted.
pub const FLAG_SUBTRACT: u8 = 0x40;

/// Bit of the flags byte that records a carry out of, or a borrow into, the
/// top bit.
pub const FLAG_CARRY: u8 = 0x10;

impl Z80RegisterName {
    /// Whether the register is 8 bits wide.
    pub open spec fn is_narrow(self) -> bool {
        self != Z80RegisterName::SP && self != Z80RegisterName::PC
    }

    /// Tells whether the register can be read and written as a single byte.
    pub fn narrow(self) -> (res: bool)
        ensures
            res == self.is_narrow(),
    {
        match self {
            Z80RegisterName::SP | Z80RegisterName::PC => false,
            _ => true,
        }
    }
}

impl Z80RegisterPair {
    /// Whether the pair is made of two 8-bit registers.
    pub open spec fn is_composed(self) -> bool {
        self != Z80RegisterPair::SP_
    }

    /// The register that holds the high byte of a composed pair.
    pub open spec fn high(self) -> Z80RegisterName
        recommends
            self.is_composed(),
    {
        match self {
            Z80RegisterPair::BC => Z80RegisterName::B,
            Z80RegisterPair::DE => Z80RegisterName::D,
            Z80RegisterPair::HL => Z80RegisterName::H,
            Z80RegisterPair::AF => Z80RegisterName::A,
            Z80RegisterPair::SP_ => Z80RegisterName::SP,
        }
    }

    /// The register that holds the low byte of a composed pair.
    pub open spec fn low(self) -> Z80RegisterName
        recommends
            self.is_composed(),
    {
        match self {
            Z80RegisterPair::BC => Z80RegisterName::C,
            Z80RegisterPair::DE => Z80RegisterName::E,
            Z80RegisterPair::HL => Z80RegisterName::L,
            Z80RegisterPair::AF => Z80RegisterName::F,
            Z80RegisterPair::SP_ => Z80RegisterName::SP,
        }
    }
}

/// The 16-bit value whose high byte is `high` and whose low byte is `low`.
pub open spec fn compose(high: u8, low: u8) -> u16 {
    (high * 256 + low) as u16
}

/// The high byte of a 16-bit value.
pub open spec fn high_byte(v: u16) -> u8 {
    (v / 256) as u8
}

/// The low byte of a 16-bit value.
pub open spec fn low_byte(v: u16) -> u8 {
    (v % 256) as u8
}

/// The integer `x` reduced to 16 bits, as a 16-bit register holds it.
pub open spec fn wrap16(x: int) -> u16 {
    (x % 0x1_0000) as u16
}

/// The flags byte that has exactly the given flags set.
pub open spec fn flags_byte(zero: bool, subtract: bool, carry: bool) -> u8 {
    ((if zero { 0x80int } else { 0 })
        + (if subtract { 0x40int } else { 0 })
        + (if carry { 0x10int } else { 0 })) as u8
}

/// The register file: eight 8-bit registers, the stack pointer and program
/// counter, and the auxiliary registers `i` and `r`.
#[derive(Clone, Copy, Debug, PartialEq, Eq, Structural)]
pub struct Z80Registers {
    pub a: u8,
    pub b: u8,
    pub c: u8,
    pub d: u8,
    pub e: u8,
    pub h: u8,
    pub l: u8,
    pub f: u8,
    pub pc: u16,
    pub sp: u16,
    pub i: u16,
    pub r: u16,
}

impl Z80Registers {
    /// The register file with every register zero.
    pub open spec fn zeroed() -> Z80Registers {
        Z80Registers { a: 0, b: 0, c: 0, d: 0, e: 0, h: 0, l: 0, f: 0, pc: 0, sp: 0, i: 0, r: 0 }
    }

    /// The byte held by an 8-bit register.
    pub open spec fn reg(self, r: Z80RegisterName) -> u8
        recommends
            r.is_narrow(),
    {
        match r {
            Z80RegisterName::A => self.a,
            Z80RegisterName::B => self.b,
            Z80RegisterName::C => self.c,
            Z80RegisterName::D => self.d,
            Z80RegisterName::E => self.e,
            Z80RegisterName::H => self.h,
            Z80RegisterName::L => self.l,
            Z80RegisterName::F => self.f,
            _ => arbitrary(),
        }
    }

    /// The register file with the 8-bit register `r` holding `val` and all
    /// else as before. For a 16-bit register nothing changes.
    pub open spec fn with(self, r: Z80RegisterName, val: u8) -> Z80Registers {
        match r {
            Z80RegisterName::A => Z80Registers { a: val, ..self },
            Z80RegisterName::B => Z80Registers { b: val, ..self },
            Z80RegisterName::C => Z80Registers { c: val, ..self },
            Z80RegisterName::D => Z80Registers { d: val, ..self },
            Z80RegisterName::E => Z80Registers { e: val, ..self },
            Z80RegisterName::H => Z80Registers { h: val, ..self },
            Z80RegisterName::L => Z80Registers { l: val, ..self },
            Z80RegisterName::F => Z80Registers { f: val, ..self },
            _ => self,
        }
    }

    /// The 16-bit value of a register pair: the stack pointer itself, or
    /// the high register times 256 plus the low register.
    pub open spec fn pair(self, p: Z80RegisterPair) -> u16 {
        match p {
            Z80RegisterPair::BC => compose(self.b, self.c),
            Z80RegisterPair::DE => compose(self.d, self.e),
            Z80RegisterPair::HL => compose(self.h, self.l),
            Z80RegisterPair::AF => compose(self.a, self.f),
            Z80RegisterPair::SP_ => self.sp,
        }
    }

    /// The register file with the pair `p` holding `val` and all else as
    /// before.
    pub open spec fn with_pair(self, p: Z80RegisterPair, val: u16) -> Z80Registers {
        match p {
            Z80RegisterPair::BC => Z80Registers { b: high_byte(val), c: low_byte(val), ..self },
            Z80RegisterPair::DE => Z80Registers { d: high_byte(val), e: low_byte(val), ..self },
            Z80RegisterPair::HL => Z80Registers { h: high_byte(val), l: low_byte(val), ..self },
            Z80RegisterPair::AF => Z80Registers { a: high_byte(val), f: low_byte(val), ..self },
            Z80RegisterPair::SP_ => Z80Registers { sp: val, ..self },
        }
    }

    /// Whether the zero flag is set.
    pub open spec fn zero_flag(self) -> bool {
        self.f & FLAG_ZERO != 0
    }

    /// Whether the subtract flag is set.
    pub open spec fn subtract_flag(self) -> bool {
        self.f & FLAG_SUBTRACT != 0
    }

    /// Whether the carry flag (the borrow flag after a subtraction) is set.
    pub open spec fn carry_flag(self) -> bool {
        self.f & FLAG_CARRY != 0
    }

    /// What an addition or subtraction takes in besides its operands: the
    /// carry flag as 0 or 1 where the operation asks for it, else 0.
    pub open spec fn carry_in(self, wanted: bool) -> int {
        if wanted && self.carry_flag() {
            1
        } else {
            0
        }
    }

    /// The untruncated sum that `add` computes.
    pub open spec fn add_total(self, val: u8, carry: bool) -> int {
        self.a + val + self.carry_in(carry)
    }

    /// The untruncated difference that `sub` computes: the operand minus
    /// the accumulator, minus the incoming borrow.
    pub open spec fn sub_total(self, val: u8, borrow: bool) -> int {
        val - self.a - self.carry_in(borrow)
    }

    /// The register file after `add`.
    pub open spec fn after_add(self, val: u8, carry: bool) -> Z80Registers {
        let total = self.add_total(val, carry);
        Z80Registers {
            a: (total % 256) as u8,
            f: flags_byte(total % 256 == 0, false, total > 255),
            ..self
        }
    }

    /// The register file after `sub`.
    pub open spec fn after_sub(self, val: u8, borrow: bool) -> Z80Registers {
        let total = self.sub_total(val, borrow);
        Z80Registers {
            a: (total % 256) as u8,
            f: flags_byte(total % 256 == 0, true, total < 0),
            ..self
        }
    }

    /// Writes `val` to the 8-bit register `r`.
    ///
    /// A 16-bit register is refused and nothing is written.
    pub fn set(&mut self, r: Z80RegisterName, val: u8) -> (res: Result<(), Z80Error>)
        ensures
            r.is_narrow() ==> res is Ok && *final(self) == old(self).with(r, val),
            !r.is_narrow() ==> res == Err::<(), Z80Error>(Z80Error::InvalidRegisterAccess)
                && *final(self) == *old(self),
    {
        match r {
            Z80RegisterName::A => self.a = val,
            Z80RegisterName::B => self.b = val,
            Z80RegisterName::C => self.c = val,
            Z80RegisterName::D => self.d = val,
            Z80RegisterName::E => self.e = val,
            Z80RegisterName::H => self.h = val,
            Z80RegisterName::L => self.l = val,
            Z80RegisterName::F => self.f = val,
            _ => return Err(Z80Error::InvalidRegisterAccess),
        }
        Ok(())
    }

    /// Reads the 8-bit register `r`. A 16-bit register is refused.
    pub fn get(&self, r: Z80RegisterName) -> (res: Result<u8, Z80Error>)
        ensures
            r.is_narrow() ==> res == Ok::<u8, Z80Error>(self.reg(r)),
            !r.is_narrow() ==> res == Err::<u8, Z80Error>(Z80Error::InvalidRegisterAccess),
    {
        match r {
            Z80RegisterName::A => Ok(self.a),
            Z80RegisterName::B => Ok(self.b),
            Z80RegisterName::C => Ok(self.c),
            Z80RegisterName::D => Ok(self.d),
            Z80RegisterName::E => Ok(self.e),
            Z80RegisterName::H => Ok(self.h),
            Z80RegisterName::L => Ok(self.l),
            Z80RegisterName::F => Ok(self.f),
            _ => Err(Z80Error::InvalidRegisterAccess),
        }
    }

    /// Copies the 8-bit register `r_src` into `r_dest`. No flag changes.
    ///
    /// If either is a 16-bit register the copy is refused and nothing is
    /// written.
    pub fn copy(&mut self, r_dest: Z80RegisterName, r_src: Z80RegisterName) -> (res: Result<
        (),
        Z80Error,
    >)
        ensures
            r_dest.is_narrow() && r_src.is_narrow() ==> res is Ok && *final(self) == old(self).with(
                r_dest,
                old(self).reg(r_src),
            ),
            !(r_dest.is_narrow() && r_src.is_narrow()) ==> res == Err::<(), Z80Error>(
                Z80Error::InvalidRegisterAccess,
            ) && *final(self) == *old(self),
    {
        let val = self.get(r_src)?;
        self.set(r_dest, val)
    }

    /// Writes `val` to the register pair `d`: to the stack pointer, or the
    /// high byte to the pair's first register and the low byte to its second.
    pub fn set_pair(&mut self, d: Z80RegisterPair, val: u16)
        ensures
            *final(self) == old(self).with_pair(d, val),
    {
        let high = (val >> 8) as u8;
        let low = (val & 0xFF) as u8;
        proof {
            assert((val >> 8) == val / 256 && (val >> 8) < 256) by (bit_vector);
            assert((val & 0xFF) == val % 256) by (bit_vector);
        }
        match d {
            Z80RegisterPair::BC => {
                self.b = high;
                self.c = low;
            },
            Z80RegisterPair::DE => {
                self.d = high;
                self.e = low;
            },
            Z80RegisterPair::HL => {
                self.h = high;
                self.l = low;
            },
            Z80RegisterPair::AF => {
                self.a = high;
                self.f = low;
            },
            Z80RegisterPair::SP_ => {
                self.sp = val;
            },
        }
    }

    /// Reads the register pair `d` as one 16-bit value.
    pub fn get_pair(&self, d: Z80RegisterPair) -> (res: u16)
        ensures
            res == self.pair(d),
    {
        let (high, low) = match d {
            Z80RegisterPair::BC => (self.b, self.c),
            Z80RegisterPair::DE => (self.d, self.e),
            Z80RegisterPair::HL => (self.h, self.l),
            Z80RegisterPair::AF => (self.a, self.f),
            Z80RegisterPair::SP_ => return self.sp,
        };
        assert((((high as u16) << 8) | (low as u16)) == high * 256 + low) by (bit_vector);
        ((high as u16) << 8) | (low as u16)
    }

    /// Names the 8-bit register that holds the high byte of `pair`.
    ///
    /// The stack pointer is not made of 8-bit registers and is refused.
    pub fn high_of(pair: Z80RegisterPair) -> (res: Result<Z80RegisterName, Z80Error>)
        ensures
            pair.is_composed() ==> res == Ok::<Z80RegisterName, Z80Error>(pair.high()),
            !pair.is_composed() ==> res == Err::<Z80RegisterName, Z80Error>(
                Z80Error::InvalidRegisterPair,
            ),
    {
        match pair {
            Z80RegisterPair::BC => Ok(Z80RegisterName::B),
            Z80RegisterPair::DE => Ok(Z80RegisterName::D),
            Z80RegisterPair::HL => Ok(Z80RegisterName::H),
            Z80RegisterPair::AF => Ok(Z80RegisterName::A),
            Z80RegisterPair::SP_ => Err(Z80Error::InvalidRegisterPair),
        }
    }

    /// Names the 8-bit register that holds the low byte of `pair`.
    ///
    /// The stack pointer is not made of 8-bit registers and is refused.
    pub fn low_of(pair: Z80RegisterPair) -> (res: Result<Z80RegisterName, Z80Error>)
        ensures
            pair.is_composed() ==> res == Ok::<Z80RegisterName, Z80Error>(pair.low()),
            !pair.is_composed() ==> res == Err::<Z80RegisterName, Z80Error>(
                Z80Error::InvalidRegisterPair,
            ),
    {
        match pair {
            Z80RegisterPair::BC => Ok(Z80RegisterName::C),
            Z80RegisterPair::DE => Ok(Z80RegisterName::E),
            Z80RegisterPair::HL => Ok(Z80RegisterName::L),
            Z80RegisterPair::AF => Ok(Z80RegisterName::F),
            Z80RegisterPair::SP_ => Err(Z80Error::InvalidRegisterPair),
        }
    }
}

impl Z80Registers {
    /// Tells whether the zero flag is set.
    pub fn zero(&self) -> (res: bool)
        ensures
            res == self.zero_flag(),
    {
        self.f & FLAG_ZERO != 0
    }

    /// Tells whether the subtract flag is set.
    pub fn subtract(&self) -> (res: bool)
        ensures
            res == self.subtract_flag(),
    {
        self.f & FLAG_SUBTRACT != 0
    }

    /// Tells whether the carry flag is set.
    pub fn carry(&self) -> (res: bool)
        ensures
            res == self.carry_flag(),
    {
        self.f & FLAG_CARRY != 0
    }

    /// Clears the flags byte, then sets the zero flag if the low eight bits
    /// of `val` are all zero.
    pub fn reset_flags_for_value(&mut self, val: i32)
        ensures
            *final(self) == (Z80Registers { f: flags_byte(val % 256 == 0, false, false), ..*old(self) }),
    {
        self.f = 0;
        assert((val & 0xFF == 0) <==> (val % 256 == 0)) by (bit_vector);
        if (val & 0xFF) == 0 {
            self.f = FLAG_ZERO;
        }
    }

    /// Subtracts the accumulator, and the borrow flag if `borrow` asks for
    /// it, from `val`, and leaves the low eight bits of the difference in the
    /// accumulator.
    ///
    /// The flags byte is rebuilt: the subtract flag is set, the zero flag
    /// tells whether the accumulator is now zero, and the borrow flag tells
    /// whether the difference was negative.
    pub fn sub(&mut self, val: u8, borrow: bool)
        ensures
            *final(self) == old(self).after_sub(val, borrow),
            final(self).subtract_flag(),
            final(self).zero_flag() <==> old(self).sub_total(val, borrow) % 256 == 0,
            final(self).carry_flag() <==> old(self).sub_total(val, borrow) < 0,
            !borrow ==> (final(self).carry_flag() <==> val - old(self).a < 0),
    {
        let borrow_in: i32 = if borrow && self.carry() {
            1
        } else {
            0
        };
        let total: i32 = val as i32 - self.a as i32 - borrow_in;
        self.reset_flags_for_value(total);
        self.f = self.f | FLAG_SUBTRACT;
        if total < 0 {
            self.f = self.f | FLAG_CARRY;
        }
        proof {
            lemma_flag_bits();
            assert((total & 255) == total % 256) by (bit_vector)
                requires
                    -256 <= total <= 255,
            ;
        }
        self.a = (total & 255) as u8;
    }

    /// Adds `val`, and the carry flag if `carry` asks for it, to the
    /// accumulator, and leaves the low eight bits of the sum in the
    /// accumulator.
    ///
    /// The flags byte is rebuilt: the subtract flag is clear, the zero flag
    /// tells whether the accumulator is now zero, and the carry flag tells
    /// whether the sum exceeded 255.
    pub fn add(&mut self, val: u8, carry: bool)
        ensures
            *final(self) == old(self).after_add(val, carry),
            !final(self).subtract_flag(),
            final(self).zero_flag() <==> old(self).add_total(val, carry) % 256 == 0,
            final(self).carry_flag() <==> old(self).add_total(val, carry) > 255,
            !carry ==> (final(self).zero_flag() <==> (old(self).a + val) % 256 == 0),
            !carry ==> (final(self).carry_flag() <==> old(self).a + val > 255),
    {
        let carry_in: i32 = if carry && self.carry() {
            1
        } else {
            0
        };
        let total: i32 = val as i32 + self.a as i32 + carry_in;
        self.reset_flags_for_value(total);
        if total > 255 {
            self.f = self.f | FLAG_CARRY;
        }
        proof {
            lemma_flag_bits();
            assert((total & 255) == total % 256) by (bit_vector)
                requires
                    0 <= total <= 511,
            ;
        }
        self.a = (total & 255) as u8;
    }
}

/// How the flag bits of a flags byte built by `flags_byte` are tested and
/// set.
proof fn lemma_flag_bits()
    ensures
        forall|z: bool, n: bool, c: bool|
            #![trigger flags_byte(z, n, c)]
            {
                let f = flags_byte(z, n, c);
                &&& (f & FLAG_ZERO != 0) == z
                &&& (f & FLAG_SUBTRACT != 0) == n
                &&& (f & FLAG_CARRY != 0) == c
                &&& f | FLAG_SUBTRACT == flags_byte(z, true, c)
                &&& f | FLAG_CARRY == flags_byte(z, n, true)
            },
{
    assert forall|z: bool, n: bool, c: bool| #![trigger flags_byte(z, n, c)] {
        let f = flags_byte(z, n, c);
        &&& (f & FLAG_ZERO != 0) == z
        &&& (f & FLAG_SUBTRACT != 0) == n
        &&& (f & FLAG_CARRY != 0) == c
        &&& f | FLAG_SUBTRACT == flags_byte(z, true, c)
        &&& f | FLAG_CARRY == flags_byte(z, n, true)
    } by {
        let f = flags_byte(z, n, c);
        assert({
            &&& (f & 0x80 != 0) == (f >= 0x80)
            &&& (f & 0x40 != 0) == (f % 0x80 >= 0x40)
            &&& (f & 0x10 != 0) == (f % 0x20 >= 0x10)
            &&& f | 0x40 == (if f & 0x40 != 0 { f as int } else { f + 0x40 })
            &&& f | 0x10 == (if f & 0x10 != 0 { f as int } else { f + 0x10 })
        }) by (bit_vector);
    }
}

/// What is written to an 8-bit register is what is read from it, and no
/// other 8-bit register changes.
pub proof fn lemma_set_then_get(regs: Z80Registers, r: Z80RegisterName, val: u8, other: Z80RegisterName)
    requires
        r.is_narrow(),
    ensures
        regs.with(r, val).reg(r) == val,
        other.is_narrow() && other != r ==> regs.with(r, val).reg(other) == regs.reg(other),
{
}

/// What is written to a register pair is what is read from it. For a pair
/// made of two 8-bit registers, the high register then holds the value
/// shifted right by eight bits, and the low register its low eight bits.
pub proof fn lemma_set_pair_then_get_pair(regs: Z80Registers, p: Z80RegisterPair, val: u16)
    ensures
        regs.with_pair(p, val).pair(p) == val,
        p.is_composed() ==> regs.with_pair(p, val).reg(p.high()) == val >> 8,
        p.is_composed() ==> regs.with_pair(p, val).reg(p.low()) == val & 0xFF,
{
    assert((val >> 8) == val / 256 && (val >> 8) < 256) by (bit_vector);
    assert((val & 0xFF) == val % 256) by (bit_vector);
}

} // verus!
