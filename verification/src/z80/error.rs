use vstd::prelude::*;

verus! {

/// Why an operation of the simulator was refused.
///
/// A refused operation leaves the state it was applied to untouched.
#[derive(Clone, Copy, Debug, PartialEq, Eq, Structural)]
pub enum Z80Error {
    /// The 8-bit accessor was asked for a register that is 16 bits wide.
    InvalidRegisterAccess,
    /// The register pair is not made of two 8-bit registers.
    InvalidRegisterPair,
    /// The instruction belongs to a reserved family and has no execution rule.
    UnsupportedInstruction,
    /// An operand of the instruction names a register or pair that the
    /// instruction cannot work on.
    InvalidOperand,
    /// A byte or word access reaches outside the backing memory region.
    OutOfRangeAddress,
}

} // verus!
