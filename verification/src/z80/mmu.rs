use vstd::prelude::*;
use super::error::Z80Error;

verus! {

/// The number of bytes of RAM behind the memory bus. Addresses from
/// `RAM_SIZE` on are backed by nothing.
pub const RAM_SIZE: usize = 8192;

/// The byte at `addr`, if `mem` reaches that far.
pub open spec fn mem_read(mem: Seq<u8>, addr: int) -> Result<u8, Z80Error> {
    if 0 <= addr < mem.len() {
        Ok(mem[addr])
    } else {
        Err(Z80Error::OutOfRangeAddress)
    }
}

/// `mem` with the byte at `addr` replaced by `val`, if `mem` reaches that
/// far.
pub open spec fn mem_write(mem: Seq<u8>, addr: int, val: u8) -> Result<Seq<u8>, Z80Error> {
    if 0 <= addr < mem.len() {
        Ok(mem.update(addr, val))
    } else {
        Err(Z80Error::OutOfRangeAddress)
    }
}

/// The little-endian word at `addr`: its low byte is the byte at `addr`, its
/// high byte the byte at `addr + 1`. Both must lie within `mem`.
pub open spec fn mem_read_word(mem: Seq<u8>, addr: int) -> Result<u16, Z80Error> {
    if 0 <= addr && addr + 1 < mem.len() {
        Ok((mem[addr] + 256 * mem[addr + 1]) as u16)
    } else {
        Err(Z80Error::OutOfRangeAddress)
    }
}

/// `mem` with the low byte of `val` at `addr` and its high byte at
/// `addr + 1`. Both must lie within `mem`.
pub open spec fn mem_write_word(mem: Seq<u8>, addr: int, val: u16) -> Result<Seq<u8>, Z80Error> {
    if 0 <= addr && addr + 1 < mem.len() {
        Ok(mem.update(addr, (val % 256) as u8).update(addr + 1, (val / 256) as u8))
    } else {
        Err(Z80Error::OutOfRangeAddress)
    }
}

/// The memory bus: byte-addressable storage reached by 16-bit addresses,
/// of which the first `RAM_SIZE` are backed by RAM.
pub struct Z80MMU {
    ram: [u8; RAM_SIZE],  // 8K RAM
}

impl View for Z80MMU {
    type V = Seq<u8>;

    /// The RAM as a sequence of `RAM_SIZE` bytes, indexed by address.
    closed spec fn view(&self) -> Seq<u8> {
        self.ram@
    }
}

impl Z80MMU {
    /// The bus always backs exactly `RAM_SIZE` bytes.
    pub proof fn lemma_size(&self)
        ensures
            self@.len() == RAM_SIZE,
    {
    }

    /// A bus whose RAM is all zero.
    pub fn new() -> (res: Z80MMU)
        ensures
            res@ == Seq::new(RAM_SIZE as nat, |i: int| 0u8),
    {
        Z80MMU { ram: [0u8; RAM_SIZE] }
    }

    /// Tells whether `addr` is backed by RAM.
    pub fn contains(&self, addr: u16) -> (res: bool)
        ensures
            res == (addr < self@.len()),
    {
        (addr as usize) < RAM_SIZE
    }

    /// Reads the byte at `addr`, or reports that `addr` is not backed.
    pub fn read_byte(&self, addr: u16) -> (res: Result<u8, Z80Error>)
        ensures
            res == mem_read(self@, addr as int),
    {
        if (addr as usize) < RAM_SIZE {
            Ok(self.ram[addr as usize])
        } else {
            Err(Z80Error::OutOfRangeAddress)
        }
    }

    /// Reads the little-endian word at `addr` and `addr + 1`, or reports
    /// that one of the two is not backed.
    pub fn read_word(&self, addr: u16) -> (res: Result<u16, Z80Error>)
        ensures
            res == mem_read_word(self@, addr as int),
    {
        if (addr as usize) < RAM_SIZE - 1 {
            let low = self.ram[addr as usize];
            let high = self.ram[addr as usize + 1];
            assert((((high as u16) << 8) | (low as u16)) == low + 256 * high) by (bit_vector);
            Ok(((high as u16) << 8) | (low as u16))
        } else {
            Err(Z80Error::OutOfRangeAddress)
        }
    }

    /// Stores `val` at `addr`, or reports that `addr` is not backed and
    /// stores nothing.
    pub fn write_byte(&mut self, addr: u16, val: u8) -> (res: Result<(), Z80Error>)
        ensures
            match mem_write(old(self)@, addr as int, val) {
                Ok(mem) => res is Ok && final(self)@ == mem,
                Err(e) => res == Err::<(), Z80Error>(e) && final(self)@ == old(self)@,
            },
    {
        if (addr as usize) < RAM_SIZE {
            self.ram[addr as usize] = val;
            Ok(())
        } else {
            Err(Z80Error::OutOfRangeAddress)
        }
    }

    /// Stores `val` as a little-endian word at `addr` and `addr + 1`, or
    /// reports that one of the two is not backed and stores nothing.
    pub fn write_word(&mut self, addr: u16, val: u16) -> (res: Result<(), Z80Error>)
        ensures
            match mem_write_word(old(self)@, addr as int, val) {
                Ok(mem) => res is Ok && final(self)@ == mem,
                Err(e) => res == Err::<(), Z80Error>(e) && final(self)@ == old(self)@,
            },
    {
        if (addr as usize) < RAM_SIZE - 1 {
            proof {
                assert((val & 0xFF) == val % 256) by (bit_vector);
                assert((val >> 8) == val / 256 && (val >> 8) < 256) by (bit_vector);
            }
            self.ram[addr as usize] = (val & 0xFF) as u8;
            self.ram[addr as usize + 1] = (val >> 8) as u8;
            Ok(())
        } else {
            Err(Z80Error::OutOfRangeAddress)
        }
    }
}

/// A word that was stored can be read back: after `val` is written at
/// `addr`, the word at `addr` is `val`.
pub proof fn lemma_write_word_read_word(mem: Seq<u8>, addr: int, val: u16)
    requires
        0 <= addr,
        addr + 1 < mem.len(),
    ensures
        mem_write_word(mem, addr, val) is Ok,
        mem_read_word(mem_write_word(mem, addr, val).unwrap(), addr) == Ok::<u16, Z80Error>(val),
{
}

/// A byte that was stored can be read back, and no other address changes.
pub proof fn lemma_write_byte_read_byte(mem: Seq<u8>, addr: int, val: u8, other: int)
    requires
        0 <= addr < mem.len(),
    ensures
        mem_write(mem, addr, val) is Ok,
        mem_read(mem_write(mem, addr, val).unwrap(), addr) == Ok::<u8, Z80Error>(val),
        other != addr ==> mem_read(mem_write(mem, addr, val).unwrap(), other) == mem_read(
            mem,
            other,
        ),
{
}

} // verus!
