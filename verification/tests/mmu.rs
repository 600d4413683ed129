use rustboy::z80::mmu::RAM_SIZE;
use rustboy::z80::{Z80Error, Z80MMU};

#[test]
fn new_memory_is_all_zero() {
    let mmu = Z80MMU::new();
    assert_eq!(RAM_SIZE, 8192);
    for addr in [0u16, 1, 0x1234, 8190, 8191] {
        assert_eq!(mmu.read_byte(addr), Ok(0));
    }
    assert_eq!(mmu.read_word(0), Ok(0));
}

#[test]
fn a_written_byte_is_read_back() {
    let mut mmu = Z80MMU::new();
    assert_eq!(mmu.write_byte(0x0100, 0xAB), Ok(()));
    assert_eq!(mmu.read_byte(0x0100), Ok(0xAB));
    assert_eq!(mmu.read_byte(0x00FF), Ok(0));
    assert_eq!(mmu.read_byte(0x0101), Ok(0));
    assert_eq!(mmu.write_byte(8191, 0x01), Ok(()));
    assert_eq!(mmu.read_byte(8191), Ok(0x01));
}

#[test]
fn a_written_word_is_read_back() {
    for addr in [0u16, 1, 0x0100, 0x1234, 8189, 8190] {
        for v in [0u16, 1, 0x00FF, 0x0100, 0x1234, 0xABCD, 0xFFFF] {
            let mut mmu = Z80MMU::new();
            assert_eq!(mmu.write_word(addr, v), Ok(()));
            assert_eq!(mmu.read_word(addr), Ok(v));
        }
    }
}

#[test]
fn words_are_little_endian() {
    let mut mmu = Z80MMU::new();
    mmu.write_word(0x0200, 0x1234).unwrap();
    assert_eq!(mmu.read_byte(0x0200), Ok(0x34));
    assert_eq!(mmu.read_byte(0x0201), Ok(0x12));
    assert_eq!(mmu.read_byte(0x0202), Ok(0));
    mmu.write_byte(0x0300, 0xCD).unwrap();
    mmu.write_byte(0x0301, 0xAB).unwrap();
    assert_eq!(mmu.read_word(0x0300), Ok(0xABCD));
}

#[test]
fn byte_access_outside_the_ram_is_reported() {
    let mut mmu = Z80MMU::new();
    for addr in [8192u16, 8193, 0x8000, 0xFF00, 0xFFFF] {
        assert_eq!(mmu.read_byte(addr), Err(Z80Error::OutOfRangeAddress));
        assert_eq!(mmu.write_byte(addr, 1), Err(Z80Error::OutOfRangeAddress));
    }
}

#[test]
fn word_access_needs_both_bytes_backed() {
    let mut mmu = Z80MMU::new();
    assert_eq!(mmu.write_word(8190, 0xBEEF), Ok(()));
    for addr in [8191u16, 8192, 0xFFFE, 0xFFFF] {
        assert_eq!(mmu.read_word(addr), Err(Z80Error::OutOfRangeAddress));
        assert_eq!(mmu.write_word(addr, 0x1234), Err(Z80Error::OutOfRangeAddress));
    }
    // the refused writes stored nothing, not even the byte that was backed
    assert_eq!(mmu.read_byte(8191), Ok(0xBE));
    assert_eq!(mmu.read_byte(8190), Ok(0xEF));
}

#[test]
fn contains_tells_the_backed_addresses() {
    let mmu = Z80MMU::new();
    assert!(mmu.contains(0));
    assert!(mmu.contains(8191));
    assert!(!mmu.contains(8192));
    assert!(!mmu.contains(0xFFFF));
}
