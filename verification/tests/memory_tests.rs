use emu6502::memory::MAX_MEM;
use emu6502::Mem;
use emu6502::MemError;

#[test]
fn new_memory_is_zeroed() {
    let mem = Mem::new();
    let mut addr: usize = 0;
    while addr < MAX_MEM {
        assert_eq!(mem[addr], 0);
        addr += 1;
    }
}

#[test]
fn default_memory_is_zeroed() {
    let mem = Mem::default();
    assert_eq!(mem.read_byte(0), Ok(0));
    assert_eq!(mem.read_byte(0x1234), Ok(0));
    assert_eq!(mem.read_byte(0xFFFF), Ok(0));
}

#[test]
fn memory_holds_65536_bytes() {
    assert_eq!(MAX_MEM, 65536);
}

#[test]
fn write_byte_then_read_byte() {
    let mut mem = Mem::new();
    assert_eq!(mem.write_byte(0x0200, 0xAB), Ok(()));
    assert_eq!(mem.read_byte(0x0200), Ok(0xAB));
    assert_eq!(mem.read_byte(0x01FF), Ok(0));
    assert_eq!(mem.read_byte(0x0201), Ok(0));
}

#[test]
fn write_byte_at_first_and_last_address() {
    let mut mem = Mem::new();
    assert_eq!(mem.write_byte(0, 0x11), Ok(()));
    assert_eq!(mem.write_byte(0xFFFF, 0x22), Ok(()));
    assert_eq!(mem.read_byte(0), Ok(0x11));
    assert_eq!(mem.read_byte(0xFFFF), Ok(0x22));
}

#[test]
fn read_byte_out_of_range_is_refused() {
    let mem = Mem::new();
    assert_eq!(mem.read_byte(65536), Err(MemError::AddressOutOfRange));
    assert_eq!(mem.read_byte(usize::MAX), Err(MemError::AddressOutOfRange));
}

#[test]
fn write_byte_out_of_range_is_refused_and_changes_nothing() {
    let mut mem = Mem::new();
    assert_eq!(mem.write_byte(65536, 0x77), Err(MemError::AddressOutOfRange));
    assert_eq!(mem.write_byte(usize::MAX, 0x77), Err(MemError::AddressOutOfRange));
    let mut addr: usize = 0;
    while addr < MAX_MEM {
        assert_eq!(mem[addr], 0);
        addr += 1;
    }
}

#[test]
fn write_word_is_little_endian() {
    let mut mem = Mem::new();
    assert_eq!(mem.write_word(0x1000, 0xBEEF), Ok(()));
    assert_eq!(mem[0x1000], 0xEF);
    assert_eq!(mem[0x1001], 0xBE);
    assert_eq!(mem[0x0FFF], 0);
    assert_eq!(mem[0x1002], 0);
}

#[test]
fn read_word_is_little_endian() {
    let mut mem = Mem::new();
    mem[0x2000] = 0x34;
    mem[0x2001] = 0x12;
    assert_eq!(mem.read_word(0x2000), Ok(0x1234));
    assert_eq!(mem.read_word(0x2001), Ok(0x0012));
    assert_eq!(mem.read_word(0x1FFF), Ok(0x3400));
}

#[test]
fn word_round_trip_at_every_address() {
    let mut mem = Mem::new();
    let values: [u16; 6] = [0x0000, 0x0001, 0x00FF, 0x0100, 0xA55A, 0xFFFF];
    let mut addr: usize = 0;
    while addr <= 65534 {
        let value: u16 = values[addr % values.len()];
        assert_eq!(mem.write_word(addr, value), Ok(()));
        assert_eq!(mem.read_word(addr), Ok(value));
        addr += 1;
    }
}

#[test]
fn word_round_trip_of_every_value() {
    let mut mem = Mem::new();
    let mut value: u32 = 0;
    while value <= 0xFFFF {
        assert_eq!(mem.write_word(0x4000, value as u16), Ok(()));
        assert_eq!(mem.read_word(0x4000), Ok(value as u16));
        value += 1;
    }
}

#[test]
fn word_at_last_address_wraps_to_address_zero() {
    let mut mem = Mem::new();
    assert_eq!(mem.write_word(0xFFFF, 0x1234), Ok(()));
    assert_eq!(mem[0xFFFF], 0x34);
    assert_eq!(mem[0x0000], 0x12);
    assert_eq!(mem[0x0001], 0);
    assert_eq!(mem[0xFFFE], 0);
    assert_eq!(mem.read_word(0xFFFF), Ok(0x1234));
}

#[test]
fn read_word_at_last_address_takes_high_byte_from_address_zero() {
    let mut mem = Mem::new();
    mem[0xFFFF] = 0xCD;
    mem[0x0000] = 0xAB;
    assert_eq!(mem.read_word(0xFFFF), Ok(0xABCD));
}

#[test]
fn word_at_address_65534_does_not_wrap() {
    let mut mem = Mem::new();
    assert_eq!(mem.write_word(65534, 0xCAFE), Ok(()));
    assert_eq!(mem[0xFFFE], 0xFE);
    assert_eq!(mem[0xFFFF], 0xCA);
    assert_eq!(mem[0x0000], 0);
    assert_eq!(mem.read_word(65534), Ok(0xCAFE));
}

#[test]
fn read_word_out_of_range_is_refused() {
    let mem = Mem::new();
    assert_eq!(mem.read_word(65536), Err(MemError::AddressOutOfRange));
    assert_eq!(mem.read_word(usize::MAX), Err(MemError::AddressOutOfRange));
}

#[test]
fn write_word_out_of_range_is_refused_and_changes_nothing() {
    let mut mem = Mem::new();
    assert_eq!(mem.write_word(65536, 0xFFFF), Err(MemError::AddressOutOfRange));
    assert_eq!(mem.write_word(usize::MAX, 0xFFFF), Err(MemError::AddressOutOfRange));
    assert_eq!(mem[0], 0);
    assert_eq!(mem[1], 0);
    assert_eq!(mem[0xFFFF], 0);
}

#[test]
fn indexing_reads_and_writes_bytes() {
    let mut mem = Mem::new();
    mem[0x00FF] = 0x5A;
    assert_eq!(mem[0x00FF], 0x5A);
    assert_eq!(mem.read_byte(0x00FF), Ok(0x5A));
    mem[0x00FF] += 1;
    assert_eq!(mem[0x00FF], 0x5B);
}

#[test]
fn writes_do_not_disturb_other_addresses() {
    let mut mem = Mem::new();
    mem[0x8000] = 0x01;
    assert_eq!(mem.write_word(0x8002, 0xFFFF), Ok(()));
    assert_eq!(mem[0x8000], 0x01);
    assert_eq!(mem[0x8001], 0x00);
    assert_eq!(mem[0x8004], 0x00);
}
