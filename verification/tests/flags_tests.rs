use emu6502::CpuFlags;

fn flags_of(flags: &CpuFlags) -> [bool; 8] {
    [
        flags.carry(),
        flags.zero(),
        flags.interrupt_disable(),
        flags.decimal(),
        flags.break_command(),
        flags.unused(),
        flags.overflow(),
        flags.negative(),
    ]
}

fn set_flag(flags: &mut CpuFlags, index: usize, value: bool) {
    match index {
        0 => flags.set_carry(value),
        1 => flags.set_zero(value),
        2 => flags.set_interrupt_disable(value),
        3 => flags.set_decimal(value),
        4 => flags.set_break_command(value),
        5 => flags.set_unused(value),
        6 => flags.set_overflow(value),
        7 => flags.set_negative(value),
        _ => unreachable!(),
    }
}

#[test]
fn new_flags_are_all_clear() {
    let flags = CpuFlags::new();
    assert_eq!(flags_of(&flags), [false; 8]);
    assert_eq!(flags.to_byte(), 0x00);
}

#[test]
fn default_flags_are_all_clear() {
    let flags = CpuFlags::default();
    assert_eq!(flags_of(&flags), [false; 8]);
    assert_eq!(flags.to_byte(), 0x00);
}

#[test]
fn each_flag_has_its_bit() {
    let mut flags = CpuFlags::new();
    flags.set_carry(true);
    assert_eq!(flags.to_byte(), 0x01);
    let mut flags = CpuFlags::new();
    flags.set_zero(true);
    assert_eq!(flags.to_byte(), 0x02);
    let mut flags = CpuFlags::new();
    flags.set_interrupt_disable(true);
    assert_eq!(flags.to_byte(), 0x04);
    let mut flags = CpuFlags::new();
    flags.set_decimal(true);
    assert_eq!(flags.to_byte(), 0x08);
    let mut flags = CpuFlags::new();
    flags.set_break_command(true);
    assert_eq!(flags.to_byte(), 0x10);
    let mut flags = CpuFlags::new();
    flags.set_unused(true);
    assert_eq!(flags.to_byte(), 0x20);
    let mut flags = CpuFlags::new();
    flags.set_overflow(true);
    assert_eq!(flags.to_byte(), 0x40);
    let mut flags = CpuFlags::new();
    flags.set_negative(true);
    assert_eq!(flags.to_byte(), 0x80);
}

#[test]
fn setting_a_flag_leaves_the_others() {
    let mut byte: u8 = 0;
    loop {
        for index in 0..8usize {
            for value in [false, true] {
                let mut flags = CpuFlags::from_byte(byte);
                let mut expected: [bool; 8] = flags_of(&flags);
                expected[index] = value;
                set_flag(&mut flags, index, value);
                assert_eq!(flags_of(&flags), expected);
            }
        }
        if byte == 0xFF {
            break;
        }
        byte += 1;
    }
}

#[test]
fn a_set_flag_can_be_cleared() {
    let mut flags = CpuFlags::new();
    flags.set_overflow(true);
    flags.set_carry(true);
    assert!(flags.overflow());
    assert!(flags.carry());
    flags.set_overflow(false);
    assert!(!flags.overflow());
    assert!(flags.carry());
    assert_eq!(flags.to_byte(), 0x01);
}

#[test]
fn from_byte_reads_each_bit() {
    assert_eq!(
        flags_of(&CpuFlags::from_byte(0xFF)),
        [true, true, true, true, true, true, true, true]
    );
    assert_eq!(
        flags_of(&CpuFlags::from_byte(0x81)),
        [true, false, false, false, false, false, false, true]
    );
    assert_eq!(
        flags_of(&CpuFlags::from_byte(0x42)),
        [false, true, false, false, false, false, true, false]
    );
    assert_eq!(
        flags_of(&CpuFlags::from_byte(0x3C)),
        [false, false, true, true, true, true, false, false]
    );
}

#[test]
fn status_byte_round_trip() {
    let mut byte: u8 = 0;
    loop {
        assert_eq!(CpuFlags::from_byte(byte).to_byte(), byte);
        if byte == 0xFF {
            break;
        }
        byte += 1;
    }
}

#[test]
fn flags_are_copied_by_value() {
    let mut flags = CpuFlags::new();
    let copy = flags;
    flags.set_zero(true);
    assert!(flags.zero());
    assert!(!copy.zero());
}
