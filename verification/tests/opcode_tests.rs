use emu6502::InvalidOpcode;
use emu6502::Opcode;

const ALL: [Opcode; 7] = [
    Opcode::LdaIm,
    Opcode::LdaZp,
    Opcode::LdaZpx,
    Opcode::Jsr,
    Opcode::AdcIm,
    Opcode::AdcZp,
    Opcode::AdcZpx,
];

#[test]
fn opcodes_have_their_bytes() {
    assert_eq!(Opcode::LdaIm.to_byte(), 0xA9);
    assert_eq!(Opcode::LdaZp.to_byte(), 0x45);
    assert_eq!(Opcode::LdaZpx.to_byte(), 0xB5);
    assert_eq!(Opcode::Jsr.to_byte(), 0x20);
    assert_eq!(Opcode::AdcIm.to_byte(), 0x69);
    assert_eq!(Opcode::AdcZp.to_byte(), 0x65);
    assert_eq!(Opcode::AdcZpx.to_byte(), 0x75);
}

#[test]
fn bytes_decode_to_their_opcodes() {
    assert_eq!(Opcode::try_from(0xA9), Ok(Opcode::LdaIm));
    assert_eq!(Opcode::try_from(0x45), Ok(Opcode::LdaZp));
    assert_eq!(Opcode::try_from(0xB5), Ok(Opcode::LdaZpx));
    assert_eq!(Opcode::try_from(0x20), Ok(Opcode::Jsr));
    assert_eq!(Opcode::try_from(0x69), Ok(Opcode::AdcIm));
    assert_eq!(Opcode::try_from(0x65), Ok(Opcode::AdcZp));
    assert_eq!(Opcode::try_from(0x75), Ok(Opcode::AdcZpx));
}

#[test]
fn every_opcode_decodes_from_its_own_byte() {
    for opcode in ALL {
        assert_eq!(Opcode::try_from(opcode.to_byte()), Ok(opcode));
    }
}

#[test]
fn unknown_bytes_are_invalid_opcodes() {
    assert_eq!(Opcode::try_from(0x00), Err(InvalidOpcode { number: 0x00 }));
    assert_eq!(Opcode::try_from(0xFF), Err(InvalidOpcode { number: 0xFF }));
    assert_eq!(Opcode::try_from(0xA5), Err(InvalidOpcode { number: 0xA5 }));
    assert_eq!(Opcode::try_from(0xEA), Err(InvalidOpcode { number: 0xEA }));
}

#[test]
fn exactly_seven_bytes_decode() {
    let mut decoded: u32 = 0;
    let mut byte: u8 = 0;
    loop {
        match Opcode::try_from(byte) {
            Ok(opcode) => {
                assert_eq!(opcode.to_byte(), byte);
                decoded += 1;
            }
            Err(invalid) => assert_eq!(invalid.number, byte),
        }
        if byte == 0xFF {
            break;
        }
        byte += 1;
    }
    assert_eq!(decoded, 7);
}

#[test]
fn opcode_bytes_are_distinct() {
    for (i, a) in ALL.iter().enumerate() {
        for (j, b) in ALL.iter().enumerate() {
            assert_eq!(a.to_byte() == b.to_byte(), i == j);
        }
    }
}
