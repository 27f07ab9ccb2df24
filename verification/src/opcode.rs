//! The instructions that the processor recognises.

use core::convert::TryFrom;
use vstd::prelude::*;

verus! {

/// A recognised instruction: an operation together with its addressing mode.
///
/// The byte that encodes an instruction is given by [`Opcode::to_byte`]; the
/// variants carry no discriminants, so a cast does not give it.
#[derive(Debug, Clone, Copy, PartialEq, Eq, Structural)]
pub enum Opcode {
    /// Load the accumulator with the byte that follows the opcode.
    LdaIm,
    /// Load the accumulator from the zero-page address that follows the opcode.
    LdaZp,
    /// Load the accumulator from the zero-page address that follows the
    /// opcode, offset by index register X.
    LdaZpx,
    /// Jump to the subroutine at the absolute address that follows the opcode.
    Jsr,
    /// Add the byte that follows the opcode, and the carry, to the accumulator.
    AdcIm,
    /// Add the byte at the zero-page address that follows the opcode, and the
    /// carry, to the accumulator.
    AdcZp,
    /// Add the byte at the zero-page address that follows the opcode, offset
    /// by index register X, and the carry, to the accumulator.
    AdcZpx,
}

/// A byte that was fetched as an opcode and is none.
#[derive(Debug, Clone, Copy, PartialEq, Eq, Structural)]
pub struct InvalidOpcode {
    /// The byte that was fetched.
    pub number: u8,
}

impl Opcode {
    /// The byte that encodes this instruction.
    pub open spec fn spec_to_byte(self) -> u8 {
        match self {
            Opcode::LdaIm => 0xA9,
            Opcode::LdaZp => 0x45,
            Opcode::LdaZpx => 0xB5,
            Opcode::Jsr => 0x20,
            Opcode::AdcIm => 0x69,
            Opcode::AdcZp => 0x65,
            Opcode::AdcZpx => 0x75,
        }
    }

    /// The byte that encodes this instruction.
    #[verifier::when_used_as_spec(spec_to_byte)]
    pub fn to_byte(self) -> (byte: u8)
        ensures
            byte == self.spec_to_byte(),
    {
        match self {
            Opcode::LdaIm => 0xA9,
            Opcode::LdaZp => 0x45,
            Opcode::LdaZpx => 0xB5,
            Opcode::Jsr => 0x20,
            Opcode::AdcIm => 0x69,
            Opcode::AdcZp => 0x65,
            Opcode::AdcZpx => 0x75,
        }
    }

    /// The cycles that this instruction is charged, the fetch of its opcode
    /// included: one for each byte fetched, one for each byte read from
    /// memory, one for adding the index register to an address, and two for
    /// each byte pushed onto the stack.
    pub open spec fn cycles(self) -> int {
        match self {
            Opcode::LdaIm | Opcode::AdcIm => 2,
            Opcode::LdaZp | Opcode::AdcZp => 3,
            Opcode::LdaZpx | Opcode::AdcZpx => 4,
            Opcode::Jsr => 7,
        }
    }
}

/// The instruction that `byte` encodes, or the byte itself as an invalid opcode.
pub open spec fn decode(byte: u8) -> Result<Opcode, InvalidOpcode> {
    if byte == Opcode::LdaIm.to_byte() {
        Ok(Opcode::LdaIm)
    } else if byte == Opcode::LdaZp.to_byte() {
        Ok(Opcode::LdaZp)
    } else if byte == Opcode::LdaZpx.to_byte() {
        Ok(Opcode::LdaZpx)
    } else if byte == Opcode::Jsr.to_byte() {
        Ok(Opcode::Jsr)
    } else if byte == Opcode::AdcIm.to_byte() {
        Ok(Opcode::AdcIm)
    } else if byte == Opcode::AdcZp.to_byte() {
        Ok(Opcode::AdcZp)
    } else if byte == Opcode::AdcZpx.to_byte() {
        Ok(Opcode::AdcZpx)
    } else {
        Err(InvalidOpcode { number: byte })
    }
}

impl TryFrom<u8> for Opcode {
    type Error = InvalidOpcode;

    /// Decodes `byte`; a byte that encodes no instruction comes back in the error.
    fn try_from(byte: u8) -> (r: Result<Opcode, InvalidOpcode>)
        ensures
            r == decode(byte),
    {
        match byte {
            0xA9 => Ok(Opcode::LdaIm),
            0x45 => Ok(Opcode::LdaZp),
            0xB5 => Ok(Opcode::LdaZpx),
            0x20 => Ok(Opcode::Jsr),
            0x69 => Ok(Opcode::AdcIm),
            0x65 => Ok(Opcode::AdcZp),
            0x75 => Ok(Opcode::AdcZpx),
            _ => Err(InvalidOpcode { number: byte }),
        }
    }
}

impl vstd::std_specs::convert::TryFromSpecImpl<u8> for Opcode {
    open spec fn obeys_try_from_spec() -> bool {
        true
    }

    open spec fn try_from_spec(byte: u8) -> Result<Opcode, InvalidOpcode> {
        decode(byte)
    }
}

/// Every instruction is decoded from the byte that encodes it.
pub proof fn lemma_decode_inverts_encoding(opcode: Opcode)
    ensures
        decode(opcode.to_byte()) == Ok::<Opcode, InvalidOpcode>(opcode),
{
}

/// A byte decodes to an instruction only if it is that instruction's
/// encoding, and a byte that is refused comes back unchanged in the error.
pub proof fn lemma_decode_is_exact(byte: u8)
    ensures
        match decode(byte) {
            Ok(opcode) => opcode.to_byte() == byte,
            Err(invalid) => invalid.number == byte && forall|opcode: Opcode|
                #[trigger] opcode.to_byte() != byte,
        },
{
}

} // verus!
