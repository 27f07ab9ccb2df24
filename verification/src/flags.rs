//! The processor's status flags, packed into one byte.

use vstd::prelude::*;

verus! {

/// Bit of the status byte that holds the carry flag.
pub const CARRY_BIT: u8 = 0x01;

/// Bit of the status byte that holds the zero flag.
pub const ZERO_BIT: u8 = 0x02;

/// Bit of the status byte that holds the interrupt-disable flag.
pub const INTERRUPT_DISABLE_BIT: u8 = 0x04;

/// Bit of the status byte that holds the decimal flag.
pub const DECIMAL_BIT: u8 = 0x08;

/// Bit of the status byte that holds the break-command flag.
pub const BREAK_COMMAND_BIT: u8 = 0x10;

/// Bit of the status byte that is reserved.
pub const UNUSED_BIT: u8 = 0x20;

/// Bit of the status byte that holds the overflow flag.
pub const OVERFLOW_BIT: u8 = 0x40;

/// Bit of the status byte that holds the negative flag.
pub const NEGATIVE_BIT: u8 = 0x80;

/// The eight status flags as independent truth values: what a `CpuFlags` stands for.
pub struct Status {
    pub carry: bool,
    pub zero: bool,
    pub interrupt_disable: bool,
    pub decimal: bool,
    pub break_command: bool,
    pub unused: bool,
    pub overflow: bool,
    pub negative: bool,
}

/// The weight of a flag in the status byte: `weight` if the flag is set, else zero.
pub open spec fn flag_weight(flag: bool, weight: int) -> int {
    if flag {
        weight
    } else {
        0
    }
}

impl Status {
    /// The flags with none of them set.
    pub open spec fn cleared() -> Status {
        Status {
            carry: false,
            zero: false,
            interrupt_disable: false,
            decimal: false,
            break_command: false,
            unused: false,
            overflow: false,
            negative: false,
        }
    }

    /// The status byte of these flags: carry is bit 0, zero bit 1,
    /// interrupt-disable bit 2, decimal bit 3, break-command bit 4, the
    /// reserved flag bit 5, overflow bit 6 and negative bit 7.
    pub open spec fn to_byte(self) -> u8 {
        (flag_weight(self.carry, 1) + flag_weight(self.zero, 2) + flag_weight(
            self.interrupt_disable,
            4,
        ) + flag_weight(self.decimal, 8) + flag_weight(self.break_command, 16) + flag_weight(
            self.unused,
            32,
        ) + flag_weight(self.overflow, 64) + flag_weight(self.negative, 128)) as u8
    }

    /// The flags that the status byte `byte` holds.
    pub open spec fn from_byte(byte: u8) -> Status {
        Status {
            carry: byte % 2 == 1,
            zero: (byte / 2) % 2 == 1,
            interrupt_disable: (byte / 4) % 2 == 1,
            decimal: (byte / 8) % 2 == 1,
            break_command: (byte / 16) % 2 == 1,
            unused: (byte / 32) % 2 == 1,
            overflow: (byte / 64) % 2 == 1,
            negative: (byte / 128) % 2 == 1,
        }
    }
}

/// The status flags, one bit each in a single byte.
#[derive(Debug, Clone, Copy)]
pub struct CpuFlags {
    bits: u8,
}

impl View for CpuFlags {
    type V = Status;

    closed spec fn view(&self) -> Status {
        Status {
            carry: self.bits & CARRY_BIT != 0,
            zero: self.bits & ZERO_BIT != 0,
            interrupt_disable: self.bits & INTERRUPT_DISABLE_BIT != 0,
            decimal: self.bits & DECIMAL_BIT != 0,
            break_command: self.bits & BREAK_COMMAND_BIT != 0,
            unused: self.bits & UNUSED_BIT != 0,
            overflow: self.bits & OVERFLOW_BIT != 0,
            negative: self.bits & NEGATIVE_BIT != 0,
        }
    }
}

/// Whether `mask` is the bit of one of the eight flags.
spec fn is_flag_bit(mask: u8) -> bool {
    mask == CARRY_BIT || mask == ZERO_BIT || mask == INTERRUPT_DISABLE_BIT || mask == DECIMAL_BIT
        || mask == BREAK_COMMAND_BIT || mask == UNUSED_BIT || mask == OVERFLOW_BIT || mask
        == NEGATIVE_BIT
}

/// Setting or clearing the bit of one flag decides that flag and leaves the
/// bit of every other flag as it was.
proof fn lemma_one_bit_changes(bits: u8, mask: u8, other: u8)
    by (bit_vector)
    requires
        is_flag_bit(mask),
        is_flag_bit(other),
    ensures
        ((bits | mask) & other != 0) == (other == mask || bits & other != 0),
        ((bits & !mask) & other != 0) == (other != mask && bits & other != 0),
{
}

/// A byte is the sum of the weights of its set bits.
proof fn lemma_byte_is_sum_of_weights(bits: u8)
    by (bit_vector)
    ensures
        bits == flag_weight(bits % 2 == 1, 1) + flag_weight((bits / 2) % 2 == 1, 2) + flag_weight(
            (bits / 4) % 2 == 1,
            4,
        ) + flag_weight((bits / 8) % 2 == 1, 8) + flag_weight((bits / 16) % 2 == 1, 16)
            + flag_weight((bits / 32) % 2 == 1, 32) + flag_weight((bits / 64) % 2 == 1, 64)
            + flag_weight((bits / 128) % 2 == 1, 128),
{
}

/// Each bit of a byte is the parity of the byte divided by the bit's weight.
proof fn lemma_bits_are_weights(bits: u8)
    by (bit_vector)
    ensures
        (bits & CARRY_BIT != 0) == (bits % 2 == 1),
        (bits & ZERO_BIT != 0) == ((bits / 2) % 2 == 1),
        (bits & INTERRUPT_DISABLE_BIT != 0) == ((bits / 4) % 2 == 1),
        (bits & DECIMAL_BIT != 0) == ((bits / 8) % 2 == 1),
        (bits & BREAK_COMMAND_BIT != 0) == ((bits / 16) % 2 == 1),
        (bits & UNUSED_BIT != 0) == ((bits / 32) % 2 == 1),
        (bits & OVERFLOW_BIT != 0) == ((bits / 64) % 2 == 1),
        (bits & NEGATIVE_BIT != 0) == ((bits / 128) % 2 == 1),
{
}

impl CpuFlags {
    /// The flags with none of them set.
    pub fn new() -> (flags: CpuFlags)
        ensures
            flags@ == Status::cleared(),
    {
        proof {
            lemma_bits_are_weights(0);
        }
        CpuFlags { bits: 0 }
    }

    /// The flags that the status byte `byte` holds.
    pub fn from_byte(byte: u8) -> (flags: CpuFlags)
        ensures
            flags@ == Status::from_byte(byte),
    {
        proof {
            lemma_bits_are_weights(byte);
        }
        CpuFlags { bits: byte }
    }

    /// The status byte of these flags.
    pub fn to_byte(&self) -> (byte: u8)
        ensures
            byte == self@.to_byte(),
    {
        proof {
            lemma_bits_are_weights(self.bits);
            lemma_byte_is_sum_of_weights(self.bits);
        }
        self.bits
    }

    /// The byte `bits` with the flag bit `mask` set or cleared as `value` says.
    fn with_bit(bits: u8, mask: u8, value: bool) -> (r: u8)
        requires
            is_flag_bit(mask),
        ensures
            forall|other: u8|
                is_flag_bit(other) ==> (#[trigger] (r & other) != 0) == (if other == mask {
                    value
                } else {
                    bits & other != 0
                }),
    {
        let r: u8 = if value {
            bits | mask
        } else {
            bits & !mask
        };
        assert forall|other: u8| is_flag_bit(other) implies (#[trigger] (r & other) != 0) == (
        if other == mask {
            value
        } else {
            bits & other != 0
        }) by {
            lemma_one_bit_changes(bits, mask, other);
        }
        r
    }

    /// Whether the carry flag is set.
    pub fn carry(&self) -> (value: bool)
        ensures
            value == self@.carry,
    {
        self.bits & CARRY_BIT != 0
    }

    /// Sets or clears the carry flag; the other flags stay as they are.
    pub fn set_carry(&mut self, value: bool)
        ensures
            final(self)@ == (Status { carry: value, ..old(self)@ }),
    {
        self.bits = Self::with_bit(self.bits, CARRY_BIT, value);
    }

    /// Whether the zero flag is set.
    pub fn zero(&self) -> (value: bool)
        ensures
            value == self@.zero,
    {
        self.bits & ZERO_BIT != 0
    }

    /// Sets or clears the zero flag; the other flags stay as they are.
    pub fn set_zero(&mut self, value: bool)
        ensures
            final(self)@ == (Status { zero: value, ..old(self)@ }),
    {
        self.bits = Self::with_bit(self.bits, ZERO_BIT, value);
    }

    /// Whether the interrupt-disable flag is set.
    pub fn interrupt_disable(&self) -> (value: bool)
        ensures
            value == self@.interrupt_disable,
    {
        self.bits & INTERRUPT_DISABLE_BIT != 0
    }

    /// Sets or clears the interrupt-disable flag; the other flags stay as they are.
    pub fn set_interrupt_disable(&mut self, value: bool)
        ensures
            final(self)@ == (Status { interrupt_disable: value, ..old(self)@ }),
    {
        self.bits = Self::with_bit(self.bits, INTERRUPT_DISABLE_BIT, value);
    }

    /// Whether the decimal flag is set.
    pub fn decimal(&self) -> (value: bool)
        ensures
            value == self@.decimal,
    {
        self.bits & DECIMAL_BIT != 0
    }

    /// Sets or clears the decimal flag; the other flags stay as they are.
    pub fn set_decimal(&mut self, value: bool)
        ensures
            final(self)@ == (Status { decimal: value, ..old(self)@ }),
    {
        self.bits = Self::with_bit(self.bits, DECIMAL_BIT, value);
    }

    /// Whether the break-command flag is set.
    pub fn break_command(&self) -> (value: bool)
        ensures
            value == self@.break_command,
    {
        self.bits & BREAK_COMMAND_BIT != 0
    }

    /// Sets or clears the break-command flag; the other flags stay as they are.
    pub fn set_break_command(&mut self, value: bool)
        ensures
            final(self)@ == (Status { break_command: value, ..old(self)@ }),
    {
        self.bits = Self::with_bit(self.bits, BREAK_COMMAND_BIT, value);
    }

    /// Whether the reserved flag is set.
    pub fn unused(&self) -> (value: bool)
        ensures
            value == self@.unused,
    {
        self.bits & UNUSED_BIT != 0
    }

    /// Sets or clears the reserved flag; the other flags stay as they are.
    pub fn set_unused(&mut self, value: bool)
        ensures
            final(self)@ == (Status { unused: value, ..old(self)@ }),
    {
        self.bits = Self::with_bit(self.bits, UNUSED_BIT, value);
    }

    /// Whether the overflow flag is set.
    pub fn overflow(&self) -> (value: bool)
        ensures
            value == self@.overflow,
    {
        self.bits & OVERFLOW_BIT != 0
    }

    /// Sets or clears the overflow flag; the other flags stay as they are.
    pub fn set_overflow(&mut self, value: bool)
        ensures
            final(self)@ == (Status { overflow: value, ..old(self)@ }),
    {
        self.bits = Self::with_bit(self.bits, OVERFLOW_BIT, value);
    }

    /// Whether the negative flag is set.
    pub fn negative(&self) -> (value: bool)
        ensures
            value == self@.negative,
    {
        self.bits & NEGATIVE_BIT != 0
    }

    /// Sets or clears the negative flag; the other flags stay as they are.
    pub fn set_negative(&mut self, value: bool)
        ensures
            final(self)@ == (Status { negative: value, ..old(self)@ }),
    {
        self.bits = Self::with_bit(self.bits, NEGATIVE_BIT, value);
    }
}

impl Default for CpuFlags {
    /// The flags with none of them set.
    fn default() -> (flags: CpuFlags)
        ensures
            flags@ == Status::cleared(),
    {
        CpuFlags::new()
    }
}

/// The flags read from a status byte give that byte back.
pub proof fn lemma_status_byte_round_trip(byte: u8)
    ensures
        Status::from_byte(byte).to_byte() == byte,
{
    lemma_byte_is_sum_of_weights(byte);
}

/// The status byte of any flags holds exactly those flags.
pub proof fn lemma_status_flags_round_trip(status: Status)
    ensures
        Status::from_byte(status.to_byte()) == status,
{
}

} // verus!
