//! The processor: its registers, and the loop that fetches, decodes and
//! executes instructions against a memory.

use crate::flags::CpuFlags;
use crate::flags::Status;
use crate::memory::lemma_bytes_of_word;
use crate::memory::lemma_word_of_bytes;
use crate::memory::Mem;
use crate::model::cycles_left;
use crate::model::load_status;
use crate::model::Machine;
use crate::model::Registers;
use crate::model::RESET_STACK;
use crate::model::RESET_VECTOR;
use crate::model::POWER_UP_STACK;
use crate::opcode::InvalidOpcode;
use crate::opcode::Opcode;
use core::convert::TryFrom;
use core::ops::IndexMut;
use vstd::prelude::*;

verus! {

/// The processor.
pub struct CPU {
    program_counter: u16,
    stack_register: u16,
    accumulator: u8,
    index_register_x: u8,
    index_register_y: u8,
    flags: CpuFlags,
}

impl View for CPU {
    type V = Registers;

    closed spec fn view(&self) -> Registers {
        Registers {
            program_counter: self.program_counter,
            stack_register: self.stack_register,
            accumulator: self.accumulator,
            index_register_x: self.index_register_x,
            index_register_y: self.index_register_y,
            flags: self.flags@,
        }
    }
}

/// The machine that a processor and a memory form.
pub open spec fn machine(cpu: CPU, memory: Mem) -> Machine {
    Machine { cpu: cpu@, memory: memory@ }
}

/// Bit 7 of a byte is set exactly when the byte is 0x80 or more.
proof fn lemma_sign_bit(value: u8)
    by (bit_vector)
    ensures
        (value & 0x80 != 0) == (value >= 0x80),
{
}

/// Cutting a sum down to a byte keeps its low eight bits.
proof fn lemma_low_byte(sum: u16)
    by (bit_vector)
    ensures
        sum as u8 == sum % 256,
{
}

/// The overflow test on bits holds exactly when both operands have one sign
/// and the result has the other.
proof fn lemma_overflow_bits(accumulator: u8, operand: u8, result: u8)
    by (bit_vector)
    ensures
        (!(accumulator ^ operand) & (accumulator ^ result) & 0x80 != 0) == ((accumulator >= 0x80)
            == (operand >= 0x80) && (accumulator >= 0x80) != (result >= 0x80)),
{
}

impl Default for CPU {
    /// A processor as it is before its first reset.
    fn default() -> (cpu: CPU)
        ensures
            cpu@ == Registers::power_up(),
    {
        CPU {
            program_counter: RESET_VECTOR,
            stack_register: POWER_UP_STACK,
            accumulator: 0,
            index_register_x: 0,
            index_register_y: 0,
            flags: CpuFlags::new(),
        }
    }
}

impl CPU {
    /// Puts the processor into its reset state, whatever state it was in.
    pub fn reset(&mut self)
        ensures
            final(self)@ == Registers::after_reset(),
    {
        self.program_counter = RESET_VECTOR;
        self.stack_register = RESET_STACK;
        self.accumulator = 0;
        self.index_register_x = 0;
        self.index_register_y = 0;
        self.flags = CpuFlags::new();
    }

    /// Runs instructions from the program counter on a budget of `cycles`
    /// cycles. An instruction is started whenever cycles are left and is then
    /// completed, also where it costs more than is left. A byte that encodes no
    /// instruction costs the cycle of its fetch and is skipped; the bytes that
    /// were skipped are returned in the order of their fetches.
    pub fn execute(&mut self, memory: &mut Mem, cycles: u32) -> (rejected: Vec<u8>)
        ensures
            machine(*final(self), *final(memory)) == machine(*old(self), *old(memory)).run(
                cycles as int,
            ),
            rejected@ == machine(*old(self), *old(memory)).rejected(cycles as int),
    {
        let mut remaining: i64 = cycles as i64;
        let mut rejected: Vec<u8> = Vec::new();
        while remaining > 0
            invariant
                -7 < remaining <= u32::MAX,
                machine(*self, *memory).run(remaining as int) == machine(
                    *old(self),
                    *old(memory),
                ).run(cycles as int),
                rejected@ + machine(*self, *memory).rejected(remaining as int) == machine(
                    *old(self),
                    *old(memory),
                ).rejected(cycles as int),
            decreases cycles_left(remaining as int),
        {
            match self.step(&mut remaining, memory) {
                Ok(_) => {},
                Err(invalid) => {
                    rejected.push(invalid.number);
                },
            }
        }
        rejected
    }

    /// Fetches the instruction at the program counter and executes it,
    /// charging `cycles` for each of its operations.
    fn step(&mut self, cycles: &mut i64, memory: &mut Mem) -> (outcome: Result<
        Opcode,
        InvalidOpcode,
    >)
        requires
            *old(cycles) >= i64::MIN + 7,
        ensures
            outcome == machine(*old(self), *old(memory)).opcode(),
            machine(*final(self), *final(memory)) == machine(*old(self), *old(memory)).step(),
            *final(cycles) == *old(cycles) - machine(*old(self), *old(memory)).step_cycles(),
    {
        let instruction: u8 = self.fetch_byte(cycles, memory);
        let outcome = Opcode::try_from(instruction);
        match outcome {
            Ok(Opcode::LdaIm) => {
                self.accumulator = self.fetch_byte(cycles, memory);
                self.lda_set_status();
            },
            Ok(Opcode::LdaZp) => {
                self.accumulator = self.fetch_zero_page(cycles, memory);
                self.lda_set_status();
            },
            Ok(Opcode::LdaZpx) => {
                self.accumulator = self.fetch_zero_page_x(cycles, memory);
                self.lda_set_status();
            },
            Ok(Opcode::AdcIm) => {
                let value: u8 = self.fetch_byte(cycles, memory);
                self.adc(value);
            },
            Ok(Opcode::AdcZp) => {
                let value: u8 = self.fetch_zero_page(cycles, memory);
                self.adc(value);
            },
            Ok(Opcode::AdcZpx) => {
                let value: u8 = self.fetch_zero_page_x(cycles, memory);
                self.adc(value);
            },
            Ok(Opcode::Jsr) => {
                let sub_addr: u16 = self.fetch_word(cycles, memory);
                self.call(sub_addr, cycles, memory);
            },
            Err(_) => {},
        }
        outcome
    }

    /// Fetches the byte at the program counter and moves the program counter
    /// past it. Costs one cycle.
    fn fetch_byte(&mut self, cycles: &mut i64, memory: &Mem) -> (data: u8)
        requires
            *old(cycles) > i64::MIN,
        ensures
            data == machine(*old(self), *memory).immediate(),
            final(self)@ == old(self)@.past(1),
            *final(cycles) == *old(cycles) - 1,
    {
        let data: u8 = memory[self.program_counter as usize];
        self.program_counter = self.program_counter.wrapping_add(1);
        *cycles -= 1;
        data
    }

    /// Fetches the little-endian word at the program counter and moves the
    /// program counter past it. Costs two cycles.
    fn fetch_word(&mut self, cycles: &mut i64, memory: &Mem) -> (data: u16)
        requires
            *old(cycles) > i64::MIN + 1,
        ensures
            data == machine(*old(self), *memory).absolute(),
            final(self)@ == old(self)@.past(2),
            *final(cycles) == *old(cycles) - 2,
    {
        let low_byte: u16 = self.fetch_byte(cycles, memory) as u16;
        let high_byte: u16 = self.fetch_byte(cycles, memory) as u16;
        proof {
            lemma_word_of_bytes(low_byte, high_byte);
        }
        low_byte | (high_byte << 8)
    }

    /// Fetches a zero-page address and reads the byte there. Costs two cycles.
    fn fetch_zero_page(&mut self, cycles: &mut i64, memory: &Mem) -> (data: u8)
        requires
            *old(cycles) > i64::MIN + 1,
        ensures
            data == machine(*old(self), *memory).zero_page(),
            final(self)@ == old(self)@.past(1),
            *final(cycles) == *old(cycles) - 2,
    {
        let addr: u8 = self.fetch_byte(cycles, memory);
        self.read_byte(addr, cycles, memory)
    }

    /// Fetches a zero-page address, adds index register X to it, the sum
    /// wrapping around within the zero page, and reads the byte there. Costs
    /// three cycles, one of them for the addition.
    fn fetch_zero_page_x(&mut self, cycles: &mut i64, memory: &Mem) -> (data: u8)
        requires
            *old(cycles) > i64::MIN + 2,
        ensures
            data == machine(*old(self), *memory).zero_page_x(),
            final(self)@ == old(self)@.past(1),
            *final(cycles) == *old(cycles) - 3,
    {
        let base: u8 = self.fetch_byte(cycles, memory);
        let addr: u8 = base.wrapping_add(self.index_register_x);
        *cycles -= 1;
        self.read_byte(addr, cycles, memory)
    }

    /// Reads the byte at the zero-page address `addr`. Costs one cycle.
    fn read_byte(&self, addr: u8, cycles: &mut i64, memory: &Mem) -> (data: u8)
        requires
            *old(cycles) > i64::MIN,
        ensures
            data == memory@[addr as int],
            *final(cycles) == *old(cycles) - 1,
    {
        *cycles -= 1;
        memory[addr as usize]
    }

    /// Stores `value` at `addr`. Costs one cycle.
    fn write_byte(&self, value: u8, addr: u16, cycles: &mut i64, memory: &mut Mem)
        requires
            *old(cycles) > i64::MIN,
        ensures
            final(memory)@ == old(memory)@.update(addr as int, value),
            *final(cycles) == *old(cycles) - 1,
    {
        *cycles -= 1;
        *memory.index_mut(addr as usize) = value;
    }

    /// Pushes `value` onto the stack: stores it at the stack pointer, then
    /// decrements the stack pointer. Costs two cycles.
    fn push_byte(&mut self, value: u8, cycles: &mut i64, memory: &mut Mem)
        requires
            *old(cycles) > i64::MIN + 1,
        ensures
            machine(*final(self), *final(memory)) == machine(*old(self), *old(memory)).push(value),
            *final(cycles) == *old(cycles) - 2,
    {
        self.write_byte(value, self.stack_register, cycles, memory);
        self.stack_register = self.stack_register.wrapping_sub(1);
        *cycles -= 1;
    }

    /// Calls the subroutine at `target`, the program counter standing behind
    /// the call instruction: pushes the address of the instruction's last
    /// byte, high byte first, and jumps. Costs four cycles.
    fn call(&mut self, target: u16, cycles: &mut i64, memory: &mut Mem)
        requires
            *old(cycles) > i64::MIN + 3,
        ensures
            machine(*final(self), *final(memory)) == machine(*old(self), *old(memory)).call(
                target,
            ),
            *final(cycles) == *old(cycles) - 4,
    {
        let return_addr: u16 = self.program_counter.wrapping_sub(1);
        proof {
            lemma_bytes_of_word(return_addr);
        }
        self.push_byte((return_addr >> 8) as u8, cycles, memory);
        self.push_byte((return_addr & 0xFF) as u8, cycles, memory);
        self.program_counter = target;
    }

    /// Sets the zero and negative flags from the accumulator.
    fn lda_set_status(&mut self)
        ensures
            final(self)@ == (Registers {
                flags: load_status(old(self)@.flags, old(self)@.accumulator),
                ..old(self)@
            }),
    {
        proof {
            lemma_sign_bit(self.accumulator);
        }
        self.flags.set_zero(self.accumulator == 0);
        self.flags.set_negative((self.accumulator & 0b1000_0000) != 0);
    }

    /// Adds `value` and the carry to the accumulator and sets the carry,
    /// zero, negative and overflow flags from the sum.
    fn adc(&mut self, value: u8)
        ensures
            final(self)@ == old(self)@.add_with_carry(value),
    {
        let accumulator: u8 = self.accumulator;
        let carry_in: u16 = if self.flags.carry() {
            1
        } else {
            0
        };
        let sum: u16 = accumulator as u16 + value as u16 + carry_in;
        let result: u8 = #[verifier::truncate] (sum as u8);
        proof {
            lemma_low_byte(sum);
            lemma_sign_bit(result);
            lemma_overflow_bits(accumulator, value, result);
        }
        self.flags.set_carry(sum > 0xFF);
        self.flags.set_zero(result == 0);
        self.flags.set_negative(result & 0x80 != 0);
        self.flags.set_overflow(!(accumulator ^ value) & (accumulator ^ result) & 0x80 != 0);
        self.accumulator = result;
    }

    /// Whether the carry flag is set.
    pub fn get_carry_flag(&self) -> (value: bool)
        ensures
            value == self@.flags.carry,
    {
        self.flags.carry()
    }

    /// Whether the zero flag is set.
    pub fn get_zero_flag(&self) -> (value: bool)
        ensures
            value == self@.flags.zero,
    {
        self.flags.zero()
    }

    /// Whether the interrupt-disable flag is set.
    pub fn get_interrupt_disable_flag(&self) -> (value: bool)
        ensures
            value == self@.flags.interrupt_disable,
    {
        self.flags.interrupt_disable()
    }

    /// Whether the decimal flag is set.
    pub fn get_decimal_flag(&self) -> (value: bool)
        ensures
            value == self@.flags.decimal,
    {
        self.flags.decimal()
    }

    /// Whether the break-command flag is set.
    pub fn get_break_command_flag(&self) -> (value: bool)
        ensures
            value == self@.flags.break_command,
    {
        self.flags.break_command()
    }

    /// Whether the overflow flag is set.
    pub fn get_overflow_flag(&self) -> (value: bool)
        ensures
            value == self@.flags.overflow,
    {
        self.flags.overflow()
    }

    /// Whether the negative flag is set.
    pub fn get_negative_flag(&self) -> (value: bool)
        ensures
            value == self@.flags.negative,
    {
        self.flags.negative()
    }

    /// Sets or clears the carry flag; nothing else changes.
    pub fn set_carry_flag(&mut self, value: bool)
        ensures
            final(self)@ == (Registers {
                flags: Status { carry: value, ..old(self)@.flags },
                ..old(self)@
            }),
    {
        self.flags.set_carry(value);
    }

    /// Sets or clears the zero flag; nothing else changes.
    pub fn set_zero_flag(&mut self, value: bool)
        ensures
            final(self)@ == (Registers {
                flags: Status { zero: value, ..old(self)@.flags },
                ..old(self)@
            }),
    {
        self.flags.set_zero(value);
    }

    /// Sets or clears the interrupt-disable flag; nothing else changes.
    pub fn set_interrupt_disable_flag(&mut self, value: bool)
        ensures
            final(self)@ == (Registers {
                flags: Status { interrupt_disable: value, ..old(self)@.flags },
                ..old(self)@
            }),
    {
        self.flags.set_interrupt_disable(value);
    }

    /// Sets or clears the decimal flag; nothing else changes.
    pub fn set_decimal_flag(&mut self, value: bool)
        ensures
            final(self)@ == (Registers {
                flags: Status { decimal: value, ..old(self)@.flags },
                ..old(self)@
            }),
    {
        self.flags.set_decimal(value);
    }

    /// Sets or clears the break-command flag; nothing else changes.
    pub fn set_break_command_flag(&mut self, value: bool)
        ensures
            final(self)@ == (Registers {
                flags: Status { break_command: value, ..old(self)@.flags },
                ..old(self)@
            }),
    {
        self.flags.set_break_command(value);
    }

    /// Sets or clears the overflow flag; nothing else changes.
    pub fn set_overflow_flag(&mut self, value: bool)
        ensures
            final(self)@ == (Registers {
                flags: Status { overflow: value, ..old(self)@.flags },
                ..old(self)@
            }),
    {
        self.flags.set_overflow(value);
    }

    /// Sets or clears the negative flag; nothing else changes.
    pub fn set_negative_flag(&mut self, value: bool)
        ensures
            final(self)@ == (Registers {
                flags: Status { negative: value, ..old(self)@.flags },
                ..old(self)@
            }),
    {
        self.flags.set_negative(value);
    }

    /// The value of the stack pointer.
    pub fn get_stack_register(&self) -> (value: u16)
        ensures
            value == self@.stack_register,
    {
        self.stack_register
    }

    /// The value of the program counter.
    pub fn get_program_counter(&self) -> (value: u16)
        ensures
            value == self@.program_counter,
    {
        self.program_counter
    }

    /// The value of the accumulator.
    pub fn get_accumulator(&self) -> (value: u8)
        ensures
            value == self@.accumulator,
    {
        self.accumulator
    }

    /// The value of index register X.
    pub fn get_index_register_x(&self) -> (value: u8)
        ensures
            value == self@.index_register_x,
    {
        self.index_register_x
    }

    /// The value of index register Y.
    pub fn get_index_register_y(&self) -> (value: u8)
        ensures
            value == self@.index_register_y,
    {
        self.index_register_y
    }

    /// The status flags.
    pub fn get_flags(&self) -> (flags: CpuFlags)
        ensures
            flags@ == self@.flags,
    {
        self.flags
    }

    /// Sets the accumulator; nothing else changes.
    pub fn set_accumulator(&mut self, value: u8)
        ensures
            final(self)@ == (Registers { accumulator: value, ..old(self)@ }),
    {
        self.accumulator = value;
    }

    /// Sets index register X; nothing else changes.
    pub fn set_index_register_x(&mut self, value: u8)
        ensures
            final(self)@ == (Registers { index_register_x: value, ..old(self)@ }),
    {
        self.index_register_x = value;
    }

    /// Sets index register Y; nothing else changes.
    pub fn set_index_register_y(&mut self, value: u8)
        ensures
            final(self)@ == (Registers { index_register_y: value, ..old(self)@ }),
    {
        self.index_register_y = value;
    }

    /// Sets the program counter; nothing else changes.
    pub fn set_program_counter(&mut self, value: u16)
        ensures
            final(self)@ == (Registers { program_counter: value, ..old(self)@ }),
    {
        self.program_counter = value;
    }

    /// Sets the stack pointer; nothing else changes.
    pub fn set_stack_register(&mut self, value: u16)
        ensures
            final(self)@ == (Registers { stack_register: value, ..old(self)@ }),
    {
        self.stack_register = value;
    }
}

} // verus!
