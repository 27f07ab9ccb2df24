//! The machine as a mathematical object: registers, flags and memory, and
//! what one instruction and a run of instructions do to them.

use crate::flags::Status;
use crate::memory::word_at;
use crate::memory::MAX_MEM;
use crate::opcode::decode;
use crate::opcode::InvalidOpcode;
use crate::opcode::Opcode;
use vstd::prelude::*;

verus! {

/// The address from which the processor fetches its first instruction after a reset.
pub const RESET_VECTOR: u16 = 0xFFFC;

/// The stack pointer of a processor that was constructed and not yet reset.
pub const POWER_UP_STACK: u16 = 0x0100;

/// The stack pointer of a processor after a reset.
pub const RESET_STACK: u16 = 0x00FF;

/// `n` reduced to a 16-bit value, as an address or a register wraps around.
pub open spec fn wrap16(n: int) -> u16 {
    (n % 0x1_0000) as u16
}

/// `n` reduced to an 8-bit value, as a zero-page address or a register wraps around.
pub open spec fn wrap8(n: int) -> u8 {
    (n % 0x100) as u8
}

/// The cycles that a run may still start instructions on: `budget`, or none
/// where the last instruction was charged beyond it.
pub open spec fn cycles_left(budget: int) -> nat {
    if budget > 0 {
        budget as nat
    } else {
        0
    }
}

/// Whether `value`, read as a signed byte, is negative: whether its bit 7 is set.
pub open spec fn is_negative(value: u8) -> bool {
    value >= 0x80
}

/// The flags after `value` was loaded: zero and negative describe `value`,
/// the other flags stay as they are.
pub open spec fn load_status(flags: Status, value: u8) -> Status {
    Status { zero: value == 0, negative: is_negative(value), ..flags }
}

/// The sum that an addition with carry forms: accumulator, operand and carry-in.
pub open spec fn adc_sum(accumulator: u8, operand: u8, carry: bool) -> int {
    accumulator + operand + if carry {
        1int
    } else {
        0int
    }
}

/// The accumulator after an addition with carry: the low eight bits of the sum.
pub open spec fn adc_result(accumulator: u8, operand: u8, carry: bool) -> u8 {
    wrap8(adc_sum(accumulator, operand, carry))
}

/// The flags after `operand` and the carry were added to `accumulator`:
/// carry says that the sum did not fit in eight bits, zero and negative
/// describe the result, and overflow says that the two operands have one sign
/// and the result the other. The other flags stay as they are.
pub open spec fn adc_status(flags: Status, accumulator: u8, operand: u8) -> Status {
    let result = adc_result(accumulator, operand, flags.carry);
    Status {
        carry: adc_sum(accumulator, operand, flags.carry) > 0xFF,
        zero: result == 0,
        negative: is_negative(result),
        overflow: is_negative(accumulator) == is_negative(operand) && is_negative(accumulator)
            != is_negative(result),
        ..flags
    }
}

/// The registers and flags of the processor.
pub struct Registers {
    /// Address of the next instruction byte.
    pub program_counter: u16,
    /// Address at which the next byte is pushed.
    pub stack_register: u16,
    pub accumulator: u8,
    pub index_register_x: u8,
    pub index_register_y: u8,
    pub flags: Status,
}

impl Registers {
    /// The registers of a processor that was constructed and not yet reset.
    pub open spec fn power_up() -> Registers {
        Registers {
            program_counter: RESET_VECTOR,
            stack_register: POWER_UP_STACK,
            accumulator: 0,
            index_register_x: 0,
            index_register_y: 0,
            flags: Status::cleared(),
        }
    }

    /// The registers of a processor after a reset.
    pub open spec fn after_reset() -> Registers {
        Registers {
            program_counter: RESET_VECTOR,
            stack_register: RESET_STACK,
            accumulator: 0,
            index_register_x: 0,
            index_register_y: 0,
            flags: Status::cleared(),
        }
    }

    /// The registers with the program counter moved past `count` bytes.
    pub open spec fn past(self, count: int) -> Registers {
        Registers { program_counter: wrap16(self.program_counter + count), ..self }
    }

    /// The registers after `value` was loaded into the accumulator.
    pub open spec fn load(self, value: u8) -> Registers {
        Registers { accumulator: value, flags: load_status(self.flags, value), ..self }
    }

    /// The registers after `operand` and the carry were added to the accumulator.
    pub open spec fn add_with_carry(self, operand: u8) -> Registers {
        Registers {
            accumulator: adc_result(self.accumulator, operand, self.flags.carry),
            flags: adc_status(self.flags, self.accumulator, operand),
            ..self
        }
    }
}

/// A processor together with the memory it runs on.
#[verifier::ext_equal]
pub struct Machine {
    pub cpu: Registers,
    pub memory: Seq<u8>,
}

impl Machine {
    /// The memory holds a byte for every 16-bit address.
    pub open spec fn wf(self) -> bool {
        self.memory.len() == MAX_MEM
    }

    /// The instruction at the program counter, or the byte there if it encodes none.
    pub open spec fn opcode(self) -> Result<Opcode, InvalidOpcode> {
        decode(self.immediate())
    }

    /// The byte at the program counter.
    pub open spec fn immediate(self) -> u8 {
        self.memory[self.cpu.program_counter as int]
    }

    /// The byte at the zero-page address that stands at the program counter.
    pub open spec fn zero_page(self) -> u8 {
        self.memory[self.immediate() as int]
    }

    /// The byte at the zero-page address that stands at the program counter,
    /// offset by index register X; the sum wraps around within the zero page.
    pub open spec fn zero_page_x(self) -> u8 {
        self.memory[wrap8(self.immediate() + self.cpu.index_register_x) as int]
    }

    /// The little-endian word at the program counter.
    pub open spec fn absolute(self) -> u16 {
        word_at(self.memory, self.cpu.program_counter as int)
    }

    /// The machine with the program counter moved past `count` bytes.
    pub open spec fn past(self, count: int) -> Machine {
        Machine { cpu: self.cpu.past(count), ..self }
    }

    /// The machine after `value` was loaded into the accumulator.
    pub open spec fn load(self, value: u8) -> Machine {
        Machine { cpu: self.cpu.load(value), ..self }
    }

    /// The machine after `operand` and the carry were added to the accumulator.
    pub open spec fn add_with_carry(self, operand: u8) -> Machine {
        Machine { cpu: self.cpu.add_with_carry(operand), ..self }
    }

    /// The machine after `value` was pushed: it is stored at the stack
    /// pointer, and the stack pointer is then decremented.
    pub open spec fn push(self, value: u8) -> Machine {
        Machine {
            cpu: Registers { stack_register: wrap16(self.cpu.stack_register - 1), ..self.cpu },
            memory: self.memory.update(self.cpu.stack_register as int, value),
        }
    }

    /// The machine after a call of the subroutine at `target`, the program
    /// counter standing behind the call instruction: the address of the
    /// instruction's last byte is pushed, high byte first, and the program
    /// counter becomes `target`.
    pub open spec fn call(self, target: u16) -> Machine {
        let return_address = wrap16(self.cpu.program_counter - 1);
        let pushed = self.push((return_address / 256) as u8).push((return_address % 256) as u8);
        Machine { cpu: Registers { program_counter: target, ..pushed.cpu }, ..pushed }
    }

    /// The machine after the instruction at the program counter. The opcode
    /// is fetched, the operand is read where the program counter then stands,
    /// the program counter moves past the operand, and the instruction takes
    /// effect. A byte that encodes no instruction is skipped.
    pub open spec fn step(self) -> Machine {
        let fetched = self.past(1);
        match self.opcode() {
            Ok(Opcode::LdaIm) => fetched.past(1).load(fetched.immediate()),
            Ok(Opcode::LdaZp) => fetched.past(1).load(fetched.zero_page()),
            Ok(Opcode::LdaZpx) => fetched.past(1).load(fetched.zero_page_x()),
            Ok(Opcode::AdcIm) => fetched.past(1).add_with_carry(fetched.immediate()),
            Ok(Opcode::AdcZp) => fetched.past(1).add_with_carry(fetched.zero_page()),
            Ok(Opcode::AdcZpx) => fetched.past(1).add_with_carry(fetched.zero_page_x()),
            Ok(Opcode::Jsr) => fetched.past(2).call(fetched.absolute()),
            Err(_) => fetched,
        }
    }

    /// The cycles that the instruction at the program counter is charged.
    /// Fetching a byte that encodes no instruction costs one cycle.
    pub open spec fn step_cycles(self) -> int {
        match self.opcode() {
            Ok(opcode) => opcode.cycles(),
            Err(_) => 1,
        }
    }

    /// The machine after a run on a budget of `budget` cycles. An instruction
    /// is started whenever cycles are left, and a started instruction is
    /// completed and charged in full, even beyond the budget.
    pub open spec fn run(self, budget: int) -> Machine
        decreases cycles_left(budget),
    {
        if budget <= 0 {
            self
        } else {
            self.step().run(budget - self.step_cycles())
        }
    }

    /// The bytes that a run on a budget of `budget` cycles fetches as opcodes
    /// and finds to encode no instruction, in the order of their fetches.
    pub open spec fn rejected(self, budget: int) -> Seq<u8>
        decreases cycles_left(budget),
    {
        if budget <= 0 {
            Seq::empty()
        } else {
            let rest = self.step().rejected(budget - self.step_cycles());
            match self.opcode() {
                Ok(_) => rest,
                Err(invalid) => seq![invalid.number] + rest,
            }
        }
    }
}

/// Every instruction, and every byte that encodes none, costs between one
/// and seven cycles.
pub proof fn lemma_step_costs_cycles(m: Machine)
    ensures
        1 <= m.step_cycles() <= 7,
{
}

/// Every instruction keeps the memory at its full size.
pub proof fn lemma_step_keeps_wf(m: Machine)
    requires
        m.wf(),
    ensures
        m.step().wf(),
{
}

/// A run keeps the memory at its full size.
pub proof fn lemma_run_keeps_wf(m: Machine, budget: int)
    requires
        m.wf(),
    ensures
        m.run(budget).wf(),
    decreases cycles_left(budget),
{
    if budget > 0 {
        lemma_step_keeps_wf(m);
        lemma_step_costs_cycles(m);
        lemma_run_keeps_wf(m.step(), budget - m.step_cycles());
    }
}

/// A load, in every addressing mode, puts its operand into the accumulator,
/// sets the zero flag exactly when it loaded zero and the negative flag
/// exactly when it loaded a byte of 0x80 or more, and touches no other flag.
pub proof fn lemma_load_flags(m: Machine)
    requires
        m.opcode() matches Ok(opcode) && (opcode is LdaIm || opcode is LdaZp || opcode is LdaZpx),
    ensures
        m.step().cpu.accumulator == match m.opcode() {
            Ok(Opcode::LdaIm) => m.past(1).immediate(),
            Ok(Opcode::LdaZp) => m.past(1).zero_page(),
            _ => m.past(1).zero_page_x(),
        },
        m.step().cpu.accumulator == 0x00 ==> m.step().cpu.flags.zero
            && !m.step().cpu.flags.negative,
        0x80 <= m.step().cpu.accumulator <= 0xFF ==> !m.step().cpu.flags.zero
            && m.step().cpu.flags.negative,
        0x01 <= m.step().cpu.accumulator <= 0x7F ==> !m.step().cpu.flags.zero
            && !m.step().cpu.flags.negative,
        m.step().cpu.flags == (Status {
            zero: m.step().cpu.flags.zero,
            negative: m.step().cpu.flags.negative,
            ..m.cpu.flags
        }),
{
}

/// A subroutine call leaves the address of its last byte on the stack, as a
/// little-endian word directly above the new stack pointer. It moves the
/// stack pointer down by two and the program counter to the subroutine, and
/// changes no other register and no other byte of the memory.
pub proof fn lemma_call_stores_return_address(m: Machine, target: u16)
    requires
        m.wf(),
    ensures
        m.call(target).cpu == (Registers {
            program_counter: target,
            stack_register: wrap16(m.cpu.stack_register - 2),
            ..m.cpu
        }),
        word_at(m.call(target).memory, wrap16(m.cpu.stack_register - 1) as int) == wrap16(
            m.cpu.program_counter - 1,
        ),
        forall|addr: int|
            0 <= addr < MAX_MEM && addr != m.cpu.stack_register && addr != wrap16(
                m.cpu.stack_register - 1,
            ) ==> m.call(target).memory[addr] == m.memory[addr],
{
}

/// A byte that encodes no instruction costs one cycle and changes nothing
/// but the program counter, which moves past it.
pub proof fn lemma_invalid_opcode_only_advances(m: Machine)
    requires
        m.opcode() is Err,
    ensures
        m.step().memory == m.memory,
        m.step().cpu == (Registers {
            program_counter: wrap16(m.cpu.program_counter + 1),
            ..m.cpu
        }),
        m.step_cycles() == 1,
{
}

/// On a budget of exactly the cycles that the instruction at the program
/// counter costs, a run executes that one instruction and stops.
pub proof fn lemma_exact_budget_runs_once(m: Machine, budget: int)
    requires
        budget == m.step_cycles(),
    ensures
        m.run(budget) == m.step(),
        m.rejected(budget) == match m.opcode() {
            Ok(_) => Seq::<u8>::empty(),
            Err(invalid) => seq![invalid.number],
        },
{
    assert(m.step().run(0) == m.step());
    assert(m.step().rejected(0) == Seq::<u8>::empty());
}

/// An instruction that is started is completed: on a budget of at least one
/// cycle and at most the cost of the instruction at the program counter, a
/// run executes that one instruction and stops.
pub proof fn lemma_started_instruction_completes(m: Machine, budget: int)
    requires
        0 < budget <= m.step_cycles(),
    ensures
        m.run(budget) == m.step(),
{
    assert(m.step().run(budget - m.step_cycles()) == m.step());
}

/// A run on no budget does nothing.
pub proof fn lemma_empty_budget_runs_nothing(m: Machine, budget: int)
    requires
        budget <= 0,
    ensures
        m.run(budget) == m,
        m.rejected(budget) == Seq::<u8>::empty(),
{
}

} // verus!
