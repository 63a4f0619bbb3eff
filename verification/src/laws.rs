//! What holds of every machine: the laws of the instruction cycle, proved
//! from the model that the contracts of the CPU are stated over.

use crate::isa::{Instruction, InvalidRegister, Opcode, OpcodeType, Register};
use crate::machine::{wrap, CpuError, Machine, RunState};
use vstd::prelude::*;

verus! {

impl Machine {
    /// The machine after `n` instruction cycles, or the first error met on
    /// the way.
    pub open spec fn run(self, n: nat) -> Result<Machine, CpuError>
        decreases n,
    {
        if n == 0 {
            Ok(self)
        } else {
            match self.step() {
                Ok(m) => m.run((n - 1) as nat),
                Err(e) => Err(e),
            }
        }
    }
}

/// The two directions of the opcode table agree: every opcode is found
/// under its own byte, and a byte leads to no opcode but the one it encodes.
pub proof fn lemma_opcode_table_round_trip(t: OpcodeType, b: u8)
    ensures
        OpcodeType::lookup(t.byte()) == Some(t),
        OpcodeType::lookup(b) == Some(t) <==> t.byte() == b,
{
}

/// A byte names a register exactly when it is below 8, and then the
/// register it names has that byte as its index.
pub proof fn lemma_register_round_trip(r: Register, b: u8)
    ensures
        r.index() < 8,
        Register::lookup(r.index()) == Some(r),
        Register::lookup(b) is Some <==> b < 8,
        Register::lookup(b) == Some(r) <==> r.index() == b,
{
}

/// A byte outside the opcode table decodes as `Nop` without operands, and
/// the cycle that executes it succeeds and changes neither a register nor
/// memory: on a running machine it only moves the program counter to the
/// next byte.
pub proof fn lemma_unknown_opcode_is_nop(m: Machine)
    requires
        m.wf(),
        OpcodeType::lookup(m.memory[m.pc as int]) is None,
    ensures
        m.fetch() == (Opcode {
            opcode_type: OpcodeType::Nop,
            argument_count: 0,
            arg1: None,
            arg2: None,
        }),
        m.fetch().resolved() == Ok::<Instruction, InvalidRegister>(Instruction::Nop),
        m.step() is Ok,
        m.step().unwrap().registers == m.registers,
        m.step().unwrap().memory == m.memory,
        m.step().unwrap().video_memory == m.video_memory,
        m.step().unwrap().sp == m.sp,
        m.step().unwrap().flags == m.flags,
        m.step().unwrap().state == m.state,
        m.state == RunState::Running ==> m.step().unwrap().pc == wrap(m.pc + 1),
{
}

/// `Add`, `Sub`, `Mul` and `Inc` compute modulo 256, for every value of the
/// register and of the operand, and change no other register.
pub proof fn lemma_arithmetic_wraps(m: Machine, dst: Register, operand: u8)
    requires
        m.wf(),
        m.state == RunState::Running,
    ensures
        m.execute(Instruction::Add { dst, operand }) is Ok,
        m.execute(Instruction::Add { dst, operand }).unwrap().register(dst) == (m.register(dst)
            + operand) % 256,
        m.execute(Instruction::Sub { dst, operand }) is Ok,
        m.execute(Instruction::Sub { dst, operand }).unwrap().register(dst) == (m.register(dst)
            - operand) % 256,
        m.execute(Instruction::Mul { dst, operand }) is Ok,
        m.execute(Instruction::Mul { dst, operand }).unwrap().register(dst) == (m.register(dst)
            * operand) % 256,
        m.execute(Instruction::Inc { dst }) is Ok,
        m.execute(Instruction::Inc { dst }).unwrap().register(dst) == (m.register(dst) + 1) % 256,
        forall|r: Register|
            r != dst ==> {
                &&& #[trigger] m.execute(Instruction::Add { dst, operand }).unwrap().register(r)
                    == m.register(r)
                &&& #[trigger] m.execute(Instruction::Sub { dst, operand }).unwrap().register(r)
                    == m.register(r)
                &&& #[trigger] m.execute(Instruction::Mul { dst, operand }).unwrap().register(r)
                    == m.register(r)
                &&& #[trigger] m.execute(Instruction::Inc { dst }).unwrap().register(r)
                    == m.register(r)
            },
{
}

/// A register that holds 255 holds 0 after `Inc`.
pub proof fn lemma_inc_of_255_is_0(m: Machine, dst: Register)
    requires
        m.wf(),
        m.state == RunState::Running,
        m.register(dst) == 255,
    ensures
        m.execute(Instruction::Inc { dst }).unwrap().register(dst) == 0,
{
}

/// A division by 0 fails with the division-by-zero error, whatever the
/// register holds; and the cycle that meets one in memory fails with it
/// too. (A failed call leaves the machine, and so the destination
/// register, as it was: the contracts of the CPU say so.)
pub proof fn lemma_division_by_zero(m: Machine, dst: Register)
    requires
        m.wf(),
        m.state == RunState::Running,
    ensures
        m.execute(Instruction::Div { dst, operand: 0 }) == Err::<Machine, CpuError>(
            CpuError::DivisionByZero,
        ),
        m.memory[m.pc as int] == 0x08 && m.memory[wrap(m.pc + 1) as int] == dst.index()
            && m.memory[wrap(m.pc + 2) as int] == 0 ==> m.step() == Err::<Machine, CpuError>(
            CpuError::DivisionByZero,
        ),
{
}

/// A division by a number other than 0 succeeds with the quotient.
pub proof fn lemma_division(m: Machine, dst: Register, operand: u8)
    requires
        m.wf(),
        m.state == RunState::Running,
        operand != 0,
    ensures
        m.execute(Instruction::Div { dst, operand }) is Ok,
        m.execute(Instruction::Div { dst, operand }).unwrap().register(dst) == m.register(dst)
            / operand,
{
}

/// The cycle that meets `Mov` with a register `dst` and a number in memory
/// sets that register to the number and moves the program counter by the
/// three bytes of the instruction.
pub proof fn lemma_mov_sets_register(m: Machine, dst: Register, operand: u8)
    requires
        m.wf(),
        m.state == RunState::Running,
        m.memory[m.pc as int] == 0x06,
        m.memory[wrap(m.pc + 1) as int] == dst.index(),
        m.memory[wrap(m.pc + 2) as int] == operand,
    ensures
        m.step() == Ok::<Machine, CpuError>(m.with_register(dst, operand).advanced(3)),
        m.step().unwrap().register(dst) == operand,
        m.step().unwrap().pc == wrap(m.pc + 3),
{
}

/// A jump sets the program counter to its target, whatever the counter
/// was, and changes nothing else: the counter is not moved by the length
/// of the instruction.
pub proof fn lemma_jump_is_absolute(m: Machine, target: u8)
    requires
        m.wf(),
        m.state == RunState::Running,
    ensures
        m.execute(Instruction::Jmp { target }) == Ok::<Machine, CpuError>(
            Machine { pc: target, ..m },
        ),
        m.memory[m.pc as int] == 0x05 && m.memory[wrap(m.pc + 1) as int] == target ==> m.step()
            == Ok::<Machine, CpuError>(Machine { pc: target, ..m }),
{
}

/// After every instruction but a jump and a halt, the program counter has
/// moved by the encoded length of the instruction, modulo 256.
pub proof fn lemma_counter_advances(m: Machine, i: Instruction)
    requires
        m.wf(),
        m.state == RunState::Running,
        !(i is Jmp),
        !(i is Hlt),
        m.execute(i) is Ok,
    ensures
        m.execute(i).unwrap().pc == wrap(m.pc + 1 + i.opcode_type().operand_count()),
{
}

/// Loading a program leaves exactly that program in memory: its bytes at
/// the start, zero behind them, and nothing of what was there before. So
/// a second load gives what it would have given without the first.
pub proof fn lemma_load_leaves_no_residue(m: Machine, first: Seq<u8>, second: Seq<u8>)
    requires
        m.wf(),
    ensures
        m.loaded(second).wf(),
        forall|i: int|
            0 <= i < second.len() && i < m.memory.len() ==> #[trigger] m.loaded(second).memory[i]
                == second[i],
        forall|i: int|
            second.len() <= i < m.memory.len() ==> #[trigger] m.loaded(second).memory[i] == 0,
        m.loaded(first).loaded(second) == m.loaded(second),
{
    assert(m.loaded(first).loaded(second).memory =~= m.loaded(second).memory);
}

/// `Hlt` halts a running machine and changes nothing else, the program
/// counter included.
pub proof fn lemma_halt_halts(m: Machine)
    requires
        m.wf(),
        m.state == RunState::Running,
    ensures
        m.execute(Instruction::Hlt) == Ok::<Machine, CpuError>(
            Machine { state: RunState::Halted, ..m },
        ),
        m.memory[m.pc as int] == 0xFF ==> m.step() == Ok::<Machine, CpuError>(
            Machine { state: RunState::Halted, ..m },
        ),
{
}

/// A halted machine stays as it is, however many cycles follow.
pub proof fn lemma_halted_stays_halted(m: Machine, n: nat)
    requires
        m.state == RunState::Halted,
    ensures
        m.step() == Ok::<Machine, CpuError>(m),
        m.run(n) == Ok::<Machine, CpuError>(m),
    decreases n,
{
    if n > 0 {
        lemma_halted_stays_halted(m, (n - 1) as nat);
    }
}

/// A cycle that succeeds keeps the sizes of the stores, and touches
/// neither video memory nor the stack pointer nor the flags; and the
/// machine halts only by executing `Hlt`.
pub proof fn lemma_step_keeps_shape(m: Machine)
    requires
        m.wf(),
        m.step() is Ok,
    ensures
        m.step().unwrap().wf(),
        m.step().unwrap().video_memory == m.video_memory,
        m.step().unwrap().sp == m.sp,
        m.step().unwrap().flags == m.flags,
        m.state == RunState::Running && m.step().unwrap().state == RunState::Halted
            ==> m.fetch().opcode_type == OpcodeType::Hlt,
{
}

/// A cycle fails with the invalid-register error only on a byte above 7,
/// and that byte is an operand of the instruction at the program counter.
pub proof fn lemma_invalid_register_is_above_7(m: Machine, b: u8)
    requires
        m.wf(),
        m.step() == Err::<Machine, CpuError>(CpuError::InvalidRegister(InvalidRegister(b))),
    ensures
        b >= 8,
        b == m.memory[wrap(m.pc + 1) as int] || b == m.memory[wrap(m.pc + 2) as int],
{
}

} // verus!
