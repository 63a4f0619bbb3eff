//! The machine as a mathematical value, and one instruction cycle as a
//! function on it. Every contract of the executable CPU is stated over
//! this model.

use crate::isa::{
    Instruction, InvalidRegister, Opcode, Register, VideoOpcode, VideoOpcodeType,
};
use crate::types::Color;
use vstd::prelude::*;

verus! {

/// The number of bytes of general memory. Only the low 256 can be reached
/// through 8-bit addresses; the rest is headroom.
pub const FREE_MEMORY: usize = 2097152;

/// The number of pixels of video memory.
pub const VIDEO_MEMORY: usize = 1769472;

/// Whether the machine still executes instructions.
#[derive(Debug, Clone, Copy, PartialEq, Eq, Structural)]
pub enum RunState {
    Running,
    Halted,
}

/// What can go wrong in one instruction cycle.
#[derive(Debug, Clone, Copy, PartialEq, Eq, Structural)]
pub enum CpuError {
    /// An operand that must name a register holds a byte above 7.
    InvalidRegister(InvalidRegister),
    /// A division whose divisor is 0.
    DivisionByZero,
}

/// The value of an integer as a byte, modulo 256.
pub open spec fn wrap(x: int) -> u8 {
    (x % 256) as u8
}

/// The whole state of the machine.
pub struct Machine {
    pub memory: Seq<u8>,
    pub video_memory: Seq<Color>,
    pub registers: Seq<u8>,
    pub sp: u8,
    pub pc: u8,
    pub flags: u8,
    pub state: RunState,
}

impl Machine {
    /// The sizes of the three stores are fixed.
    pub open spec fn wf(self) -> bool {
        &&& self.memory.len() == FREE_MEMORY
        &&& self.video_memory.len() == VIDEO_MEMORY
        &&& self.registers.len() == 8
    }

    /// The machine as it is constructed: everything zero, every pixel at
    /// the baseline colour, running.
    pub open spec fn initial() -> Machine {
        Machine {
            memory: Seq::new(FREE_MEMORY as nat, |i: int| 0u8),
            video_memory: Seq::new(VIDEO_MEMORY as nat, |i: int| Color::baseline()),
            registers: Seq::new(8, |i: int| 0u8),
            sp: 0,
            pc: 0,
            flags: 0,
            state: RunState::Running,
        }
    }

    /// The value of a register.
    pub open spec fn register(self, r: Register) -> u8 {
        self.registers[r.index() as int]
    }

    /// The machine with one register replaced.
    pub open spec fn with_register(self, r: Register, value: u8) -> Machine {
        Machine { registers: self.registers.update(r.index() as int, value), ..self }
    }

    /// The machine with one byte of general memory replaced.
    pub open spec fn with_byte(self, addr: u8, value: u8) -> Machine {
        Machine { memory: self.memory.update(addr as int, value), ..self }
    }

    /// The machine with the program counter moved forward by `n` bytes,
    /// modulo 256.
    pub open spec fn advanced(self, n: int) -> Machine {
        Machine { pc: wrap(self.pc + n), ..self }
    }

    /// The machine with general memory cleared and `bytes` copied to its
    /// start; bytes that do not fit are left out.
    pub open spec fn loaded(self, bytes: Seq<u8>) -> Machine {
        Machine {
            memory: Seq::new(
                FREE_MEMORY as nat,
                |i: int|
                    if i < bytes.len() {
                        bytes[i]
                    } else {
                        0u8
                    },
            ),
            ..self
        }
    }

    /// The effect of a video instruction. `Clear` sets every pixel to the
    /// baseline colour. `Fill` takes a grey level and a count: it sets the
    /// first `count` pixels to the grey of that level and leaves the rest.
    /// Nothing but video memory changes.
    pub open spec fn painted(self, op: VideoOpcode) -> Machine {
        match op.opcode_type {
            VideoOpcodeType::Clear => Machine {
                video_memory: Seq::new(self.video_memory.len(), |i: int| Color::baseline()),
                ..self
            },
            VideoOpcodeType::Fill => Machine {
                video_memory: Seq::new(
                    self.video_memory.len(),
                    |i: int|
                        if i < op.count() {
                            Color { r: op.level(), g: op.level(), b: op.level() }
                        } else {
                            self.video_memory[i]
                        },
                ),
                ..self
            },
        }
    }

    /// What the decoder reads at the program counter: the opcode byte and
    /// the two bytes behind it, each address taken modulo 256.
    pub open spec fn fetch(self) -> Opcode {
        Opcode::of_bytes(
            self.memory[self.pc as int],
            self.memory[wrap(self.pc + 1) as int],
            self.memory[wrap(self.pc + 2) as int],
        )
    }

    /// The effect of one instruction on a running machine, the program
    /// counter left alone.
    pub open spec fn applied(self, i: Instruction) -> Result<Machine, CpuError> {
        match i {
            Instruction::Load { dst, addr } => Ok(self.with_register(dst, self.memory[addr as int])),
            Instruction::Store { addr, src } => Ok(self.with_byte(addr, self.register(src))),
            Instruction::Add { dst, operand } => Ok(
                self.with_register(dst, wrap(self.register(dst) + operand)),
            ),
            Instruction::Sub { dst, operand } => Ok(
                self.with_register(dst, wrap(self.register(dst) - operand)),
            ),
            Instruction::Mul { dst, operand } => Ok(
                self.with_register(dst, wrap(self.register(dst) * operand)),
            ),
            Instruction::Div { dst, operand } => if operand == 0 {
                Err(CpuError::DivisionByZero)
            } else {
                Ok(self.with_register(dst, (self.register(dst) / operand) as u8))
            },
            Instruction::Mov { dst, operand } => Ok(self.with_register(dst, operand)),
            Instruction::Inc { dst } => Ok(self.with_register(dst, wrap(self.register(dst) + 1))),
            Instruction::Jmp { target } => Ok(Machine { pc: target, ..self }),
            Instruction::Nop => Ok(self),
            Instruction::Hlt => Ok(Machine { state: RunState::Halted, ..self }),
        }
    }

    /// The execute stage. A halted machine executes nothing. A running one
    /// applies the instruction and then moves the program counter past it,
    /// unless the instruction is a jump, which sets the counter itself, or
    /// a halt, which freezes it. An instruction that fails changes nothing.
    pub open spec fn execute(self, i: Instruction) -> Result<Machine, CpuError> {
        if self.state == RunState::Halted {
            Ok(self)
        } else {
            match self.applied(i) {
                Err(e) => Err(e),
                Ok(m) => match i {
                    Instruction::Jmp { .. } => Ok(m),
                    Instruction::Hlt => Ok(m),
                    _ => Ok(m.advanced(i.encoded_len())),
                },
            }
        }
    }

    /// One instruction cycle: fetch, decode, execute. A halted machine
    /// stays as it is.
    pub open spec fn step(self) -> Result<Machine, CpuError> {
        if self.state == RunState::Halted {
            Ok(self)
        } else {
            match self.fetch().resolved() {
                Err(e) => Err(CpuError::InvalidRegister(e)),
                Ok(i) => self.execute(i),
            }
        }
    }
}

} // verus!
