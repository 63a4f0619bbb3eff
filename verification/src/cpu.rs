//! The executable CPU: owns memory, video memory and the register file,
//! and runs the fetch-decode-execute cycle.

pub use crate::isa::{
    Instruction, InvalidOpcode, InvalidRegister, Opcode, OpcodeArg1, OpcodeArg2, OpcodeType,
    Register, VideoOpcode, VideoOpcodeType,
};
pub use crate::machine::{CpuError, Machine, RunState, FREE_MEMORY, VIDEO_MEMORY};
use crate::machine::wrap;
use crate::types::Color;
use vstd::prelude::*;

verus! {

/// The sum of two bytes modulo 256.
fn wrapping_sum(a: u8, b: u8) -> (r: u8)
    ensures
        r == wrap(a + b),
{
    a.wrapping_add(b)
}

/// The difference of two bytes modulo 256.
fn wrapping_difference(a: u8, b: u8) -> (r: u8)
    ensures
        r == wrap(a - b),
{
    a.wrapping_sub(b)
}

/// The product of two bytes modulo 256.
fn wrapping_product(a: u8, b: u8) -> (r: u8)
    ensures
        r == wrap(a * b),
{
    a.wrapping_mul(b)
}

/// The virtual CPU.
pub struct MicroCVMCpu {
    pub memory: Vec<u8>,
    pub video_memory: Vec<Color>,
    pub registers: [u8; 8],
    pub sp: u8,
    pub pc: u8,
    pub flags: u8,
    pub state: RunState,
}

impl View for MicroCVMCpu {
    type V = Machine;

    open spec fn view(&self) -> Machine {
        Machine {
            memory: self.memory@,
            video_memory: self.video_memory@,
            registers: self.registers@,
            sp: self.sp,
            pc: self.pc,
            flags: self.flags,
            state: self.state,
        }
    }
}

impl MicroCVMCpu {
    /// The stores have their fixed sizes.
    pub open spec fn wf(&self) -> bool {
        self@.wf()
    }

    /// A machine with zeroed registers and memory, every pixel at the
    /// baseline colour, ready to run.
    pub fn empty() -> (cpu: Self)
        ensures
            cpu.wf(),
            cpu@ == Machine::initial(),
    {
        let cpu = Self {
            memory: vec![0u8; FREE_MEMORY],
            video_memory: vec![Color::new(0, 0, 0); VIDEO_MEMORY],
            registers: [0u8; 8],
            sp: 0,
            pc: 0,
            flags: 0,
            state: RunState::Running,
        };
        assert(cpu.memory@ =~= Machine::initial().memory);
        assert(cpu.video_memory@ =~= Machine::initial().video_memory);
        assert(cpu.registers@ =~= Machine::initial().registers);
        cpu
    }

    /// The number of operand bytes that follow an opcode byte.
    pub fn get_opcode_argument_count(opcode_type: OpcodeType) -> (n: u8)
        ensures
            n == opcode_type.operand_count(),
    {
        match opcode_type {
            OpcodeType::Inc => 1,
            OpcodeType::Jmp => 1,
            OpcodeType::Mov => 2,
            OpcodeType::Add => 2,
            OpcodeType::Sub => 2,
            OpcodeType::Div => 2,
            OpcodeType::Mul => 2,
            OpcodeType::Load => 2,
            OpcodeType::Store => 2,
            _ => 0,
        }
    }

    /// Decodes the instruction at the program counter. A byte outside the
    /// opcode table decodes as `Nop`; operand addresses wrap modulo 256.
    /// Nothing in the machine changes, the program counter included.
    pub fn create_opcode(&mut self) -> (op: Opcode)
        requires
            old(self).wf(),
        ensures
            *final(self) == *old(self),
            op == old(self)@.fetch(),
            op.wf(),
    {
        let mut current_instruction = Opcode::empty();

        let opcode_byte: u8 = self.memory[self.pc as usize];
        current_instruction.opcode_type = match OpcodeType::try_from(opcode_byte) {
            Ok(t) => t,
            Err(_) => OpcodeType::Nop,
        };

        current_instruction.argument_count = Self::get_opcode_argument_count(
            current_instruction.opcode_type,
        );

        if current_instruction.argument_count >= 1 {
            let arg1: u8 = self.memory[self.pc.wrapping_add(1) as usize];
            current_instruction.arg1 = Some(OpcodeArg1::classify(arg1));
        }
        if current_instruction.argument_count >= 2 {
            let arg2: u8 = self.memory[self.pc.wrapping_add(2) as usize];
            current_instruction.arg2 = Some(OpcodeArg2::classify(arg2));
        }
        current_instruction
    }

    /// Reads a register.
    pub fn read_register(&self, reg: Register) -> (value: u8)
        ensures
            value == self@.register(reg),
    {
        self.registers[reg.to_index() as usize]
    }

    /// Writes a register and nothing else.
    pub fn write_register(&mut self, reg: Register, value: u8)
        ensures
            final(self)@ == old(self)@.with_register(reg, value),
            final(self).wf() == old(self).wf(),
    {
        self.registers[reg.to_index() as usize] = value;
    }

    /// Reads a byte of general memory.
    pub fn read_byte(&self, addr: u8) -> (value: u8)
        requires
            self.wf(),
        ensures
            value == self@.memory[addr as int],
    {
        self.memory[addr as usize]
    }

    /// Writes a byte of general memory and nothing else.
    pub fn write_byte(&mut self, addr: u8, value: u8)
        requires
            old(self).wf(),
        ensures
            final(self).wf(),
            final(self)@ == old(self)@.with_byte(addr, value),
    {
        self.memory[addr as usize] = value;
    }

    /// Replaces the contents of general memory by a program image: memory
    /// is cleared and `bytes` copied to its start. Returns the number of
    /// bytes copied, which is all of them unless the image is larger than
    /// memory; what does not fit is left out. The bytes are not checked to
    /// be instructions.
    pub fn load_program(&mut self, bytes: &[u8]) -> (copied: usize)
        ensures
            old(self).wf() ==> final(self).wf(),
            final(self)@ == old(self)@.loaded(bytes@),
            copied == if bytes@.len() <= FREE_MEMORY {
                bytes@.len()
            } else {
                FREE_MEMORY as nat
            },
    {
        let n: usize = if bytes.len() <= FREE_MEMORY {
            bytes.len()
        } else {
            FREE_MEMORY
        };
        let mut image: Vec<u8> = vec![0u8; FREE_MEMORY];
        let mut i: usize = 0;
        while i < n
            invariant
                i <= n <= FREE_MEMORY,
                n <= bytes@.len(),
                image@.len() == FREE_MEMORY,
                forall|k: int| 0 <= k < i ==> image@[k] == bytes@[k],
                forall|k: int| i <= k < FREE_MEMORY ==> image@[k] == 0u8,
            decreases n - i,
        {
            image[i] = bytes[i];
            i += 1;
        }
        self.memory = image;
        assert(self.memory@ =~= old(self)@.loaded(bytes@).memory);
        n
    }

    /// A copy of video memory for the display: one colour for each pixel,
    /// in order.
    pub fn video_snapshot(&self) -> (pixels: Vec<Color>)
        ensures
            pixels@ == self@.video_memory,
    {
        let pixels = self.video_memory.clone();
        assert(pixels@ =~= self.video_memory@);
        pixels
    }

    /// Executes a video instruction on video memory: see
    /// [`Machine::painted`] for what each opcode does. The length of video
    /// memory never changes.
    pub fn execute_video(&mut self, op: VideoOpcode)
        requires
            old(self).wf(),
        ensures
            final(self).wf(),
            final(self)@ == old(self)@.painted(op),
    {
        match op.opcode_type {
            VideoOpcodeType::Clear => {
                self.video_memory = vec![Color::new(0, 0, 0); VIDEO_MEMORY];
                assert(self.video_memory@ =~= old(self)@.painted(op).video_memory);
            },
            VideoOpcodeType::Fill => {
                let level: u8 = match op.arg1 {
                    Some(b) => b,
                    None => 0,
                };
                let count: u8 = match op.arg2 {
                    Some(b) => b,
                    None => 0,
                };
                let colour = Color::new(level, level, level);
                let mut i: u8 = 0;
                while i < count
                    invariant
                        i <= count,
                        self.video_memory@.len() == VIDEO_MEMORY,
                        self.memory == old(self).memory,
                        self.registers == old(self).registers,
                        self.sp == old(self).sp,
                        self.pc == old(self).pc,
                        self.flags == old(self).flags,
                        self.state == old(self).state,
                        old(self).video_memory@.len() == VIDEO_MEMORY,
                        colour == (Color { r: level, g: level, b: level }),
                        forall|k: int| 0 <= k < i ==> self.video_memory@[k] == colour,
                        forall|k: int|
                            i <= k < VIDEO_MEMORY ==> self.video_memory@[k] == old(
                                self,
                            ).video_memory@[k],
                    decreases count - i,
                {
                    self.video_memory[i as usize] = colour;
                    i += 1;
                }
                assert(self.video_memory@ =~= old(self)@.painted(op).video_memory);
            },
        }
    }

    /// The execute stage: applies one typed instruction to the machine.
    /// A halted machine executes nothing. Arithmetic wraps modulo 256 and
    /// touches no flag. After every instruction but a jump and a halt the
    /// program counter moves past the instruction. A division by zero is
    /// an error and leaves the machine as it was.
    pub fn execute(&mut self, instruction: Instruction) -> (r: Result<(), CpuError>)
        requires
            old(self).wf(),
        ensures
            final(self).wf(),
            match old(self)@.execute(instruction) {
                Ok(m) => r is Ok && final(self)@ == m,
                Err(e) => r == Err::<(), CpuError>(e) && *final(self) == *old(self),
            },
    {
        if self.state == RunState::Halted {
            return Ok(());
        }
        let mut length: u8 = 3;
        match instruction {
            Instruction::Load { dst, addr } => {
                let value: u8 = self.read_byte(addr);
                self.write_register(dst, value);
            },
            Instruction::Store { addr, src } => {
                let value: u8 = self.read_register(src);
                self.write_byte(addr, value);
            },
            Instruction::Add { dst, operand } => {
                let value: u8 = wrapping_sum(self.read_register(dst), operand);
                self.write_register(dst, value);
            },
            Instruction::Sub { dst, operand } => {
                let value: u8 = wrapping_difference(self.read_register(dst), operand);
                self.write_register(dst, value);
            },
            Instruction::Mul { dst, operand } => {
                let value: u8 = wrapping_product(self.read_register(dst), operand);
                self.write_register(dst, value);
            },
            Instruction::Div { dst, operand } => {
                if operand == 0 {
                    return Err(CpuError::DivisionByZero);
                }
                let value: u8 = self.read_register(dst) / operand;
                self.write_register(dst, value);
            },
            Instruction::Mov { dst, operand } => {
                self.write_register(dst, operand);
            },
            Instruction::Inc { dst } => {
                let value: u8 = wrapping_sum(self.read_register(dst), 1);
                self.write_register(dst, value);
                length = 2;
            },
            Instruction::Jmp { target } => {
                self.pc = target;
                return Ok(());
            },
            Instruction::Nop => {
                length = 1;
            },
            Instruction::Hlt => {
                self.state = RunState::Halted;
                return Ok(());
            },
        }
        self.pc = wrapping_sum(self.pc, length);
        Ok(())
    }

    /// One instruction cycle: decodes the instruction at the program
    /// counter, gives its operands their meaning, and executes it. A
    /// halted machine stays as it is, and that is no error. An operand
    /// that must name a register and holds a byte above 7, and a division
    /// by zero, are errors and leave the machine as it was.
    pub fn execute_instruction(&mut self) -> (r: Result<(), CpuError>)
        requires
            old(self).wf(),
        ensures
            final(self).wf(),
            match old(self)@.step() {
                Ok(m) => r is Ok && final(self)@ == m,
                Err(e) => r == Err::<(), CpuError>(e) && *final(self) == *old(self),
            },
    {
        if self.state == RunState::Halted {
            return Ok(());
        }
        let opcode = self.create_opcode();
        match opcode.resolve() {
            Err(e) => Err(CpuError::InvalidRegister(e)),
            Ok(instruction) => self.execute(instruction),
        }
    }
}

} // verus!
