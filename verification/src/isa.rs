//! The instruction set: opcode identities, their byte encoding, operand
//! classification, and the typed instruction an opcode resolves to.

use vstd::prelude::*;
use vstd::std_specs::convert::TryFromSpecImpl;

verus! {

/// The identity of a general instruction, decoded from its first byte.
#[derive(Debug, Clone, Copy, PartialEq, Eq, Structural)]
pub enum OpcodeType {
    Load,
    Store,
    Add,
    Sub,
    Jmp,
    Hlt,
    Mov,
    Inc,
    Div,
    Mul,
    Nop,
}

/// A byte that names no instruction.
#[derive(Debug, Clone, Copy, PartialEq, Eq, Structural)]
pub struct InvalidOpcode(pub u8);

/// A byte that names no register although a register is mandatory.
#[derive(Debug, Clone, Copy, PartialEq, Eq, Structural)]
pub struct InvalidRegister(pub u8);

impl OpcodeType {
    /// The byte that encodes this opcode.
    pub open spec fn byte(self) -> u8 {
        match self {
            OpcodeType::Load => 0x01,
            OpcodeType::Store => 0x02,
            OpcodeType::Add => 0x03,
            OpcodeType::Sub => 0x04,
            OpcodeType::Jmp => 0x05,
            OpcodeType::Mov => 0x06,
            OpcodeType::Inc => 0x07,
            OpcodeType::Div => 0x08,
            OpcodeType::Mul => 0x09,
            OpcodeType::Nop => 0x90,
            OpcodeType::Hlt => 0xFF,
        }
    }

    /// The opcode table read from byte to opcode: `None` for a byte that
    /// encodes no opcode.
    pub open spec fn lookup(b: u8) -> Option<OpcodeType> {
        if b == 0x01 {
            Some(OpcodeType::Load)
        } else if b == 0x02 {
            Some(OpcodeType::Store)
        } else if b == 0x03 {
            Some(OpcodeType::Add)
        } else if b == 0x04 {
            Some(OpcodeType::Sub)
        } else if b == 0x05 {
            Some(OpcodeType::Jmp)
        } else if b == 0x06 {
            Some(OpcodeType::Mov)
        } else if b == 0x07 {
            Some(OpcodeType::Inc)
        } else if b == 0x08 {
            Some(OpcodeType::Div)
        } else if b == 0x09 {
            Some(OpcodeType::Mul)
        } else if b == 0x90 {
            Some(OpcodeType::Nop)
        } else if b == 0xFF {
            Some(OpcodeType::Hlt)
        } else {
            None
        }
    }

    /// The opcode an instruction byte stands for: the one it encodes, and
    /// `Nop` for every byte that encodes none.
    pub open spec fn of_byte(b: u8) -> OpcodeType {
        match OpcodeType::lookup(b) {
            Some(t) => t,
            None => OpcodeType::Nop,
        }
    }

    /// How many operand bytes follow the opcode byte.
    pub open spec fn operand_count(self) -> u8 {
        match self {
            OpcodeType::Load => 2,
            OpcodeType::Store => 2,
            OpcodeType::Add => 2,
            OpcodeType::Sub => 2,
            OpcodeType::Mul => 2,
            OpcodeType::Div => 2,
            OpcodeType::Mov => 2,
            OpcodeType::Inc => 1,
            OpcodeType::Jmp => 1,
            OpcodeType::Nop => 0,
            OpcodeType::Hlt => 0,
        }
    }

    /// The byte that encodes this opcode.
    pub fn to_byte(self) -> (b: u8)
        ensures
            b == self.byte(),
    {
        match self {
            OpcodeType::Load => 0x01,
            OpcodeType::Store => 0x02,
            OpcodeType::Add => 0x03,
            OpcodeType::Sub => 0x04,
            OpcodeType::Jmp => 0x05,
            OpcodeType::Mov => 0x06,
            OpcodeType::Inc => 0x07,
            OpcodeType::Div => 0x08,
            OpcodeType::Mul => 0x09,
            OpcodeType::Nop => 0x90,
            OpcodeType::Hlt => 0xFF,
        }
    }
}

impl TryFrom<u8> for OpcodeType {
    type Error = InvalidOpcode;

    /// Looks the byte up in the opcode table; a byte outside the table is
    /// handed back inside the error.
    fn try_from(value: u8) -> (r: Result<Self, InvalidOpcode>) {
        match value {
            0x01 => Ok(OpcodeType::Load),
            0x02 => Ok(OpcodeType::Store),
            0x03 => Ok(OpcodeType::Add),
            0x04 => Ok(OpcodeType::Sub),
            0x05 => Ok(OpcodeType::Jmp),
            0x06 => Ok(OpcodeType::Mov),
            0x07 => Ok(OpcodeType::Inc),
            0x08 => Ok(OpcodeType::Div),
            0x09 => Ok(OpcodeType::Mul),
            0xFF => Ok(OpcodeType::Hlt),
            0x90 => Ok(OpcodeType::Nop),
            invalid => Err(InvalidOpcode(invalid)),
        }
    }
}

impl TryFromSpecImpl<u8> for OpcodeType {
    open spec fn obeys_try_from_spec() -> bool {
        true
    }

    open spec fn try_from_spec(v: u8) -> Result<Self, Self::Error> {
        match OpcodeType::lookup(v) {
            Some(t) => Ok(t),
            None => Err(InvalidOpcode(v)),
        }
    }
}

/// One of the eight general-purpose registers.
#[derive(Debug, Clone, Copy, PartialEq, Eq, Structural)]
pub enum Register {
    R0,
    R1,
    R2,
    R3,
    R4,
    R5,
    R6,
    R7,
}

impl Register {
    /// The position of this register in the register file.
    pub open spec fn index(self) -> u8 {
        match self {
            Register::R0 => 0,
            Register::R1 => 1,
            Register::R2 => 2,
            Register::R3 => 3,
            Register::R4 => 4,
            Register::R5 => 5,
            Register::R6 => 6,
            Register::R7 => 7,
        }
    }

    /// The register a byte names: `None` for a byte above 7.
    pub open spec fn lookup(b: u8) -> Option<Register> {
        if b == 0 {
            Some(Register::R0)
        } else if b == 1 {
            Some(Register::R1)
        } else if b == 2 {
            Some(Register::R2)
        } else if b == 3 {
            Some(Register::R3)
        } else if b == 4 {
            Some(Register::R4)
        } else if b == 5 {
            Some(Register::R5)
        } else if b == 6 {
            Some(Register::R6)
        } else if b == 7 {
            Some(Register::R7)
        } else {
            None
        }
    }

    /// The position of this register in the register file.
    pub fn to_index(self) -> (i: u8)
        ensures
            i == self.index(),
            i < 8,
    {
        match self {
            Register::R0 => 0,
            Register::R1 => 1,
            Register::R2 => 2,
            Register::R3 => 3,
            Register::R4 => 4,
            Register::R5 => 5,
            Register::R6 => 6,
            Register::R7 => 7,
        }
    }
}

impl TryFrom<u8> for Register {
    type Error = InvalidRegister;

    /// Names the register with the given index; a byte above 7 is handed
    /// back inside the error.
    fn try_from(value: u8) -> (r: Result<Self, InvalidRegister>) {
        match value {
            0 => Ok(Register::R0),
            1 => Ok(Register::R1),
            2 => Ok(Register::R2),
            3 => Ok(Register::R3),
            4 => Ok(Register::R4),
            5 => Ok(Register::R5),
            6 => Ok(Register::R6),
            7 => Ok(Register::R7),
            invalid => Err(InvalidRegister(invalid)),
        }
    }
}

impl TryFromSpecImpl<u8> for Register {
    open spec fn obeys_try_from_spec() -> bool {
        true
    }

    open spec fn try_from_spec(v: u8) -> Result<Self, Self::Error> {
        match Register::lookup(v) {
            Some(r) => Ok(r),
            None => Err(InvalidRegister(v)),
        }
    }
}

/// The first operand of an instruction as the decoder classifies it: a
/// byte below 8 is a register index, any other byte a raw payload.
#[derive(Debug, Clone, Copy, PartialEq, Eq, Structural)]
pub enum OpcodeArg1 {
    Register(Register),
    Address(u8),
}

/// The second operand of an instruction as the decoder classifies it.
#[derive(Debug, Clone, Copy, PartialEq, Eq, Structural)]
pub enum OpcodeArg2 {
    Register(Register),
    Immediate(u8),
    Address(u8),
}

impl OpcodeArg1 {
    /// The classification of an operand byte.
    pub open spec fn of_byte(b: u8) -> OpcodeArg1 {
        match Register::lookup(b) {
            Some(r) => OpcodeArg1::Register(r),
            None => OpcodeArg1::Address(b),
        }
    }

    /// The operand byte this operand carries, whatever its classification.
    pub open spec fn raw(self) -> u8 {
        match self {
            OpcodeArg1::Register(r) => r.index(),
            OpcodeArg1::Address(b) => b,
        }
    }

    /// Classifies an operand byte.
    pub fn classify(b: u8) -> (arg: OpcodeArg1)
        ensures
            arg == OpcodeArg1::of_byte(b),
            arg.raw() == b,
    {
        match Register::try_from(b) {
            Ok(r) => OpcodeArg1::Register(r),
            Err(_) => OpcodeArg1::Address(b),
        }
    }

    /// The operand byte this operand carries.
    pub fn to_byte(self) -> (b: u8)
        ensures
            b == self.raw(),
    {
        match self {
            OpcodeArg1::Register(r) => r.to_index(),
            OpcodeArg1::Address(b) => b,
        }
    }
}

impl OpcodeArg2 {
    /// The classification of an operand byte. The decoder never chooses
    /// between address and immediate: that is left to the opcode that
    /// consumes the operand.
    pub open spec fn of_byte(b: u8) -> OpcodeArg2 {
        match Register::lookup(b) {
            Some(r) => OpcodeArg2::Register(r),
            None => OpcodeArg2::Address(b),
        }
    }

    /// The operand byte this operand carries, whatever its classification.
    pub open spec fn raw(self) -> u8 {
        match self {
            OpcodeArg2::Register(r) => r.index(),
            OpcodeArg2::Immediate(b) => b,
            OpcodeArg2::Address(b) => b,
        }
    }

    /// Classifies an operand byte.
    pub fn classify(b: u8) -> (arg: OpcodeArg2)
        ensures
            arg == OpcodeArg2::of_byte(b),
            arg.raw() == b,
    {
        match Register::try_from(b) {
            Ok(r) => OpcodeArg2::Register(r),
            Err(_) => OpcodeArg2::Address(b),
        }
    }

    /// The operand byte this operand carries.
    pub fn to_byte(self) -> (b: u8)
        ensures
            b == self.raw(),
    {
        match self {
            OpcodeArg2::Register(r) => r.to_index(),
            OpcodeArg2::Immediate(b) => b,
            OpcodeArg2::Address(b) => b,
        }
    }
}

/// An instruction whose operands have the meaning that its opcode gives to
/// each position: a register, an address, or a number.
#[derive(Debug, Clone, Copy, PartialEq, Eq, Structural)]
pub enum Instruction {
    Load { dst: Register, addr: u8 },
    Store { addr: u8, src: Register },
    Add { dst: Register, operand: u8 },
    Sub { dst: Register, operand: u8 },
    Mul { dst: Register, operand: u8 },
    Div { dst: Register, operand: u8 },
    Mov { dst: Register, operand: u8 },
    Inc { dst: Register },
    Jmp { target: u8 },
    Nop,
    Hlt,
}

impl Instruction {
    /// The opcode of this instruction.
    pub open spec fn opcode_type(self) -> OpcodeType {
        match self {
            Instruction::Load { .. } => OpcodeType::Load,
            Instruction::Store { .. } => OpcodeType::Store,
            Instruction::Add { .. } => OpcodeType::Add,
            Instruction::Sub { .. } => OpcodeType::Sub,
            Instruction::Mul { .. } => OpcodeType::Mul,
            Instruction::Div { .. } => OpcodeType::Div,
            Instruction::Mov { .. } => OpcodeType::Mov,
            Instruction::Inc { .. } => OpcodeType::Inc,
            Instruction::Jmp { .. } => OpcodeType::Jmp,
            Instruction::Nop => OpcodeType::Nop,
            Instruction::Hlt => OpcodeType::Hlt,
        }
    }

    /// The number of bytes this instruction occupies in memory: the opcode
    /// byte and one byte for each operand.
    pub open spec fn encoded_len(self) -> int {
        1 + self.opcode_type().operand_count()
    }

    /// Gives the operand bytes `b1` and `b2` the meaning that `t` assigns to
    /// their positions. A byte above 7 where `t` wants a register is an
    /// invalid register; positions that `t` does not use are ignored.
    pub open spec fn of_parts(t: OpcodeType, b1: u8, b2: u8) -> Result<
        Instruction,
        InvalidRegister,
    > {
        match t {
            OpcodeType::Nop => Ok(Instruction::Nop),
            OpcodeType::Hlt => Ok(Instruction::Hlt),
            OpcodeType::Jmp => Ok(Instruction::Jmp { target: b1 }),
            OpcodeType::Store => match Register::lookup(b2) {
                Some(src) => Ok(Instruction::Store { addr: b1, src }),
                None => Err(InvalidRegister(b2)),
            },
            _ => match Register::lookup(b1) {
                None => Err(InvalidRegister(b1)),
                Some(dst) => Ok(
                    match t {
                        OpcodeType::Load => Instruction::Load { dst, addr: b2 },
                        OpcodeType::Add => Instruction::Add { dst, operand: b2 },
                        OpcodeType::Sub => Instruction::Sub { dst, operand: b2 },
                        OpcodeType::Mul => Instruction::Mul { dst, operand: b2 },
                        OpcodeType::Div => Instruction::Div { dst, operand: b2 },
                        OpcodeType::Mov => Instruction::Mov { dst, operand: b2 },
                        _ => Instruction::Inc { dst },
                    },
                ),
            },
        }
    }
}

/// A decoded instruction: its opcode, the number of operands that the
/// opcode takes, and the operands as the decoder classified them.
#[derive(Debug, Clone, Copy, PartialEq, Eq)]
pub struct Opcode {
    pub opcode_type: OpcodeType,
    pub argument_count: u8,
    pub arg1: Option<OpcodeArg1>,
    pub arg2: Option<OpcodeArg2>,
}

impl Opcode {
    /// An opcode holds its operand count and exactly that many operands.
    pub open spec fn wf(self) -> bool {
        &&& self.argument_count == self.opcode_type.operand_count()
        &&& self.arg1 is Some <==> self.argument_count >= 1
        &&& self.arg2 is Some <==> self.argument_count >= 2
    }

    /// What three consecutive bytes decode to: the opcode that `b0` stands
    /// for, with as many of `b1` and `b2` classified as it takes operands.
    pub open spec fn of_bytes(b0: u8, b1: u8, b2: u8) -> Opcode {
        let t = OpcodeType::of_byte(b0);
        Opcode {
            opcode_type: t,
            argument_count: t.operand_count(),
            arg1: if t.operand_count() >= 1 {
                Some(OpcodeArg1::of_byte(b1))
            } else {
                None
            },
            arg2: if t.operand_count() >= 2 {
                Some(OpcodeArg2::of_byte(b2))
            } else {
                None
            },
        }
    }

    /// The operand byte in the first position, 0 where there is none.
    pub open spec fn raw1(self) -> u8 {
        match self.arg1 {
            Some(a) => a.raw(),
            None => 0,
        }
    }

    /// The operand byte in the second position, 0 where there is none.
    pub open spec fn raw2(self) -> u8 {
        match self.arg2 {
            Some(a) => a.raw(),
            None => 0,
        }
    }

    /// The typed instruction this opcode stands for.
    pub open spec fn resolved(self) -> Result<Instruction, InvalidRegister> {
        Instruction::of_parts(self.opcode_type, self.raw1(), self.raw2())
    }

    /// The opcode that does nothing and takes no operands.
    pub fn empty() -> (op: Opcode)
        ensures
            op == (Opcode {
                opcode_type: OpcodeType::Nop,
                argument_count: 0,
                arg1: None,
                arg2: None,
            }),
            op.wf(),
    {
        Opcode { opcode_type: OpcodeType::Nop, argument_count: 0, arg1: None, arg2: None }
    }

    /// Resolves each operand by the opcode and the operand's position, not
    /// by how the decoder classified its byte. Fails exactly when a
    /// position that must hold a register holds a byte above 7, and then
    /// hands that byte back.
    pub fn resolve(&self) -> (r: Result<Instruction, InvalidRegister>)
        ensures
            r == self.resolved(),
    {
        let b1: u8 = match self.arg1 {
            Some(a) => a.to_byte(),
            None => 0,
        };
        let b2: u8 = match self.arg2 {
            Some(a) => a.to_byte(),
            None => 0,
        };
        match self.opcode_type {
            OpcodeType::Nop => Ok(Instruction::Nop),
            OpcodeType::Hlt => Ok(Instruction::Hlt),
            OpcodeType::Jmp => Ok(Instruction::Jmp { target: b1 }),
            OpcodeType::Store => match Register::try_from(b2) {
                Ok(src) => Ok(Instruction::Store { addr: b1, src }),
                Err(e) => Err(e),
            },
            t => match Register::try_from(b1) {
                Err(e) => Err(e),
                Ok(dst) => Ok(
                    match t {
                        OpcodeType::Load => Instruction::Load { dst, addr: b2 },
                        OpcodeType::Add => Instruction::Add { dst, operand: b2 },
                        OpcodeType::Sub => Instruction::Sub { dst, operand: b2 },
                        OpcodeType::Mul => Instruction::Mul { dst, operand: b2 },
                        OpcodeType::Div => Instruction::Div { dst, operand: b2 },
                        OpcodeType::Mov => Instruction::Mov { dst, operand: b2 },
                        _ => Instruction::Inc { dst },
                    },
                ),
            },
        }
    }
}

/// The identity of a video instruction. Video opcodes are numbered apart
/// from the general ones.
#[derive(Debug, Clone, Copy, PartialEq, Eq, Structural)]
pub enum VideoOpcodeType {
    Fill,
    Clear,
}

impl VideoOpcodeType {
    /// The byte that encodes this video opcode.
    pub open spec fn byte(self) -> u8 {
        match self {
            VideoOpcodeType::Fill => 0x01,
            VideoOpcodeType::Clear => 0x02,
        }
    }

    /// The video opcode table read from byte to opcode.
    pub open spec fn lookup(b: u8) -> Option<VideoOpcodeType> {
        if b == 0x01 {
            Some(VideoOpcodeType::Fill)
        } else if b == 0x02 {
            Some(VideoOpcodeType::Clear)
        } else {
            None
        }
    }

    /// The byte that encodes this video opcode.
    pub fn to_byte(self) -> (b: u8)
        ensures
            b == self.byte(),
            VideoOpcodeType::lookup(b) == Some(self),
    {
        match self {
            VideoOpcodeType::Fill => 0x01,
            VideoOpcodeType::Clear => 0x02,
        }
    }
}

impl TryFrom<u8> for VideoOpcodeType {
    type Error = InvalidOpcode;

    /// Looks the byte up in the video opcode table; a byte outside the
    /// table is handed back inside the error.
    fn try_from(value: u8) -> (r: Result<Self, InvalidOpcode>) {
        match value {
            0x01 => Ok(VideoOpcodeType::Fill),
            0x02 => Ok(VideoOpcodeType::Clear),
            invalid => Err(InvalidOpcode(invalid)),
        }
    }
}

impl TryFromSpecImpl<u8> for VideoOpcodeType {
    open spec fn obeys_try_from_spec() -> bool {
        true
    }

    open spec fn try_from_spec(v: u8) -> Result<Self, Self::Error> {
        match VideoOpcodeType::lookup(v) {
            Some(t) => Ok(t),
            None => Err(InvalidOpcode(v)),
        }
    }
}

/// A video instruction: its opcode and up to two operand bytes.
#[derive(Debug, Clone, Copy, PartialEq, Eq)]
pub struct VideoOpcode {
    pub opcode_type: VideoOpcodeType,
    pub arg1: Option<u8>,
    pub arg2: Option<u8>,
}

impl VideoOpcode {
    /// The first operand, 0 where there is none.
    pub open spec fn level(self) -> u8 {
        match self.arg1 {
            Some(b) => b,
            None => 0,
        }
    }

    /// The second operand, 0 where there is none.
    pub open spec fn count(self) -> u8 {
        match self.arg2 {
            Some(b) => b,
            None => 0,
        }
    }
}

} // verus!
