use microcvm::cpu::{
    Instruction, InvalidOpcode, InvalidRegister, MicroCVMCpu, Opcode, OpcodeArg1, OpcodeArg2,
    OpcodeType, Register, VideoOpcodeType,
};

const ALL_OPCODES: [(OpcodeType, u8, u8); 11] = [
    (OpcodeType::Load, 0x01, 2),
    (OpcodeType::Store, 0x02, 2),
    (OpcodeType::Add, 0x03, 2),
    (OpcodeType::Sub, 0x04, 2),
    (OpcodeType::Jmp, 0x05, 1),
    (OpcodeType::Mov, 0x06, 2),
    (OpcodeType::Inc, 0x07, 1),
    (OpcodeType::Div, 0x08, 2),
    (OpcodeType::Mul, 0x09, 2),
    (OpcodeType::Hlt, 0xFF, 0),
    (OpcodeType::Nop, 0x90, 0),
];

#[test]
fn opcode_bytes_are_bit_exact() {
    for (opcode, byte, _) in ALL_OPCODES {
        assert_eq!(opcode.to_byte(), byte);
        assert_eq!(OpcodeType::try_from(byte), Ok(opcode));
    }
}

#[test]
fn every_byte_outside_the_table_is_an_invalid_opcode() {
    let mut known = 0;
    for byte in 0..=255u8 {
        match OpcodeType::try_from(byte) {
            Ok(opcode) => {
                known += 1;
                assert_eq!(opcode.to_byte(), byte);
            }
            Err(e) => assert_eq!(e, InvalidOpcode(byte)),
        }
    }
    assert_eq!(known, 11);
}

#[test]
fn argument_counts_follow_the_instruction_table() {
    for (opcode, _, count) in ALL_OPCODES {
        assert_eq!(MicroCVMCpu::get_opcode_argument_count(opcode), count);
    }
}

#[test]
fn video_opcode_bytes_are_bit_exact() {
    assert_eq!(VideoOpcodeType::Fill.to_byte(), 0x01);
    assert_eq!(VideoOpcodeType::Clear.to_byte(), 0x02);
    assert_eq!(VideoOpcodeType::try_from(0x01u8), Ok(VideoOpcodeType::Fill));
    assert_eq!(VideoOpcodeType::try_from(0x02u8), Ok(VideoOpcodeType::Clear));
    assert_eq!(VideoOpcodeType::try_from(0x00u8), Err(InvalidOpcode(0)));
    assert_eq!(VideoOpcodeType::try_from(0x03u8), Err(InvalidOpcode(3)));
    assert_eq!(VideoOpcodeType::try_from(0xFFu8), Err(InvalidOpcode(0xFF)));
}

#[test]
fn registers_are_the_bytes_below_eight() {
    let all = [
        Register::R0,
        Register::R1,
        Register::R2,
        Register::R3,
        Register::R4,
        Register::R5,
        Register::R6,
        Register::R7,
    ];
    for (index, register) in all.iter().enumerate() {
        assert_eq!(register.to_index() as usize, index);
        assert_eq!(Register::try_from(index as u8), Ok(*register));
    }
    for byte in 8..=255u8 {
        assert_eq!(Register::try_from(byte), Err(InvalidRegister(byte)));
    }
}

#[test]
fn operand_classification_goes_by_the_byte_range() {
    assert_eq!(OpcodeArg1::classify(0), OpcodeArg1::Register(Register::R0));
    assert_eq!(OpcodeArg1::classify(7), OpcodeArg1::Register(Register::R7));
    assert_eq!(OpcodeArg1::classify(8), OpcodeArg1::Address(8));
    assert_eq!(OpcodeArg1::classify(255), OpcodeArg1::Address(255));
    assert_eq!(OpcodeArg2::classify(3), OpcodeArg2::Register(Register::R3));
    assert_eq!(OpcodeArg2::classify(8), OpcodeArg2::Address(8));
    assert_eq!(OpcodeArg2::classify(42), OpcodeArg2::Address(42));
}

#[test]
fn operands_give_their_byte_back() {
    for byte in 0..=255u8 {
        assert_eq!(OpcodeArg1::classify(byte).to_byte(), byte);
        assert_eq!(OpcodeArg2::classify(byte).to_byte(), byte);
    }
    assert_eq!(OpcodeArg2::Immediate(5).to_byte(), 5);
    assert_eq!(OpcodeArg2::Immediate(200).to_byte(), 200);
}

#[test]
fn empty_opcode_is_a_nop_without_operands() {
    let op = Opcode::empty();
    assert_eq!(op.opcode_type, OpcodeType::Nop);
    assert_eq!(op.argument_count, 0);
    assert_eq!(op.arg1, None);
    assert_eq!(op.arg2, None);
    assert_eq!(op.resolve(), Ok(Instruction::Nop));
}

fn opcode(t: OpcodeType, b1: Option<u8>, b2: Option<u8>) -> Opcode {
    Opcode {
        opcode_type: t,
        argument_count: MicroCVMCpu::get_opcode_argument_count(t),
        arg1: b1.map(OpcodeArg1::classify),
        arg2: b2.map(OpcodeArg2::classify),
    }
}

#[test]
fn resolve_types_operands_by_position() {
    assert_eq!(
        opcode(OpcodeType::Load, Some(1), Some(200)).resolve(),
        Ok(Instruction::Load { dst: Register::R1, addr: 200 })
    );
    assert_eq!(
        opcode(OpcodeType::Load, Some(1), Some(3)).resolve(),
        Ok(Instruction::Load { dst: Register::R1, addr: 3 })
    );
    assert_eq!(
        opcode(OpcodeType::Store, Some(100), Some(2)).resolve(),
        Ok(Instruction::Store { addr: 100, src: Register::R2 })
    );
    assert_eq!(
        opcode(OpcodeType::Add, Some(0), Some(5)).resolve(),
        Ok(Instruction::Add { dst: Register::R0, operand: 5 })
    );
    assert_eq!(
        opcode(OpcodeType::Sub, Some(7), Some(255)).resolve(),
        Ok(Instruction::Sub { dst: Register::R7, operand: 255 })
    );
    assert_eq!(
        opcode(OpcodeType::Mul, Some(4), Some(9)).resolve(),
        Ok(Instruction::Mul { dst: Register::R4, operand: 9 })
    );
    assert_eq!(
        opcode(OpcodeType::Div, Some(4), Some(0)).resolve(),
        Ok(Instruction::Div { dst: Register::R4, operand: 0 })
    );
    assert_eq!(
        opcode(OpcodeType::Mov, Some(0), Some(42)).resolve(),
        Ok(Instruction::Mov { dst: Register::R0, operand: 42 })
    );
    assert_eq!(
        opcode(OpcodeType::Inc, Some(6), None).resolve(),
        Ok(Instruction::Inc { dst: Register::R6 })
    );
    assert_eq!(
        opcode(OpcodeType::Jmp, Some(10), None).resolve(),
        Ok(Instruction::Jmp { target: 10 })
    );
    assert_eq!(
        opcode(OpcodeType::Jmp, Some(0), None).resolve(),
        Ok(Instruction::Jmp { target: 0 })
    );
    assert_eq!(opcode(OpcodeType::Nop, None, None).resolve(), Ok(Instruction::Nop));
    assert_eq!(opcode(OpcodeType::Hlt, None, None).resolve(), Ok(Instruction::Hlt));
}

#[test]
fn resolve_rejects_a_byte_above_seven_where_a_register_is_mandatory() {
    for t in [
        OpcodeType::Load,
        OpcodeType::Add,
        OpcodeType::Sub,
        OpcodeType::Mul,
        OpcodeType::Div,
        OpcodeType::Mov,
    ] {
        assert_eq!(opcode(t, Some(8), Some(1)).resolve(), Err(InvalidRegister(8)));
        assert_eq!(opcode(t, Some(255), Some(1)).resolve(), Err(InvalidRegister(255)));
    }
    assert_eq!(opcode(OpcodeType::Inc, Some(9), None).resolve(), Err(InvalidRegister(9)));
    assert_eq!(
        opcode(OpcodeType::Store, Some(100), Some(8)).resolve(),
        Err(InvalidRegister(8))
    );
    assert_eq!(
        opcode(OpcodeType::Store, Some(3), Some(77)).resolve(),
        Err(InvalidRegister(77))
    );
}

#[test]
fn resolve_goes_by_the_operand_byte_not_by_its_label() {
    let op = Opcode {
        opcode_type: OpcodeType::Mov,
        argument_count: 2,
        arg1: Some(OpcodeArg1::Address(3)),
        arg2: Some(OpcodeArg2::Immediate(5)),
    };
    assert_eq!(op.resolve(), Ok(Instruction::Mov { dst: Register::R3, operand: 5 }));
}
