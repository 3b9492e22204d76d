use chip8::instruction::Instruction;

#[test]
fn decodes_every_instruction() {
    assert_eq!(Instruction::new(0x00E0), Some(Instruction::OP_00E0));
    assert_eq!(Instruction::new(0x00EE), Some(Instruction::OP_00EE));
    assert_eq!(Instruction::new(0x1ABC), Some(Instruction::OP_1NNN(0xABC)));
    assert_eq!(Instruction::new(0x2ABC), Some(Instruction::OP_2NNN(0xABC)));
    assert_eq!(Instruction::new(0x3A42), Some(Instruction::OP_3XNN(0xA, 0x42)));
    assert_eq!(Instruction::new(0x4A42), Some(Instruction::OP_4XNN(0xA, 0x42)));
    assert_eq!(Instruction::new(0x5AB0), Some(Instruction::OP_5XY0(0xA, 0xB)));
    assert_eq!(Instruction::new(0x6A42), Some(Instruction::OP_6XNN(0xA, 0x42)));
    assert_eq!(Instruction::new(0x7A42), Some(Instruction::OP_7XNN(0xA, 0x42)));
    assert_eq!(Instruction::new(0x8AB0), Some(Instruction::OP_8XY0(0xA, 0xB)));
    assert_eq!(Instruction::new(0x8AB1), Some(Instruction::OP_8XY1(0xA, 0xB)));
    assert_eq!(Instruction::new(0x8AB2), Some(Instruction::OP_8XY2(0xA, 0xB)));
    assert_eq!(Instruction::new(0x8AB3), Some(Instruction::OP_8XY3(0xA, 0xB)));
    assert_eq!(Instruction::new(0x8AB4), Some(Instruction::OP_8XY4(0xA, 0xB)));
    assert_eq!(Instruction::new(0x8AB5), Some(Instruction::OP_8XY5(0xA, 0xB)));
    assert_eq!(Instruction::new(0x8AB6), Some(Instruction::OP_8XY6(0xA, 0xB)));
    assert_eq!(Instruction::new(0x8AB7), Some(Instruction::OP_8XY7(0xA, 0xB)));
    assert_eq!(Instruction::new(0x8ABE), Some(Instruction::OP_8XYE(0xA, 0xB)));
    assert_eq!(Instruction::new(0x9AB0), Some(Instruction::OP_9XY0(0xA, 0xB)));
    assert_eq!(Instruction::new(0xAABC), Some(Instruction::OP_ANNN(0xABC)));
    assert_eq!(Instruction::new(0xBABC), Some(Instruction::OP_BNNN(0xABC)));
    assert_eq!(Instruction::new(0xCA42), Some(Instruction::OP_CXNN(0xA, 0x42)));
    assert_eq!(Instruction::new(0xDAB5), Some(Instruction::OP_DXYN(0xA, 0xB, 0x5)));
    assert_eq!(Instruction::new(0xEA9E), Some(Instruction::OP_EX9E(0xA)));
    assert_eq!(Instruction::new(0xEAA1), Some(Instruction::OP_EXA1(0xA)));
    assert_eq!(Instruction::new(0xFA07), Some(Instruction::OP_FX07(0xA)));
    assert_eq!(Instruction::new(0xFA0A), Some(Instruction::OP_FX0A(0xA)));
    assert_eq!(Instruction::new(0xFA15), Some(Instruction::OP_FX15(0xA)));
    assert_eq!(Instruction::new(0xFA18), Some(Instruction::OP_FX18(0xA)));
    assert_eq!(Instruction::new(0xFA1E), Some(Instruction::OP_FX1E(0xA)));
    assert_eq!(Instruction::new(0xFA29), Some(Instruction::OP_FX29(0xA)));
    assert_eq!(Instruction::new(0xFA33), Some(Instruction::OP_FX33(0xA)));
    assert_eq!(Instruction::new(0xFA55), Some(Instruction::OP_FX55(0xA)));
    assert_eq!(Instruction::new(0xFA65), Some(Instruction::OP_FX65(0xA)));
}

#[test]
fn unassigned_opcodes_decode_to_none() {
    assert_eq!(Instruction::new(0xFFFF), None);
    assert_eq!(Instruction::new(0x0000), None);
    assert_eq!(Instruction::new(0x00E1), None);
    assert_eq!(Instruction::new(0x8AB8), None);
    assert_eq!(Instruction::new(0x8ABD), None);
    assert_eq!(Instruction::new(0x8ABF), None);
    assert_eq!(Instruction::new(0xE000), None);
    assert_eq!(Instruction::new(0xEA9F), None);
    assert_eq!(Instruction::new(0xF000), None);
    assert_eq!(Instruction::new(0xFA66), None);
}

#[test]
fn counts_the_unassigned_opcodes() {
    let mut unknown: u32 = 0;
    for v in 0..=u16::MAX {
        if Instruction::new(v).is_none() {
            unknown += 1;
        }
    }
    // Family 0 leaves 254 of 256 low bytes, sixteen times over; family 8
    // leaves 7 of 16 sub-opcodes for each of 256 register pairs; family E
    // leaves 254 low bytes and family F 247, for each of 16 registers.
    assert_eq!(unknown, 16 * 254 + 256 * 7 + 16 * 254 + 16 * 247);
}

#[test]
fn ignored_digits_do_not_change_the_instruction() {
    assert_eq!(Instruction::new(0x5AB7), Some(Instruction::OP_5XY0(0xA, 0xB)));
    assert_eq!(Instruction::new(0x9AB7), Some(Instruction::OP_9XY0(0xA, 0xB)));
    assert_eq!(Instruction::new(0x03E0), Some(Instruction::OP_00E0));
    assert_eq!(Instruction::new(0x0FEE), Some(Instruction::OP_00EE));
}

#[test]
fn decoding_is_repeatable() {
    for v in [0x00E0u16, 0x1234, 0x8AB6, 0xD015, 0xF133, 0xFFFF] {
        assert_eq!(Instruction::new(v), Instruction::new(v));
    }
}

fn has_ignored_digit(v: u16) -> bool {
    let family = v >> 12;
    (family == 0x0 && v & 0x0F00 != 0) || ((family == 0x5 || family == 0x9) && v & 0x000F != 0)
}

#[test]
fn decode_then_encode_reproduces_the_opcode() {
    let mut decoded: u32 = 0;
    for v in 0..=u16::MAX {
        if let Some(instruction) = Instruction::new(v) {
            decoded += 1;
            if has_ignored_digit(v) {
                assert_ne!(instruction.opcode(), v);
                assert_eq!(Instruction::new(instruction.opcode()), Some(instruction));
            } else {
                assert_eq!(instruction.opcode(), v);
            }
        }
    }
    assert!(decoded > 0);
}

#[test]
fn encode_gives_the_pattern_with_operands_in_place() {
    assert_eq!(Instruction::OP_00E0.opcode(), 0x00E0);
    assert_eq!(Instruction::OP_00EE.opcode(), 0x00EE);
    assert_eq!(Instruction::OP_1NNN(0x234).opcode(), 0x1234);
    assert_eq!(Instruction::OP_3XNN(0x1, 0xFF).opcode(), 0x31FF);
    assert_eq!(Instruction::OP_5XY0(0x1, 0x2).opcode(), 0x5120);
    assert_eq!(Instruction::OP_8XY6(0x1, 0x2).opcode(), 0x8126);
    assert_eq!(Instruction::OP_8XYE(0xF, 0xF).opcode(), 0x8FFE);
    assert_eq!(Instruction::OP_DXYN(0x1, 0x2, 0x3).opcode(), 0xD123);
    assert_eq!(Instruction::OP_EXA1(0x7).opcode(), 0xE7A1);
    assert_eq!(Instruction::OP_FX65(0xF).opcode(), 0xFF65);
}

#[test]
fn encode_then_decode_reproduces_the_instruction() {
    let samples = [
        Instruction::OP_00E0,
        Instruction::OP_2NNN(0xFFF),
        Instruction::OP_4XNN(0xF, 0x00),
        Instruction::OP_8XY7(0x0, 0xF),
        Instruction::OP_9XY0(0x3, 0x4),
        Instruction::OP_BNNN(0x000),
        Instruction::OP_CXNN(0x5, 0xA5),
        Instruction::OP_DXYN(0xF, 0x0, 0xF),
        Instruction::OP_EX9E(0x0),
        Instruction::OP_FX0A(0xE),
    ];
    for instruction in samples {
        assert_eq!(Instruction::new(instruction.opcode()), Some(instruction));
    }
}
