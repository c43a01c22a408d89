use vm16::codec::DecodeError;
use vm16::cpu::{Cpu, Dest, GenerousInpt, Inpt, Instruction, Mem, Reg};

#[test]
fn shift_amount_over_15_overflows() {
    let mut cpu = Cpu::vals(0, 0xff, 0);
    let mut mem = Mem::default();

    cpu.execute(Instruction::Shr(Inpt::Const(17), Reg::B), &mut mem);

    assert_eq!(cpu.b, 0);
    assert!(cpu.flags & Cpu::FLAG_OVERFLOW != 0);
}

#[test]
fn shift_amount_negative_overflows() {
    let mut cpu = Cpu::vals(0, 0xff, 0);
    let mut mem = Mem::default();

    cpu.execute(Instruction::Shl(Inpt::Const(-1), Reg::B), &mut mem);

    assert_eq!(cpu.b, 0);
    assert!(cpu.flags & Cpu::FLAG_OVERFLOW != 0);
}

#[test]
fn shr_does_not_sign_extend() {
    let mut cpu = Cpu::vals(-1, 0, 0);
    let mut mem = Mem::default();

    cpu.execute(Instruction::Shr(Inpt::Const(1), Reg::A), &mut mem);

    // -1 read as unsigned 0xffff, shifted right once: 0x7fff.
    assert_eq!(cpu.a, 0x7fff);
    assert_eq!(cpu.flags, 0);
}

#[test]
fn div_min_by_minus_one_overflows() {
    let mut cpu = Cpu::vals(-32768, -1, 0);
    let mut mem = Mem::default();

    cpu.execute(Instruction::Div(Inpt::Register(Reg::A), Reg::B), &mut mem);

    assert_eq!(cpu.b, 0);
    assert!(cpu.flags & Cpu::FLAG_OVERFLOW != 0);
}

#[test]
fn div_truncates_toward_zero() {
    let mut cpu = Cpu::vals(-7, 2, 0);
    let mut mem = Mem::default();

    cpu.execute(Instruction::Div(Inpt::Register(Reg::A), Reg::B), &mut mem);

    assert_eq!(cpu.b, -3);
    assert_eq!(cpu.flags, 0);
}

#[test]
fn div_with_constant_operand() {
    let mut cpu = Cpu::vals(0, 5, 0);
    let mut mem = Mem::default();

    cpu.execute(Instruction::Div(Inpt::Const(100), Reg::B), &mut mem);

    assert_eq!(cpu.b, 20);
    assert_eq!(cpu.flags, 0);
}

#[test]
fn sum_boundary_values_fit() {
    let mut cpu = Cpu::vals(32767, -32768, 0);
    let mut mem = Mem::default();

    cpu.execute(Instruction::Sum(Inpt::Register(Reg::A), Reg::B), &mut mem);

    assert_eq!(cpu.b, -1);
    assert_eq!(cpu.flags, 0);
}

#[test]
fn sum_constant_operand_with_overflow() {
    let mut cpu = Cpu::vals(0, 32767, 0);
    let mut mem = Mem::default();

    cpu.execute(Instruction::Sum(Inpt::Const(1), Reg::B), &mut mem);

    assert_eq!(cpu.b, 0);
    assert!(cpu.flags & Cpu::FLAG_OVERFLOW != 0);
}

#[test]
fn alias_writes_keep_sibling_byte() {
    let mut cpu = Cpu::default();
    let mut mem = Mem::default();

    cpu.execute(
        Instruction::Ld(GenerousInpt::Const(0x34), Dest::Register(Reg::AL)),
        &mut mem,
    );
    cpu.execute(
        Instruction::Ld(GenerousInpt::Const(0x12), Dest::Register(Reg::AH)),
        &mut mem,
    );
    assert_eq!(cpu.a, 0x1234);

    cpu.execute(
        Instruction::Ld(GenerousInpt::Const(0x12), Dest::Register(Reg::BH)),
        &mut mem,
    );
    cpu.execute(
        Instruction::Ld(GenerousInpt::Const(0x34), Dest::Register(Reg::BL)),
        &mut mem,
    );
    assert_eq!(cpu.b, 0x1234);
}

#[test]
fn alias_reads_split_the_word() {
    let cpu = Cpu::vals(0x1234, -2, 0);

    assert_eq!(cpu.reg_read(Reg::AH), 0x12);
    assert_eq!(cpu.reg_read(Reg::AL), 0x34);
    // The high byte of -2 (0xfffe) reads back sign-extended, the low byte
    // zero-extended.
    assert_eq!(cpu.reg_read(Reg::BH), -1);
    assert_eq!(cpu.reg_read(Reg::BL), 0xfe);
}

#[test]
fn comparison_flags_are_sticky() {
    let mut cpu = Cpu::vals(1, 2, 2);
    let mut mem = Mem::default();

    cpu.execute(Instruction::Cmp(Inpt::Register(Reg::A), Reg::B), &mut mem);
    assert!(cpu.flags & Cpu::FLAG_LOWER_THAN != 0);

    cpu.execute(Instruction::Cmp(Inpt::Register(Reg::B), Reg::C), &mut mem);
    // EQUAL is now set and the earlier LOWER_THAN is still set.
    assert!(cpu.flags & Cpu::FLAG_EQUAL != 0);
    assert!(cpu.flags & Cpu::FLAG_LOWER_THAN != 0);
    assert!(cpu.flags & Cpu::FLAG_GREATER_THAN == 0);
}

#[test]
fn push_succeeds_capacity_halved_times() {
    let mut cpu = Cpu {
        stack_size: 8,
        ..Default::default()
    };
    let mut mem = Mem::default();

    for i in 0..4 {
        cpu.execute(Instruction::Push(Inpt::Const(i + 1)), &mut mem);
        assert_eq!(cpu.sp, 2 * (i as u16) + 2);
        assert_eq!(cpu.flags, 0);
    }

    cpu.execute(Instruction::Push(Inpt::Const(5)), &mut mem);
    assert_eq!(cpu.sp, 0);
    assert!(cpu.flags & Cpu::FLAG_OVERFLOW != 0);
    // The discarded fifth value went nowhere; the fourth is still in place.
    assert_eq!(mem.read(7), 4);
}

#[test]
fn pop_from_empty_keeps_register() {
    let mut cpu = Cpu {
        a: 77,
        ss: 4,
        sp: 4,
        stack_size: 4,
        ..Default::default()
    };
    let mut mem = Mem::default();

    cpu.execute(Instruction::Pop(Reg::A), &mut mem);

    assert_eq!(cpu.a, 77);
    assert_eq!(cpu.sp, 0);
    assert!(cpu.flags & Cpu::FLAG_OVERFLOW != 0);
}

#[test]
fn push_with_register_operand() {
    let mut cpu = Cpu {
        a: -2,
        stack_size: 4,
        ..Default::default()
    };
    let mut mem = Mem::default();

    cpu.execute(Instruction::Push(Inpt::Register(Reg::A)), &mut mem);

    assert_eq!(cpu.sp, 2);
    assert_eq!(mem.read(0), 0xff);
    assert_eq!(mem.read(1), 0xfe);
}

#[test]
fn mem_byte_and_word_accessors() {
    let mut mem = Mem::new(4);
    assert_eq!(mem.len(), 4);
    assert_eq!(mem.read(3), 0);

    mem.write(0, 0xab);
    assert_eq!(mem.read(0), 0xab);

    mem.write_16(1, -5);
    assert_eq!(mem.read(1), 0xff);
    assert_eq!(mem.read(2), 0xfb);
    assert_eq!(mem.read_16(1), 0xfffb);
}

#[test]
fn decode_unknown_opcode() {
    // Opcode 20 lies outside the defined 1..=19 set.
    let mem = Mem::set(vec![20 << 3, 0, 0]);
    assert_eq!(
        Instruction::from_mem(&mem, 0),
        Err(DecodeError::UnknownOpcode(20))
    );

    // Opcode 0 names no instruction either.
    let mem = Mem::set(vec![0b00000001, 0, 0]);
    assert_eq!(
        Instruction::from_mem(&mem, 0),
        Err(DecodeError::UnknownOpcode(0))
    );
}

#[test]
fn decode_invalid_register_code() {
    // Sum with both operands flagged as registers, but operand B's byte is 13.
    let mem = Mem::set(vec![0b00010011, Reg::A.code(), 13]);
    assert_eq!(
        Instruction::from_mem(&mem, 0),
        Err(DecodeError::InvalidRegisterCode(13))
    );

    // A zero register byte is rejected too.
    let mem = Mem::set(vec![0b01000011, 0]);
    assert_eq!(
        Instruction::from_mem(&mem, 0),
        Err(DecodeError::InvalidRegisterCode(0))
    );
}

#[test]
fn decode_truncated_stream() {
    // Offset past the end of the store.
    let mem = Mem::set(vec![]);
    assert_eq!(Instruction::from_mem(&mem, 0), Err(DecodeError::Truncated));

    // The opcode promises a two-byte immediate that is not there.
    let mem = Mem::set(vec![0b00010001, 0]);
    assert_eq!(Instruction::from_mem(&mem, 0), Err(DecodeError::Truncated));

    // Sum's register operand byte is cut off.
    let mem = Mem::set(vec![0b00010011, Reg::A.code()]);
    assert_eq!(Instruction::from_mem(&mem, 0), Err(DecodeError::Truncated));
}

#[test]
fn decode_jump_and_stack_opcodes() {
    let mem = Mem::set(vec![
        0b01101000,
        0,
        45,
        0b10010010,
        Reg::D.code(),
        0b10011011,
        Reg::C.code(),
        0b01000011,
        Reg::A.code(),
    ]);

    assert_eq!(
        Instruction::from_mem(&mem, 0),
        Ok((Instruction::Jmp(Inpt::Const(45)), 3))
    );
    assert_eq!(
        Instruction::from_mem(&mem, 3),
        Ok((Instruction::Push(Inpt::Register(Reg::D)), 2))
    );
    assert_eq!(
        Instruction::from_mem(&mem, 5),
        Ok((Instruction::Pop(Reg::C), 2))
    );
    assert_eq!(
        Instruction::from_mem(&mem, 7),
        Ok((Instruction::Not(Reg::A), 2))
    );
}

#[test]
fn encode_decode_round_trip_all_opcodes() {
    let instrs = [
        Instruction::Ld(GenerousInpt::Register(Reg::AH), Dest::Register(Reg::DL)),
        Instruction::Ld(GenerousInpt::Const(-300), Dest::Register(Reg::C)),
        Instruction::Ld(GenerousInpt::Register(Reg::B), Dest::Memory(0x1234)),
        Instruction::Ld(GenerousInpt::Const(7), Dest::Memory(0xffff)),
        Instruction::Sum(Inpt::Register(Reg::A), Reg::B),
        Instruction::Sum(Inpt::Const(-1), Reg::AL),
        Instruction::Sub(Inpt::Const(32767), Reg::D),
        Instruction::Mul(Inpt::Register(Reg::CL), Reg::CH),
        Instruction::Div(Inpt::Const(-32768), Reg::B),
        Instruction::And(Inpt::Register(Reg::D), Reg::A),
        Instruction::Or(Inpt::Const(0x0f0f), Reg::BH),
        Instruction::Not(Reg::BL),
        Instruction::Xor(Inpt::Register(Reg::A), Reg::A),
        Instruction::Shr(Inpt::Const(3), Reg::C),
        Instruction::Shl(Inpt::Register(Reg::DH), Reg::D),
        Instruction::Cmp(Inpt::Const(0), Reg::A),
        Instruction::Jmp(Inpt::Register(Reg::A)),
        Instruction::Jeq(Inpt::Const(0x100)),
        Instruction::Jne(Inpt::Register(Reg::B)),
        Instruction::Jgt(Inpt::Const(2)),
        Instruction::Jlt(Inpt::Register(Reg::C)),
        Instruction::Push(Inpt::Const(-45)),
        Instruction::Pop(Reg::DH),
    ];

    for instr in instrs {
        let slot = instr.to_bytes();
        // The stream holds the slot without its redundant length byte.
        let mem = Mem::set(slot[1..].to_vec());
        let expected_len = (slot[0] / 8) as usize;
        assert_eq!(Instruction::from_mem(&mem, 0), Ok((instr, expected_len)));
    }
}

#[test]
fn register_codes_round_trip() {
    let regs = [
        Reg::A,
        Reg::AH,
        Reg::AL,
        Reg::B,
        Reg::BH,
        Reg::BL,
        Reg::C,
        Reg::CH,
        Reg::CL,
        Reg::D,
        Reg::DH,
        Reg::DL,
    ];
    for (i, r) in regs.iter().enumerate() {
        assert_eq!(r.code(), (i + 1) as u8);
        assert_eq!(Reg::from_code(r.code()), Ok(*r));
    }
    assert_eq!(Reg::from_code(0), Err(()));
    assert_eq!(Reg::from_code(13), Err(()));
}

#[test]
fn opcode_numbers_are_stable() {
    let cases: [(Instruction, u8); 19] = [
        (
            Instruction::Ld(GenerousInpt::Const(0), Dest::Register(Reg::A)),
            1,
        ),
        (Instruction::Sum(Inpt::Const(0), Reg::A), 2),
        (Instruction::Sub(Inpt::Const(0), Reg::A), 3),
        (Instruction::Mul(Inpt::Const(0), Reg::A), 4),
        (Instruction::Div(Inpt::Const(0), Reg::A), 5),
        (Instruction::And(Inpt::Const(0), Reg::A), 6),
        (Instruction::Or(Inpt::Const(0), Reg::A), 7),
        (Instruction::Not(Reg::A), 8),
        (Instruction::Xor(Inpt::Const(0), Reg::A), 9),
        (Instruction::Shr(Inpt::Const(0), Reg::A), 10),
        (Instruction::Shl(Inpt::Const(0), Reg::A), 11),
        (Instruction::Cmp(Inpt::Const(0), Reg::A), 12),
        (Instruction::Jmp(Inpt::Const(0)), 13),
        (Instruction::Jeq(Inpt::Const(0)), 14),
        (Instruction::Jne(Inpt::Const(0)), 15),
        (Instruction::Jgt(Inpt::Const(0)), 16),
        (Instruction::Jlt(Inpt::Const(0)), 17),
        (Instruction::Push(Inpt::Const(0)), 18),
        (Instruction::Pop(Reg::A), 19),
    ];
    for (instr, code) in cases {
        assert_eq!(instr.code(), code);
    }
}
