//! The binary instruction codec: each instruction encodes into a fixed
//! 6-byte slot (byte 0 the payload length in bits, byte 1 the opcode and two
//! operand-kind flag bits, the rest the tightly packed operands), and a
//! decoder reads an instruction back out of a byte store, reporting how many
//! bytes it consumed.

use vstd::prelude::*;

use crate::cpu::{Reg, Dest, Inpt, GenerousInpt, Instruction, Mem};
use crate::word::{bits16, signed16, hi8, lo8, word16};
use crate::word::{to_bits, high_byte, low_byte};

verus! {

/// Why a byte stream failed to decode: a register operand byte outside the
/// twelve register codes, an opcode number outside the defined set, or a
/// stream that ends inside the instruction.
#[derive(Debug, Clone, Copy, PartialEq, Eq, Structural)]
pub enum DecodeError {
    InvalidRegisterCode(u8),
    UnknownOpcode(u8),
    Truncated,
}

/// The wire code of a register name: A=1 through DL=12. The mapping is part
/// of the binary format.
pub open spec fn reg_code(r: Reg) -> u8 {
    match r {
        Reg::A => 1,
        Reg::AH => 2,
        Reg::AL => 3,
        Reg::B => 4,
        Reg::BH => 5,
        Reg::BL => 6,
        Reg::C => 7,
        Reg::CH => 8,
        Reg::CL => 9,
        Reg::D => 10,
        Reg::DH => 11,
        Reg::DL => 12,
    }
}

/// The register a wire code between 1 and 12 names.
pub open spec fn reg_of_code(code: u8) -> Reg {
    if code == 1 {
        Reg::A
    } else if code == 2 {
        Reg::AH
    } else if code == 3 {
        Reg::AL
    } else if code == 4 {
        Reg::B
    } else if code == 5 {
        Reg::BH
    } else if code == 6 {
        Reg::BL
    } else if code == 7 {
        Reg::C
    } else if code == 8 {
        Reg::CH
    } else if code == 9 {
        Reg::CL
    } else if code == 10 {
        Reg::D
    } else if code == 11 {
        Reg::DH
    } else {
        Reg::DL
    }
}

/// The two register mappings invert each other over the twelve codes.
pub proof fn lemma_reg_code_bijective(r: Reg)
    ensures
        1 <= reg_code(r) <= 12,
        reg_of_code(reg_code(r)) == r,
{
}

/// The opcode number of an instruction, 1 through 19; the numbering is part
/// of the binary format.
pub open spec fn opcode(i: Instruction) -> u8 {
    match i {
        Instruction::Ld(_, _) => 1,
        Instruction::Sum(_, _) => 2,
        Instruction::Sub(_, _) => 3,
        Instruction::Mul(_, _) => 4,
        Instruction::Div(_, _) => 5,
        Instruction::And(_, _) => 6,
        Instruction::Or(_, _) => 7,
        Instruction::Not(_) => 8,
        Instruction::Xor(_, _) => 9,
        Instruction::Shr(_, _) => 10,
        Instruction::Shl(_, _) => 11,
        Instruction::Cmp(_, _) => 12,
        Instruction::Jmp(_) => 13,
        Instruction::Jeq(_) => 14,
        Instruction::Jne(_) => 15,
        Instruction::Jgt(_) => 16,
        Instruction::Jlt(_) => 17,
        Instruction::Push(_) => 18,
        Instruction::Pop(_) => 19,
    }
}

/// The opcode byte: the opcode number shifted three bits up, the second bit
/// flagging a register operand in position A, the lowest bit one in position
/// B.
pub open spec fn op_byte(code: u8, a_reg: bool, b_reg: bool) -> u8 {
    (code * 8 + (if a_reg {
        2int
    } else {
        0
    }) + (if b_reg {
        1int
    } else {
        0
    })) as u8
}

/// How many bytes of the instruction stream the instruction occupies: the
/// opcode byte, one byte per register operand, two per 16-bit operand.
pub open spec fn encoded_bytes(i: Instruction) -> usize {
    match i {
        Instruction::Ld(src, dst) => ((if src matches GenerousInpt::Register(_) {
            2int
        } else {
            3
        }) + (if dst matches Dest::Register(_) {
            1int
        } else {
            2
        })) as usize,
        Instruction::Not(_) | Instruction::Pop(_) => 2,
        Instruction::Jmp(t) | Instruction::Jeq(t) | Instruction::Jne(t) | Instruction::Jgt(t)
            | Instruction::Jlt(t) | Instruction::Push(t) => (if t matches Inpt::Register(_) {
            2int
        } else {
            3
        }) as usize,
        Instruction::Sum(a, _) | Instruction::Sub(a, _) | Instruction::Mul(a, _)
            | Instruction::Div(a, _) | Instruction::And(a, _) | Instruction::Or(a, _)
            | Instruction::Xor(a, _) | Instruction::Shr(a, _) | Instruction::Shl(a, _)
            | Instruction::Cmp(a, _) => (if a matches Inpt::Register(_) {
            3int
        } else {
            4
        }) as usize,
    }
}

/// The 6-byte slot of an arithmetic, bitwise, shift or compare instruction:
/// operand B's register code follows operand A, which is one register byte
/// or a big-endian immediate.
pub open spec fn encode_alu(code: u8, a: Inpt, b: Reg) -> Seq<u8> {
    match a {
        Inpt::Register(ra) => seq![
            24,
            op_byte(code, true, true),
            reg_code(ra),
            reg_code(b),
            0,
            0,
        ],
        Inpt::Const(k) => seq![
            32,
            op_byte(code, false, true),
            hi8(bits16(k)),
            lo8(bits16(k)),
            reg_code(b),
            0,
        ],
    }
}

/// The 6-byte slot of a jump or push: a single register byte or a big-endian
/// 16-bit target.
pub open spec fn encode_jump(code: u8, t: Inpt) -> Seq<u8> {
    match t {
        Inpt::Register(r) => seq![16, op_byte(code, true, false), reg_code(r), 0, 0, 0],
        Inpt::Const(k) => seq![
            24,
            op_byte(code, false, false),
            hi8(bits16(k)),
            lo8(bits16(k)),
            0,
            0,
        ],
    }
}

/// The 6-byte slot of `Not` or `Pop`: both flag bits set, one register byte.
pub open spec fn encode_single_reg(code: u8, r: Reg) -> Seq<u8> {
    seq![16, op_byte(code, true, true), reg_code(r), 0, 0, 0]
}

/// The two big-endian bytes a `Ld` source operand contributes when it is not
/// a register: an immediate's bit pattern or a memory address.
pub open spec fn ld_src_word(src: GenerousInpt) -> u16 {
    match src {
        GenerousInpt::Const(k) => bits16(k),
        GenerousInpt::Memory(ad) => ad,
        GenerousInpt::Register(_) => 0,
    }
}

/// The 6-byte slot of `Ld`: each operand contributes one register byte or a
/// big-endian 16-bit word, packed left to right with no padding.
pub open spec fn encode_ld(src: GenerousInpt, dst: Dest) -> Seq<u8> {
    match (src, dst) {
        (GenerousInpt::Register(ra), Dest::Register(rb)) => seq![
            24,
            op_byte(1, true, true),
            reg_code(ra),
            reg_code(rb),
            0,
            0,
        ],
        (GenerousInpt::Register(ra), Dest::Memory(ad)) => seq![
            32,
            op_byte(1, true, false),
            reg_code(ra),
            hi8(ad),
            lo8(ad),
            0,
        ],
        (_, Dest::Register(rb)) => seq![
            32,
            op_byte(1, false, true),
            hi8(ld_src_word(src)),
            lo8(ld_src_word(src)),
            reg_code(rb),
            0,
        ],
        (_, Dest::Memory(ad)) => seq![
            40,
            op_byte(1, false, false),
            hi8(ld_src_word(src)),
            lo8(ld_src_word(src)),
            hi8(ad),
            lo8(ad),
        ],
    }
}

/// The fixed 6-byte slot of an instruction; byte 0 records the encoded
/// length in bits (redundantly with what the decoder consumes), and unused
/// trailing bytes are zero.
pub open spec fn encode(i: Instruction) -> Seq<u8> {
    match i {
        Instruction::Ld(src, dst) => encode_ld(src, dst),
        Instruction::Sum(a, b) => encode_alu(2, a, b),
        Instruction::Sub(a, b) => encode_alu(3, a, b),
        Instruction::Mul(a, b) => encode_alu(4, a, b),
        Instruction::Div(a, b) => encode_alu(5, a, b),
        Instruction::And(a, b) => encode_alu(6, a, b),
        Instruction::Or(a, b) => encode_alu(7, a, b),
        Instruction::Not(r) => encode_single_reg(8, r),
        Instruction::Xor(a, b) => encode_alu(9, a, b),
        Instruction::Shr(a, b) => encode_alu(10, a, b),
        Instruction::Shl(a, b) => encode_alu(11, a, b),
        Instruction::Cmp(a, b) => encode_alu(12, a, b),
        Instruction::Jmp(t) => encode_jump(13, t),
        Instruction::Jeq(t) => encode_jump(14, t),
        Instruction::Jne(t) => encode_jump(15, t),
        Instruction::Jgt(t) => encode_jump(16, t),
        Instruction::Jlt(t) => encode_jump(17, t),
        Instruction::Push(t) => encode_jump(18, t),
        Instruction::Pop(r) => encode_single_reg(19, r),
    }
}

impl Reg {
    /// This register's wire code, 1 through 12.
    pub fn code(&self) -> (c: u8)
        ensures
            c == reg_code(*self),
    {
        match self {
            Reg::A => 1,
            Reg::AH => 2,
            Reg::AL => 3,
            Reg::B => 4,
            Reg::BH => 5,
            Reg::BL => 6,
            Reg::C => 7,
            Reg::CH => 8,
            Reg::CL => 9,
            Reg::D => 10,
            Reg::DH => 11,
            Reg::DL => 12,
        }
    }

    /// The register a wire code names; codes outside 1 through 12 name none.
    pub fn from_code(code: u8) -> (r: Result<Self, ()>)
        ensures
            1 <= code <= 12 ==> r == Ok::<Reg, ()>(reg_of_code(code)),
            !(1 <= code <= 12) ==> r == Err::<Reg, ()>(()),
    {
        if code == 1 {
            Ok(Reg::A)
        } else if code == 2 {
            Ok(Reg::AH)
        } else if code == 3 {
            Ok(Reg::AL)
        } else if code == 4 {
            Ok(Reg::B)
        } else if code == 5 {
            Ok(Reg::BH)
        } else if code == 6 {
            Ok(Reg::BL)
        } else if code == 7 {
            Ok(Reg::C)
        } else if code == 8 {
            Ok(Reg::CH)
        } else if code == 9 {
            Ok(Reg::CL)
        } else if code == 10 {
            Ok(Reg::D)
        } else if code == 11 {
            Ok(Reg::DH)
        } else if code == 12 {
            Ok(Reg::DL)
        } else {
            Err(())
        }
    }
}

impl Instruction {
    /// This instruction's opcode number, 1 through 19.
    pub fn code(&self) -> (c: u8)
        ensures
            c == opcode(*self),
    {
        match self {
            Instruction::Ld(_, _) => 1,
            Instruction::Sum(_, _) => 2,
            Instruction::Sub(_, _) => 3,
            Instruction::Mul(_, _) => 4,
            Instruction::Div(_, _) => 5,
            Instruction::And(_, _) => 6,
            Instruction::Or(_, _) => 7,
            Instruction::Not(_) => 8,
            Instruction::Xor(_, _) => 9,
            Instruction::Shr(_, _) => 10,
            Instruction::Shl(_, _) => 11,
            Instruction::Cmp(_, _) => 12,
            Instruction::Jmp(_) => 13,
            Instruction::Jeq(_) => 14,
            Instruction::Jne(_) => 15,
            Instruction::Jgt(_) => 16,
            Instruction::Jlt(_) => 17,
            Instruction::Push(_) => 18,
            Instruction::Pop(_) => 19,
        }
    }

    /// Encodes this instruction into its fixed 6-byte slot.
    pub fn to_bytes(&self) -> (out: [u8; 6])
        ensures
            out@ == encode(*self),
    {
        let code = self.code();
        match *self {
            Instruction::Ld(src, dst) => {
                match (src, dst) {
                    (GenerousInpt::Register(ra), Dest::Register(rb)) => {
                        [24, code * 8 + 3, ra.code(), rb.code(), 0, 0]
                    },
                    (GenerousInpt::Register(ra), Dest::Memory(ad)) => {
                        [32, code * 8 + 2, ra.code(), high_byte(ad), low_byte(ad), 0]
                    },
                    (src, Dest::Register(rb)) => {
                        let w = ld_operand_word(src);
                        [32, code * 8 + 1, high_byte(w), low_byte(w), rb.code(), 0]
                    },
                    (src, Dest::Memory(ad)) => {
                        let w = ld_operand_word(src);
                        [40, code * 8, high_byte(w), low_byte(w), high_byte(ad), low_byte(ad)]
                    },
                }
            },
            Instruction::Sum(a, b) | Instruction::Sub(a, b) | Instruction::Mul(a, b)
                | Instruction::Div(a, b) | Instruction::And(a, b) | Instruction::Or(a, b)
                | Instruction::Xor(a, b) | Instruction::Shr(a, b) | Instruction::Shl(a, b)
                | Instruction::Cmp(a, b) => {
                match a {
                    Inpt::Register(ra) => [24, code * 8 + 3, ra.code(), b.code(), 0, 0],
                    Inpt::Const(k) => {
                        let w = to_bits(k);
                        [32, code * 8 + 1, high_byte(w), low_byte(w), b.code(), 0]
                    },
                }
            },
            Instruction::Not(r) | Instruction::Pop(r) => [16, code * 8 + 3, r.code(), 0, 0, 0],
            Instruction::Jmp(t) | Instruction::Jeq(t) | Instruction::Jne(t)
                | Instruction::Jgt(t) | Instruction::Jlt(t) | Instruction::Push(t) => {
                match t {
                    Inpt::Register(r) => [16, code * 8 + 2, r.code(), 0, 0, 0],
                    Inpt::Const(k) => {
                        let w = to_bits(k);
                        [24, code * 8, high_byte(w), low_byte(w), 0, 0]
                    },
                }
            },
        }
    }
}

/// The 16-bit word a non-register `Ld` operand puts on the wire.
fn ld_operand_word(src: GenerousInpt) -> (w: u16)
    ensures
        w == ld_src_word(src),
{
    match src {
        GenerousInpt::Const(k) => to_bits(k),
        GenerousInpt::Memory(ad) => ad,
        GenerousInpt::Register(_) => 0,
    }
}

/// What reading a register-operand byte at `i` yields: the register named by
/// a code between 1 and 12, or the error for the offending byte.
pub open spec fn decode_reg(m: Seq<u8>, i: int) -> Result<Reg, DecodeError> {
    if !(i < m.len()) {
        Err(DecodeError::Truncated)
    } else if 1 <= m[i] <= 12 {
        Ok(reg_of_code(m[i]))
    } else {
        Err(DecodeError::InvalidRegisterCode(m[i]))
    }
}

/// What reading a big-endian 16-bit operand at `i` yields.
pub open spec fn decode_word(m: Seq<u8>, i: int) -> Result<u16, DecodeError> {
    if !(i + 1 < m.len()) {
        Err(DecodeError::Truncated)
    } else {
        Ok(word16(m[i], m[i + 1]))
    }
}

/// How many bytes a constant-or-register operand occupies on the wire.
pub open spec fn cr_len(is_reg: bool) -> int {
    if is_reg {
        1
    } else {
        2
    }
}

/// What a constant-or-register operand read at `i` yields, the kind chosen
/// by the operand's flag bit.
pub open spec fn decode_inpt(m: Seq<u8>, i: int, is_reg: bool) -> Result<Inpt, DecodeError> {
    if is_reg {
        match decode_reg(m, i) {
            Ok(r) => Ok(Inpt::Register(r)),
            Err(e) => Err(e),
        }
    } else {
        match decode_word(m, i) {
            Ok(w) => Ok(Inpt::Const(signed16(w))),
            Err(e) => Err(e),
        }
    }
}

/// The two-operand instruction an opcode between 2 and 12 stands for.
pub open spec fn alu_instr(op: u8, a: Inpt, b: Reg) -> Instruction {
    if op == 2 {
        Instruction::Sum(a, b)
    } else if op == 3 {
        Instruction::Sub(a, b)
    } else if op == 4 {
        Instruction::Mul(a, b)
    } else if op == 5 {
        Instruction::Div(a, b)
    } else if op == 6 {
        Instruction::And(a, b)
    } else if op == 7 {
        Instruction::Or(a, b)
    } else if op == 9 {
        Instruction::Xor(a, b)
    } else if op == 10 {
        Instruction::Shr(a, b)
    } else if op == 11 {
        Instruction::Shl(a, b)
    } else {
        Instruction::Cmp(a, b)
    }
}

/// The single-operand flow instruction an opcode between 13 and 18 stands
/// for.
pub open spec fn jump_instr(op: u8, t: Inpt) -> Instruction {
    if op == 13 {
        Instruction::Jmp(t)
    } else if op == 14 {
        Instruction::Jeq(t)
    } else if op == 15 {
        Instruction::Jne(t)
    } else if op == 16 {
        Instruction::Jgt(t)
    } else if op == 17 {
        Instruction::Jlt(t)
    } else {
        Instruction::Push(t)
    }
}

/// What decoding the byte stream at offset `at` yields: the instruction, and
/// how many bytes it occupied (the opcode byte plus its operands), or the
/// first failure in reading order.
pub open spec fn decode(m: Seq<u8>, at: int) -> Result<(Instruction, usize), DecodeError> {
    if !(0 <= at < m.len()) {
        Err(DecodeError::Truncated)
    } else {
        let b = m[at];
        let op = b / 8;
        let a_flag = (b / 2) % 2 == 1;
        let b_flag = b % 2 == 1;
        if op == 1 {
            let src = if a_flag {
                match decode_reg(m, at + 1) {
                    Ok(r) => Ok(GenerousInpt::Register(r)),
                    Err(e) => Err(e),
                }
            } else {
                match decode_word(m, at + 1) {
                    Ok(w) => Ok(GenerousInpt::Const(signed16(w))),
                    Err(e) => Err(e),
                }
            };
            match src {
                Err(e) => Err(e),
                Ok(src) => {
                    let dst = if b_flag {
                        match decode_reg(m, at + 1 + cr_len(a_flag)) {
                            Ok(r) => Ok(Dest::Register(r)),
                            Err(e) => Err(e),
                        }
                    } else {
                        match decode_word(m, at + 1 + cr_len(a_flag)) {
                            Ok(w) => Ok(Dest::Memory(w)),
                            Err(e) => Err(e),
                        }
                    };
                    match dst {
                        Err(e) => Err(e),
                        Ok(dst) => Ok(
                            (
                                Instruction::Ld(src, dst),
                                (1 + cr_len(a_flag) + cr_len(b_flag)) as usize,
                            ),
                        ),
                    }
                },
            }
        } else if op == 8 || op == 19 {
            match decode_reg(m, at + 1) {
                Err(e) => Err(e),
                Ok(r) => Ok(
                    (
                        if op == 8 {
                            Instruction::Not(r)
                        } else {
                            Instruction::Pop(r)
                        },
                        2,
                    ),
                ),
            }
        } else if 2 <= op <= 12 {
            match decode_inpt(m, at + 1, a_flag) {
                Err(e) => Err(e),
                Ok(a) => match decode_reg(m, at + 1 + cr_len(a_flag)) {
                    Err(e) => Err(e),
                    Ok(rb) => Ok((alu_instr(op, a, rb), (2 + cr_len(a_flag)) as usize)),
                },
            }
        } else if 13 <= op <= 18 {
            match decode_inpt(m, at + 1, a_flag) {
                Err(e) => Err(e),
                Ok(t) => Ok((jump_instr(op, t), (1 + cr_len(a_flag)) as usize)),
            }
        } else {
            Err(DecodeError::UnknownOpcode(op))
        }
    }
}

/// The opcode byte gives back the opcode number and the two flag bits it was
/// built from.
proof fn lemma_op_byte_fields(code: u8, a_reg: bool, b_reg: bool)
    requires
        1 <= code <= 19,
    ensures
        op_byte(code, a_reg, b_reg) / 8 == code,
        ((op_byte(code, a_reg, b_reg) / 2) % 2 == 1) == a_reg,
        (op_byte(code, a_reg, b_reg) % 2 == 1) == b_reg,
{
    let c = code as int;
    let f: int = (if a_reg {
        2int
    } else {
        0
    }) + (if b_reg {
        1int
    } else {
        0
    });
    let b = c * 8 + f;
    assert(op_byte(code, a_reg, b_reg) == b);
    vstd::arithmetic::div_mod::lemma_fundamental_div_mod_converse(b, 8, c, f);
    vstd::arithmetic::div_mod::lemma_fundamental_div_mod_converse(b, 2, 4 * c + f / 2, f % 2);
    vstd::arithmetic::div_mod::lemma_fundamental_div_mod_converse(4 * c + f / 2, 2, 2 * c, f / 2);
}

/// A stored big-endian word reads back as itself.
proof fn lemma_word_operand_round_trip(m: Seq<u8>, i: int, w: u16)
    requires
        0 <= i,
        i + 1 < m.len(),
        m[i] == hi8(w),
        m[i + 1] == lo8(w),
    ensures
        decode_word(m, i) == Ok::<u16, DecodeError>(w),
{
    crate::word::lemma_word16_split(w);
}

/// A stored register code reads back as the register it names.
proof fn lemma_reg_operand_round_trip(m: Seq<u8>, i: int, r: Reg)
    requires
        0 <= i < m.len(),
        m[i] == reg_code(r),
    ensures
        decode_reg(m, i) == Ok::<Reg, DecodeError>(r),
{
    lemma_reg_code_bijective(r);
}

/// Round trip of the arithmetic/bitwise/shift/compare family.
proof fn lemma_round_trip_alu(code: u8, a: Inpt, b: Reg)
    requires
        2 <= code <= 12,
        code != 8,
    ensures
        decode(encode_alu(code, a, b), 1) == Ok::<(Instruction, usize), DecodeError>(
            (alu_instr(code, a, b), if a matches Inpt::Register(_) {
                3usize
            } else {
                4usize
            }),
        ),
        encode_alu(code, a, b).len() == 6,
        encode_alu(code, a, b)[0] == 8 * (if a matches Inpt::Register(_) {
            3int
        } else {
            4
        }),
{
    let m = encode_alu(code, a, b);
    match a {
        Inpt::Register(ra) => {
            lemma_op_byte_fields(code, true, true);
            lemma_reg_operand_round_trip(m, 2, ra);
            lemma_reg_operand_round_trip(m, 3, b);
        },
        Inpt::Const(k) => {
            lemma_op_byte_fields(code, false, true);
            lemma_word_operand_round_trip(m, 2, bits16(k));
            crate::word::lemma_bits16_signed16(k);
            lemma_reg_operand_round_trip(m, 4, b);
        },
    }
}

/// Round trip of the jump/push family.
proof fn lemma_round_trip_jump(code: u8, t: Inpt)
    requires
        13 <= code <= 18,
    ensures
        decode(encode_jump(code, t), 1) == Ok::<(Instruction, usize), DecodeError>(
            (jump_instr(code, t), if t matches Inpt::Register(_) {
                2usize
            } else {
                3usize
            }),
        ),
        encode_jump(code, t).len() == 6,
        encode_jump(code, t)[0] == 8 * (if t matches Inpt::Register(_) {
            2int
        } else {
            3
        }),
{
    let m = encode_jump(code, t);
    match t {
        Inpt::Register(r) => {
            lemma_op_byte_fields(code, true, false);
            lemma_reg_operand_round_trip(m, 2, r);
        },
        Inpt::Const(k) => {
            lemma_op_byte_fields(code, false, false);
            lemma_word_operand_round_trip(m, 2, bits16(k));
            crate::word::lemma_bits16_signed16(k);
        },
    }
}

/// Round trip of `Not` and `Pop`.
proof fn lemma_round_trip_single_reg(code: u8, r: Reg)
    requires
        code == 8 || code == 19,
    ensures
        decode(encode_single_reg(code, r), 1) == Ok::<(Instruction, usize), DecodeError>(
            (
                if code == 8 {
                    Instruction::Not(r)
                } else {
                    Instruction::Pop(r)
                },
                2usize,
            ),
        ),
        encode_single_reg(code, r).len() == 6,
        encode_single_reg(code, r)[0] == 16,
{
    lemma_op_byte_fields(code, true, true);
    lemma_reg_operand_round_trip(encode_single_reg(code, r), 2, r);
}

/// Round trip of `Ld` for the operand kinds the wire format distinguishes.
proof fn lemma_round_trip_ld(src: GenerousInpt, dst: Dest)
    requires
        !(src matches GenerousInpt::Memory(_)),
    ensures
        decode(encode_ld(src, dst), 1) == Ok::<(Instruction, usize), DecodeError>(
            (Instruction::Ld(src, dst), encoded_bytes(Instruction::Ld(src, dst))),
        ),
        encode_ld(src, dst).len() == 6,
        encode_ld(src, dst)[0] == 8 * encoded_bytes(Instruction::Ld(src, dst)),
{
    let m = encode_ld(src, dst);
    match (src, dst) {
        (GenerousInpt::Register(ra), Dest::Register(rb)) => {
            lemma_op_byte_fields(1, true, true);
            lemma_reg_operand_round_trip(m, 2, ra);
            lemma_reg_operand_round_trip(m, 3, rb);
        },
        (GenerousInpt::Register(ra), Dest::Memory(ad)) => {
            lemma_op_byte_fields(1, true, false);
            lemma_reg_operand_round_trip(m, 2, ra);
            lemma_word_operand_round_trip(m, 3, ad);
        },
        (GenerousInpt::Const(k), Dest::Register(rb)) => {
            lemma_op_byte_fields(1, false, true);
            lemma_word_operand_round_trip(m, 2, bits16(k));
            crate::word::lemma_bits16_signed16(k);
            lemma_reg_operand_round_trip(m, 4, rb);
        },
        (GenerousInpt::Const(k), Dest::Memory(ad)) => {
            lemma_op_byte_fields(1, false, false);
            lemma_word_operand_round_trip(m, 2, bits16(k));
            crate::word::lemma_bits16_signed16(k);
            lemma_word_operand_round_trip(m, 4, ad);
        },
        _ => {},
    }
}

/// Round trip: decoding an encoded instruction at its opcode byte (byte 1 of
/// the slot; byte 0 only records the length) gives back the instruction and
/// the number of bytes it occupies, and byte 0 agrees with that count. The
/// one exception is a `Ld` whose source is a memory address: on the wire it
/// is indistinguishable from an immediate, so it decodes as the immediate
/// with the same bit pattern and is left out here.
#[verifier::rlimit(60)]
pub proof fn lemma_round_trip(i: Instruction)
    requires
        !(i matches Instruction::Ld(GenerousInpt::Memory(_), _)),
    ensures
        encode(i).len() == 6,
        encode(i)[0] == 8 * encoded_bytes(i),
        decode(encode(i), 1) == Ok::<(Instruction, usize), DecodeError>((i, encoded_bytes(i))),
{
    match i {
        Instruction::Ld(src, dst) => lemma_round_trip_ld(src, dst),
        Instruction::Sum(a, b) => lemma_round_trip_alu(2, a, b),
        Instruction::Sub(a, b) => lemma_round_trip_alu(3, a, b),
        Instruction::Mul(a, b) => lemma_round_trip_alu(4, a, b),
        Instruction::Div(a, b) => lemma_round_trip_alu(5, a, b),
        Instruction::And(a, b) => lemma_round_trip_alu(6, a, b),
        Instruction::Or(a, b) => lemma_round_trip_alu(7, a, b),
        Instruction::Not(r) => lemma_round_trip_single_reg(8, r),
        Instruction::Xor(a, b) => lemma_round_trip_alu(9, a, b),
        Instruction::Shr(a, b) => lemma_round_trip_alu(10, a, b),
        Instruction::Shl(a, b) => lemma_round_trip_alu(11, a, b),
        Instruction::Cmp(a, b) => lemma_round_trip_alu(12, a, b),
        Instruction::Jmp(t) => lemma_round_trip_jump(13, t),
        Instruction::Jeq(t) => lemma_round_trip_jump(14, t),
        Instruction::Jne(t) => lemma_round_trip_jump(15, t),
        Instruction::Jgt(t) => lemma_round_trip_jump(16, t),
        Instruction::Jlt(t) => lemma_round_trip_jump(17, t),
        Instruction::Push(t) => lemma_round_trip_jump(18, t),
        Instruction::Pop(r) => lemma_round_trip_single_reg(19, r),
    }
}

/// Reads the register-operand byte at `i`.
fn read_reg_operand(mem: &Mem, i: usize) -> (r: Result<Reg, DecodeError>)
    ensures
        r == decode_reg(mem@, i as int),
{
    if i >= mem.len() {
        return Err(DecodeError::Truncated);
    }
    let c = mem.read(i);
    match Reg::from_code(c) {
        Ok(r) => Ok(r),
        Err(_) => Err(DecodeError::InvalidRegisterCode(c)),
    }
}

/// Reads the big-endian 16-bit operand at `i`.
fn read_word_operand(mem: &Mem, i: usize) -> (r: Result<u16, DecodeError>)
    ensures
        r == decode_word(mem@, i as int),
{
    let n = mem.len();
    if i >= n || n - i < 2 {
        return Err(DecodeError::Truncated);
    }
    Ok(mem.read_16(i))
}

impl Instruction {
    /// Decodes the instruction stored at `index`, returning it with the
    /// number of bytes it occupied so the caller can advance its instruction
    /// pointer; a malformed stream yields the first error in reading order.
    pub fn from_mem(mem: &Mem, index: usize) -> (r: Result<(Instruction, usize), DecodeError>)
        ensures
            r == decode(mem@, index as int),
    {
        let n = mem.len();
        if index >= n {
            return Err(DecodeError::Truncated);
        }
        let b = mem.read(index);
        let op = b / 8;
        let a_flag = (b / 2) % 2 == 1;
        let b_flag = b % 2 == 1;
        if op == 1 {
            let (src, src_len): (GenerousInpt, usize) = if a_flag {
                match read_reg_operand(mem, index + 1) {
                    Ok(r) => (GenerousInpt::Register(r), 1),
                    Err(e) => {
                        return Err(e);
                    },
                }
            } else {
                match read_word_operand(mem, index + 1) {
                    Ok(w) => (GenerousInpt::Const(crate::word::from_bits(w)), 2),
                    Err(e) => {
                        return Err(e);
                    },
                }
            };
            let dst: (Dest, usize) = if b_flag {
                match read_reg_operand(mem, index + 1 + src_len) {
                    Ok(r) => (Dest::Register(r), 1),
                    Err(e) => {
                        return Err(e);
                    },
                }
            } else {
                match read_word_operand(mem, index + 1 + src_len) {
                    Ok(w) => (Dest::Memory(w), 2),
                    Err(e) => {
                        return Err(e);
                    },
                }
            };
            Ok((Instruction::Ld(src, dst.0), 1 + src_len + dst.1))
        } else if op == 8 || op == 19 {
            match read_reg_operand(mem, index + 1) {
                Ok(r) => Ok(
                    (
                        if op == 8 {
                            Instruction::Not(r)
                        } else {
                            Instruction::Pop(r)
                        },
                        2,
                    ),
                ),
                Err(e) => Err(e),
            }
        } else if 2 <= op && op <= 12 {
            let (a, a_len): (Inpt, usize) = if a_flag {
                match read_reg_operand(mem, index + 1) {
                    Ok(r) => (Inpt::Register(r), 1),
                    Err(e) => {
                        return Err(e);
                    },
                }
            } else {
                match read_word_operand(mem, index + 1) {
                    Ok(w) => (Inpt::Const(crate::word::from_bits(w)), 2),
                    Err(e) => {
                        return Err(e);
                    },
                }
            };
            match read_reg_operand(mem, index + 1 + a_len) {
                Ok(rb) => {
                    let instr = if op == 2 {
                        Instruction::Sum(a, rb)
                    } else if op == 3 {
                        Instruction::Sub(a, rb)
                    } else if op == 4 {
                        Instruction::Mul(a, rb)
                    } else if op == 5 {
                        Instruction::Div(a, rb)
                    } else if op == 6 {
                        Instruction::And(a, rb)
                    } else if op == 7 {
                        Instruction::Or(a, rb)
                    } else if op == 9 {
                        Instruction::Xor(a, rb)
                    } else if op == 10 {
                        Instruction::Shr(a, rb)
                    } else if op == 11 {
                        Instruction::Shl(a, rb)
                    } else {
                        Instruction::Cmp(a, rb)
                    };
                    Ok((instr, 2 + a_len))
                },
                Err(e) => Err(e),
            }
        } else if 13 <= op && op <= 18 {
            let (t, t_len): (Inpt, usize) = if a_flag {
                match read_reg_operand(mem, index + 1) {
                    Ok(r) => (Inpt::Register(r), 1),
                    Err(e) => {
                        return Err(e);
                    },
                }
            } else {
                match read_word_operand(mem, index + 1) {
                    Ok(w) => (Inpt::Const(crate::word::from_bits(w)), 2),
                    Err(e) => {
                        return Err(e);
                    },
                }
            };
            let instr = if op == 13 {
                Instruction::Jmp(t)
            } else if op == 14 {
                Instruction::Jeq(t)
            } else if op == 15 {
                Instruction::Jne(t)
            } else if op == 16 {
                Instruction::Jgt(t)
            } else {
                Instruction::Jlt(t)
            };
            let instr = if op == 18 {
                Instruction::Push(t)
            } else {
                instr
            };
            Ok((instr, 1 + t_len))
        } else {
            Err(DecodeError::UnknownOpcode(op))
        }
    }
}

} // verus!
