//! The register file, flags, memory and execution engine: four signed 16-bit
//! accumulators (each aliasable as two 8-bit halves), a sticky flags byte,
//! instruction and stack pointers, and one `execute` step per instruction.

use vstd::prelude::*;

use crate::word::{bits16, signed16, signed8, hi8, lo8, word16};
use crate::word::{to_bits, from_bits, byte_signed, high_byte, low_byte, join_bytes};

verus! {

/// One of the twelve register names: four 16-bit accumulators and, for each,
/// a high-byte and a low-byte alias sharing its storage.
#[derive(Debug, Clone, Copy, PartialEq, Eq, Structural)]
pub enum Reg {
    A,
    AH,
    AL,
    B,
    BH,
    BL,
    C,
    CH,
    CL,
    D,
    DH,
    DL,
}

/// Where a `Ld` instruction writes: a memory address or a register.
#[derive(Debug, Clone, Copy, PartialEq, Eq, Structural)]
pub enum Dest {
    Memory(u16),
    Register(Reg),
}

/// A constant-or-register operand: a 16-bit immediate or a register name.
#[derive(Debug, Clone, Copy, PartialEq, Eq, Structural)]
pub enum Inpt {
    Const(i16),
    Register(Reg),
}

/// What a `Ld` instruction reads: an immediate, a register, or the 16-bit
/// word at a memory address.
#[derive(Debug, Clone, Copy, PartialEq, Eq, Structural)]
pub enum GenerousInpt {
    Const(i16),
    Register(Reg),
    Memory(u16),
}

/// The closed set of nineteen instructions. The destination of the two-operand
/// arithmetic, bitwise and shift forms is always the register in second
/// position.
#[derive(Debug, Clone, Copy, PartialEq, Eq, Structural)]
pub enum Instruction {
    Ld(GenerousInpt, Dest),
    // integer arithmetic
    Sum(Inpt, Reg),
    Sub(Inpt, Reg),
    Mul(Inpt, Reg),
    Div(Inpt, Reg),
    // binary operations
    And(Inpt, Reg),
    Or(Inpt, Reg),
    Not(Reg),
    Xor(Inpt, Reg),
    Shr(Inpt, Reg),
    Shl(Inpt, Reg),
    // program flow
    Cmp(Inpt, Reg),
    Jmp(Inpt),
    Jeq(Inpt),
    Jne(Inpt),
    Jgt(Inpt),
    Jlt(Inpt),
    // stack
    Push(Inpt),
    Pop(Reg),
}

/// A flat byte-addressable store of fixed size, with big-endian 16-bit
/// accessors. Every access is bounds-checked against the allocated size.
pub struct Mem {
    array: Vec<u8>,
}

impl View for Mem {
    type V = Seq<u8>;

    closed spec fn view(&self) -> Seq<u8> {
        self.array@
    }
}

impl Mem {
    /// A zero-filled store of `size` bytes.
    pub fn new(size: usize) -> (m: Self)
        ensures
            m@ == Seq::new(size as nat, |i: int| 0u8),
    {
        let mut array: Vec<u8> = Vec::new();
        let mut i: usize = 0;
        while i < size
            invariant
                i <= size,
                array@ == Seq::new(i as nat, |j: int| 0u8),
            decreases size - i,
        {
            array.push(0);
            proof {
                assert(array@ =~= Seq::new((i + 1) as nat, |j: int| 0u8));
            }
            i = i + 1;
        }
        Mem { array }
    }

    /// A store holding exactly the given bytes.
    pub fn set(v: Vec<u8>) -> (m: Self)
        ensures
            m@ == v@,
    {
        Mem { array: v }
    }

    /// The allocated size in bytes.
    pub fn len(&self) -> (n: usize)
        ensures
            n == self@.len(),
    {
        self.array.len()
    }

    /// The byte at `index`.
    pub fn read(&self, index: usize) -> (b: u8)
        requires
            index < self@.len(),
        ensures
            b == self@[index as int],
    {
        self.array[index]
    }

    /// The big-endian 16-bit word at `index`.
    pub fn read_16(&self, index: usize) -> (w: u16)
        requires
            index + 1 < self@.len(),
        ensures
            w == word16(self@[index as int], self@[index + 1]),
    {
        // Reading the length first shows Verus that `index + 1` cannot wrap.
        let n = self.array.len();
        assert(index + 1 < n);
        join_bytes(self.array[index], self.array[index + 1])
    }

    /// Replaces the byte at `index`.
    pub fn write(&mut self, index: usize, val: u8)
        requires
            index < old(self)@.len(),
        ensures
            final(self)@ == old(self)@.update(index as int, val),
    {
        self.array[index] = val;
    }

    /// Stores `val`'s bit pattern big-endian at `index` and `index + 1`.
    pub fn write_16(&mut self, index: usize, val: i16)
        requires
            index + 1 < old(self)@.len(),
        ensures
            final(self)@ == old(self)@.update(index as int, hi8(bits16(val))).update(
                index + 1,
                lo8(bits16(val)),
            ),
    {
        // Reading the length first shows Verus that `index + 1` cannot wrap.
        let n = self.array.len();
        assert(index + 1 < n);
        let w = to_bits(val);
        self.array[index] = high_byte(w);
        self.array[index + 1] = low_byte(w);
    }
}

impl Default for Mem {
    /// A ten-byte zero-filled store.
    fn default() -> (m: Self)
        ensures
            m@ == Seq::new(10, |i: int| 0u8),
    {
        Mem::new(10)
    }
}

/// The register file and status state: four signed 16-bit accumulators, the
/// sticky flags byte, the instruction pointer, and the stack pointer with its
/// base and byte capacity.
pub struct Cpu {
    // general
    pub a: i16,
    pub b: i16,
    pub c: i16,
    pub d: i16,
    pub flags: u8,
    // pointers
    pub ip: u16,
    pub sp: u16,
    // segments
    pub ss: u16,
    pub stack_size: u16,
}

impl Default for Cpu {
    /// All registers, flags and pointers zero.
    fn default() -> (cpu: Self)
        ensures
            cpu == (Cpu { a: 0, b: 0, c: 0, d: 0, flags: 0, ip: 0, sp: 0, ss: 0, stack_size: 0 }),
    {
        Cpu { a: 0, b: 0, c: 0, d: 0, flags: 0, ip: 0, sp: 0, ss: 0, stack_size: 0 }
    }
}

/// The accumulator word that register name `r` lives in.
pub open spec fn backing_word(cpu: Cpu, r: Reg) -> i16 {
    match r {
        Reg::A | Reg::AH | Reg::AL => cpu.a,
        Reg::B | Reg::BH | Reg::BL => cpu.b,
        Reg::C | Reg::CH | Reg::CL => cpu.c,
        Reg::D | Reg::DH | Reg::DL => cpu.d,
    }
}

/// Whether `r` names a full 16-bit accumulator rather than an 8-bit alias.
pub open spec fn is_wide(r: Reg) -> bool {
    match r {
        Reg::A | Reg::B | Reg::C | Reg::D => true,
        _ => false,
    }
}

/// Whether `r` names the high byte of its accumulator.
pub open spec fn is_high(r: Reg) -> bool {
    match r {
        Reg::AH | Reg::BH | Reg::CH | Reg::DH => true,
        _ => false,
    }
}

/// What reading register `r` yields: the full word, the sign-extended high
/// byte, or the (never negative) low byte.
pub open spec fn read_reg(cpu: Cpu, r: Reg) -> i16 {
    let w = backing_word(cpu, r);
    if is_wide(r) {
        w
    } else if is_high(r) {
        signed8(hi8(bits16(w)))
    } else {
        lo8(bits16(w)) as i16
    }
}

/// The word `w` with `v`'s low byte in its high half, the low half kept.
pub open spec fn word_with_hi(w: u16, v: i16) -> u16 {
    word16(lo8(bits16(v)), lo8(w))
}

/// The word `w` with `v`'s low byte in its low half, the high half kept.
pub open spec fn word_with_lo(w: u16, v: i16) -> u16 {
    word16(hi8(w), lo8(bits16(v)))
}

/// The accumulator word after writing `v` to register name `r` within it:
/// the whole word for a 16-bit name, a read-modify-write of one byte for an
/// 8-bit alias.
pub open spec fn written_word(w: i16, r: Reg, v: i16) -> i16 {
    if is_wide(r) {
        v
    } else if is_high(r) {
        signed16(word_with_hi(bits16(w), v))
    } else {
        signed16(word_with_lo(bits16(w), v))
    }
}

/// The register file after writing `v` to register `r`; every other
/// accumulator, the flags and the pointers are untouched.
pub open spec fn write_reg(cpu: Cpu, r: Reg, v: i16) -> Cpu {
    match r {
        Reg::A | Reg::AH | Reg::AL => Cpu { a: written_word(cpu.a, r, v), ..cpu },
        Reg::B | Reg::BH | Reg::BL => Cpu { b: written_word(cpu.b, r, v), ..cpu },
        Reg::C | Reg::CH | Reg::CL => Cpu { c: written_word(cpu.c, r, v), ..cpu },
        Reg::D | Reg::DH | Reg::DL => Cpu { d: written_word(cpu.d, r, v), ..cpu },
    }
}

/// The state with flag bit(s) `flag` raised; nothing else changes.
pub open spec fn with_flag(cpu: Cpu, flag: u8) -> Cpu {
    Cpu { flags: cpu.flags | flag, ..cpu }
}

impl Cpu {
    pub const FLAG_OVERFLOW: u8 = 0b00000001;

    pub const FLAG_ZERO: u8 = 0b00000010;

    pub const FLAG_EQUAL: u8 = 0b00000100;

    pub const FLAG_GREATER_THAN: u8 = 0b00001000;

    pub const FLAG_LOWER_THAN: u8 = 0b00010000;

    /// A state with the three accumulators `a`, `b`, `c` set and everything
    /// else zero.
    pub fn vals(a: i16, b: i16, c: i16) -> (cpu: Self)
        ensures
            cpu == (Cpu { a, b, c, d: 0, flags: 0, ip: 0, sp: 0, ss: 0, stack_size: 0 }),
    {
        Cpu { a, b, c, d: 0, flags: 0, ip: 0, sp: 0, ss: 0, stack_size: 0 }
    }

    /// Writes `value` to register `reg`; an 8-bit alias keeps its sibling
    /// byte by a read-modify-write of the backing word.
    pub fn reg_write(&mut self, reg: Reg, value: i16)
        ensures
            *final(self) == write_reg(*old(self), reg, value),
    {
        match reg {
            Reg::A => self.a = value,
            Reg::B => self.b = value,
            Reg::C => self.c = value,
            Reg::D => self.d = value,
            Reg::AH => self.a = set_high(self.a, value),
            Reg::AL => self.a = set_low(self.a, value),
            Reg::BH => self.b = set_high(self.b, value),
            Reg::BL => self.b = set_low(self.b, value),
            Reg::CH => self.c = set_high(self.c, value),
            Reg::CL => self.c = set_low(self.c, value),
            Reg::DH => self.d = set_high(self.d, value),
            Reg::DL => self.d = set_low(self.d, value),
        }
    }

    /// Reads register `reg`: the full word for a 16-bit name; for an alias,
    /// its byte (the high byte sign-extended, the low byte zero-extended).
    pub fn reg_read(&self, reg: Reg) -> (v: i16)
        ensures
            v == read_reg(*self, reg),
    {
        match reg {
            Reg::A => self.a,
            Reg::B => self.b,
            Reg::C => self.c,
            Reg::D => self.d,
            Reg::AH => get_high(self.a),
            Reg::AL => get_low(self.a),
            Reg::BH => get_high(self.b),
            Reg::BL => get_low(self.b),
            Reg::CH => get_high(self.c),
            Reg::CL => get_low(self.c),
            Reg::DH => get_high(self.d),
            Reg::DL => get_low(self.d),
        }
    }

    /// Raises the given flag bit(s); flags are sticky and only ever raised
    /// here.
    pub fn flag_set(&mut self, flag: u8)
        ensures
            *final(self) == with_flag(*old(self), flag),
    {
        self.flags = self.flags | flag;
    }
}

/// The word `w` with `value`'s low byte as its high byte.
fn set_high(w: i16, value: i16) -> (r: i16)
    ensures
        r == signed16(word_with_hi(bits16(w), value)),
{
    from_bits(join_bytes(low_byte(to_bits(value)), low_byte(to_bits(w))))
}

/// The word `w` with `value`'s low byte as its low byte.
fn set_low(w: i16, value: i16) -> (r: i16)
    ensures
        r == signed16(word_with_lo(bits16(w), value)),
{
    from_bits(join_bytes(high_byte(to_bits(w)), low_byte(to_bits(value))))
}

/// The high byte of `w`, sign-extended.
fn get_high(w: i16) -> (r: i16)
    ensures
        r == signed8(hi8(bits16(w))),
{
    byte_signed(high_byte(to_bits(w)))
}

/// The low byte of `w`, zero-extended.
fn get_low(w: i16) -> (r: i16)
    ensures
        r == lo8(bits16(w)) as i16,
{
    low_byte(to_bits(w)) as i16
}

/// What a constant-or-register operand resolves to: the literal itself, or
/// the named register's value.
pub open spec fn inpt_value(cpu: Cpu, v: Inpt) -> i16 {
    match v {
        Inpt::Const(c) => c,
        Inpt::Register(r) => read_reg(cpu, r),
    }
}

/// The big-endian 16-bit word at offset `i` of the store.
pub open spec fn mem_word(m: Seq<u8>, i: int) -> u16 {
    word16(m[i], m[i + 1])
}

/// The store with word `w` put big-endian at offset `i`.
pub open spec fn mem_store(m: Seq<u8>, i: int, w: u16) -> Seq<u8> {
    m.update(i, hi8(w)).update(i + 1, lo8(w))
}

/// What a `Ld` source resolves to: a literal, a register's value, or the
/// word in memory at the given address.
pub open spec fn generous_value(cpu: Cpu, m: Seq<u8>, v: GenerousInpt) -> i16 {
    match v {
        GenerousInpt::Const(c) => c,
        GenerousInpt::Register(r) => read_reg(cpu, r),
        GenerousInpt::Memory(ad) => signed16(mem_word(m, ad as int)),
    }
}

/// Where an arithmetic instruction leaves the machine, given the exact
/// (unbounded) result: the destination register gets the result when it fits
/// in a signed 16-bit word, and otherwise gets 0 with OVERFLOW raised.
pub open spec fn alu_dest(cpu: Cpu, exact: int, b: Reg) -> Cpu {
    if i16::MIN <= exact <= i16::MAX {
        write_reg(cpu, b, exact as i16)
    } else {
        write_reg(with_flag(cpu, Cpu::FLAG_OVERFLOW), b, 0)
    }
}

/// Signed division truncating toward zero (Euclidean `/` rounds toward
/// negative infinity on a negative dividend, so the signs are split off).
pub open spec fn div_trunc(a: int, b: int) -> int {
    if a == 0 {
        0
    } else if a > 0 && b > 0 {
        a / b
    } else if a < 0 && b < 0 {
        (a * -1) / (b * -1)
    } else if a < 0 {
        ((a * -1) / b) * -1
    } else {
        (a / (b * -1)) * -1
    }
}

/// A truncating quotient of two signed 16-bit words never leaves the range,
/// except for the smallest word divided by -1.
pub proof fn lemma_div_trunc_in_range(a: int, b: int)
    requires
        i16::MIN <= a <= i16::MAX,
        i16::MIN <= b <= i16::MAX,
        b != 0,
        !(a == i16::MIN && b == -1),
    ensures
        i16::MIN <= div_trunc(a, b) <= i16::MAX,
{
    if a != 0 {
        let p = if a > 0 { a } else { a * -1 };
        let d = if b > 0 { b } else { b * -1 };
        vstd::arithmetic::div_mod::lemma_div_pos_is_pos(p, d);
        vstd::arithmetic::div_mod::lemma_div_nonincreasing(p, d);
        if d == 1 {
            vstd::arithmetic::div_mod::lemma_fundamental_div_mod(p, 1);
        } else if p == 0x8000 {
            vstd::arithmetic::div_mod::lemma_div_is_strictly_smaller(p, d);
        }
    }
}

/// Where `Div` leaves the machine: 0 and ZERO raised on a zero divisor, 0 and
/// OVERFLOW raised when the quotient of the two register words cannot be
/// represented, the truncating quotient otherwise.
pub open spec fn div_dest(cpu: Cpu, av: i16, b: Reg) -> Cpu {
    let bv = read_reg(cpu, b);
    if bv == 0 {
        write_reg(with_flag(cpu, Cpu::FLAG_ZERO), b, 0)
    } else if av == i16::MIN && bv == -1 {
        write_reg(with_flag(cpu, Cpu::FLAG_OVERFLOW), b, 0)
    } else {
        write_reg(cpu, b, div_trunc(av as int, bv as int) as i16)
    }
}

/// Where a shift leaves the machine: the destination's bit pattern shifted as
/// an unsigned word for amounts 0 to 15; any other amount raises OVERFLOW and
/// zeroes the destination without shifting.
pub open spec fn shift_dest(cpu: Cpu, sh: i16, b: Reg, left: bool) -> Cpu {
    let w = bits16(read_reg(cpu, b));
    if 0 <= sh <= 15 {
        write_reg(cpu, b, signed16(if left { w << sh as u16 } else { w >> sh as u16 }))
    } else {
        write_reg(with_flag(cpu, Cpu::FLAG_OVERFLOW), b, 0)
    }
}

/// Where `Cmp` leaves the machine: exactly one of GREATER_THAN, LOWER_THAN,
/// EQUAL is raised according to the signed order of `av` against register
/// `b`; everything else is untouched.
pub open spec fn cmp_dest(cpu: Cpu, av: i16, b: Reg) -> Cpu {
    let bv = read_reg(cpu, b);
    if av > bv {
        with_flag(cpu, Cpu::FLAG_GREATER_THAN)
    } else if av < bv {
        with_flag(cpu, Cpu::FLAG_LOWER_THAN)
    } else {
        with_flag(cpu, Cpu::FLAG_EQUAL)
    }
}

/// The machine with the instruction pointer moved to `to`'s bit pattern.
pub open spec fn jumped(cpu: Cpu, to: i16) -> Cpu {
    Cpu { ip: bits16(to), ..cpu }
}

/// Whether the stack region holds no more room: the pointer stands exactly
/// `stack_size` bytes past the base.
pub open spec fn stack_full(cpu: Cpu) -> bool {
    cpu.sp - cpu.ss == cpu.stack_size
}

/// Where `Push` leaves the machine: on a full stack the value is discarded,
/// the stack pointer is reset to 0 and OVERFLOW raised; otherwise the value
/// is stored at the stack pointer, which advances by two.
pub open spec fn push_dest(cpu: Cpu, m: Seq<u8>, v: i16) -> (Cpu, Seq<u8>) {
    if stack_full(cpu) {
        (Cpu { sp: 0, ..with_flag(cpu, Cpu::FLAG_OVERFLOW) }, m)
    } else {
        ((Cpu { sp: (cpu.sp + 2) as u16, ..cpu }), mem_store(m, cpu.sp as int, bits16(v)))
    }
}

/// Where `Pop` leaves the machine: on an empty stack the destination is left
/// alone, the stack pointer is reset to 0 and OVERFLOW raised; otherwise the
/// word at the stack pointer is read into the destination and the pointer
/// retreats by two.
pub open spec fn pop_dest(cpu: Cpu, m: Seq<u8>, reg: Reg) -> Cpu {
    if cpu.sp == cpu.ss {
        Cpu { sp: 0, ..with_flag(cpu, Cpu::FLAG_OVERFLOW) }
    } else {
        Cpu { sp: (cpu.sp - 2) as u16, ..write_reg(cpu, reg, signed16(mem_word(m, cpu.sp as int))) }
    }
}

/// The machine and store after one instruction.
pub open spec fn step(cpu: Cpu, m: Seq<u8>, instr: Instruction) -> (Cpu, Seq<u8>) {
    match instr {
        Instruction::Ld(src, dst) => {
            let v = generous_value(cpu, m, src);
            match dst {
                Dest::Register(r) => (write_reg(cpu, r, v), m),
                Dest::Memory(ad) => (cpu, mem_store(m, ad as int, bits16(v))),
            }
        },
        Instruction::Sum(a, b) => (alu_dest(cpu, inpt_value(cpu, a) + read_reg(cpu, b), b), m),
        Instruction::Sub(a, b) => (alu_dest(cpu, inpt_value(cpu, a) - read_reg(cpu, b), b), m),
        Instruction::Mul(a, b) => (alu_dest(cpu, inpt_value(cpu, a) * read_reg(cpu, b), b), m),
        Instruction::Div(a, b) => (div_dest(cpu, inpt_value(cpu, a), b), m),
        Instruction::And(a, b) => (write_reg(cpu, b, inpt_value(cpu, a) & read_reg(cpu, b)), m),
        Instruction::Or(a, b) => (write_reg(cpu, b, inpt_value(cpu, a) | read_reg(cpu, b)), m),
        Instruction::Not(a) => (write_reg(cpu, a, !read_reg(cpu, a)), m),
        Instruction::Xor(a, b) => (write_reg(cpu, b, inpt_value(cpu, a) ^ read_reg(cpu, b)), m),
        Instruction::Shr(a, b) => (shift_dest(cpu, inpt_value(cpu, a), b, false), m),
        Instruction::Shl(a, b) => (shift_dest(cpu, inpt_value(cpu, a), b, true), m),
        Instruction::Cmp(a, b) => (cmp_dest(cpu, inpt_value(cpu, a), b), m),
        Instruction::Jmp(to) => (jumped(cpu, inpt_value(cpu, to)), m),
        Instruction::Jeq(to) => (
            if cpu.flags & Cpu::FLAG_EQUAL == Cpu::FLAG_EQUAL {
                jumped(cpu, inpt_value(cpu, to))
            } else {
                cpu
            },
            m,
        ),
        Instruction::Jne(to) => (
            if cpu.flags & Cpu::FLAG_EQUAL == 0 {
                jumped(cpu, inpt_value(cpu, to))
            } else {
                cpu
            },
            m,
        ),
        Instruction::Jgt(to) => (
            if cpu.flags & Cpu::FLAG_GREATER_THAN == Cpu::FLAG_GREATER_THAN {
                jumped(cpu, inpt_value(cpu, to))
            } else {
                cpu
            },
            m,
        ),
        Instruction::Jlt(to) => (
            if cpu.flags & Cpu::FLAG_LOWER_THAN == Cpu::FLAG_LOWER_THAN {
                jumped(cpu, inpt_value(cpu, to))
            } else {
                cpu
            },
            m,
        ),
        Instruction::Push(val) => push_dest(cpu, m, inpt_value(cpu, val)),
        Instruction::Pop(r) => (pop_dest(cpu, m, r), m),
    }
}

/// The bounds an instruction needs so that no memory or stack access goes
/// outside the store and no pointer arithmetic wraps; out-of-range access is
/// a caller error, not a recoverable condition.
pub open spec fn step_ok(cpu: Cpu, m: Seq<u8>, instr: Instruction) -> bool {
    match instr {
        Instruction::Ld(src, dst) => {
            &&& (src matches GenerousInpt::Memory(ad) ==> ad + 1 < m.len())
            &&& (dst matches Dest::Memory(ad) ==> ad + 1 < m.len())
        },
        Instruction::Push(_) => {
            &&& cpu.ss <= cpu.sp
            &&& (!stack_full(cpu) ==> cpu.sp + 1 < m.len() && cpu.sp + 2 <= u16::MAX)
        },
        Instruction::Pop(_) => cpu.sp != cpu.ss ==> 2 <= cpu.sp && cpu.sp + 1 < m.len(),
        _ => true,
    }
}

/// Whether an exact arithmetic result is representable as a signed 16-bit
/// word.
pub open spec fn fits_i16(x: int) -> bool {
    i16::MIN <= x <= i16::MAX
}

/// Writing one 8-bit half of an accumulator never clobbers the sibling half:
/// storing byte `x` in AL and byte `y` in AH, in either order, leaves A with
/// the bit pattern `y * 0x100 + x`.
pub proof fn lemma_alias_law(cpu: Cpu, x: i16, y: i16)
    requires
        0 <= x < 0x100,
        0 <= y < 0x100,
    ensures
        bits16(write_reg(write_reg(cpu, Reg::AL, x), Reg::AH, y).a) == y * 0x100 + x,
        bits16(write_reg(write_reg(cpu, Reg::AH, y), Reg::AL, x).a) == y * 0x100 + x,
{
    let w = bits16(cpu.a);
    crate::word::lemma_word16_parts(hi8(w), x as u8);
    crate::word::lemma_word16_parts(y as u8, lo8(w));
    crate::word::lemma_word16_parts(y as u8, x as u8);
    crate::word::lemma_signed16_bits16(word16(hi8(w), x as u8));
    crate::word::lemma_signed16_bits16(word16(y as u8, lo8(w)));
    crate::word::lemma_signed16_bits16(word16(y as u8, x as u8));
}

/// For Sum, Sub and Mul into a 16-bit destination register, the destination
/// receives the exact signed result whenever it fits in 16 bits, with the
/// flags untouched; otherwise the destination becomes 0 and OVERFLOW is
/// raised. Nothing else of the machine changes.
pub proof fn lemma_overflow_law(cpu: Cpu, m: Seq<u8>, a: Inpt, b: Reg)
    requires
        is_wide(b),
    ensures
        ({
            let exact = inpt_value(cpu, a) + read_reg(cpu, b);
            let c2 = step(cpu, m, Instruction::Sum(a, b)).0;
            &&& (fits_i16(exact) ==> read_reg(c2, b) == exact && c2.flags == cpu.flags)
            &&& (!fits_i16(exact) ==> read_reg(c2, b) == 0 && c2.flags == cpu.flags
                | Cpu::FLAG_OVERFLOW && c2.flags & Cpu::FLAG_OVERFLOW != 0)
            &&& step(cpu, m, Instruction::Sum(a, b)).1 == m
        }),
        ({
            let exact = inpt_value(cpu, a) - read_reg(cpu, b);
            let c2 = step(cpu, m, Instruction::Sub(a, b)).0;
            &&& (fits_i16(exact) ==> read_reg(c2, b) == exact && c2.flags == cpu.flags)
            &&& (!fits_i16(exact) ==> read_reg(c2, b) == 0 && c2.flags == cpu.flags
                | Cpu::FLAG_OVERFLOW && c2.flags & Cpu::FLAG_OVERFLOW != 0)
            &&& step(cpu, m, Instruction::Sub(a, b)).1 == m
        }),
        ({
            let exact = inpt_value(cpu, a) * read_reg(cpu, b);
            let c2 = step(cpu, m, Instruction::Mul(a, b)).0;
            &&& (fits_i16(exact) ==> read_reg(c2, b) == exact && c2.flags == cpu.flags)
            &&& (!fits_i16(exact) ==> read_reg(c2, b) == 0 && c2.flags == cpu.flags
                | Cpu::FLAG_OVERFLOW && c2.flags & Cpu::FLAG_OVERFLOW != 0)
            &&& step(cpu, m, Instruction::Mul(a, b)).1 == m
        }),
{
    assert(forall|f: u8| #[trigger] (f | Cpu::FLAG_OVERFLOW) & Cpu::FLAG_OVERFLOW != 0)
        by (bit_vector);
}

/// A comparison raises exactly one of EQUAL, GREATER_THAN and LOWER_THAN,
/// according to the signed order of the resolved first operand against the
/// destination register; the other two comparison flags and all other state
/// are left exactly as they were.
pub proof fn lemma_cmp_law(cpu: Cpu, m: Seq<u8>, a: Inpt, b: Reg)
    ensures
        ({
            let av = inpt_value(cpu, a);
            let bv = read_reg(cpu, b);
            let c2 = step(cpu, m, Instruction::Cmp(a, b)).0;
            &&& (av == bv ==> c2.flags & Cpu::FLAG_EQUAL != 0 && c2.flags & Cpu::FLAG_GREATER_THAN
                == cpu.flags & Cpu::FLAG_GREATER_THAN && c2.flags & Cpu::FLAG_LOWER_THAN
                == cpu.flags & Cpu::FLAG_LOWER_THAN)
            &&& (av > bv ==> c2.flags & Cpu::FLAG_GREATER_THAN != 0 && c2.flags & Cpu::FLAG_EQUAL
                == cpu.flags & Cpu::FLAG_EQUAL && c2.flags & Cpu::FLAG_LOWER_THAN == cpu.flags
                & Cpu::FLAG_LOWER_THAN)
            &&& (av < bv ==> c2.flags & Cpu::FLAG_LOWER_THAN != 0 && c2.flags & Cpu::FLAG_EQUAL
                == cpu.flags & Cpu::FLAG_EQUAL && c2.flags & Cpu::FLAG_GREATER_THAN == cpu.flags
                & Cpu::FLAG_GREATER_THAN)
            &&& c2 == (Cpu { flags: c2.flags, ..cpu })
            &&& step(cpu, m, Instruction::Cmp(a, b)).1 == m
        }),
{
    let f = cpu.flags;
    assert({
        &&& (f | 0x04u8) & 0x04u8 != 0
        &&& (f | 0x04u8) & 0x08u8 == f & 0x08u8
        &&& (f | 0x04u8) & 0x10u8 == f & 0x10u8
        &&& (f | 0x08u8) & 0x08u8 != 0
        &&& (f | 0x08u8) & 0x04u8 == f & 0x04u8
        &&& (f | 0x08u8) & 0x10u8 == f & 0x10u8
        &&& (f | 0x10u8) & 0x10u8 != 0
        &&& (f | 0x10u8) & 0x04u8 == f & 0x04u8
        &&& (f | 0x10u8) & 0x08u8 == f & 0x08u8
    }) by (bit_vector);
}

/// Stack discipline for pushing: a push on a stack that is not yet full
/// stores the value at the stack pointer and advances it by two, so from a
/// fresh stack (`sp == ss`) pushes succeed exactly while `sp - ss` has not
/// reached the byte capacity — `stack_size / 2` times in all. The push that
/// finds the stack full discards the value, resets the stack pointer and
/// raises OVERFLOW.
pub proof fn lemma_stack_law(cpu: Cpu, m: Seq<u8>, v: Inpt, k: int)
    requires
        step_ok(cpu, m, Instruction::Push(v)),
    ensures
        cpu.sp == cpu.ss + 2 * k ==> (stack_full(cpu) <==> 2 * k == cpu.stack_size),
        !stack_full(cpu) ==> ({
            let (c2, m2) = step(cpu, m, Instruction::Push(v));
            &&& c2 == (Cpu { sp: (cpu.sp + 2) as u16, ..cpu })
            &&& c2.flags == cpu.flags
            &&& mem_word(m2, cpu.sp as int) == bits16(inpt_value(cpu, v))
            &&& m2.len() == m.len()
            &&& forall|i: int|
                0 <= i < m.len() && i != cpu.sp && i != cpu.sp + 1 ==> m2[i] == m[i]
        }),
        stack_full(cpu) ==> ({
            let (c2, m2) = step(cpu, m, Instruction::Push(v));
            &&& c2 == (Cpu { sp: 0, flags: cpu.flags | Cpu::FLAG_OVERFLOW, ..cpu })
            &&& c2.flags & Cpu::FLAG_OVERFLOW != 0
            &&& m2 == m
        }),
{
    assert(forall|f: u8| #[trigger] (f | Cpu::FLAG_OVERFLOW) & Cpu::FLAG_OVERFLOW != 0)
        by (bit_vector);
    if !stack_full(cpu) {
        crate::word::lemma_word16_parts(
            hi8(bits16(inpt_value(cpu, v))),
            lo8(bits16(inpt_value(cpu, v))),
        );
        crate::word::lemma_word16_split(bits16(inpt_value(cpu, v)));
    }
}

/// Stack discipline for popping: a pop that finds the stack empty resets the
/// stack pointer, raises OVERFLOW, and leaves every register and the store
/// unchanged.
pub proof fn lemma_pop_empty_law(cpu: Cpu, m: Seq<u8>, r: Reg)
    requires
        cpu.sp == cpu.ss,
    ensures
        step(cpu, m, Instruction::Pop(r)).0 == (Cpu {
            sp: 0,
            flags: cpu.flags | Cpu::FLAG_OVERFLOW,
            ..cpu
        }),
        step(cpu, m, Instruction::Pop(r)).0.flags & Cpu::FLAG_OVERFLOW != 0,
        step(cpu, m, Instruction::Pop(r)).1 == m,
{
    assert(forall|f: u8| #[trigger] (f | Cpu::FLAG_OVERFLOW) & Cpu::FLAG_OVERFLOW != 0)
        by (bit_vector);
}

impl Cpu {
    /// Resolves a constant-or-register operand against the register file.
    fn resolve(&self, v: Inpt) -> (r: i16)
        ensures
            r == inpt_value(*self, v),
    {
        match v {
            Inpt::Const(c) => c,
            Inpt::Register(r) => self.reg_read(r),
        }
    }

    fn instr_ld(&mut self, val: GenerousInpt, dest: Dest, mem: &mut Mem)
        requires
            val matches GenerousInpt::Memory(ad) ==> ad + 1 < old(mem)@.len(),
            dest matches Dest::Memory(ad) ==> ad + 1 < old(mem)@.len(),
        ensures
            (*final(self), final(mem)@) == step(
                *old(self),
                old(mem)@,
                Instruction::Ld(val, dest),
            ),
    {
        let val = match val {
            GenerousInpt::Const(c) => c,
            GenerousInpt::Register(r) => self.reg_read(r),
            GenerousInpt::Memory(i) => from_bits(mem.read_16(i as usize)),
        };

        match dest {
            Dest::Memory(i) => mem.write_16(i as usize, val),
            Dest::Register(r) => self.reg_write(r, val),
        }
    }

    fn instr_sum(&mut self, a: Inpt, b: Reg)
        ensures
            *final(self) == alu_dest(*old(self), inpt_value(*old(self), a) + read_reg(*old(self), b), b),
    {
        let av = self.resolve(a);
        let bv = self.reg_read(b);

        let exact = av as i32 + bv as i32;
        if exact > i16::MAX as i32 || exact < i16::MIN as i32 {
            self.flag_set(Self::FLAG_OVERFLOW);
            self.reg_write(b, 0);
        } else {
            self.reg_write(b, exact as i16);
        }
    }

    fn instr_sub(&mut self, a: Inpt, b: Reg)
        ensures
            *final(self) == alu_dest(*old(self), inpt_value(*old(self), a) - read_reg(*old(self), b), b),
    {
        let av = self.resolve(a);
        let bv = self.reg_read(b);

        let exact = av as i32 - bv as i32;
        if exact > i16::MAX as i32 || exact < i16::MIN as i32 {
            self.flag_set(Self::FLAG_OVERFLOW);
            self.reg_write(b, 0);
        } else {
            self.reg_write(b, exact as i16);
        }
    }

    fn instr_mul(&mut self, a: Inpt, b: Reg)
        ensures
            *final(self) == alu_dest(*old(self), inpt_value(*old(self), a) * read_reg(*old(self), b), b),
    {
        let av = self.resolve(a);
        let bv = self.reg_read(b);

        proof {
            assert(-0x4000_0000 <= av as int * bv as int <= 0x4000_0000) by (nonlinear_arith)
                requires
                    -0x8000 <= av <= 0x7fff,
                    -0x8000 <= bv <= 0x7fff,
            ;
        }
        let exact = av as i32 * bv as i32;
        if exact > i16::MAX as i32 || exact < i16::MIN as i32 {
            self.flag_set(Self::FLAG_OVERFLOW);
            self.reg_write(b, 0);
        } else {
            self.reg_write(b, exact as i16);
        }
    }

    fn instr_div(&mut self, a: Inpt, b: Reg)
        ensures
            *final(self) == div_dest(*old(self), inpt_value(*old(self), a), b),
    {
        let av = self.resolve(a);
        let bv = self.reg_read(b);

        if bv == 0 {
            self.flag_set(Self::FLAG_ZERO);
            self.reg_write(b, 0);
        } else if av == i16::MIN && bv == -1 {
            self.flag_set(Self::FLAG_OVERFLOW);
            self.reg_write(b, 0);
        } else {
            proof {
                lemma_div_trunc_in_range(av as int, bv as int);
            }
            let q = av.checked_div(bv).unwrap();
            self.reg_write(b, q);
        }
    }

    fn instr_and(&mut self, a: Inpt, b: Reg)
        ensures
            *final(self) == write_reg(*old(self), b, inpt_value(*old(self), a) & read_reg(*old(self), b)),
    {
        let r = self.resolve(a) & self.reg_read(b);
        self.reg_write(b, r);
    }

    fn instr_or(&mut self, a: Inpt, b: Reg)
        ensures
            *final(self) == write_reg(*old(self), b, inpt_value(*old(self), a) | read_reg(*old(self), b)),
    {
        let r = self.resolve(a) | self.reg_read(b);
        self.reg_write(b, r);
    }

    fn instr_not(&mut self, a: Reg)
        ensures
            *final(self) == write_reg(*old(self), a, !read_reg(*old(self), a)),
    {
        let r = !self.reg_read(a);
        self.reg_write(a, r);
    }

    fn instr_xor(&mut self, a: Inpt, b: Reg)
        ensures
            *final(self) == write_reg(*old(self), b, inpt_value(*old(self), a) ^ read_reg(*old(self), b)),
    {
        let r = self.resolve(a) ^ self.reg_read(b);
        self.reg_write(b, r);
    }

    fn instr_shr(&mut self, sh: Inpt, b: Reg)
        ensures
            *final(self) == shift_dest(*old(self), inpt_value(*old(self), sh), b, false),
    {
        let sh = self.resolve(sh);
        if 0 <= sh && sh <= 15 {
            let w = to_bits(self.reg_read(b));
            let shifted = from_bits(w >> sh as u16);
            self.reg_write(b, shifted);
        } else {
            self.flag_set(Self::FLAG_OVERFLOW);
            self.reg_write(b, 0);
        }
    }

    fn instr_shl(&mut self, sh: Inpt, b: Reg)
        ensures
            *final(self) == shift_dest(*old(self), inpt_value(*old(self), sh), b, true),
    {
        let sh = self.resolve(sh);
        if 0 <= sh && sh <= 15 {
            let w = to_bits(self.reg_read(b));
            let shifted = from_bits(w << sh as u16);
            self.reg_write(b, shifted);
        } else {
            self.flag_set(Self::FLAG_OVERFLOW);
            self.reg_write(b, 0);
        }
    }

    fn instr_cmp(&mut self, a: Inpt, b: Reg)
        ensures
            *final(self) == cmp_dest(*old(self), inpt_value(*old(self), a), b),
    {
        let av = self.resolve(a);
        let bv = self.reg_read(b);

        if av > bv {
            self.flag_set(Self::FLAG_GREATER_THAN);
        } else if av < bv {
            self.flag_set(Self::FLAG_LOWER_THAN);
        } else {
            self.flag_set(Self::FLAG_EQUAL);
        }
    }

    fn instr_jmp(&mut self, to: Inpt)
        ensures
            *final(self) == jumped(*old(self), inpt_value(*old(self), to)),
    {
        self.ip = to_bits(self.resolve(to));
    }

    fn instr_jeq(&mut self, to: Inpt)
        ensures
            *final(self) == (if old(self).flags & Self::FLAG_EQUAL == Self::FLAG_EQUAL {
                jumped(*old(self), inpt_value(*old(self), to))
            } else {
                *old(self)
            }),
    {
        let to = to_bits(self.resolve(to));
        if self.flags & Self::FLAG_EQUAL == Self::FLAG_EQUAL {
            self.ip = to;
        }
    }

    fn instr_jne(&mut self, to: Inpt)
        ensures
            *final(self) == (if old(self).flags & Self::FLAG_EQUAL == 0 {
                jumped(*old(self), inpt_value(*old(self), to))
            } else {
                *old(self)
            }),
    {
        let to = to_bits(self.resolve(to));
        if self.flags & Self::FLAG_EQUAL == 0 {
            self.ip = to;
        }
    }

    fn instr_jgt(&mut self, to: Inpt)
        ensures
            *final(self) == (if old(self).flags & Self::FLAG_GREATER_THAN == Self::FLAG_GREATER_THAN {
                jumped(*old(self), inpt_value(*old(self), to))
            } else {
                *old(self)
            }),
    {
        let to = to_bits(self.resolve(to));
        if self.flags & Self::FLAG_GREATER_THAN == Self::FLAG_GREATER_THAN {
            self.ip = to;
        }
    }

    fn instr_jlt(&mut self, to: Inpt)
        ensures
            *final(self) == (if old(self).flags & Self::FLAG_LOWER_THAN == Self::FLAG_LOWER_THAN {
                jumped(*old(self), inpt_value(*old(self), to))
            } else {
                *old(self)
            }),
    {
        let to = to_bits(self.resolve(to));
        if self.flags & Self::FLAG_LOWER_THAN == Self::FLAG_LOWER_THAN {
            self.ip = to;
        }
    }

    fn instr_push(&mut self, val: Inpt, mem: &mut Mem)
        requires
            old(self).ss <= old(self).sp,
            !stack_full(*old(self)) ==> old(self).sp + 1 < old(mem)@.len() && old(self).sp + 2
                <= u16::MAX,
        ensures
            (*final(self), final(mem)@) == push_dest(
                *old(self),
                old(mem)@,
                inpt_value(*old(self), val),
            ),
    {
        let val = self.resolve(val);

        if self.sp - self.ss == self.stack_size {
            self.sp = 0;
            self.flag_set(Self::FLAG_OVERFLOW);
        } else {
            mem.write_16(self.sp as usize, val);
            self.sp = self.sp + 2;
        }
    }

    fn instr_pop(&mut self, reg: Reg, mem: &Mem)
        requires
            old(self).sp != old(self).ss ==> 2 <= old(self).sp && old(self).sp + 1 < mem@.len(),
        ensures
            *final(self) == pop_dest(*old(self), mem@, reg),
    {
        if self.sp == self.ss {
            self.sp = 0;
            self.flag_set(Self::FLAG_OVERFLOW);
        } else {
            let v = from_bits(mem.read_16(self.sp as usize));
            self.reg_write(reg, v);
            self.sp = self.sp - 2;
        }
    }

    /// Applies one instruction to the register file and the store; the effect
    /// is exactly one `step` of the machine.
    pub fn execute(&mut self, instr: Instruction, mem: &mut Mem)
        requires
            step_ok(*old(self), old(mem)@, instr),
        ensures
            *final(self) == step(*old(self), old(mem)@, instr).0,
            final(mem)@ == step(*old(self), old(mem)@, instr).1,
    {
        match instr {
            Instruction::Ld(val, dest) => self.instr_ld(val, dest, mem),
            Instruction::Sum(a, b) => self.instr_sum(a, b),
            Instruction::Sub(a, b) => self.instr_sub(a, b),
            Instruction::Mul(a, b) => self.instr_mul(a, b),
            Instruction::Div(a, b) => self.instr_div(a, b),
            Instruction::And(a, b) => self.instr_and(a, b),
            Instruction::Or(a, b) => self.instr_or(a, b),
            Instruction::Not(a) => self.instr_not(a),
            Instruction::Xor(a, b) => self.instr_xor(a, b),
            Instruction::Shr(a, b) => self.instr_shr(a, b),
            Instruction::Shl(a, b) => self.instr_shl(a, b),
            Instruction::Cmp(a, b) => self.instr_cmp(a, b),
            Instruction::Jmp(to) => self.instr_jmp(to),
            Instruction::Jeq(to) => self.instr_jeq(to),
            Instruction::Jne(to) => self.instr_jne(to),
            Instruction::Jgt(to) => self.instr_jgt(to),
            Instruction::Jlt(to) => self.instr_jlt(to),
            Instruction::Push(val) => self.instr_push(val, mem),
            Instruction::Pop(r) => self.instr_pop(r, mem),
        }
    }
}

} // verus!
