//! The abstract machine: a mathematical model of the CPU state and, for
//! every implemented opcode, the state transition it performs. The
//! executable engine in `cpu` is proved to follow this model exactly.

use vstd::prelude::*;
use crate::word::{combine, hi, lo};
use crate::registers::{Flag, Register8, Register16, Registers};
use crate::memory::{next_addr, prev_addr};
use crate::instructions as ops;

verus! {

/// The whole architectural state of the CPU: register file, the 64KB
/// memory image, and the cumulative machine-cycle counter.
#[verifier::ext_equal]
pub ghost struct State {
    pub regs: Registers,
    pub mem: Seq<u8>,
    pub cycle: u64,
}

/// Why execution stopped: an opcode with no defined handler. Unknown
/// opcodes fail fast rather than being silently skipped.
#[derive(Copy, Clone, Debug, PartialEq, Eq)]
pub enum CpuError {
    /// An opcode byte of the primary table with no implemented handler.
    Unimplemented(u8),
    /// An opcode byte selected by the 0xCB prefix; the whole secondary
    /// table is unimplemented.
    UnimplementedPrefixed(u8),
}

/// Whether a 16-bit register is adjusted right after a memory access
/// through it (the `(HL+)` / `(HL-)` addressing forms).
pub enum RegisterAction {
    Decrement,
    Nothing,
    Increment,
}

/// `v` reduced to 8 bits (wraparound arithmetic).
pub open spec fn wrap8(v: int) -> u8 {
    (v % 256) as u8
}

/// `v` reduced to 16 bits (wraparound arithmetic).
pub open spec fn wrap16(v: int) -> u16 {
    (v % 65536) as u16
}

/// `v` reduced to 64 bits (wraparound arithmetic).
pub open spec fn wrap64(v: int) -> u64 {
    (v % 0x1_0000_0000_0000_0000) as u64
}

/// The signed (two's-complement) reading of a displacement byte.
pub open spec fn sign_ext(d: u8) -> int {
    if d < 128 {
        d as int
    } else {
        d as int - 256
    }
}

/// A value within one modulus of the window `[0, m)` is reduced by at
/// most one addition or subtraction of `m`; this ties the wraparound
/// helpers to the case-split specifications of the machine operations.
pub proof fn lemma_mod_window(v: int, m: int)
    requires
        0 < m,
        -m <= v < 2 * m,
    ensures
        v % m == (if v < 0 {
            v + m
        } else if v < m {
            v
        } else {
            v - m
        }),
{
    if v < 0 {
        vstd::arithmetic::div_mod::lemma_mod_multiples_vanish(-1, v + m, m);
        vstd::arithmetic::div_mod::lemma_small_mod((v + m) as nat, m as nat);
    } else if v < m {
        vstd::arithmetic::div_mod::lemma_small_mod(v as nat, m as nat);
    } else {
        vstd::arithmetic::div_mod::lemma_mod_multiples_vanish(1, v - m, m);
        vstd::arithmetic::div_mod::lemma_small_mod((v - m) as nat, m as nat);
    }
}

/// One circular left rotation of an 8-bit value.
pub open spec fn rotl_circular(v: u8) -> u8 {
    (((v as int) % 128) * 2 + (v as int) / 128) as u8
}

/// One circular right rotation of an 8-bit value.
pub open spec fn rotr_circular(v: u8) -> u8 {
    ((v as int) / 2 + ((v as int) % 2) * 128) as u8
}

/// One left rotation through the carry flag: the old carry enters at
/// bit 0.
pub open spec fn rotl_through(v: u8, carry: bool) -> u8 {
    (((v as int) % 128) * 2 + (if carry {
        1int
    } else {
        0int
    })) as u8
}

/// One right rotation through the carry flag: the old carry enters at
/// bit 7.
pub open spec fn rotr_through(v: u8, carry: bool) -> u8 {
    ((v as int) / 2 + (if carry {
        128int
    } else {
        0int
    })) as u8
}

impl State {
    /// The memory image always spans the full 64KB address space.
    pub open spec fn wf(self) -> bool {
        self.mem.len() == 65536
    }

    /// The byte at `addr`.
    pub open spec fn read8(self, addr: u16) -> u8 {
        self.mem[addr as int]
    }

    /// The state with one memory byte replaced.
    pub open spec fn write8(self, addr: u16, value: u8) -> State {
        State { mem: self.mem.update(addr as int, value), ..self }
    }

    /// The state with the register file replaced.
    pub open spec fn with_regs(self, regs: Registers) -> State {
        State { regs, ..self }
    }

    /// Consume the byte at PC, advancing PC past it.
    pub open spec fn take_byte(self) -> (State, u8) {
        (
            State { regs: Registers { pc: next_addr(self.regs.pc), ..self.regs }, ..self },
            self.read8(self.regs.pc),
        )
    }

    /// Consume a little-endian word at PC, advancing PC past both bytes.
    pub open spec fn take_word(self) -> (State, u16) {
        let (s1, l) = self.take_byte();
        let (s2, h) = s1.take_byte();
        (s2, combine(h, l))
    }

    /// Account `cycles` machine cycles, with wraparound.
    pub open spec fn charge(self, cycles: u64) -> State {
        State { cycle: wrap64(self.cycle + cycles), ..self }
    }
}

/// The post-access adjustment of an addressing register: the accessed
/// address was the pre-adjustment value `addr`.
pub open spec fn spec_apply_action(
    s: State,
    reg: Register16,
    action: RegisterAction,
    addr: u16,
) -> State {
    match action {
        RegisterAction::Nothing => s,
        RegisterAction::Decrement => s.with_regs(s.regs.with16(reg, wrap16(addr - 1))),
        RegisterAction::Increment => s.with_regs(s.regs.with16(reg, wrap16(addr + 1))),
    }
}

/// `LD rr, d16`: load an immediate word into a 16-bit register.
pub open spec fn spec_load_word_to_reg(s: State, reg: Register16) -> (State, u64) {
    let (s1, v) = s.take_word();
    (s1.with_regs(s1.regs.with16(reg, v)), 3)
}

/// `LD r, d8`: load an immediate byte into an 8-bit register.
pub open spec fn spec_load_byte_to_reg(s: State, reg: Register8) -> (State, u64) {
    let (s1, v) = s.take_byte();
    (s1.with_regs(s1.regs.with8(reg, v)), 2)
}

/// `LD r, r'`: copy one 8-bit register into another.
pub open spec fn spec_load_reg_to_reg(s: State, dest: Register8, src: Register8) -> (State, u64) {
    (s.with_regs(s.regs.with8(dest, s.regs.r8(src))), 1)
}

/// `LD (rr), r`: store an 8-bit register at the address held in a 16-bit
/// register, then apply the optional post-adjustment to that register.
pub open spec fn spec_load_reg_to_mem_at_reg(
    s: State,
    dest: Register16,
    src: Register8,
    action: RegisterAction,
) -> (State, u64) {
    let addr = s.regs.r16(dest);
    let s1 = s.write8(addr, s.regs.r8(src));
    (spec_apply_action(s1, dest, action, addr), 2)
}

/// `LD (a16), rr`: store a 16-bit register little-endian at an immediate
/// address.
pub open spec fn spec_load_reg16_to_mem(s: State, src: Register16) -> (State, u64) {
    let (s1, addr) = s.take_word();
    let v = s1.regs.r16(src);
    (s1.write8(addr, lo(v)).write8(next_addr(addr), hi(v)), 5)
}

/// `LD r, (rr)`: load the byte at the address held in a 16-bit register,
/// then apply the optional post-adjustment to that register.
pub open spec fn spec_load_mem_at_reg_to_reg(
    s: State,
    dest: Register8,
    src: Register16,
    action: RegisterAction,
) -> (State, u64) {
    let addr = s.regs.r16(src);
    let s1 = s.with_regs(s.regs.with8(dest, s.read8(addr)));
    (spec_apply_action(s1, src, action, addr), 2)
}

/// `LD (rr), d8`: store an immediate byte at the address held in a
/// 16-bit register.
pub open spec fn spec_load_byte_to_mem_at_reg(s: State, reg: Register16) -> (State, u64) {
    let (s1, v) = s.take_byte();
    (s1.write8(s1.regs.r16(reg), v), 3)
}

/// `INC r`: 8-bit increment. Zero and HalfCarry are set from the result,
/// Subtract is cleared, and Carry is never touched.
pub open spec fn spec_increment8(s: State, reg: Register8) -> (State, u64) {
    let v = s.regs.r8(reg);
    let carry = s.regs.flag(Flag::Carry);
    let r = wrap8(v + 1);
    (s.with_regs(s.regs.with8(reg, r).with_flags(r == 0, false, v % 16 == 15, carry)), 1)
}

/// `INC rr`: 16-bit increment; HalfCarry is the carry out of bit 11, and
/// Carry is never touched.
pub open spec fn spec_increment16(s: State, reg: Register16) -> (State, u64) {
    let v = s.regs.r16(reg);
    let carry = s.regs.flag(Flag::Carry);
    let r = wrap16(v + 1);
    (s.with_regs(s.regs.with16(reg, r).with_flags(r == 0, false, v % 0x1000 == 0xFFF, carry)), 1)
}

/// `INC (rr)`: 8-bit increment of the byte at the address held in a
/// 16-bit register; same flag rule as `INC r`.
pub open spec fn spec_increment_mem_at_reg16(s: State, reg: Register16) -> (State, u64) {
    let addr = s.regs.r16(reg);
    let v = s.read8(addr);
    let carry = s.regs.flag(Flag::Carry);
    let r = wrap8(v + 1);
    let s1 = s.write8(addr, r);
    (s1.with_regs(s1.regs.with_flags(r == 0, false, v % 16 == 15, carry)), 3)
}

/// `ADD A, r`: 8-bit addition into the accumulator. Carry is the carry
/// out of bit 7, HalfCarry the carry out of bit 3, Zero tracks the
/// wrapped sum, Subtract is cleared.
pub open spec fn spec_add(s: State, reg: Register8) -> (State, u64) {
    let a = s.regs.r8(Register8::A);
    let v = s.regs.r8(reg);
    let r = wrap8(a + v);
    (
        s.with_regs(
            s.regs.with8(Register8::A, r).with_flags(
                r == 0,
                false,
                a % 16 + v % 16 > 15,
                a + v > 255,
            ),
        ),
        1,
    )
}

/// `ADD rr, rr'`: 16-bit addition. HalfCarry is the carry out of bit 11,
/// Carry the carry out of bit 15, Subtract is cleared, and Zero is not
/// affected.
pub open spec fn spec_add16(s: State, left: Register16, right: Register16) -> (State, u64) {
    let a = s.regs.r16(left);
    let b = s.regs.r16(right);
    let zero = s.regs.flag(Flag::Zero);
    let r = wrap16(a + b);
    (
        s.with_regs(
            s.regs.with16(left, r).with_flags(
                zero,
                false,
                a % 0x1000 + b % 0x1000 > 0xFFF,
                a + b > 65535,
            ),
        ),
        2,
    )
}

/// `DEC r`: 8-bit decrement. HalfCarry is the borrow out of bit 4 (set
/// exactly when the low nibble is zero), Subtract is set, and Carry is
/// never touched.
pub open spec fn spec_decrement8(s: State, reg: Register8) -> (State, u64) {
    let v = s.regs.r8(reg);
    let carry = s.regs.flag(Flag::Carry);
    let r = wrap8(v - 1);
    (s.with_regs(s.regs.with8(reg, r).with_flags(r == 0, true, v % 16 == 0, carry)), 1)
}

/// `DEC rr`: 16-bit decrement; HalfCarry is the borrow out of bit 12,
/// and Carry is never touched.
pub open spec fn spec_decrement16(s: State, reg: Register16) -> (State, u64) {
    let v = s.regs.r16(reg);
    let carry = s.regs.flag(Flag::Carry);
    let r = wrap16(v - 1);
    (s.with_regs(s.regs.with16(reg, r).with_flags(r == 0, true, v % 0x1000 == 0, carry)), 1)
}

/// `DEC (rr)`: 8-bit decrement of the byte at the address held in a
/// 16-bit register; same flag rule as `DEC r`.
pub open spec fn spec_decrement_mem_at_reg16(s: State, reg: Register16) -> (State, u64) {
    let addr = s.regs.r16(reg);
    let v = s.read8(addr);
    let carry = s.regs.flag(Flag::Carry);
    let r = wrap8(v - 1);
    let s1 = s.write8(addr, r);
    (s1.with_regs(s1.regs.with_flags(r == 0, true, v % 16 == 0, carry)), 1)
}

/// `SUB r`: 8-bit subtraction from the accumulator. Carry is the borrow
/// out of bit 7, HalfCarry the borrow out of bit 3, Zero tracks the
/// wrapped difference, Subtract is set.
pub open spec fn spec_sub8(s: State, reg: Register8) -> (State, u64) {
    let a = s.regs.r8(Register8::A);
    let v = s.regs.r8(reg);
    let r = wrap8(a - v);
    (
        s.with_regs(
            s.regs.with8(Register8::A, r).with_flags(r == 0, true, a % 16 < v % 16, a < v),
        ),
        1,
    )
}

/// `SUB (rr)`: subtract the byte at the address held in a 16-bit
/// register from the accumulator.
pub open spec fn spec_sub_mem_at_reg(s: State, reg: Register16) -> (State, u64) {
    let a = s.regs.r8(Register8::A);
    let v = s.read8(s.regs.r16(reg));
    let r = wrap8(a - v);
    (
        s.with_regs(
            s.regs.with8(Register8::A, r).with_flags(r == 0, true, a % 16 < v % 16, a < v),
        ),
        2,
    )
}

/// `SUB d8`: subtract an immediate byte from the accumulator.
pub open spec fn spec_sub_byte(s: State) -> (State, u64) {
    let (s1, v) = s.take_byte();
    let a = s1.regs.r8(Register8::A);
    let r = wrap8(a - v);
    (
        s1.with_regs(
            s1.regs.with8(Register8::A, r).with_flags(r == 0, true, a % 16 < v % 16, a < v),
        ),
        2,
    )
}

/// `JR s8`: unconditional relative jump. The displacement is signed and
/// is added to the PC already advanced past the whole instruction.
pub open spec fn spec_jump_relative(s: State) -> (State, u64) {
    let (s1, d) = s.take_byte();
    (s1.with_regs(Registers { pc: wrap16(s1.regs.pc + sign_ext(d)), ..s1.regs }), 3)
}

/// `JR cc, s8`: conditional relative jump; costs the taken amount only
/// when the guarding flag matches the required polarity.
pub open spec fn spec_conditional_jump_relative(
    s: State,
    flag: Flag,
    expected: bool,
) -> (State, u64) {
    let (s1, d) = s.take_byte();
    if s1.regs.flag(flag) == expected {
        (s1.with_regs(Registers { pc: wrap16(s1.regs.pc + sign_ext(d)), ..s1.regs }), 3)
    } else {
        (s1, 2)
    }
}

/// `RLCA`-style circular left rotate: bit 7 goes to bit 0 and to Carry;
/// Zero, Subtract and HalfCarry are cleared.
pub open spec fn spec_rotate_left_circular(s: State, reg: Register8) -> (State, u64) {
    let v = s.regs.r8(reg);
    (s.with_regs(s.regs.with8(reg, rotl_circular(v)).with_flags(false, false, false, v >= 128)), 1)
}

/// `RLA`-style left rotate through carry: the old Carry enters at bit 0
/// and bit 7 becomes the new Carry.
pub open spec fn spec_rotate_left(s: State, reg: Register8) -> (State, u64) {
    let v = s.regs.r8(reg);
    let carry = s.regs.flag(Flag::Carry);
    (
        s.with_regs(
            s.regs.with8(reg, rotl_through(v, carry)).with_flags(false, false, false, v >= 128),
        ),
        1,
    )
}

/// `RRCA`-style circular right rotate: bit 0 goes to bit 7 and to Carry.
pub open spec fn spec_rotate_right_circular(s: State, reg: Register8) -> (State, u64) {
    let v = s.regs.r8(reg);
    (
        s.with_regs(s.regs.with8(reg, rotr_circular(v)).with_flags(false, false, false, v % 2 == 1)),
        1,
    )
}

/// `RRA`-style right rotate through carry: the old Carry enters at bit 7
/// and bit 0 becomes the new Carry.
pub open spec fn spec_rotate_right(s: State, reg: Register8) -> (State, u64) {
    let v = s.regs.r8(reg);
    let carry = s.regs.flag(Flag::Carry);
    (
        s.with_regs(
            s.regs.with8(reg, rotr_through(v, carry)).with_flags(false, false, false, v % 2 == 1),
        ),
        1,
    )
}

/// `POP rr`: read the low byte at SP and the high byte at SP+1,
/// incrementing SP after each read.
pub open spec fn spec_pop_reg16(s: State, reg: Register16) -> (State, u64) {
    let l = s.read8(s.regs.sp);
    let sp1 = next_addr(s.regs.sp);
    let h = s.read8(sp1);
    let sp2 = next_addr(sp1);
    (s.with_regs(s.regs.with16(Register16::SP, sp2).with16(reg, combine(h, l))), 3)
}

/// `PUSH rr`: decrement SP before each store; the high byte is stored
/// first, so the word ends up little-endian at the final SP.
pub open spec fn spec_push_reg16(s: State, reg: Register16) -> (State, u64) {
    let v = s.regs.r16(reg);
    let a1 = prev_addr(s.regs.sp);
    let a2 = prev_addr(a1);
    let s1 = s.write8(a1, hi(v)).write8(a2, lo(v));
    (s1.with_regs(s1.regs.with16(Register16::SP, a2)), 4)
}

/// `CCF`: flip Carry, clear Subtract and HalfCarry, leave Zero.
pub open spec fn spec_invert_carry(s: State) -> (State, u64) {
    let zero = s.regs.flag(Flag::Zero);
    let carry = s.regs.flag(Flag::Carry);
    (s.with_regs(s.regs.with_flags(zero, false, false, !carry)), 1)
}

/// `CPL`-style complement: bitwise-invert the register, set Subtract and
/// HalfCarry, leave Zero and Carry.
pub open spec fn spec_invert_reg8(s: State, reg: Register8) -> (State, u64) {
    let v = s.regs.r8(reg);
    let zero = s.regs.flag(Flag::Zero);
    let carry = s.regs.flag(Flag::Carry);
    (s.with_regs(s.regs.with8(reg, !v).with_flags(zero, true, true, carry)), 1)
}

/// An implemented instruction's transition paired with its cycle cost.
pub open spec fn ok_pair(t: (State, u64)) -> (State, Result<u64, CpuError>) {
    (t.0, Ok(t.1))
}

/// A decoded instruction: the closed set of operations that the
/// primary opcode table can select, each with its register operands.
pub enum Instr {
    /// `NOP`.
    Nop,
    /// The 0xCB prefix selecting the secondary table.
    Prefixed,
    /// `CPL`.
    Complement(Register8),
    /// `CCF`.
    InvertCarry,
    /// `JR s8`.
    JumpRelative,
    /// `JR cc, s8` with the guarding flag and its required polarity.
    JumpRelativeIf(Flag, bool),
    /// `INC r`.
    Increment8(Register8),
    /// `DEC r`.
    Decrement8(Register8),
    /// `INC rr`.
    Increment16(Register16),
    /// `DEC rr`.
    Decrement16(Register16),
    /// `INC (rr)`.
    IncrementMem(Register16),
    /// `DEC (rr)`.
    DecrementMem(Register16),
    /// `LD r, r'`.
    LoadRegToReg(Register8, Register8),
    /// `LD r, d8`.
    LoadByteToReg(Register8),
    /// `LD rr, d16`.
    LoadWordToReg(Register16),
    /// `LD r, (rr)` with the post-access adjustment.
    LoadMemToReg(Register8, Register16, RegisterAction),
    /// `LD (rr), r` with the post-access adjustment.
    LoadRegToMem(Register16, Register8, RegisterAction),
    /// `LD (rr), d8`.
    LoadByteToMem(Register16),
    /// `LD (a16), rr`.
    LoadReg16ToMem(Register16),
    /// `RLCA`.
    RotateLeftCircular(Register8),
    /// `RRCA`.
    RotateRightCircular(Register8),
    /// `RLA`.
    RotateLeft(Register8),
    /// `RRA`.
    RotateRight(Register8),
    /// `ADD A, r`.
    Add(Register8),
    /// `ADD rr, rr'`.
    Add16(Register16, Register16),
    /// An opcode with no defined handler; executing it is a hard
    /// failure, never a silent no-op.
    Undefined,
}

/// The complete decoding of the primary opcode table: every one of the
/// 256 opcode bytes maps to exactly one operation.
pub open spec fn decode_spec(op: u8) -> Instr {
    if op == ops::NO_OP {
        Instr::Nop
    } else if op == ops::PREFIX {
        Instr::Prefixed
    } else if op == ops::CPL {
        Instr::Complement(Register8::A)
    } else if op == ops::CCF {
        Instr::InvertCarry
    } else if op == ops::JR_s8 {
        Instr::JumpRelative
    } else if op == ops::JR_Z_s8 {
        Instr::JumpRelativeIf(Flag::Zero, true)
    } else if op == ops::JR_C_s8 {
        Instr::JumpRelativeIf(Flag::Carry, true)
    } else if op == ops::JR_NZ_s8 {
        Instr::JumpRelativeIf(Flag::Zero, false)
    } else if op == ops::JR_NC_s8 {
        Instr::JumpRelativeIf(Flag::Carry, false)
    } else if op == ops::INC_A {
        Instr::Increment8(Register8::A)
    } else if op == ops::INC_B {
        Instr::Increment8(Register8::B)
    } else if op == ops::INC_C {
        Instr::Increment8(Register8::C)
    } else if op == ops::INC_D {
        Instr::Increment8(Register8::D)
    } else if op == ops::INC_E {
        Instr::Increment8(Register8::E)
    } else if op == ops::INC_H {
        Instr::Increment8(Register8::H)
    } else if op == ops::INC_L {
        Instr::Increment8(Register8::L)
    } else if op == ops::DEC_A {
        Instr::Decrement8(Register8::A)
    } else if op == ops::DEC_B {
        Instr::Decrement8(Register8::B)
    } else if op == ops::DEC_C {
        Instr::Decrement8(Register8::C)
    } else if op == ops::DEC_D {
        Instr::Decrement8(Register8::D)
    } else if op == ops::DEC_E {
        Instr::Decrement8(Register8::E)
    } else if op == ops::DEC_H {
        Instr::Decrement8(Register8::H)
    } else if op == ops::DEC_L {
        Instr::Decrement8(Register8::L)
    } else if op == ops::INC_BC {
        Instr::Increment16(Register16::BC)
    } else if op == ops::INC_DE {
        Instr::Increment16(Register16::DE)
    } else if op == ops::INC_HL {
        Instr::Increment16(Register16::HL)
    } else if op == ops::INC_SP {
        Instr::Increment16(Register16::SP)
    } else if op == ops::DEC_BC {
        Instr::Decrement16(Register16::BC)
    } else if op == ops::DEC_DE {
        Instr::Decrement16(Register16::DE)
    } else if op == ops::DEC_HL {
        Instr::Decrement16(Register16::HL)
    } else if op == ops::DEC_SP {
        Instr::Decrement16(Register16::SP)
    } else if op == ops::INC_aHL {
        Instr::IncrementMem(Register16::HL)
    } else if op == ops::DEC_aHL {
        Instr::DecrementMem(Register16::HL)
    } else if op == ops::LD_A_A {
        Instr::LoadRegToReg(Register8::A, Register8::A)
    } else if op == ops::LD_A_B {
        Instr::LoadRegToReg(Register8::A, Register8::B)
    } else if op == ops::LD_A_C {
        Instr::LoadRegToReg(Register8::A, Register8::C)
    } else if op == ops::LD_A_D {
        Instr::LoadRegToReg(Register8::A, Register8::D)
    } else if op == ops::LD_A_E {
        Instr::LoadRegToReg(Register8::A, Register8::E)
    } else if op == ops::LD_A_H {
        Instr::LoadRegToReg(Register8::A, Register8::H)
    } else if op == ops::LD_A_L {
        Instr::LoadRegToReg(Register8::A, Register8::L)
    } else if op == ops::LD_B_A {
        Instr::LoadRegToReg(Register8::B, Register8::A)
    } else if op == ops::LD_B_B {
        Instr::LoadRegToReg(Register8::B, Register8::B)
    } else if op == ops::LD_B_C {
        Instr::LoadRegToReg(Register8::B, Register8::C)
    } else if op == ops::LD_B_D {
        Instr::LoadRegToReg(Register8::B, Register8::D)
    } else if op == ops::LD_B_E {
        Instr::LoadRegToReg(Register8::B, Register8::E)
    } else if op == ops::LD_B_H {
        Instr::LoadRegToReg(Register8::B, Register8::H)
    } else if op == ops::LD_B_L {
        Instr::LoadRegToReg(Register8::B, Register8::L)
    } else if op == ops::LD_C_A {
        Instr::LoadRegToReg(Register8::C, Register8::A)
    } else if op == ops::LD_C_B {
        Instr::LoadRegToReg(Register8::C, Register8::B)
    } else if op == ops::LD_C_C {
        Instr::LoadRegToReg(Register8::C, Register8::C)
    } else if op == ops::LD_C_D {
        Instr::LoadRegToReg(Register8::C, Register8::D)
    } else if op == ops::LD_C_E {
        Instr::LoadRegToReg(Register8::C, Register8::E)
    } else if op == ops::LD_C_H {
        Instr::LoadRegToReg(Register8::C, Register8::H)
    } else if op == ops::LD_C_L {
        Instr::LoadRegToReg(Register8::C, Register8::L)
    } else if op == ops::LD_D_A {
        Instr::LoadRegToReg(Register8::D, Register8::A)
    } else if op == ops::LD_D_B {
        Instr::LoadRegToReg(Register8::D, Register8::B)
    } else if op == ops::LD_D_C {
        Instr::LoadRegToReg(Register8::D, Register8::C)
    } else if op == ops::LD_D_D {
        Instr::LoadRegToReg(Register8::D, Register8::D)
    } else if op == ops::LD_D_E {
        Instr::LoadRegToReg(Register8::D, Register8::E)
    } else if op == ops::LD_D_H {
        Instr::LoadRegToReg(Register8::D, Register8::H)
    } else if op == ops::LD_D_L {
        Instr::LoadRegToReg(Register8::D, Register8::L)
    } else if op == ops::LD_E_A {
        Instr::LoadRegToReg(Register8::E, Register8::A)
    } else if op == ops::LD_E_B {
        Instr::LoadRegToReg(Register8::E, Register8::B)
    } else if op == ops::LD_E_C {
        Instr::LoadRegToReg(Register8::E, Register8::C)
    } else if op == ops::LD_E_D {
        Instr::LoadRegToReg(Register8::E, Register8::D)
    } else if op == ops::LD_E_E {
        Instr::LoadRegToReg(Register8::E, Register8::E)
    } else if op == ops::LD_E_H {
        Instr::LoadRegToReg(Register8::E, Register8::H)
    } else if op == ops::LD_E_L {
        Instr::LoadRegToReg(Register8::E, Register8::L)
    } else if op == ops::LD_H_A {
        Instr::LoadRegToReg(Register8::H, Register8::A)
    } else if op == ops::LD_H_B {
        Instr::LoadRegToReg(Register8::H, Register8::B)
    } else if op == ops::LD_H_C {
        Instr::LoadRegToReg(Register8::H, Register8::C)
    } else if op == ops::LD_H_D {
        Instr::LoadRegToReg(Register8::H, Register8::D)
    } else if op == ops::LD_H_E {
        Instr::LoadRegToReg(Register8::H, Register8::E)
    } else if op == ops::LD_H_H {
        Instr::LoadRegToReg(Register8::H, Register8::H)
    } else if op == ops::LD_H_L {
        Instr::LoadRegToReg(Register8::H, Register8::L)
    } else if op == ops::LD_L_A {
        Instr::LoadRegToReg(Register8::L, Register8::A)
    } else if op == ops::LD_L_B {
        Instr::LoadRegToReg(Register8::L, Register8::B)
    } else if op == ops::LD_L_C {
        Instr::LoadRegToReg(Register8::L, Register8::C)
    } else if op == ops::LD_L_D {
        Instr::LoadRegToReg(Register8::L, Register8::D)
    } else if op == ops::LD_L_E {
        Instr::LoadRegToReg(Register8::L, Register8::E)
    } else if op == ops::LD_L_H {
        Instr::LoadRegToReg(Register8::L, Register8::H)
    } else if op == ops::LD_L_L {
        Instr::LoadRegToReg(Register8::L, Register8::L)
    } else if op == ops::LD_A_d8 {
        Instr::LoadByteToReg(Register8::A)
    } else if op == ops::LD_B_d8 {
        Instr::LoadByteToReg(Register8::B)
    } else if op == ops::LD_C_d8 {
        Instr::LoadByteToReg(Register8::C)
    } else if op == ops::LD_D_d8 {
        Instr::LoadByteToReg(Register8::D)
    } else if op == ops::LD_E_d8 {
        Instr::LoadByteToReg(Register8::E)
    } else if op == ops::LD_H_d8 {
        Instr::LoadByteToReg(Register8::H)
    } else if op == ops::LD_L_d8 {
        Instr::LoadByteToReg(Register8::L)
    } else if op == ops::LD_BC_d16 {
        Instr::LoadWordToReg(Register16::BC)
    } else if op == ops::LD_DE_d16 {
        Instr::LoadWordToReg(Register16::DE)
    } else if op == ops::LD_HL_d16 {
        Instr::LoadWordToReg(Register16::HL)
    } else if op == ops::LD_SP_d16 {
        Instr::LoadWordToReg(Register16::SP)
    } else if op == ops::LD_A_aBC {
        Instr::LoadMemToReg(Register8::A, Register16::BC, RegisterAction::Nothing)
    } else if op == ops::LD_A_aDE {
        Instr::LoadMemToReg(Register8::A, Register16::DE, RegisterAction::Nothing)
    } else if op == ops::LD_A_aHL {
        Instr::LoadMemToReg(Register8::A, Register16::HL, RegisterAction::Nothing)
    } else if op == ops::LD_B_aHL {
        Instr::LoadMemToReg(Register8::B, Register16::HL, RegisterAction::Nothing)
    } else if op == ops::LD_C_aHL {
        Instr::LoadMemToReg(Register8::C, Register16::HL, RegisterAction::Nothing)
    } else if op == ops::LD_D_aHL {
        Instr::LoadMemToReg(Register8::D, Register16::HL, RegisterAction::Nothing)
    } else if op == ops::LD_E_aHL {
        Instr::LoadMemToReg(Register8::E, Register16::HL, RegisterAction::Nothing)
    } else if op == ops::LD_H_aHL {
        Instr::LoadMemToReg(Register8::H, Register16::HL, RegisterAction::Nothing)
    } else if op == ops::LD_L_aHL {
        Instr::LoadMemToReg(Register8::L, Register16::HL, RegisterAction::Nothing)
    } else if op == ops::LD_A_aHLp {
        Instr::LoadMemToReg(Register8::A, Register16::HL, RegisterAction::Increment)
    } else if op == ops::LD_A_aHLm {
        Instr::LoadMemToReg(Register8::A, Register16::HL, RegisterAction::Decrement)
    } else if op == ops::LD_aBC_A {
        Instr::LoadRegToMem(Register16::BC, Register8::A, RegisterAction::Nothing)
    } else if op == ops::LD_aDE_A {
        Instr::LoadRegToMem(Register16::DE, Register8::A, RegisterAction::Nothing)
    } else if op == ops::LD_aHL_A {
        Instr::LoadRegToMem(Register16::HL, Register8::A, RegisterAction::Nothing)
    } else if op == ops::LD_aHL_B {
        Instr::LoadRegToMem(Register16::HL, Register8::B, RegisterAction::Nothing)
    } else if op == ops::LD_aHL_C {
        Instr::LoadRegToMem(Register16::HL, Register8::C, RegisterAction::Nothing)
    } else if op == ops::LD_aHL_D {
        Instr::LoadRegToMem(Register16::HL, Register8::D, RegisterAction::Nothing)
    } else if op == ops::LD_aHL_E {
        Instr::LoadRegToMem(Register16::HL, Register8::E, RegisterAction::Nothing)
    } else if op == ops::LD_aHL_H {
        Instr::LoadRegToMem(Register16::HL, Register8::H, RegisterAction::Nothing)
    } else if op == ops::LD_aHL_L {
        Instr::LoadRegToMem(Register16::HL, Register8::L, RegisterAction::Nothing)
    } else if op == ops::LD_aHLp_A {
        Instr::LoadRegToMem(Register16::HL, Register8::A, RegisterAction::Increment)
    } else if op == ops::LD_aHLm_A {
        Instr::LoadRegToMem(Register16::HL, Register8::A, RegisterAction::Decrement)
    } else if op == ops::LD_aHL_d8 {
        Instr::LoadByteToMem(Register16::HL)
    } else if op == ops::LD_a16_SP {
        Instr::LoadReg16ToMem(Register16::SP)
    } else if op == ops::RLCA {
        Instr::RotateLeftCircular(Register8::A)
    } else if op == ops::RRCA {
        Instr::RotateRightCircular(Register8::A)
    } else if op == ops::RLA {
        Instr::RotateLeft(Register8::A)
    } else if op == ops::RRA {
        Instr::RotateRight(Register8::A)
    } else if op == ops::ADD_A_B {
        Instr::Add(Register8::B)
    } else if op == ops::ADD_A_C {
        Instr::Add(Register8::C)
    } else if op == ops::ADD_HL_BC {
        Instr::Add16(Register16::HL, Register16::BC)
    } else if op == ops::ADD_HL_DE {
        Instr::Add16(Register16::HL, Register16::DE)
    } else if op == ops::ADD_HL_HL {
        Instr::Add16(Register16::HL, Register16::HL)
    } else if op == ops::ADD_HL_SP {
        Instr::Add16(Register16::HL, Register16::SP)
    } else {
        Instr::Undefined
    }
}

/// The effect of one decoded instruction from the state `s` in which
/// the opcode byte `op` has already been consumed; the cycle counter is
/// not yet advanced.
pub open spec fn instr_spec(s: State, op: u8, i: Instr) -> (State, Result<u64, CpuError>) {
    match i {
        Instr::Nop => (s, Ok(1)),
        Instr::Prefixed => {
            let (s1, b) = s.take_byte();
            (s1, Err(CpuError::UnimplementedPrefixed(b)))
        },
        Instr::Complement(reg) => ok_pair(spec_invert_reg8(s, reg)),
        Instr::InvertCarry => ok_pair(spec_invert_carry(s)),
        Instr::JumpRelative => ok_pair(spec_jump_relative(s)),
        Instr::JumpRelativeIf(flag, expected) => ok_pair(
            spec_conditional_jump_relative(s, flag, expected),
        ),
        Instr::Increment8(reg) => ok_pair(spec_increment8(s, reg)),
        Instr::Decrement8(reg) => ok_pair(spec_decrement8(s, reg)),
        Instr::Increment16(reg) => ok_pair(spec_increment16(s, reg)),
        Instr::Decrement16(reg) => ok_pair(spec_decrement16(s, reg)),
        Instr::IncrementMem(reg) => ok_pair(spec_increment_mem_at_reg16(s, reg)),
        Instr::DecrementMem(reg) => ok_pair(spec_decrement_mem_at_reg16(s, reg)),
        Instr::LoadRegToReg(dest, src) => ok_pair(spec_load_reg_to_reg(s, dest, src)),
        Instr::LoadByteToReg(reg) => ok_pair(spec_load_byte_to_reg(s, reg)),
        Instr::LoadWordToReg(reg) => ok_pair(spec_load_word_to_reg(s, reg)),
        Instr::LoadMemToReg(dest, src, action) => ok_pair(
            spec_load_mem_at_reg_to_reg(s, dest, src, action),
        ),
        Instr::LoadRegToMem(dest, src, action) => ok_pair(
            spec_load_reg_to_mem_at_reg(s, dest, src, action),
        ),
        Instr::LoadByteToMem(reg) => ok_pair(spec_load_byte_to_mem_at_reg(s, reg)),
        Instr::LoadReg16ToMem(reg) => ok_pair(spec_load_reg16_to_mem(s, reg)),
        Instr::RotateLeftCircular(reg) => ok_pair(spec_rotate_left_circular(s, reg)),
        Instr::RotateRightCircular(reg) => ok_pair(spec_rotate_right_circular(s, reg)),
        Instr::RotateLeft(reg) => ok_pair(spec_rotate_left(s, reg)),
        Instr::RotateRight(reg) => ok_pair(spec_rotate_right(s, reg)),
        Instr::Add(reg) => ok_pair(spec_add(s, reg)),
        Instr::Add16(left, right) => ok_pair(spec_add16(s, left, right)),
        Instr::Undefined => (s, Err(CpuError::Unimplemented(op))),
    }
}

/// The effect of one opcode, dispatched from the state `s` in which the
/// opcode byte itself has already been consumed: decode it, apply its
/// transition, and account its cycles. An opcode with no handler changes
/// nothing and reports itself; the 0xCB prefix consumes its second byte
/// and reports that.
pub open spec fn execute_spec(s: State, op: u8) -> (State, Result<u64, CpuError>) {
    let (s1, r) = instr_spec(s, op, decode_spec(op));
    match r {
        Ok(c) => (s1.charge(c), Ok(c)),
        Err(e) => (s1, Err(e)),
    }
}

/// One whole instruction from the state `s`: fetch the opcode at PC and
/// execute it.
pub open spec fn step_spec(s: State) -> (State, Result<u64, CpuError>) {
    let (s1, opcode) = s.take_byte();
    execute_spec(s1, opcode)
}

/// Forget the cycle count of a successful step.
pub open spec fn ok_unit(r: Result<u64, CpuError>) -> Result<(), CpuError> {
    match r {
        Ok(_) => Ok(()),
        Err(e) => Err(e),
    }
}

/// Up to `n` whole instructions from `s`, stopping early at the first
/// undefined opcode.
pub open spec fn run_n_spec(s: State, n: nat) -> (State, Result<(), CpuError>)
    decreases n,
{
    if n == 0 {
        (s, Ok(()))
    } else {
        let (s1, r) = step_spec(s);
        match r {
            Err(e) => (s1, Err(e)),
            Ok(_) => run_n_spec(s1, (n - 1) as nat),
        }
    }
}

/// The halt reached from `s` within at most `k + 1` instructions, if any:
/// the state at the stop and the error that stopped it.
pub open spec fn run_within(s: State, k: nat) -> Option<(State, CpuError)>
    decreases k,
{
    let (s1, r) = step_spec(s);
    match r {
        Err(e) => Some((s1, e)),
        Ok(_) => if k == 0 {
            None
        } else {
            run_within(s1, (k - 1) as nat)
        },
    }
}

/// Whether execution from `s` eventually reaches an undefined opcode.
pub open spec fn halts(s: State) -> bool {
    exists|k: nat| run_within(s, k) is Some
}

/// The zero-filled power-on memory image.
pub open spec fn zero_mem() -> Seq<u8> {
    Seq::new(65536, |i: int| 0u8)
}

/// The memory image after the first `n` bytes of the program image have
/// been written in order, starting at the post-boot-ROM entry point
/// 0x0100 and wrapping around the address space.
pub open spec fn load_rom(mem: Seq<u8>, rom: Seq<u8>, n: nat) -> Seq<u8>
    decreases n,
{
    if n == 0 || n > rom.len() {
        mem
    } else {
        load_rom(mem, rom, (n - 1) as nat).update(((n - 1 + 256) % 65536) as int, rom[n - 1])
    }
}

/// The machine state at power-on with the program image loaded.
pub open spec fn open_spec(rom: Seq<u8>) -> State {
    State { regs: Registers::initial(), mem: load_rom(zero_mem(), rom, rom.len()), cycle: 0 }
}

} // verus!
