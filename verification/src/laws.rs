//! Laws of the instruction semantics: properties that hold of every
//! input, proved once and for all against the abstract machine.

use vstd::prelude::*;
use crate::word::lemma_combine_split;
use crate::registers::{lemma_flags_value, Flag, Register8, Register16};
use crate::memory::next_addr;
use crate::semantics::{
    sign_ext, spec_add, spec_decrement8, spec_increment8, spec_jump_relative, spec_pop_reg16,
    spec_push_reg16, step_spec, wrap16, State,
};
use crate::instructions as ops;

verus! {

/// Flag law of 8-bit addition: `ADD A, r` sets Carry exactly when the
/// true sum exceeds 255, HalfCarry exactly when the low nibbles alone
/// carry, and Zero exactly when the wrapped sum is zero.
pub proof fn lemma_add_flags(s: State, reg: Register8)
    ensures
        ({
            let a = s.regs.r8(Register8::A);
            let b = s.regs.r8(reg);
            let t = spec_add(s, reg).0;
            &&& t.regs.flag(Flag::Carry) == (a + b > 255)
            &&& t.regs.flag(Flag::HalfCarry) == (a % 16 + b % 16 > 15)
            &&& t.regs.flag(Flag::Zero) == ((a + b) % 256 == 0)
        }),
{
    let a = s.regs.r8(Register8::A);
    let b = s.regs.r8(reg);
    lemma_flags_value((a + b) % 256 == 0, false, a % 16 + b % 16 > 15, a + b > 255);
}

/// Stack law: `PUSH rr` followed by `POP rr` is the identity on both the
/// register value and the stack pointer, for any register but SP itself
/// (popping into SP overwrites the pointer being restored).
pub proof fn lemma_push_pop(s: State, reg: Register16)
    requires
        s.wf(),
        reg != Register16::SP,
    ensures
        ({
            let t = spec_pop_reg16(spec_push_reg16(s, reg).0, reg).0;
            &&& t.regs.r16(reg) == s.regs.r16(reg)
            &&& t.regs.sp == s.regs.sp
        }),
{
    let v = s.regs.r16(reg);
    lemma_combine_split(v, 0, 0);
}

/// Increment/decrement law: `INC r` followed by `DEC r` restores the
/// register and leaves Carry exactly as it was before the increment,
/// since neither instruction ever touches Carry. The flag register F
/// itself is excluded: its value is overwritten by the flag effects.
pub proof fn lemma_increment_decrement(s: State, reg: Register8)
    requires
        reg != Register8::F,
    ensures
        ({
            let t = spec_decrement8(spec_increment8(s, reg).0, reg).0;
            &&& t.regs.r8(reg) == s.regs.r8(reg)
            &&& t.regs.flag(Flag::Carry) == s.regs.flag(Flag::Carry)
        }),
{
    let v = s.regs.r8(reg);
    let c = s.regs.flag(Flag::Carry);
    let s1 = spec_increment8(s, reg).0;
    lemma_flags_value((v + 1) % 256 == 0, false, v % 16 == 15, c);
    let w = s1.regs.r8(reg);
    assert(w == (v + 1) % 256);
    crate::semantics::lemma_mod_window(v + 1, 256);
    crate::semantics::lemma_mod_window(w - 1, 256);
    lemma_flags_value((w - 1) % 256 == 0, true, w % 16 == 0, c);
}

/// Relative-jump law: executing `JR s8` at address `P` (a 2-byte
/// instruction) sets PC to `P + 2 + d` for the signed displacement `d`,
/// modulo the address space; with displacement zero it falls through to
/// `P + 2`.
pub proof fn lemma_relative_jump(s: State, d: u8)
    requires
        s.wf(),
        s.read8(s.regs.pc) == ops::JR_s8,
        s.read8(next_addr(s.regs.pc)) == d,
    ensures
        step_spec(s).0.regs.pc == wrap16(s.regs.pc + 2 + sign_ext(d)),
        d == 0 ==> step_spec(s).0.regs.pc == wrap16(s.regs.pc + 2),
{
    let p = s.regs.pc as int;
    let s1 = s.take_byte().0;
    let s2 = spec_jump_relative(s1).0;
    assert(step_spec(s).0 == s2.charge(3));
    let pc2 = s1.take_byte().0.regs.pc;
    assert(pc2 == next_addr(next_addr(s.regs.pc)));
    assert(next_addr(s.regs.pc) == wrap16(p + 1)) by {
        crate::semantics::lemma_mod_window(p + 1, 65536);
    }
    assert(pc2 == wrap16(p + 2)) by {
        crate::semantics::lemma_mod_window(p + 1, 65536);
        crate::semantics::lemma_mod_window(p + 2, 65536);
    }
    assert(wrap16(pc2 + sign_ext(d)) == wrap16(p + 2 + sign_ext(d))) by {
        vstd::arithmetic::div_mod::lemma_add_mod_noop(p + 2, sign_ext(d), 65536);
        vstd::arithmetic::div_mod::lemma_add_mod_noop((p + 2) % 65536, sign_ext(d), 65536);
        vstd::arithmetic::div_mod::lemma_mod_twice(p + 2, 65536);
    }
}

/// `k` circular left rotations of an 8-bit value.
pub open spec fn iter_rotl(v: u8, k: nat) -> u8
    decreases k,
{
    if k == 0 {
        v
    } else {
        crate::semantics::rotl_circular(iter_rotl(v, (k - 1) as nat))
    }
}

/// `k` circular right rotations of an 8-bit value.
pub open spec fn iter_rotr(v: u8, k: nat) -> u8
    decreases k,
{
    if k == 0 {
        v
    } else {
        crate::semantics::rotr_circular(iter_rotr(v, (k - 1) as nat))
    }
}

/// `k` applications of the circular-left-rotate instruction to one
/// register.
pub open spec fn iter_rotate_left_circular(s: State, reg: Register8, k: nat) -> State
    decreases k,
{
    if k == 0 {
        s
    } else {
        crate::semantics::spec_rotate_left_circular(
            iter_rotate_left_circular(s, reg, (k - 1) as nat),
            reg,
        ).0
    }
}

/// `k` applications of the circular-right-rotate instruction to one
/// register.
pub open spec fn iter_rotate_right_circular(s: State, reg: Register8, k: nat) -> State
    decreases k,
{
    if k == 0 {
        s
    } else {
        crate::semantics::spec_rotate_right_circular(
            iter_rotate_right_circular(s, reg, (k - 1) as nat),
            reg,
        ).0
    }
}

/// For a value short of 255, one left rotation is doubling modulo 255.
proof fn lemma_rotl_step_mod(x: u8)
    requires
        x < 255,
    ensures
        crate::semantics::rotl_circular(x) == (2 * x) % 255,
        crate::semantics::rotl_circular(x) < 255,
{
    if x < 128 {
        vstd::arithmetic::div_mod::lemma_small_mod((2 * x) as nat, 255nat);
    } else {
        crate::semantics::lemma_mod_window(2 * x, 255);
    }
}

/// For a value short of 255, one right rotation is multiplication by
/// 128 modulo 255.
proof fn lemma_rotr_step_mod(x: u8)
    requires
        x < 255,
    ensures
        crate::semantics::rotr_circular(x) == (128 * x) % 255,
        crate::semantics::rotr_circular(x) < 255,
{
    let q = x as int / 2;
    let b = x as int % 2;
    assert(x == 2 * q + b);
    assert(128 * (x as int) == 255 * q + (q + 128 * b));
    assert(q + 128 * b < 255);
    vstd::arithmetic::div_mod::lemma_mod_multiples_vanish(q, q + 128 * b, 255);
    vstd::arithmetic::div_mod::lemma_small_mod((q + 128 * b) as nat, 255nat);
}

/// One link of the left-rotation chain: if `w` is `m * v` modulo 255,
/// rotating it once gives `2 * m * v` modulo 255.
proof fn lemma_rotl_chain_step(v: u8, w: u8, m: int)
    requires
        v < 255,
        w < 255,
        0 < m,
        w == (m * v) % 255,
    ensures
        crate::semantics::rotl_circular(w) == ((2 * m) * v) % 255,
        crate::semantics::rotl_circular(w) < 255,
{
    lemma_rotl_step_mod(w);
    vstd::arithmetic::div_mod::lemma_mul_mod_noop_right(2, m * v, 255);
    vstd::arithmetic::mul::lemma_mul_is_associative(2, m, v as int);
}

/// One link of the right-rotation chain: if `w` is `m * v` modulo 255,
/// rotating it once gives `128 * m * v` modulo 255.
proof fn lemma_rotr_chain_step(v: u8, w: u8, m: int)
    requires
        v < 255,
        w < 255,
        0 < m,
        w == (m * v) % 255,
    ensures
        crate::semantics::rotr_circular(w) == ((128 * m) * v) % 255,
        crate::semantics::rotr_circular(w) < 255,
{
    lemma_rotr_step_mod(w);
    vstd::arithmetic::div_mod::lemma_mul_mod_noop_right(128, m * v, 255);
    vstd::arithmetic::mul::lemma_mul_is_associative(128, m, v as int);
}

/// Eight circular left rotations restore any 8-bit value.
pub proof fn lemma_rotl_eight(v: u8)
    ensures
        iter_rotl(v, 8) == v,
{
    if v == 255 {
        assert(crate::semantics::rotl_circular(255) == 255);
        assert(iter_rotl(255, 0) == 255);
        assert(iter_rotl(255, 1) == 255);
        assert(iter_rotl(255, 2) == 255);
        assert(iter_rotl(255, 3) == 255);
        assert(iter_rotl(255, 4) == 255);
        assert(iter_rotl(255, 5) == 255);
        assert(iter_rotl(255, 6) == 255);
        assert(iter_rotl(255, 7) == 255);
        assert(iter_rotl(255, 8) == 255);
    } else {
        let x = v as int;
        assert(iter_rotl(v, 0) == v);
        vstd::arithmetic::div_mod::lemma_small_mod(v as nat, 255nat);
        assert(iter_rotl(v, 0) == (1 * x) % 255 && iter_rotl(v, 0) < 255);
        assert(iter_rotl(v, 1) == crate::semantics::rotl_circular(iter_rotl(v, 0)));
        lemma_rotl_chain_step(v, iter_rotl(v, 0), 1);
        assert(iter_rotl(v, 1) == (2 * x) % 255 && iter_rotl(v, 1) < 255);
        assert(iter_rotl(v, 2) == crate::semantics::rotl_circular(iter_rotl(v, 1)));
        lemma_rotl_chain_step(v, iter_rotl(v, 1), 2);
        assert(iter_rotl(v, 2) == (4 * x) % 255 && iter_rotl(v, 2) < 255);
        assert(iter_rotl(v, 3) == crate::semantics::rotl_circular(iter_rotl(v, 2)));
        lemma_rotl_chain_step(v, iter_rotl(v, 2), 4);
        assert(iter_rotl(v, 3) == (8 * x) % 255 && iter_rotl(v, 3) < 255);
        assert(iter_rotl(v, 4) == crate::semantics::rotl_circular(iter_rotl(v, 3)));
        lemma_rotl_chain_step(v, iter_rotl(v, 3), 8);
        assert(iter_rotl(v, 4) == (16 * x) % 255 && iter_rotl(v, 4) < 255);
        assert(iter_rotl(v, 5) == crate::semantics::rotl_circular(iter_rotl(v, 4)));
        lemma_rotl_chain_step(v, iter_rotl(v, 4), 16);
        assert(iter_rotl(v, 5) == (32 * x) % 255 && iter_rotl(v, 5) < 255);
        assert(iter_rotl(v, 6) == crate::semantics::rotl_circular(iter_rotl(v, 5)));
        lemma_rotl_chain_step(v, iter_rotl(v, 5), 32);
        assert(iter_rotl(v, 6) == (64 * x) % 255 && iter_rotl(v, 6) < 255);
        assert(iter_rotl(v, 7) == crate::semantics::rotl_circular(iter_rotl(v, 6)));
        lemma_rotl_chain_step(v, iter_rotl(v, 6), 64);
        assert(iter_rotl(v, 7) == (128 * x) % 255 && iter_rotl(v, 7) < 255);
        assert(iter_rotl(v, 8) == crate::semantics::rotl_circular(iter_rotl(v, 7)));
        lemma_rotl_chain_step(v, iter_rotl(v, 7), 128);
        assert(iter_rotl(v, 8) == (256 * x) % 255 && iter_rotl(v, 8) < 255);
        assert(256 * x == 255 * x + x);
        vstd::arithmetic::div_mod::lemma_mod_multiples_vanish(x, x, 255);
        vstd::arithmetic::div_mod::lemma_small_mod(v as nat, 255nat);
    }
}

/// Eight circular right rotations restore any 8-bit value.
pub proof fn lemma_rotr_eight(v: u8)
    ensures
        iter_rotr(v, 8) == v,
{
    if v == 255 {
        assert(crate::semantics::rotr_circular(255) == 255);
        assert(iter_rotr(255, 0) == 255);
        assert(iter_rotr(255, 1) == 255);
        assert(iter_rotr(255, 2) == 255);
        assert(iter_rotr(255, 3) == 255);
        assert(iter_rotr(255, 4) == 255);
        assert(iter_rotr(255, 5) == 255);
        assert(iter_rotr(255, 6) == 255);
        assert(iter_rotr(255, 7) == 255);
        assert(iter_rotr(255, 8) == 255);
    } else {
        let x = v as int;
        assert(iter_rotr(v, 0) == v);
        vstd::arithmetic::div_mod::lemma_small_mod(v as nat, 255nat);
        assert(iter_rotr(v, 0) == (1 * x) % 255 && iter_rotr(v, 0) < 255);
        assert(iter_rotr(v, 1) == crate::semantics::rotr_circular(iter_rotr(v, 0)));
        lemma_rotr_chain_step(v, iter_rotr(v, 0), 1);
        assert(iter_rotr(v, 1) == (128 * x) % 255 && iter_rotr(v, 1) < 255);
        assert(iter_rotr(v, 2) == crate::semantics::rotr_circular(iter_rotr(v, 1)));
        lemma_rotr_chain_step(v, iter_rotr(v, 1), 128);
        assert(iter_rotr(v, 2) == (16384 * x) % 255 && iter_rotr(v, 2) < 255);
        assert(iter_rotr(v, 3) == crate::semantics::rotr_circular(iter_rotr(v, 2)));
        lemma_rotr_chain_step(v, iter_rotr(v, 2), 16384);
        assert(iter_rotr(v, 3) == (2097152 * x) % 255 && iter_rotr(v, 3) < 255);
        assert(iter_rotr(v, 4) == crate::semantics::rotr_circular(iter_rotr(v, 3)));
        lemma_rotr_chain_step(v, iter_rotr(v, 3), 2097152);
        assert(iter_rotr(v, 4) == (268435456 * x) % 255 && iter_rotr(v, 4) < 255);
        assert(iter_rotr(v, 5) == crate::semantics::rotr_circular(iter_rotr(v, 4)));
        lemma_rotr_chain_step(v, iter_rotr(v, 4), 268435456);
        assert(iter_rotr(v, 5) == (34359738368 * x) % 255 && iter_rotr(v, 5) < 255);
        assert(iter_rotr(v, 6) == crate::semantics::rotr_circular(iter_rotr(v, 5)));
        lemma_rotr_chain_step(v, iter_rotr(v, 5), 34359738368);
        assert(iter_rotr(v, 6) == (4398046511104 * x) % 255 && iter_rotr(v, 6) < 255);
        assert(iter_rotr(v, 7) == crate::semantics::rotr_circular(iter_rotr(v, 6)));
        lemma_rotr_chain_step(v, iter_rotr(v, 6), 4398046511104);
        assert(iter_rotr(v, 7) == (562949953421312 * x) % 255 && iter_rotr(v, 7) < 255);
        assert(iter_rotr(v, 8) == crate::semantics::rotr_circular(iter_rotr(v, 7)));
        lemma_rotr_chain_step(v, iter_rotr(v, 7), 562949953421312);
        assert(iter_rotr(v, 8) == (72057594037927936 * x) % 255 && iter_rotr(v, 8) < 255);
        assert(72057594037927936 * x == 255 * (282578800148737 * x) + x);
        vstd::arithmetic::div_mod::lemma_mod_multiples_vanish(282578800148737 * x, x, 255);
        vstd::arithmetic::div_mod::lemma_small_mod(v as nat, 255nat);
    }
}

/// Projection of the left-rotate instruction chain onto the rotated
/// register: the register follows the value-level rotation, and after at
/// least one step the Carry flag holds the high bit of the value that
/// was last rotated.
proof fn lemma_iter_rotl_state(s: State, reg: Register8, k: nat)
    requires
        reg != Register8::F,
    ensures
        iter_rotate_left_circular(s, reg, k).regs.r8(reg) == iter_rotl(s.regs.r8(reg), k),
        k >= 1 ==> iter_rotate_left_circular(s, reg, k).regs.flag(Flag::Carry) == (iter_rotl(
            s.regs.r8(reg),
            (k - 1) as nat,
        ) >= 128),
    decreases k,
{
    if k > 0 {
        lemma_iter_rotl_state(s, reg, (k - 1) as nat);
        let t = iter_rotate_left_circular(s, reg, (k - 1) as nat);
        let w = t.regs.r8(reg);
        lemma_flags_value(false, false, false, w >= 128);
    }
}

/// Projection of the right-rotate instruction chain onto the rotated
/// register; after at least one step the Carry flag holds the low bit of
/// the value that was last rotated.
proof fn lemma_iter_rotr_state(s: State, reg: Register8, k: nat)
    requires
        reg != Register8::F,
    ensures
        iter_rotate_right_circular(s, reg, k).regs.r8(reg) == iter_rotr(s.regs.r8(reg), k),
        k >= 1 ==> iter_rotate_right_circular(s, reg, k).regs.flag(Flag::Carry) == (iter_rotr(
            s.regs.r8(reg),
            (k - 1) as nat,
        ) % 2 == 1),
    decreases k,
{
    if k > 0 {
        lemma_iter_rotr_state(s, reg, (k - 1) as nat);
        let t = iter_rotate_right_circular(s, reg, (k - 1) as nat);
        let w = t.regs.r8(reg);
        lemma_flags_value(false, false, false, w % 2 == 1);
    }
}

/// Rotation law, left: the circular left rotate is a bijection over one
/// full cycle. Eight applications restore the register; the Carry flag
/// ends holding the register's low bit, so it too is restored whenever
/// it already held that bit (it cannot be restored from an arbitrary
/// start, since the very first rotation overwrites it). The flag
/// register F is excluded: the rotation's own flag effects overwrite it.
pub proof fn lemma_rotate_left_circular_eight(s: State, reg: Register8)
    requires
        reg != Register8::F,
    ensures
        ({
            let t = iter_rotate_left_circular(s, reg, 8);
            &&& t.regs.r8(reg) == s.regs.r8(reg)
            &&& t.regs.flag(Flag::Carry) == (s.regs.r8(reg) % 2 == 1)
            &&& (s.regs.flag(Flag::Carry) == (s.regs.r8(reg) % 2 == 1) ==> t.regs.flag(Flag::Carry)
                == s.regs.flag(Flag::Carry))
        }),
{
    let v = s.regs.r8(reg);
    lemma_iter_rotl_state(s, reg, 8);
    lemma_rotl_eight(v);
    let w7 = iter_rotl(v, 7);
    assert(iter_rotl(v, 8) == crate::semantics::rotl_circular(w7));
    let q = (w7 as int) / 128;
    assert(q == 0 || q == 1);
    assert(v as int == ((w7 as int) % 128) * 2 + q);
    vstd::arithmetic::div_mod::lemma_mod_multiples_vanish((w7 as int) % 128, q, 2);
    assert((v as int) % 2 == q % 2);
    assert((w7 >= 128) == (v % 2 == 1));
}

/// Rotation law, right: eight circular right rotations restore the
/// register; the Carry flag ends holding the register's high bit, so it
/// too is restored whenever it already held that bit. The flag register
/// F is excluded: the rotation's own flag effects overwrite it.
pub proof fn lemma_rotate_right_circular_eight(s: State, reg: Register8)
    requires
        reg != Register8::F,
    ensures
        ({
            let t = iter_rotate_right_circular(s, reg, 8);
            &&& t.regs.r8(reg) == s.regs.r8(reg)
            &&& t.regs.flag(Flag::Carry) == (s.regs.r8(reg) >= 128)
            &&& (s.regs.flag(Flag::Carry) == (s.regs.r8(reg) >= 128) ==> t.regs.flag(Flag::Carry)
                == s.regs.flag(Flag::Carry))
        }),
{
    let v = s.regs.r8(reg);
    lemma_iter_rotr_state(s, reg, 8);
    lemma_rotr_eight(v);
    let w7 = iter_rotr(v, 7);
    assert(iter_rotr(v, 8) == crate::semantics::rotr_circular(w7));
    let b = (w7 as int) % 2;
    assert(v as int == (w7 as int) / 2 + b * 128);
    assert((w7 as int) / 2 <= 127);
    assert((v >= 128) == (b == 1));
}

} // verus!
