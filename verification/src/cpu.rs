//! The executable fetch-decode-execute engine. Every instruction handler
//! is proved to perform exactly the state transition that the abstract
//! machine in `semantics` assigns to it.

use vstd::prelude::*;
use crate::registers::{Flag, Register8, Register16, Registers};
use crate::memory::Memory;
use crate::semantics::{
    decode_spec, execute_spec, halts, instr_spec, lemma_mod_window, load_rom, ok_unit, open_spec,
    run_n_spec, run_within, spec_add, spec_add16, spec_conditional_jump_relative,
    spec_decrement16, spec_decrement8, spec_decrement_mem_at_reg16, spec_increment16,
    spec_increment8, spec_increment_mem_at_reg16, spec_invert_carry, spec_invert_reg8,
    spec_jump_relative, spec_load_byte_to_mem_at_reg, spec_load_byte_to_reg,
    spec_load_mem_at_reg_to_reg, spec_load_reg16_to_mem, spec_load_reg_to_mem_at_reg,
    spec_load_reg_to_reg, spec_load_word_to_reg, spec_pop_reg16, spec_push_reg16,
    spec_rotate_left, spec_rotate_left_circular, spec_rotate_right, spec_rotate_right_circular,
    spec_sub8, spec_sub_byte, spec_sub_mem_at_reg, zero_mem, CpuError, Instr, RegisterAction,
    State,
};
use crate::instructions as ops;

verus! {

/// The low nibble mask selects the remainder modulo 16.
proof fn lemma_low_nibble(v: u8)
    ensures
        v & 0x0F == v % 16,
{
    assert(v & 0x0F == v % 16) by (bit_vector);
}

/// The low-twelve-bit mask selects the remainder modulo 0x1000.
proof fn lemma_low_twelve(v: u16)
    ensures
        v & 0x0FFF == v % 0x1000,
{
    assert(v & 0x0FFF == v % 0x1000) by (bit_vector);
}

/// The CPU core: a register file, a 64KB memory image, and the number of
/// machine cycles elapsed since power-on.
pub struct LR35902 {
    pub cycle: u64,
    pub registers: Registers,
    pub memory: Memory,
}

impl View for LR35902 {
    type V = State;

    open spec fn view(&self) -> State {
        State { regs: self.registers, mem: self.memory@, cycle: self.cycle }
    }
}

impl LR35902 {
    /// The memory image spans the whole address space.
    pub open spec fn wf(self) -> bool {
        self.memory.wf()
    }

    /// Construct the CPU at its documented power-on state and copy the
    /// program image into memory starting at address 0x0100.
    pub fn open(rom: Vec<u8>) -> (cpu: Self)
        ensures
            cpu.wf(),
            cpu@ == open_spec(rom@),
    {
        let mut memory = Memory::new();
        proof {
            assert(memory@ =~= zero_mem());
        }
        let n = rom.len();
        let mut i: usize = 0;
        while i < n
            invariant
                memory.wf(),
                i <= n,
                n == rom.len(),
                memory@ == load_rom(zero_mem(), rom@, i as nat),
            decreases n - i,
        {
            let addr = ((i % 65536) + 256) % 65536;
            proof {
                vstd::arithmetic::div_mod::lemma_small_mod(256nat, 65536nat);
                vstd::arithmetic::div_mod::lemma_add_mod_noop(i as int, 256, 65536);
            }
            memory.set8(addr as u16, rom[i]);
            i = i + 1;
        }
        let cpu = Self { cycle: 0, registers: Registers::new(), memory };
        proof {
            assert(cpu@ =~= open_spec(rom@));
        }
        cpu
    }

    /// Consume the byte at PC and advance PC past it.
    fn next_byte(&mut self) -> (b: u8)
        requires
            old(self).wf(),
        ensures
            final(self).wf(),
            final(self)@ == old(self)@.take_byte().0,
            b == old(self)@.take_byte().1,
    {
        let b = self.memory.get8(self.registers.pc);
        self.registers.pc = self.registers.pc.wrapping_add(1);
        proof {
            assert(self@ =~= old(self)@.take_byte().0);
        }
        b
    }

    /// Consume a little-endian word at PC.
    fn next_word(&mut self) -> (w: u16)
        requires
            old(self).wf(),
        ensures
            final(self).wf(),
            final(self)@ == old(self)@.take_word().0,
            w == old(self)@.take_word().1,
    {
        let lsb = self.next_byte();
        let msb = self.next_byte();
        (msb as u16) * 256 + (lsb as u16)
    }

    /// `LD rr, d16`: load an immediate word into a 16-bit register.
    pub fn load_word_to_reg(&mut self, reg: Register16) -> (cycles: u64)
        requires
            old(self).wf(),
        ensures
            final(self).wf(),
            final(self)@ == spec_load_word_to_reg(old(self)@, reg).0,
            cycles == spec_load_word_to_reg(old(self)@, reg).1,
    {
        let value = self.next_word();
        self.registers.set16(reg, value);
        proof {
            assert(self@ =~= spec_load_word_to_reg(old(self)@, reg).0);
        }
        3
    }

    /// `LD r, d8`: load an immediate byte into an 8-bit register.
    pub fn load_byte_to_reg(&mut self, reg: Register8) -> (cycles: u64)
        requires
            old(self).wf(),
        ensures
            final(self).wf(),
            final(self)@ == spec_load_byte_to_reg(old(self)@, reg).0,
            cycles == spec_load_byte_to_reg(old(self)@, reg).1,
    {
        let value = self.next_byte();
        self.registers.set8(reg, value);
        proof {
            assert(self@ =~= spec_load_byte_to_reg(old(self)@, reg).0);
        }
        2
    }

    /// `LD r, r'`: copy one 8-bit register into another.
    pub fn load_reg_to_reg(&mut self, dest: Register8, src: Register8) -> (cycles: u64)
        requires
            old(self).wf(),
        ensures
            final(self).wf(),
            final(self)@ == spec_load_reg_to_reg(old(self)@, dest, src).0,
            cycles == spec_load_reg_to_reg(old(self)@, dest, src).1,
    {
        let v = self.registers.get8(src);
        self.registers.set8(dest, v);
        proof {
            assert(self@ =~= spec_load_reg_to_reg(old(self)@, dest, src).0);
        }
        1
    }

    /// Apply the optional post-access adjustment of an addressing
    /// register; `addr` is the address that was accessed.
    fn apply_action(&mut self, reg: Register16, action: RegisterAction, addr: u16)
        requires
            old(self).wf(),
        ensures
            final(self).wf(),
            final(self)@ == crate::semantics::spec_apply_action(old(self)@, reg, action, addr),
    {
        match action {
            RegisterAction::Nothing => (),
            RegisterAction::Decrement => {
                proof {
                    lemma_mod_window(addr - 1, 65536);
                }
                self.registers.set16(reg, addr.wrapping_sub(1));
            }
            RegisterAction::Increment => {
                proof {
                    lemma_mod_window(addr + 1, 65536);
                }
                self.registers.set16(reg, addr.wrapping_add(1));
            }
        }
        proof {
            assert(self@ =~= crate::semantics::spec_apply_action(old(self)@, reg, action, addr));
        }
    }

    /// `LD (rr), r`: store an 8-bit register at the address held in a
    /// 16-bit register, then adjust that register if asked to.
    pub fn load_reg_to_mem_at_reg(
        &mut self,
        dest: Register16,
        src: Register8,
        reg_action: RegisterAction,
    ) -> (cycles: u64)
        requires
            old(self).wf(),
        ensures
            final(self).wf(),
            final(self)@ == spec_load_reg_to_mem_at_reg(old(self)@, dest, src, reg_action).0,
            cycles == spec_load_reg_to_mem_at_reg(old(self)@, dest, src, reg_action).1,
    {
        let addr = self.registers.get16(dest);
        let value = self.registers.get8(src);
        self.memory.set8(addr, value);
        proof {
            assert(self@ =~= old(self)@.write8(addr, old(self)@.regs.r8(src)));
        }
        self.apply_action(dest, reg_action, addr);
        2
    }

    /// `LD (a16), rr`: store a 16-bit register little-endian at an
    /// immediate address.
    pub fn load_reg16_to_mem(&mut self, src: Register16) -> (cycles: u64)
        requires
            old(self).wf(),
        ensures
            final(self).wf(),
            final(self)@ == spec_load_reg16_to_mem(old(self)@, src).0,
            cycles == spec_load_reg16_to_mem(old(self)@, src).1,
    {
        let addr = self.next_word();
        let v = self.registers.get16(src);
        self.memory.set16(addr, v);
        proof {
            assert(self@ =~= spec_load_reg16_to_mem(old(self)@, src).0);
        }
        5
    }

    /// `LD r, (rr)`: load the byte at the address held in a 16-bit
    /// register, then adjust that register if asked to.
    pub fn load_mem_at_reg_to_reg(
        &mut self,
        dest: Register8,
        src: Register16,
        reg_action: RegisterAction,
    ) -> (cycles: u64)
        requires
            old(self).wf(),
        ensures
            final(self).wf(),
            final(self)@ == spec_load_mem_at_reg_to_reg(old(self)@, dest, src, reg_action).0,
            cycles == spec_load_mem_at_reg_to_reg(old(self)@, dest, src, reg_action).1,
    {
        let addr = self.registers.get16(src);
        let value = self.memory.get8(addr);
        self.registers.set8(dest, value);
        self.apply_action(src, reg_action, addr);
        2
    }

    /// `LD (rr), d8`: store an immediate byte at the address held in a
    /// 16-bit register.
    pub fn load_byte_to_mem_at_reg(&mut self, reg: Register16) -> (cycles: u64)
        requires
            old(self).wf(),
        ensures
            final(self).wf(),
            final(self)@ == spec_load_byte_to_mem_at_reg(old(self)@, reg).0,
            cycles == spec_load_byte_to_mem_at_reg(old(self)@, reg).1,
    {
        let value = self.next_byte();
        let addr = self.registers.get16(reg);
        self.memory.set8(addr, value);
        proof {
            assert(self@ =~= spec_load_byte_to_mem_at_reg(old(self)@, reg).0);
        }
        3
    }

    /// `INC r`: 8-bit increment; Carry is left untouched.
    pub fn increment8(&mut self, reg: Register8) -> (cycles: u64)
        requires
            old(self).wf(),
        ensures
            final(self).wf(),
            final(self)@ == spec_increment8(old(self)@, reg).0,
            cycles == spec_increment8(old(self)@, reg).1,
    {
        let v = self.registers.get8(reg);
        let carry = self.registers.get_flag(Flag::Carry);
        proof {
            lemma_low_nibble(v);
            lemma_mod_window(v + 1, 256);
        }
        let half_carry = (v & 0x0F) + 1 > 0x0F;
        let r = v.wrapping_add(1);
        self.registers.set8(reg, r);
        self.registers.set_flags(r == 0, false, half_carry, carry);
        proof {
            assert(self@ =~= spec_increment8(old(self)@, reg).0);
        }
        1
    }

    /// `INC rr`: 16-bit increment; Carry is left untouched.
    pub fn increment16(&mut self, reg: Register16) -> (cycles: u64)
        requires
            old(self).wf(),
        ensures
            final(self).wf(),
            final(self)@ == spec_increment16(old(self)@, reg).0,
            cycles == spec_increment16(old(self)@, reg).1,
    {
        let v = self.registers.get16(reg);
        let carry = self.registers.get_flag(Flag::Carry);
        proof {
            lemma_low_twelve(v);
            lemma_mod_window(v + 1, 65536);
        }
        let half_carry = (v & 0x0FFF) + 1 > 0x0FFF;
        let r = v.wrapping_add(1);
        self.registers.set16(reg, r);
        self.registers.set_flags(r == 0, false, half_carry, carry);
        proof {
            assert(self@ =~= spec_increment16(old(self)@, reg).0);
        }
        1
    }

    /// `INC (rr)`: 8-bit increment of the byte at the address held in a
    /// 16-bit register; Carry is left untouched.
    pub fn increment_mem_at_reg16(&mut self, reg: Register16) -> (cycles: u64)
        requires
            old(self).wf(),
        ensures
            final(self).wf(),
            final(self)@ == spec_increment_mem_at_reg16(old(self)@, reg).0,
            cycles == spec_increment_mem_at_reg16(old(self)@, reg).1,
    {
        let addr = self.registers.get16(reg);
        let v = self.memory.get8(addr);
        let carry = self.registers.get_flag(Flag::Carry);
        proof {
            lemma_low_nibble(v);
            lemma_mod_window(v + 1, 256);
        }
        let half_carry = (v & 0x0F) + 1 > 0x0F;
        let r = v.wrapping_add(1);
        self.memory.set8(addr, r);
        self.registers.set_flags(r == 0, false, half_carry, carry);
        proof {
            assert(self@ =~= spec_increment_mem_at_reg16(old(self)@, reg).0);
        }
        3
    }

    /// `ADD A, r`: 8-bit addition into the accumulator; all four flags
    /// are redefined.
    pub fn add(&mut self, reg: Register8) -> (cycles: u64)
        requires
            old(self).wf(),
        ensures
            final(self).wf(),
            final(self)@ == spec_add(old(self)@, reg).0,
            cycles == spec_add(old(self)@, reg).1,
    {
        let a = self.registers.af.0;
        let v = self.registers.get8(reg);
        proof {
            lemma_low_nibble(a);
            lemma_low_nibble(v);
            lemma_mod_window(a + v, 256);
        }
        let half_carry = (a & 0x0F) + (v & 0x0F) > 0x0F;
        let carry = (a as u16) + (v as u16) > 255;
        let r = a.wrapping_add(v);
        self.registers.set8(Register8::A, r);
        self.registers.set_flags(r == 0, false, half_carry, carry);
        proof {
            assert(self@ =~= spec_add(old(self)@, reg).0);
        }
        1
    }

    /// `ADD rr, rr'`: 16-bit addition; Zero is not affected.
    pub fn add16(&mut self, left: Register16, right: Register16) -> (cycles: u64)
        requires
            old(self).wf(),
        ensures
            final(self).wf(),
            final(self)@ == spec_add16(old(self)@, left, right).0,
            cycles == spec_add16(old(self)@, left, right).1,
    {
        let a = self.registers.get16(left);
        let b = self.registers.get16(right);
        let zero = self.registers.get_flag(Flag::Zero);
        proof {
            lemma_low_twelve(a);
            lemma_low_twelve(b);
            lemma_mod_window(a + b, 65536);
        }
        let half_carry = (a & 0x0FFF) + (b & 0x0FFF) > 0x0FFF;
        let carry = (a as u32) + (b as u32) > 65535;
        let r = a.wrapping_add(b);
        self.registers.set16(left, r);
        self.registers.set_flags(zero, false, half_carry, carry);
        proof {
            assert(self@ =~= spec_add16(old(self)@, left, right).0);
        }
        2
    }

    /// `DEC r`: 8-bit decrement; Carry is left untouched, and HalfCarry
    /// marks the borrow exactly when the low nibble was zero.
    pub fn decrement8(&mut self, reg: Register8) -> (cycles: u64)
        requires
            old(self).wf(),
        ensures
            final(self).wf(),
            final(self)@ == spec_decrement8(old(self)@, reg).0,
            cycles == spec_decrement8(old(self)@, reg).1,
    {
        let v = self.registers.get8(reg);
        let carry = self.registers.get_flag(Flag::Carry);
        let half_carry = (v & 0x0F) == 0;
        let r = v.wrapping_sub(1);
        proof {
            lemma_low_nibble(v);
            lemma_mod_window(v - 1, 256);
        }
        self.registers.set8(reg, r);
        self.registers.set_flags(r == 0, true, half_carry, carry);
        proof {
            assert(self@ =~= spec_decrement8(old(self)@, reg).0);
        }
        1
    }

    /// `DEC rr`: 16-bit decrement; Carry is left untouched.
    pub fn decrement16(&mut self, reg: Register16) -> (cycles: u64)
        requires
            old(self).wf(),
        ensures
            final(self).wf(),
            final(self)@ == spec_decrement16(old(self)@, reg).0,
            cycles == spec_decrement16(old(self)@, reg).1,
    {
        let v = self.registers.get16(reg);
        let carry = self.registers.get_flag(Flag::Carry);
        let half_carry = (v & 0x0FFF) == 0;
        let r = v.wrapping_sub(1);
        proof {
            lemma_low_twelve(v);
            lemma_mod_window(v - 1, 65536);
        }
        self.registers.set16(reg, r);
        self.registers.set_flags(r == 0, true, half_carry, carry);
        proof {
            assert(self@ =~= spec_decrement16(old(self)@, reg).0);
        }
        1
    }

    /// `DEC (rr)`: 8-bit decrement of the byte at the address held in a
    /// 16-bit register; Carry is left untouched.
    pub fn decrement_mem_at_reg16(&mut self, reg: Register16) -> (cycles: u64)
        requires
            old(self).wf(),
        ensures
            final(self).wf(),
            final(self)@ == spec_decrement_mem_at_reg16(old(self)@, reg).0,
            cycles == spec_decrement_mem_at_reg16(old(self)@, reg).1,
    {
        let addr = self.registers.get16(reg);
        let v = self.memory.get8(addr);
        let carry = self.registers.get_flag(Flag::Carry);
        let half_carry = (v & 0x0F) == 0;
        let r = v.wrapping_sub(1);
        proof {
            lemma_low_nibble(v);
            lemma_mod_window(v - 1, 256);
        }
        self.memory.set8(addr, r);
        self.registers.set_flags(r == 0, true, half_carry, carry);
        proof {
            assert(self@ =~= spec_decrement_mem_at_reg16(old(self)@, reg).0);
        }
        1
    }

    /// `SUB r`: 8-bit subtraction from the accumulator; all four flags
    /// are redefined, Zero from the wrapped difference.
    pub fn sub8(&mut self, reg: Register8) -> (cycles: u64)
        requires
            old(self).wf(),
        ensures
            final(self).wf(),
            final(self)@ == spec_sub8(old(self)@, reg).0,
            cycles == spec_sub8(old(self)@, reg).1,
    {
        let a = self.registers.af.0;
        let v = self.registers.get8(reg);
        let half_carry = (a & 0x0F) < (v & 0x0F);
        let carry = a < v;
        let r = a.wrapping_sub(v);
        proof {
            lemma_low_nibble(a);
            lemma_low_nibble(v);
            lemma_mod_window(a - v, 256);
        }
        self.registers.set8(Register8::A, r);
        self.registers.set_flags(r == 0, true, half_carry, carry);
        proof {
            assert(self@ =~= spec_sub8(old(self)@, reg).0);
        }
        1
    }

    /// `SUB (rr)`: subtract the byte at the address held in a 16-bit
    /// register from the accumulator.
    pub fn sub_mem_at_reg(&mut self, reg: Register16) -> (cycles: u64)
        requires
            old(self).wf(),
        ensures
            final(self).wf(),
            final(self)@ == spec_sub_mem_at_reg(old(self)@, reg).0,
            cycles == spec_sub_mem_at_reg(old(self)@, reg).1,
    {
        let addr = self.registers.get16(reg);
        let a = self.registers.af.0;
        let v = self.memory.get8(addr);
        let half_carry = (a & 0x0F) < (v & 0x0F);
        let carry = a < v;
        let r = a.wrapping_sub(v);
        proof {
            lemma_low_nibble(a);
            lemma_low_nibble(v);
            lemma_mod_window(a - v, 256);
        }
        self.registers.set8(Register8::A, r);
        self.registers.set_flags(r == 0, true, half_carry, carry);
        proof {
            assert(self@ =~= spec_sub_mem_at_reg(old(self)@, reg).0);
        }
        2
    }

    /// `SUB d8`: subtract an immediate byte from the accumulator.
    pub fn sub_byte(&mut self) -> (cycles: u64)
        requires
            old(self).wf(),
        ensures
            final(self).wf(),
            final(self)@ == spec_sub_byte(old(self)@).0,
            cycles == spec_sub_byte(old(self)@).1,
    {
        let a = self.registers.af.0;
        let v = self.next_byte();
        let half_carry = (a & 0x0F) < (v & 0x0F);
        let carry = a < v;
        let r = a.wrapping_sub(v);
        proof {
            lemma_low_nibble(a);
            lemma_low_nibble(v);
            lemma_mod_window(a - v, 256);
        }
        self.registers.set8(Register8::A, r);
        self.registers.set_flags(r == 0, true, half_carry, carry);
        proof {
            assert(self@ =~= spec_sub_byte(old(self)@).0);
        }
        2
    }

    /// `JR s8`: unconditional relative jump by a signed displacement.
    pub fn jump_relative(&mut self) -> (cycles: u64)
        requires
            old(self).wf(),
        ensures
            final(self).wf(),
            final(self)@ == spec_jump_relative(old(self)@).0,
            cycles == spec_jump_relative(old(self)@).1,
    {
        let d = self.next_byte();
        let pc = self.registers.pc;
        proof {
            lemma_mod_window(pc + d, 65536);
            lemma_mod_window(pc + d - 256, 65536);
        }
        let new_pc = if d < 128 {
            pc.wrapping_add(d as u16)
        } else {
            pc.wrapping_sub(256 - (d as u16))
        };
        self.registers.pc = new_pc;
        proof {
            assert(self@ =~= spec_jump_relative(old(self)@).0);
        }
        3
    }

    /// `JR cc, s8`: relative jump taken only when the guarding flag has
    /// the expected polarity; a jump not taken costs fewer cycles.
    pub fn conditional_jump_relative(&mut self, flag: Flag, expected_value: bool) -> (cycles: u64)
        requires
            old(self).wf(),
        ensures
            final(self).wf(),
            final(self)@ == spec_conditional_jump_relative(old(self)@, flag, expected_value).0,
            cycles == spec_conditional_jump_relative(old(self)@, flag, expected_value).1,
    {
        let d = self.next_byte();
        if self.registers.get_flag(flag) == expected_value {
            let pc = self.registers.pc;
            proof {
                lemma_mod_window(pc + d, 65536);
                lemma_mod_window(pc + d - 256, 65536);
            }
            let new_pc = if d < 128 {
                pc.wrapping_add(d as u16)
            } else {
                pc.wrapping_sub(256 - (d as u16))
            };
            self.registers.pc = new_pc;
            proof {
                assert(self@ =~= spec_conditional_jump_relative(
                    old(self)@,
                    flag,
                    expected_value,
                ).0);
            }
            3
        } else {
            2
        }
    }

    /// `RLCA`-style circular left rotate: bit 7 moves to bit 0 and to
    /// Carry; the other flags are cleared.
    pub fn rotate_left_circular(&mut self, reg: Register8) -> (cycles: u64)
        requires
            old(self).wf(),
        ensures
            final(self).wf(),
            final(self)@ == spec_rotate_left_circular(old(self)@, reg).0,
            cycles == spec_rotate_left_circular(old(self)@, reg).1,
    {
        let v = self.registers.get8(reg);
        let carry = v >= 128;
        let r = (v % 128) * 2 + (if carry { 1u8 } else { 0u8 });
        self.registers.set8(reg, r);
        self.registers.set_flags(false, false, false, carry);
        proof {
            assert(self@ =~= spec_rotate_left_circular(old(self)@, reg).0);
        }
        1
    }

    /// `RLA`-style left rotate through carry: the old Carry enters at
    /// bit 0 and bit 7 becomes the new Carry.
    pub fn rotate_left(&mut self, reg: Register8) -> (cycles: u64)
        requires
            old(self).wf(),
        ensures
            final(self).wf(),
            final(self)@ == spec_rotate_left(old(self)@, reg).0,
            cycles == spec_rotate_left(old(self)@, reg).1,
    {
        let v = self.registers.get8(reg);
        let new_carry = v >= 128;
        let new_lsb: u8 = if self.registers.get_flag(Flag::Carry) { 1 } else { 0 };
        let r = (v % 128) * 2 + new_lsb;
        self.registers.set8(reg, r);
        self.registers.set_flags(false, false, false, new_carry);
        proof {
            assert(self@ =~= spec_rotate_left(old(self)@, reg).0);
        }
        1
    }

    /// `RRCA`-style circular right rotate: bit 0 moves to bit 7 and to
    /// Carry; the other flags are cleared.
    pub fn rotate_right_circular(&mut self, reg: Register8) -> (cycles: u64)
        requires
            old(self).wf(),
        ensures
            final(self).wf(),
            final(self)@ == spec_rotate_right_circular(old(self)@, reg).0,
            cycles == spec_rotate_right_circular(old(self)@, reg).1,
    {
        let v = self.registers.get8(reg);
        let carry = v % 2 == 1;
        let r = v / 2 + (if carry { 128u8 } else { 0u8 });
        self.registers.set8(reg, r);
        self.registers.set_flags(false, false, false, carry);
        proof {
            assert(self@ =~= spec_rotate_right_circular(old(self)@, reg).0);
        }
        1
    }

    /// `RRA`-style right rotate through carry: the old Carry enters at
    /// bit 7 and bit 0 becomes the new Carry.
    pub fn rotate_right(&mut self, reg: Register8) -> (cycles: u64)
        requires
            old(self).wf(),
        ensures
            final(self).wf(),
            final(self)@ == spec_rotate_right(old(self)@, reg).0,
            cycles == spec_rotate_right(old(self)@, reg).1,
    {
        let v = self.registers.get8(reg);
        let new_carry = v % 2 == 1;
        let new_msb: u8 = if self.registers.get_flag(Flag::Carry) { 128 } else { 0 };
        let r = v / 2 + new_msb;
        self.registers.set8(reg, r);
        self.registers.set_flags(false, false, false, new_carry);
        proof {
            assert(self@ =~= spec_rotate_right(old(self)@, reg).0);
        }
        1
    }

    /// `POP rr`: read the low byte at SP and the high byte above it,
    /// incrementing SP after each read.
    pub fn pop_reg16(&mut self, reg: Register16) -> (cycles: u64)
        requires
            old(self).wf(),
        ensures
            final(self).wf(),
            final(self)@ == spec_pop_reg16(old(self)@, reg).0,
            cycles == spec_pop_reg16(old(self)@, reg).1,
    {
        let lsb = self.memory.get8(self.registers.sp);
        self.registers.sp = self.registers.sp.wrapping_add(1);
        let msb = self.memory.get8(self.registers.sp);
        self.registers.sp = self.registers.sp.wrapping_add(1);
        let value = (msb as u16) * 256 + (lsb as u16);
        self.registers.set16(reg, value);
        proof {
            assert(self@ =~= spec_pop_reg16(old(self)@, reg).0);
        }
        3
    }

    /// `PUSH rr`: decrement SP before each store, storing the high byte
    /// first so the word sits little-endian at the final SP.
    pub fn push_reg16(&mut self, reg: Register16) -> (cycles: u64)
        requires
            old(self).wf(),
        ensures
            final(self).wf(),
            final(self)@ == spec_push_reg16(old(self)@, reg).0,
            cycles == spec_push_reg16(old(self)@, reg).1,
    {
        let v = self.registers.get16(reg);
        self.registers.sp = self.registers.sp.wrapping_sub(1);
        self.memory.set8(self.registers.sp, (v / 256) as u8);
        self.registers.sp = self.registers.sp.wrapping_sub(1);
        self.memory.set8(self.registers.sp, (v % 256) as u8);
        proof {
            assert(self@ =~= spec_push_reg16(old(self)@, reg).0);
        }
        4
    }

    /// `CCF`: flip Carry, clear Subtract and HalfCarry, leave Zero.
    pub fn invert_carry(&mut self) -> (cycles: u64)
        requires
            old(self).wf(),
        ensures
            final(self).wf(),
            final(self)@ == spec_invert_carry(old(self)@).0,
            cycles == spec_invert_carry(old(self)@).1,
    {
        let zero = self.registers.get_flag(Flag::Zero);
        let new_carry_value = !self.registers.get_flag(Flag::Carry);
        self.registers.set_flags(zero, false, false, new_carry_value);
        proof {
            assert(self@ =~= spec_invert_carry(old(self)@).0);
        }
        1
    }

    /// `CPL`-style complement: bitwise-invert the register, set Subtract
    /// and HalfCarry, leave Zero and Carry.
    pub fn invert_reg8(&mut self, reg: Register8) -> (cycles: u64)
        requires
            old(self).wf(),
        ensures
            final(self).wf(),
            final(self)@ == spec_invert_reg8(old(self)@, reg).0,
            cycles == spec_invert_reg8(old(self)@, reg).1,
    {
        let v = self.registers.get8(reg);
        let zero = self.registers.get_flag(Flag::Zero);
        let carry = self.registers.get_flag(Flag::Carry);
        self.registers.set8(reg, !v);
        self.registers.set_flags(zero, true, true, carry);
        proof {
            assert(self@ =~= spec_invert_reg8(old(self)@, reg).0);
        }
        1
    }

    /// Fetch the next opcode byte.
    fn fetch(&mut self) -> (b: u8)
        requires
            old(self).wf(),
        ensures
            final(self).wf(),
            final(self)@ == old(self)@.take_byte().0,
            b == old(self)@.take_byte().1,
    {
        self.next_byte()
    }

    /// Dispatch into the 0xCB-prefixed secondary table: fetch the
    /// second opcode byte. None of that table is implemented yet, so
    /// every prefixed opcode is reported as such.
    pub fn execute_prefixed(&mut self) -> (e: CpuError)
        requires
            old(self).wf(),
        ensures
            final(self).wf(),
            final(self)@ == old(self)@.take_byte().0,
            e == CpuError::UnimplementedPrefixed(old(self)@.take_byte().1),
    {
        let instruction = self.next_byte();
        CpuError::UnimplementedPrefixed(instruction)
    }

    /// Decode one opcode byte into its operation; every one of the 256
    /// primary opcode values maps to exactly one `Instr`.
    pub fn decode(instruction: u8) -> (i: Instr)
        ensures
            i == decode_spec(instruction),
    {
        match instruction {
            ops::NO_OP => Instr::Nop,
            ops::PREFIX => Instr::Prefixed,
            ops::CPL => Instr::Complement(Register8::A),
            ops::CCF => Instr::InvertCarry,
            ops::JR_s8 => Instr::JumpRelative,
            ops::JR_Z_s8 => Instr::JumpRelativeIf(Flag::Zero, true),
            ops::JR_C_s8 => Instr::JumpRelativeIf(Flag::Carry, true),
            ops::JR_NZ_s8 => Instr::JumpRelativeIf(Flag::Zero, false),
            ops::JR_NC_s8 => Instr::JumpRelativeIf(Flag::Carry, false),
            ops::INC_A => Instr::Increment8(Register8::A),
            ops::INC_B => Instr::Increment8(Register8::B),
            ops::INC_C => Instr::Increment8(Register8::C),
            ops::INC_D => Instr::Increment8(Register8::D),
            ops::INC_E => Instr::Increment8(Register8::E),
            ops::INC_H => Instr::Increment8(Register8::H),
            ops::INC_L => Instr::Increment8(Register8::L),
            ops::DEC_A => Instr::Decrement8(Register8::A),
            ops::DEC_B => Instr::Decrement8(Register8::B),
            ops::DEC_C => Instr::Decrement8(Register8::C),
            ops::DEC_D => Instr::Decrement8(Register8::D),
            ops::DEC_E => Instr::Decrement8(Register8::E),
            ops::DEC_H => Instr::Decrement8(Register8::H),
            ops::DEC_L => Instr::Decrement8(Register8::L),
            ops::INC_BC => Instr::Increment16(Register16::BC),
            ops::INC_DE => Instr::Increment16(Register16::DE),
            ops::INC_HL => Instr::Increment16(Register16::HL),
            ops::INC_SP => Instr::Increment16(Register16::SP),
            ops::DEC_BC => Instr::Decrement16(Register16::BC),
            ops::DEC_DE => Instr::Decrement16(Register16::DE),
            ops::DEC_HL => Instr::Decrement16(Register16::HL),
            ops::DEC_SP => Instr::Decrement16(Register16::SP),
            ops::INC_aHL => Instr::IncrementMem(Register16::HL),
            ops::DEC_aHL => Instr::DecrementMem(Register16::HL),
            ops::LD_A_A => Instr::LoadRegToReg(Register8::A, Register8::A),
            ops::LD_A_B => Instr::LoadRegToReg(Register8::A, Register8::B),
            ops::LD_A_C => Instr::LoadRegToReg(Register8::A, Register8::C),
            ops::LD_A_D => Instr::LoadRegToReg(Register8::A, Register8::D),
            ops::LD_A_E => Instr::LoadRegToReg(Register8::A, Register8::E),
            ops::LD_A_H => Instr::LoadRegToReg(Register8::A, Register8::H),
            ops::LD_A_L => Instr::LoadRegToReg(Register8::A, Register8::L),
            ops::LD_B_A => Instr::LoadRegToReg(Register8::B, Register8::A),
            ops::LD_B_B => Instr::LoadRegToReg(Register8::B, Register8::B),
            ops::LD_B_C => Instr::LoadRegToReg(Register8::B, Register8::C),
            ops::LD_B_D => Instr::LoadRegToReg(Register8::B, Register8::D),
            ops::LD_B_E => Instr::LoadRegToReg(Register8::B, Register8::E),
            ops::LD_B_H => Instr::LoadRegToReg(Register8::B, Register8::H),
            ops::LD_B_L => Instr::LoadRegToReg(Register8::B, Register8::L),
            ops::LD_C_A => Instr::LoadRegToReg(Register8::C, Register8::A),
            ops::LD_C_B => Instr::LoadRegToReg(Register8::C, Register8::B),
            ops::LD_C_C => Instr::LoadRegToReg(Register8::C, Register8::C),
            ops::LD_C_D => Instr::LoadRegToReg(Register8::C, Register8::D),
            ops::LD_C_E => Instr::LoadRegToReg(Register8::C, Register8::E),
            ops::LD_C_H => Instr::LoadRegToReg(Register8::C, Register8::H),
            ops::LD_C_L => Instr::LoadRegToReg(Register8::C, Register8::L),
            ops::LD_D_A => Instr::LoadRegToReg(Register8::D, Register8::A),
            ops::LD_D_B => Instr::LoadRegToReg(Register8::D, Register8::B),
            ops::LD_D_C => Instr::LoadRegToReg(Register8::D, Register8::C),
            ops::LD_D_D => Instr::LoadRegToReg(Register8::D, Register8::D),
            ops::LD_D_E => Instr::LoadRegToReg(Register8::D, Register8::E),
            ops::LD_D_H => Instr::LoadRegToReg(Register8::D, Register8::H),
            ops::LD_D_L => Instr::LoadRegToReg(Register8::D, Register8::L),
            ops::LD_E_A => Instr::LoadRegToReg(Register8::E, Register8::A),
            ops::LD_E_B => Instr::LoadRegToReg(Register8::E, Register8::B),
            ops::LD_E_C => Instr::LoadRegToReg(Register8::E, Register8::C),
            ops::LD_E_D => Instr::LoadRegToReg(Register8::E, Register8::D),
            ops::LD_E_E => Instr::LoadRegToReg(Register8::E, Register8::E),
            ops::LD_E_H => Instr::LoadRegToReg(Register8::E, Register8::H),
            ops::LD_E_L => Instr::LoadRegToReg(Register8::E, Register8::L),
            ops::LD_H_A => Instr::LoadRegToReg(Register8::H, Register8::A),
            ops::LD_H_B => Instr::LoadRegToReg(Register8::H, Register8::B),
            ops::LD_H_C => Instr::LoadRegToReg(Register8::H, Register8::C),
            ops::LD_H_D => Instr::LoadRegToReg(Register8::H, Register8::D),
            ops::LD_H_E => Instr::LoadRegToReg(Register8::H, Register8::E),
            ops::LD_H_H => Instr::LoadRegToReg(Register8::H, Register8::H),
            ops::LD_H_L => Instr::LoadRegToReg(Register8::H, Register8::L),
            ops::LD_L_A => Instr::LoadRegToReg(Register8::L, Register8::A),
            ops::LD_L_B => Instr::LoadRegToReg(Register8::L, Register8::B),
            ops::LD_L_C => Instr::LoadRegToReg(Register8::L, Register8::C),
            ops::LD_L_D => Instr::LoadRegToReg(Register8::L, Register8::D),
            ops::LD_L_E => Instr::LoadRegToReg(Register8::L, Register8::E),
            ops::LD_L_H => Instr::LoadRegToReg(Register8::L, Register8::H),
            ops::LD_L_L => Instr::LoadRegToReg(Register8::L, Register8::L),
            ops::LD_A_d8 => Instr::LoadByteToReg(Register8::A),
            ops::LD_B_d8 => Instr::LoadByteToReg(Register8::B),
            ops::LD_C_d8 => Instr::LoadByteToReg(Register8::C),
            ops::LD_D_d8 => Instr::LoadByteToReg(Register8::D),
            ops::LD_E_d8 => Instr::LoadByteToReg(Register8::E),
            ops::LD_H_d8 => Instr::LoadByteToReg(Register8::H),
            ops::LD_L_d8 => Instr::LoadByteToReg(Register8::L),
            ops::LD_BC_d16 => Instr::LoadWordToReg(Register16::BC),
            ops::LD_DE_d16 => Instr::LoadWordToReg(Register16::DE),
            ops::LD_HL_d16 => Instr::LoadWordToReg(Register16::HL),
            ops::LD_SP_d16 => Instr::LoadWordToReg(Register16::SP),
            ops::LD_A_aBC => Instr::LoadMemToReg(
                Register8::A,
                Register16::BC,
                RegisterAction::Nothing,
            ),
            ops::LD_A_aDE => Instr::LoadMemToReg(
                Register8::A,
                Register16::DE,
                RegisterAction::Nothing,
            ),
            ops::LD_A_aHL => Instr::LoadMemToReg(
                Register8::A,
                Register16::HL,
                RegisterAction::Nothing,
            ),
            ops::LD_B_aHL => Instr::LoadMemToReg(
                Register8::B,
                Register16::HL,
                RegisterAction::Nothing,
            ),
            ops::LD_C_aHL => Instr::LoadMemToReg(
                Register8::C,
                Register16::HL,
                RegisterAction::Nothing,
            ),
            ops::LD_D_aHL => Instr::LoadMemToReg(
                Register8::D,
                Register16::HL,
                RegisterAction::Nothing,
            ),
            ops::LD_E_aHL => Instr::LoadMemToReg(
                Register8::E,
                Register16::HL,
                RegisterAction::Nothing,
            ),
            ops::LD_H_aHL => Instr::LoadMemToReg(
                Register8::H,
                Register16::HL,
                RegisterAction::Nothing,
            ),
            ops::LD_L_aHL => Instr::LoadMemToReg(
                Register8::L,
                Register16::HL,
                RegisterAction::Nothing,
            ),
            ops::LD_A_aHLp => Instr::LoadMemToReg(
                Register8::A,
                Register16::HL,
                RegisterAction::Increment,
            ),
            ops::LD_A_aHLm => Instr::LoadMemToReg(
                Register8::A,
                Register16::HL,
                RegisterAction::Decrement,
            ),
            ops::LD_aBC_A => Instr::LoadRegToMem(
                Register16::BC,
                Register8::A,
                RegisterAction::Nothing,
            ),
            ops::LD_aDE_A => Instr::LoadRegToMem(
                Register16::DE,
                Register8::A,
                RegisterAction::Nothing,
            ),
            ops::LD_aHL_A => Instr::LoadRegToMem(
                Register16::HL,
                Register8::A,
                RegisterAction::Nothing,
            ),
            ops::LD_aHL_B => Instr::LoadRegToMem(
                Register16::HL,
                Register8::B,
                RegisterAction::Nothing,
            ),
            ops::LD_aHL_C => Instr::LoadRegToMem(
                Register16::HL,
                Register8::C,
                RegisterAction::Nothing,
            ),
            ops::LD_aHL_D => Instr::LoadRegToMem(
                Register16::HL,
                Register8::D,
                RegisterAction::Nothing,
            ),
            ops::LD_aHL_E => Instr::LoadRegToMem(
                Register16::HL,
                Register8::E,
                RegisterAction::Nothing,
            ),
            ops::LD_aHL_H => Instr::LoadRegToMem(
                Register16::HL,
                Register8::H,
                RegisterAction::Nothing,
            ),
            ops::LD_aHL_L => Instr::LoadRegToMem(
                Register16::HL,
                Register8::L,
                RegisterAction::Nothing,
            ),
            ops::LD_aHLp_A => Instr::LoadRegToMem(
                Register16::HL,
                Register8::A,
                RegisterAction::Increment,
            ),
            ops::LD_aHLm_A => Instr::LoadRegToMem(
                Register16::HL,
                Register8::A,
                RegisterAction::Decrement,
            ),
            ops::LD_aHL_d8 => Instr::LoadByteToMem(Register16::HL),
            ops::LD_a16_SP => Instr::LoadReg16ToMem(Register16::SP),
            ops::RLCA => Instr::RotateLeftCircular(Register8::A),
            ops::RRCA => Instr::RotateRightCircular(Register8::A),
            ops::RLA => Instr::RotateLeft(Register8::A),
            ops::RRA => Instr::RotateRight(Register8::A),
            ops::ADD_A_B => Instr::Add(Register8::B),
            ops::ADD_A_C => Instr::Add(Register8::C),
            ops::ADD_HL_BC => Instr::Add16(Register16::HL, Register16::BC),
            ops::ADD_HL_DE => Instr::Add16(Register16::HL, Register16::DE),
            ops::ADD_HL_HL => Instr::Add16(Register16::HL, Register16::HL),
            ops::ADD_HL_SP => Instr::Add16(Register16::HL, Register16::SP),
            _ => Instr::Undefined,
        }
    }

    /// Apply one decoded instruction: route it to its handler and hand
    /// back the handler's cycle cost, or the failure for an instruction
    /// with no handler.
    fn execute_instr(&mut self, instruction: u8, instr: Instr) -> (r: Result<u64, CpuError>)
        requires
            old(self).wf(),
        ensures
            final(self).wf(),
            final(self)@ == instr_spec(old(self)@, instruction, instr).0,
            r == instr_spec(old(self)@, instruction, instr).1,
    {
        match instr {
            Instr::Nop => {
                return Ok(1);
            }
            Instr::Prefixed => {
                let e = self.execute_prefixed();
                return Err(e);
            }
            Instr::Undefined => {
                return Err(CpuError::Unimplemented(instruction));
            }
            Instr::Complement(reg) => {
                return Ok(self.invert_reg8(reg));
            }
            Instr::InvertCarry => {
                return Ok(self.invert_carry());
            }
            Instr::JumpRelative => {
                return Ok(self.jump_relative());
            }
            Instr::JumpRelativeIf(flag, expected) => {
                return Ok(self.conditional_jump_relative(flag, expected));
            }
            Instr::Increment8(reg) => {
                return Ok(self.increment8(reg));
            }
            Instr::Decrement8(reg) => {
                return Ok(self.decrement8(reg));
            }
            Instr::Increment16(reg) => {
                return Ok(self.increment16(reg));
            }
            Instr::Decrement16(reg) => {
                return Ok(self.decrement16(reg));
            }
            Instr::IncrementMem(reg) => {
                return Ok(self.increment_mem_at_reg16(reg));
            }
            Instr::DecrementMem(reg) => {
                return Ok(self.decrement_mem_at_reg16(reg));
            }
            Instr::LoadRegToReg(dest, src) => {
                return Ok(self.load_reg_to_reg(dest, src));
            }
            Instr::LoadByteToReg(reg) => {
                return Ok(self.load_byte_to_reg(reg));
            }
            Instr::LoadWordToReg(reg) => {
                return Ok(self.load_word_to_reg(reg));
            }
            Instr::LoadMemToReg(dest, src, action) => {
                return Ok(self.load_mem_at_reg_to_reg(dest, src, action));
            }
            Instr::LoadRegToMem(dest, src, action) => {
                return Ok(self.load_reg_to_mem_at_reg(dest, src, action));
            }
            Instr::LoadByteToMem(reg) => {
                return Ok(self.load_byte_to_mem_at_reg(reg));
            }
            Instr::LoadReg16ToMem(reg) => {
                return Ok(self.load_reg16_to_mem(reg));
            }
            Instr::RotateLeftCircular(reg) => {
                return Ok(self.rotate_left_circular(reg));
            }
            Instr::RotateRightCircular(reg) => {
                return Ok(self.rotate_right_circular(reg));
            }
            Instr::RotateLeft(reg) => {
                return Ok(self.rotate_left(reg));
            }
            Instr::RotateRight(reg) => {
                return Ok(self.rotate_right(reg));
            }
            Instr::Add(reg) => {
                return Ok(self.add(reg));
            }
            Instr::Add16(left, right) => {
                return Ok(self.add16(left, right));
            }
        }
    }

    /// Execute one already-fetched opcode: decode it, route it to its
    /// handler, and account the cycles the handler reports. An opcode
    /// with no defined handler is a hard failure that leaves the state
    /// untouched.
    pub fn execute(&mut self, instruction: u8) -> (r: Result<(), CpuError>)
        requires
            old(self).wf(),
        ensures
            final(self).wf(),
            final(self)@ == execute_spec(old(self)@, instruction).0,
            r == ok_unit(execute_spec(old(self)@, instruction).1),
    {
        let instr = Self::decode(instruction);
        match self.execute_instr(instruction, instr) {
            Ok(cycles_passed) => {
                proof {
                    lemma_mod_window(self.cycle + cycles_passed, 0x1_0000_0000_0000_0000);
                }
                self.cycle = self.cycle.wrapping_add(cycles_passed);
                proof {
                    assert(self@ =~= execute_spec(old(self)@, instruction).0);
                }
                Ok(())
            }
            Err(e) => Err(e),
        }
    }

    /// Execute whole instructions until one of them is undefined, and
    /// report which; callable only where execution is known to reach an
    /// undefined opcode, since the machine itself never stops otherwise.
    pub fn run(&mut self) -> (e: CpuError)
        requires
            old(self).wf(),
            halts(old(self)@),
        ensures
            final(self).wf(),
            exists|k: nat| run_within(old(self)@, k) == Some((final(self)@, e)),
    {
        let ghost k0: nat = choose|k: nat| run_within(old(self)@, k) is Some;
        let ghost mut fuel: nat = k0;
        loop
            invariant
                self.wf(),
                run_within(self@, fuel) is Some,
                run_within(self@, fuel) == run_within(old(self)@, k0),
            decreases fuel,
        {
            let instruction = self.fetch();
            match self.execute(instruction) {
                Err(e) => {
                    return e;
                }
                Ok(()) => {
                    proof {
                        fuel = (fuel - 1) as nat;
                    }
                }
            }
        }
    }

    /// Execute up to `v` whole instructions, stopping early at the first
    /// undefined opcode.
    pub fn run_n(&mut self, v: u16) -> (r: Result<(), CpuError>)
        requires
            old(self).wf(),
        ensures
            final(self).wf(),
            final(self)@ == run_n_spec(old(self)@, v as nat).0,
            r == run_n_spec(old(self)@, v as nat).1,
    {
        let mut i: u16 = 0;
        while i < v
            invariant
                self.wf(),
                i <= v,
                run_n_spec(self@, (v - i) as nat) == run_n_spec(old(self)@, v as nat),
            decreases v - i,
        {
            let instruction = self.fetch();
            match self.execute(instruction) {
                Err(e) => {
                    return Err(e);
                }
                Ok(()) => {}
            }
            i = i + 1;
        }
        Ok(())
    }
}

} // verus!
