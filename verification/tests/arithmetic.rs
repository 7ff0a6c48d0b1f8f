use gbemu::cpu::LR35902;
use gbemu::registers::{Flag, Register16, Register8};

#[test]
fn add_flag_law_over_all_operands() {
    // For every pair of 8-bit values, ADD A, B sets Carry iff the true
    // sum exceeds 255, HalfCarry iff the low nibbles alone carry, and
    // Zero iff the wrapped sum is zero.
    let mut cpu = LR35902::open(vec![]);
    for a in 0u16..256 {
        for b in 0u16..256 {
            cpu.registers.set8(Register8::A, a as u8);
            cpu.registers.set8(Register8::B, b as u8);
            cpu.add(Register8::B);
            assert_eq!(cpu.registers.get8(Register8::A), (a + b) as u8);
            assert_eq!(cpu.registers.get_flag(Flag::Carry), a + b > 255);
            assert_eq!(cpu.registers.get_flag(Flag::HalfCarry), (a & 0xF) + (b & 0xF) > 0xF);
            assert_eq!(cpu.registers.get_flag(Flag::Zero), (a + b) & 0xFF == 0);
            assert_eq!(cpu.registers.get_flag(Flag::Subtract), false);
        }
    }
}

#[test]
fn increment_then_decrement_restores_value_and_carry() {
    let mut cpu = LR35902::open(vec![]);
    for v in 0u16..256 {
        for carry in [false, true] {
            cpu.registers.set8(Register8::D, v as u8);
            cpu.registers.set_flag(Flag::Carry, carry);
            cpu.increment8(Register8::D);
            assert_eq!(cpu.registers.get_flag(Flag::Carry), carry);
            cpu.decrement8(Register8::D);
            assert_eq!(cpu.registers.get8(Register8::D), v as u8);
            assert_eq!(cpu.registers.get_flag(Flag::Carry), carry);
        }
    }
}

#[test]
fn increment_flags() {
    let mut cpu = LR35902::open(vec![]);
    cpu.registers.set8(Register8::B, 0x0F);
    cpu.increment8(Register8::B);
    assert_eq!(cpu.registers.get8(Register8::B), 0x10);
    assert_eq!(cpu.registers.get_flag(Flag::HalfCarry), true);
    assert_eq!(cpu.registers.get_flag(Flag::Zero), false);
    assert_eq!(cpu.registers.get_flag(Flag::Subtract), false);

    cpu.registers.set8(Register8::B, 0xFF);
    cpu.registers.set_flag(Flag::Carry, false);
    cpu.increment8(Register8::B);
    assert_eq!(cpu.registers.get8(Register8::B), 0x00);
    assert_eq!(cpu.registers.get_flag(Flag::Zero), true);
    assert_eq!(cpu.registers.get_flag(Flag::HalfCarry), true);
    // wrapping past 0xFF still never touches Carry
    assert_eq!(cpu.registers.get_flag(Flag::Carry), false);
}

#[test]
fn decrement_flags() {
    let mut cpu = LR35902::open(vec![]);
    cpu.registers.set8(Register8::E, 0x01);
    cpu.decrement8(Register8::E);
    assert_eq!(cpu.registers.get8(Register8::E), 0x00);
    assert_eq!(cpu.registers.get_flag(Flag::Zero), true);
    assert_eq!(cpu.registers.get_flag(Flag::Subtract), true);
    assert_eq!(cpu.registers.get_flag(Flag::HalfCarry), false);

    cpu.registers.set8(Register8::E, 0x10);
    cpu.decrement8(Register8::E);
    assert_eq!(cpu.registers.get8(Register8::E), 0x0F);
    assert_eq!(cpu.registers.get_flag(Flag::HalfCarry), true);

    cpu.registers.set8(Register8::E, 0x00);
    cpu.registers.set_flag(Flag::Carry, true);
    cpu.decrement8(Register8::E);
    assert_eq!(cpu.registers.get8(Register8::E), 0xFF);
    assert_eq!(cpu.registers.get_flag(Flag::Zero), false);
    assert_eq!(cpu.registers.get_flag(Flag::HalfCarry), true);
    assert_eq!(cpu.registers.get_flag(Flag::Carry), true);
}

#[test]
fn subtract_flags() {
    let mut cpu = LR35902::open(vec![]);
    // 0x10 - 0x20 borrows out of bit 7 but not out of bit 3
    cpu.registers.set8(Register8::A, 0x10);
    cpu.registers.set8(Register8::B, 0x20);
    cpu.sub8(Register8::B);
    assert_eq!(cpu.registers.get8(Register8::A), 0xF0);
    assert_eq!(cpu.registers.get_flag(Flag::Carry), true);
    assert_eq!(cpu.registers.get_flag(Flag::HalfCarry), false);
    assert_eq!(cpu.registers.get_flag(Flag::Zero), false);
    assert_eq!(cpu.registers.get_flag(Flag::Subtract), true);

    // equal operands: Zero is set from the result
    cpu.registers.set8(Register8::A, 0x42);
    cpu.registers.set8(Register8::C, 0x42);
    cpu.sub8(Register8::C);
    assert_eq!(cpu.registers.get8(Register8::A), 0x00);
    assert_eq!(cpu.registers.get_flag(Flag::Zero), true);
    assert_eq!(cpu.registers.get_flag(Flag::Carry), false);

    // 0x21 - 0x02 borrows only in the low nibble
    cpu.registers.set8(Register8::A, 0x21);
    cpu.registers.set8(Register8::D, 0x02);
    cpu.sub8(Register8::D);
    assert_eq!(cpu.registers.get8(Register8::A), 0x1F);
    assert_eq!(cpu.registers.get_flag(Flag::HalfCarry), true);
    assert_eq!(cpu.registers.get_flag(Flag::Carry), false);
}

#[test]
fn subtract_memory_and_immediate() {
    let mut cpu = LR35902::open(vec![0x03]);
    cpu.registers.set8(Register8::A, 0x05);
    cpu.registers.set16(Register16::HL, 0x2000);
    cpu.memory.set8(0x2000, 0x01);
    cpu.sub_mem_at_reg(Register16::HL);
    assert_eq!(cpu.registers.get8(Register8::A), 0x04);
    assert_eq!(cpu.registers.get_flag(Flag::Subtract), true);

    // the immediate operand sits at PC
    cpu.sub_byte();
    assert_eq!(cpu.registers.get8(Register8::A), 0x01);
}

#[test]
fn add16_flags_and_zero_untouched() {
    let mut cpu = LR35902::open(vec![]);
    // carry out of bit 11 only
    cpu.registers.set16(Register16::HL, 0x0FFF);
    cpu.registers.set16(Register16::BC, 0x0001);
    cpu.registers.set_flag(Flag::Zero, true);
    cpu.add16(Register16::HL, Register16::BC);
    assert_eq!(cpu.registers.get16(Register16::HL), 0x1000);
    assert_eq!(cpu.registers.get_flag(Flag::HalfCarry), true);
    assert_eq!(cpu.registers.get_flag(Flag::Carry), false);
    assert_eq!(cpu.registers.get_flag(Flag::Subtract), false);
    // 16-bit addition does not affect Zero
    assert_eq!(cpu.registers.get_flag(Flag::Zero), true);

    // carry out of bit 15, with Zero clear staying clear
    cpu.registers.set16(Register16::HL, 0xFFFF);
    cpu.registers.set16(Register16::DE, 0x0001);
    cpu.registers.set_flag(Flag::Zero, false);
    cpu.add16(Register16::HL, Register16::DE);
    assert_eq!(cpu.registers.get16(Register16::HL), 0x0000);
    assert_eq!(cpu.registers.get_flag(Flag::Carry), true);
    assert_eq!(cpu.registers.get_flag(Flag::HalfCarry), true);
    assert_eq!(cpu.registers.get_flag(Flag::Zero), false);

    // doubling HL
    cpu.registers.set16(Register16::HL, 0x4321);
    cpu.add16(Register16::HL, Register16::HL);
    assert_eq!(cpu.registers.get16(Register16::HL), 0x8642);
}

#[test]
fn increment16_and_decrement16() {
    let mut cpu = LR35902::open(vec![]);
    cpu.registers.set16(Register16::BC, 0xFFFF);
    cpu.registers.set_flag(Flag::Carry, true);
    cpu.increment16(Register16::BC);
    assert_eq!(cpu.registers.get16(Register16::BC), 0x0000);
    assert_eq!(cpu.registers.get_flag(Flag::Zero), true);
    assert_eq!(cpu.registers.get_flag(Flag::HalfCarry), true);
    assert_eq!(cpu.registers.get_flag(Flag::Carry), true);

    cpu.decrement16(Register16::BC);
    assert_eq!(cpu.registers.get16(Register16::BC), 0xFFFF);
    assert_eq!(cpu.registers.get_flag(Flag::Zero), false);
    assert_eq!(cpu.registers.get_flag(Flag::HalfCarry), true);
    assert_eq!(cpu.registers.get_flag(Flag::Carry), true);
}

#[test]
fn decrement_memory_at_hl() {
    let mut cpu = LR35902::open(vec![0x35]);
    cpu.registers.set16(Register16::HL, 0x2000);
    cpu.memory.set8(0x2000, 0x01);
    let _ = cpu.run_n(1);
    assert_eq!(cpu.memory.get8(0x2000), 0x00);
    assert_eq!(cpu.registers.get_flag(Flag::Zero), true);
    assert_eq!(cpu.registers.get_flag(Flag::Subtract), true);
}

#[test]
fn rotate_eight_times_is_identity() {
    // One full circle of either circular rotate restores the register,
    // and the Carry flag ends holding the bit that re-entered last.
    let mut cpu = LR35902::open(vec![]);
    for v in 0u16..256 {
        cpu.registers.set8(Register8::A, v as u8);
        cpu.registers.set_flag(Flag::Carry, v % 2 == 1);
        for _ in 0..8 {
            cpu.rotate_left_circular(Register8::A);
        }
        assert_eq!(cpu.registers.get8(Register8::A), v as u8);
        assert_eq!(cpu.registers.get_flag(Flag::Carry), v % 2 == 1);

        cpu.registers.set8(Register8::A, v as u8);
        cpu.registers.set_flag(Flag::Carry, v >= 128);
        for _ in 0..8 {
            cpu.rotate_right_circular(Register8::A);
        }
        assert_eq!(cpu.registers.get8(Register8::A), v as u8);
        assert_eq!(cpu.registers.get_flag(Flag::Carry), v >= 128);
    }
}

#[test]
fn rotate_circular_single_steps() {
    let mut cpu = LR35902::open(vec![]);
    cpu.registers.set8(Register8::A, 0b1000_0001);
    cpu.rotate_left_circular(Register8::A);
    assert_eq!(cpu.registers.get8(Register8::A), 0b0000_0011);
    assert_eq!(cpu.registers.get_flag(Flag::Carry), true);
    assert_eq!(cpu.registers.get_flag(Flag::Zero), false);

    cpu.registers.set8(Register8::A, 0b1000_0001);
    cpu.rotate_right_circular(Register8::A);
    assert_eq!(cpu.registers.get8(Register8::A), 0b1100_0000);
    assert_eq!(cpu.registers.get_flag(Flag::Carry), true);
}

#[test]
fn rotate_through_carry_single_steps() {
    let mut cpu = LR35902::open(vec![]);
    // RLA: old carry enters at bit 0, old bit 7 leaves into carry
    cpu.registers.set8(Register8::A, 0b0101_0000);
    cpu.registers.set_flag(Flag::Carry, true);
    cpu.rotate_left(Register8::A);
    assert_eq!(cpu.registers.get8(Register8::A), 0b1010_0001);
    assert_eq!(cpu.registers.get_flag(Flag::Carry), false);

    // RRA: old carry enters at bit 7, old bit 0 leaves into carry
    cpu.registers.set8(Register8::A, 0b0000_1010);
    cpu.registers.set_flag(Flag::Carry, true);
    cpu.rotate_right(Register8::A);
    assert_eq!(cpu.registers.get8(Register8::A), 0b1000_0101);
    assert_eq!(cpu.registers.get_flag(Flag::Carry), false);
}

#[test]
fn rotate_through_carry_nine_times_is_identity() {
    // The through-carry rotate cycles nine bits: register plus carry.
    let mut cpu = LR35902::open(vec![]);
    for v in [0u8, 1, 0x80, 0xA5, 0xFF] {
        for carry in [false, true] {
            cpu.registers.set8(Register8::A, v);
            cpu.registers.set_flag(Flag::Carry, carry);
            for _ in 0..9 {
                cpu.rotate_left(Register8::A);
            }
            assert_eq!(cpu.registers.get8(Register8::A), v);
            assert_eq!(cpu.registers.get_flag(Flag::Carry), carry);
        }
    }
}

#[test]
fn push_pop_identity_for_all_pairs() {
    let mut cpu = LR35902::open(vec![]);
    for reg in [Register16::BC, Register16::DE, Register16::HL, Register16::AF] {
        cpu.registers.set16(reg, 0x1234);
        let sp = cpu.registers.get16(Register16::SP);
        cpu.push_reg16(reg);
        cpu.pop_reg16(reg);
        assert_eq!(cpu.registers.get16(reg), 0x1234);
        assert_eq!(cpu.registers.get16(Register16::SP), sp);
    }
}

#[test]
fn push_pop_wraps_around_address_space() {
    let mut cpu = LR35902::open(vec![]);
    cpu.registers.set16(Register16::SP, 0x0001);
    cpu.registers.set16(Register16::DE, 0xA55A);
    cpu.push_reg16(Register16::DE);
    assert_eq!(cpu.registers.get16(Register16::SP), 0xFFFF);
    assert_eq!(cpu.memory.get8(0xFFFF), 0x5A);
    assert_eq!(cpu.memory.get8(0x0000), 0xA5);
    cpu.pop_reg16(Register16::HL);
    assert_eq!(cpu.registers.get16(Register16::HL), 0xA55A);
    assert_eq!(cpu.registers.get16(Register16::SP), 0x0001);
}
