use gbemu::cpu::LR35902;
use gbemu::instructions::{ADD_A_B, ADD_A_C, LD_C_d8, NO_OP};
use gbemu::registers::{Flag, Register16, Register8};
use gbemu::semantics::CpuError;

#[test]
fn test() {
    let program: Vec<u8> = vec![NO_OP, ADD_A_B, LD_C_d8, 0x12, ADD_A_C];
    let mut cpu = LR35902::open(program);
    let _ = cpu.run_n(2);
    assert_eq!(cpu.registers.af.0, 0x01);
    let _ = cpu.run_n(2);
    assert_eq!(cpu.registers.get8(Register8::C), 0x12);
    assert_eq!(cpu.registers.af.0, 0x13);
}

#[test]
fn power_on_state() {
    let mut cpu = LR35902::open(vec![0xAA, 0xBB]);
    assert_eq!(cpu.registers.get16(Register16::AF), 0x01B0);
    assert_eq!(cpu.registers.get16(Register16::BC), 0x0013);
    assert_eq!(cpu.registers.get16(Register16::DE), 0x00D8);
    assert_eq!(cpu.registers.get16(Register16::HL), 0x014D);
    assert_eq!(cpu.registers.get16(Register16::PC), 0x0100);
    assert_eq!(cpu.registers.get16(Register16::SP), 0xFFFE);
    assert_eq!(cpu.cycle, 0);
    assert_eq!(cpu.memory.len(), 65536);
    assert_eq!(cpu.memory.get8(0x00FF), 0x00);
    assert_eq!(cpu.memory.get8(0x0100), 0xAA);
    assert_eq!(cpu.memory.get8(0x0101), 0xBB);
    assert_eq!(cpu.memory.get8(0x0102), 0x00);
}

#[test]
fn scenario_store_accumulator_via_bc() {
    // LD BC, 0x1234 ; LD (BC), A
    let program: Vec<u8> = vec![0x01, 0x34, 0x12, 0x02];
    let mut cpu = LR35902::open(program);
    cpu.registers.set8(Register8::A, 0x42);
    let r = cpu.run_n(2);
    assert!(r.is_ok());
    assert_eq!(cpu.registers.get16(Register16::BC), 0x1234);
    assert_eq!(cpu.memory.get8(0x1234), 0x42);
}

#[test]
fn scenario_increment_memory_at_hl() {
    // INC (HL) with the addressed byte holding 0x0F
    let program: Vec<u8> = vec![0x34];
    let mut cpu = LR35902::open(program);
    cpu.registers.set16(Register16::HL, 0x2000);
    cpu.memory.set8(0x2000, 0x0F);
    let carry_before = cpu.registers.get_flag(Flag::Carry);
    let r = cpu.run_n(1);
    assert!(r.is_ok());
    assert_eq!(cpu.memory.get8(0x2000), 0x10);
    assert_eq!(cpu.registers.get_flag(Flag::HalfCarry), true);
    assert_eq!(cpu.registers.get_flag(Flag::Zero), false);
    assert_eq!(cpu.registers.get_flag(Flag::Carry), carry_before);
}

#[test]
fn scenario_push_bc_pop_de() {
    let mut cpu = LR35902::open(vec![]);
    cpu.registers.set16(Register16::BC, 0xBEEF);
    assert_eq!(cpu.registers.get16(Register16::SP), 0xFFFE);
    cpu.push_reg16(Register16::BC);
    assert_eq!(cpu.registers.get16(Register16::SP), 0xFFFC);
    assert_eq!(cpu.memory.get8(0xFFFC), 0xEF);
    assert_eq!(cpu.memory.get8(0xFFFD), 0xBE);
    cpu.pop_reg16(Register16::DE);
    assert_eq!(cpu.registers.get16(Register16::DE), 0xBEEF);
    assert_eq!(cpu.registers.get16(Register16::SP), 0xFFFE);
}

#[test]
fn relative_jump_forward_backward_and_zero() {
    // JR +3 from 0x0100: lands at 0x0100 + 2 + 3
    let mut cpu = LR35902::open(vec![0x18, 0x03]);
    let _ = cpu.run_n(1);
    assert_eq!(cpu.registers.get16(Register16::PC), 0x0105);

    // JR -3 from 0x0100: lands at 0x0100 + 2 - 3
    let mut cpu = LR35902::open(vec![0x18, 0xFD]);
    let _ = cpu.run_n(1);
    assert_eq!(cpu.registers.get16(Register16::PC), 0x00FF);

    // JR 0 falls through to the next instruction
    let mut cpu = LR35902::open(vec![0x18, 0x00]);
    let _ = cpu.run_n(1);
    assert_eq!(cpu.registers.get16(Register16::PC), 0x0102);

    // JR -128 and +127, the extremes of the displacement
    let mut cpu = LR35902::open(vec![0x18, 0x80]);
    let _ = cpu.run_n(1);
    assert_eq!(cpu.registers.get16(Register16::PC), 0x0102 - 128);
    let mut cpu = LR35902::open(vec![0x18, 0x7F]);
    let _ = cpu.run_n(1);
    assert_eq!(cpu.registers.get16(Register16::PC), 0x0102 + 127);
}

#[test]
fn conditional_jump_costs_and_paths() {
    // JR NZ, +2 with Zero clear: taken, 3 cycles
    let mut cpu = LR35902::open(vec![0x20, 0x02]);
    cpu.registers.set_flag(Flag::Zero, false);
    let _ = cpu.run_n(1);
    assert_eq!(cpu.registers.get16(Register16::PC), 0x0104);
    assert_eq!(cpu.cycle, 3);

    // JR NZ, +2 with Zero set: not taken, 2 cycles
    let mut cpu = LR35902::open(vec![0x20, 0x02]);
    cpu.registers.set_flag(Flag::Zero, true);
    let _ = cpu.run_n(1);
    assert_eq!(cpu.registers.get16(Register16::PC), 0x0102);
    assert_eq!(cpu.cycle, 2);

    // JR C, +2 with Carry set: taken
    let mut cpu = LR35902::open(vec![0x38, 0x02]);
    cpu.registers.set_flag(Flag::Carry, true);
    let _ = cpu.run_n(1);
    assert_eq!(cpu.registers.get16(Register16::PC), 0x0104);
}

#[test]
fn cycle_accounting() {
    // NOP (1) ; LD C, d8 (2) ; ADD A, C (1)
    let program: Vec<u8> = vec![NO_OP, LD_C_d8, 0x07, ADD_A_C];
    let mut cpu = LR35902::open(program);
    let r = cpu.run_n(3);
    assert!(r.is_ok());
    assert_eq!(cpu.cycle, 4);
}

#[test]
fn unimplemented_opcode_fails_fast() {
    // 0x90 has no handler in the primary table
    let mut cpu = LR35902::open(vec![NO_OP, 0x90]);
    let r = cpu.run_n(5);
    assert_eq!(r, Err(CpuError::Unimplemented(0x90)));
    // the opcode byte was consumed, nothing else happened
    assert_eq!(cpu.registers.get16(Register16::PC), 0x0102);
    assert_eq!(cpu.cycle, 1);
}

#[test]
fn prefixed_opcode_fails_fast() {
    let mut cpu = LR35902::open(vec![0xCB, 0x11]);
    let r = cpu.run_n(1);
    assert_eq!(r, Err(CpuError::UnimplementedPrefixed(0x11)));
    // both the prefix and the secondary opcode byte were consumed
    assert_eq!(cpu.registers.get16(Register16::PC), 0x0102);
}

#[test]
fn run_stops_at_first_undefined_opcode() {
    let mut cpu = LR35902::open(vec![NO_OP, NO_OP, 0x90]);
    let e = cpu.run();
    assert_eq!(e, CpuError::Unimplemented(0x90));
    assert_eq!(cpu.cycle, 2);
}

#[test]
fn run_n_stops_exactly_after_count() {
    let program: Vec<u8> = vec![NO_OP, NO_OP, NO_OP, 0x90];
    let mut cpu = LR35902::open(program);
    let r = cpu.run_n(3);
    assert!(r.is_ok());
    assert_eq!(cpu.registers.get16(Register16::PC), 0x0103);
    assert_eq!(cpu.cycle, 3);
}

#[test]
fn load_auto_increment_and_decrement() {
    // LD A, (HL+) reads before incrementing HL
    let mut cpu = LR35902::open(vec![0x2A]);
    cpu.registers.set16(Register16::HL, 0x3000);
    cpu.memory.set8(0x3000, 0x77);
    let _ = cpu.run_n(1);
    assert_eq!(cpu.registers.get8(Register8::A), 0x77);
    assert_eq!(cpu.registers.get16(Register16::HL), 0x3001);

    // LD (HL-), A writes before decrementing HL
    let mut cpu = LR35902::open(vec![0x32]);
    cpu.registers.set16(Register16::HL, 0x3000);
    cpu.registers.set8(Register8::A, 0x55);
    let _ = cpu.run_n(1);
    assert_eq!(cpu.memory.get8(0x3000), 0x55);
    assert_eq!(cpu.registers.get16(Register16::HL), 0x2FFF);
}

#[test]
fn load_sp_to_immediate_address() {
    // LD (a16), SP stores the stack pointer little-endian
    let mut cpu = LR35902::open(vec![0x08, 0x00, 0x40]);
    let _ = cpu.run_n(1);
    assert_eq!(cpu.memory.get8(0x4000), 0xFE);
    assert_eq!(cpu.memory.get8(0x4001), 0xFF);
}

#[test]
fn immediate_word_is_little_endian() {
    // LD DE, 0xCAFE
    let mut cpu = LR35902::open(vec![0x11, 0xFE, 0xCA]);
    let _ = cpu.run_n(1);
    assert_eq!(cpu.registers.get16(Register16::DE), 0xCAFE);
    assert_eq!(cpu.registers.get8(Register8::D), 0xCA);
    assert_eq!(cpu.registers.get8(Register8::E), 0xFE);
}

#[test]
fn every_register_increments_and_decrements_through_opcodes() {
    // INC then DEC of each 8-bit register through its own opcodes pins
    // the decode table to the right register.
    let cases: [(u8, u8, Register8); 7] = [
        (0x3C, 0x3D, Register8::A),
        (0x04, 0x05, Register8::B),
        (0x0C, 0x0D, Register8::C),
        (0x14, 0x15, Register8::D),
        (0x1C, 0x1D, Register8::E),
        (0x24, 0x25, Register8::H),
        (0x2C, 0x2D, Register8::L),
    ];
    for (inc, dec, reg) in cases {
        let mut cpu = LR35902::open(vec![inc, dec]);
        cpu.registers.set8(reg, 0x41);
        let _ = cpu.run_n(1);
        assert_eq!(cpu.registers.get8(reg), 0x42);
        let _ = cpu.run_n(1);
        assert_eq!(cpu.registers.get8(reg), 0x41);
    }
}

#[test]
fn complement_and_invert_carry() {
    // CPL inverts A, sets Subtract and HalfCarry, keeps Zero and Carry
    let mut cpu = LR35902::open(vec![0x2F]);
    cpu.registers.set8(Register8::A, 0b1010_0101);
    cpu.registers.set_flags(true, false, false, true);
    let _ = cpu.run_n(1);
    assert_eq!(cpu.registers.get8(Register8::A), 0b0101_1010);
    assert_eq!(cpu.registers.get_flag(Flag::Zero), true);
    assert_eq!(cpu.registers.get_flag(Flag::Subtract), true);
    assert_eq!(cpu.registers.get_flag(Flag::HalfCarry), true);
    assert_eq!(cpu.registers.get_flag(Flag::Carry), true);

    // CCF flips Carry, clears Subtract and HalfCarry, keeps Zero
    let mut cpu = LR35902::open(vec![0x3F, 0x3F]);
    cpu.registers.set_flags(true, true, true, true);
    let _ = cpu.run_n(1);
    assert_eq!(cpu.registers.get_flag(Flag::Carry), false);
    assert_eq!(cpu.registers.get_flag(Flag::Zero), true);
    assert_eq!(cpu.registers.get_flag(Flag::Subtract), false);
    assert_eq!(cpu.registers.get_flag(Flag::HalfCarry), false);
    let _ = cpu.run_n(1);
    assert_eq!(cpu.registers.get_flag(Flag::Carry), true);
}
