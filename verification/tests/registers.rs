use gbemu::memory::Memory;
use gbemu::registers::{Flag, Register16, Register8, Registers};
use gbemu::word::Word;

#[test]
fn word_lanes_and_roundtrip() {
    let mut w = Word(0x12, 0x34);
    assert_eq!(w.get16(), 0x1234);
    w.set16(0xBEEF);
    assert_eq!(w.0, 0xBE);
    assert_eq!(w.1, 0xEF);
    assert_eq!(w.get16(), 0xBEEF);
    w.set16(0x00FF);
    assert_eq!(w.0, 0x00);
    assert_eq!(w.1, 0xFF);
}

#[test]
fn eight_bit_registers_map_to_word_lanes() {
    let mut r = Registers::new();
    r.set16(Register16::BC, 0xABCD);
    assert_eq!(r.get8(Register8::B), 0xAB);
    assert_eq!(r.get8(Register8::C), 0xCD);
    // writing one lane never disturbs the other
    r.set8(Register8::B, 0x11);
    assert_eq!(r.get8(Register8::C), 0xCD);
    assert_eq!(r.get16(Register16::BC), 0x11CD);
    r.set8(Register8::C, 0x22);
    assert_eq!(r.get16(Register16::BC), 0x1122);
    // A and F are the two lanes of AF
    r.set16(Register16::AF, 0x5060);
    assert_eq!(r.get8(Register8::A), 0x50);
    assert_eq!(r.get8(Register8::F), 0x60);
    // H and L are the two lanes of HL
    r.set8(Register8::H, 0x77);
    r.set8(Register8::L, 0x88);
    assert_eq!(r.get16(Register16::HL), 0x7788);
    // SP and PC are plain 16-bit registers
    r.set16(Register16::SP, 0xAAAA);
    r.set16(Register16::PC, 0xBBBB);
    assert_eq!(r.get16(Register16::SP), 0xAAAA);
    assert_eq!(r.get16(Register16::PC), 0xBBBB);
}

#[test]
fn flag_bit_layout() {
    let mut r = Registers::new();
    r.set_flags(true, false, false, false);
    assert_eq!(r.get8(Register8::F), 0b1000_0000);
    r.set_flags(false, true, false, false);
    assert_eq!(r.get8(Register8::F), 0b0100_0000);
    r.set_flags(false, false, true, false);
    assert_eq!(r.get8(Register8::F), 0b0010_0000);
    r.set_flags(false, false, false, true);
    assert_eq!(r.get8(Register8::F), 0b0001_0000);
    r.set_flags(true, true, true, true);
    assert_eq!(r.get8(Register8::F), 0xF0);
}

#[test]
fn set_flags_clears_low_nibble() {
    let mut r = Registers::new();
    r.set8(Register8::F, 0xFF);
    r.set_flags(true, false, true, false);
    assert_eq!(r.get8(Register8::F), 0b1010_0000);
}

#[test]
fn set_flag_disturbs_nothing_else() {
    let mut r = Registers::new();
    r.set8(Register8::F, 0x00);
    r.set_flag(Flag::Carry, true);
    assert_eq!(r.get_flag(Flag::Carry), true);
    assert_eq!(r.get_flag(Flag::Zero), false);
    assert_eq!(r.get_flag(Flag::Subtract), false);
    assert_eq!(r.get_flag(Flag::HalfCarry), false);
    r.set_flag(Flag::Zero, true);
    assert_eq!(r.get8(Register8::F), 0b1001_0000);
    r.set_flag(Flag::Carry, false);
    assert_eq!(r.get8(Register8::F), 0b1000_0000);
    // flag writes leave A alone
    assert_eq!(r.get8(Register8::A), 0x01);
}

#[test]
fn memory_bytes_and_words() {
    let mut m = Memory::new();
    assert_eq!(m.len(), 65536);
    assert_eq!(m.get8(0x0000), 0);
    assert_eq!(m.get8(0xFFFF), 0);
    m.set8(0x8000, 0x42);
    assert_eq!(m.get8(0x8000), 0x42);
    // words are little-endian: low byte at the lower address
    m.set16(0x1000, 0xABCD);
    assert_eq!(m.get8(0x1000), 0xCD);
    assert_eq!(m.get8(0x1001), 0xAB);
    assert_eq!(m.get16(0x1000), 0xABCD);
}

#[test]
fn memory_word_access_wraps_at_top_of_space() {
    let mut m = Memory::new();
    m.set16(0xFFFF, 0x1234);
    assert_eq!(m.get8(0xFFFF), 0x34);
    assert_eq!(m.get8(0x0000), 0x12);
    assert_eq!(m.get16(0xFFFF), 0x1234);
}
