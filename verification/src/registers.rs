//! The CPU register file: four 16-bit words aliased as eight 8-bit
//! registers, the stack pointer and program counter, and the flag bits
//! packed into the high nibble of F.

use vstd::prelude::*;
use crate::word::{combine, hi, lo, lemma_combine_split, Word};

verus! {

/// CPU registers: four two-byte words each made of two 8-bit registers,
/// plus the program counter and stack pointer.
pub struct Registers {
    pub af: Word,
    pub bc: Word,
    pub de: Word,
    pub hl: Word,
    pub pc: u16,
    pub sp: u16,
}

/// The eight 8-bit register identifiers; each names one lane of one word.
#[derive(Copy, Clone, Debug)]
pub enum Register8 {
    A,
    B,
    C,
    D,
    E,
    F,
    H,
    L,
}

/// The six 16-bit register identifiers.
#[derive(Copy, Clone, Debug)]
pub enum Register16 {
    AF,
    BC,
    DE,
    HL,
    SP,
    PC,
}

/// The four flag bits, packed into the high nibble of F:
/// bit 7 Zero, bit 6 Subtract, bit 5 HalfCarry, bit 4 Carry.
pub enum Flag {
    Zero,
    Subtract,
    HalfCarry,
    Carry,
}

/// Bit mask of one flag within the F register.
pub open spec fn flag_mask(flag: Flag) -> u8 {
    match flag {
        Flag::Zero => 0x80,
        Flag::Subtract => 0x40,
        Flag::HalfCarry => 0x20,
        Flag::Carry => 0x10,
    }
}

/// Whether `flag` is set in the flag byte `b`.
pub open spec fn flag_of(b: u8, flag: Flag) -> bool {
    b & flag_mask(flag) != 0
}

/// The flag byte holding exactly the four given flags; bits 0-3 are zero.
pub open spec fn flags_value(zero: bool, subtract: bool, half_carry: bool, carry: bool) -> u8 {
    (if zero { 0x80u8 } else { 0u8 }) | (if subtract { 0x40u8 } else { 0u8 })
        | (if half_carry { 0x20u8 } else { 0u8 }) | (if carry { 0x10u8 } else { 0u8 })
}

/// The flag byte `b` with one flag forced to `value` and all other bits kept.
pub open spec fn flag_update(b: u8, flag: Flag, value: bool) -> u8 {
    if value {
        b | flag_mask(flag)
    } else {
        b & !flag_mask(flag)
    }
}

/// Reading a flag byte built by `flags_value` gives back each of the four
/// flags, and its low nibble is zero.
pub proof fn lemma_flags_value(zero: bool, subtract: bool, half_carry: bool, carry: bool)
    ensures
        flag_of(flags_value(zero, subtract, half_carry, carry), Flag::Zero) == zero,
        flag_of(flags_value(zero, subtract, half_carry, carry), Flag::Subtract) == subtract,
        flag_of(flags_value(zero, subtract, half_carry, carry), Flag::HalfCarry) == half_carry,
        flag_of(flags_value(zero, subtract, half_carry, carry), Flag::Carry) == carry,
        flags_value(zero, subtract, half_carry, carry) & 0x0F == 0,
{
    let b = flags_value(zero, subtract, half_carry, carry);
    assert({
        let v = (if zero { 0x80u8 } else { 0u8 }) | (if subtract { 0x40u8 } else { 0u8 })
            | (if half_carry { 0x20u8 } else { 0u8 }) | (if carry { 0x10u8 } else { 0u8 });
        (v & 0x80 != 0) == zero && (v & 0x40 != 0) == subtract && (v & 0x20 != 0) == half_carry
            && (v & 0x10 != 0) == carry && v & 0x0F == 0
    }) by (bit_vector);
}

/// Updating one flag with `flag_update` sets that flag to the given value
/// and leaves every other flag bit as it was.
pub proof fn lemma_flag_update(b: u8, flag: Flag, value: bool)
    ensures
        flag_of(flag_update(b, flag, value), flag) == value,
        forall|other: Flag|
            flag_mask(other) != flag_mask(flag) ==> #[trigger] flag_of(
                flag_update(b, flag, value),
                other,
            ) == flag_of(b, other),
{
    let m = flag_mask(flag);
    assert(m == 0x80 || m == 0x40 || m == 0x20 || m == 0x10);
    assert forall|other: Flag| flag_mask(other) != flag_mask(flag) implies #[trigger] flag_of(
        flag_update(b, flag, value),
        other,
    ) == flag_of(b, other) by {
        let o = flag_mask(other);
        assert(o == 0x80 || o == 0x40 || o == 0x20 || o == 0x10);
        assert({
            &&& (m == 0x80 || m == 0x40 || m == 0x20 || m == 0x10)
            &&& (o == 0x80 || o == 0x40 || o == 0x20 || o == 0x10)
            &&& o != m
        } ==> ((b | m) & o != 0) == (b & o != 0) && ((b & !m) & o != 0) == (b & o != 0))
            by (bit_vector);
    }
    assert({
        &&& (m == 0x80 || m == 0x40 || m == 0x20 || m == 0x10)
    } ==> ((b | m) & m != 0) == true && ((b & !m) & m != 0) == false) by (bit_vector);
}

impl Registers {
    /// The value of one 8-bit register: one lane of one word.
    pub open spec fn r8(self, reg: Register8) -> u8 {
        match reg {
            Register8::A => self.af.0,
            Register8::B => self.bc.0,
            Register8::C => self.bc.1,
            Register8::D => self.de.0,
            Register8::E => self.de.1,
            Register8::F => self.af.1,
            Register8::H => self.hl.0,
            Register8::L => self.hl.1,
        }
    }

    /// The register file with one 8-bit register replaced; the other lane
    /// of its word is untouched.
    pub open spec fn with8(self, reg: Register8, value: u8) -> Registers {
        match reg {
            Register8::A => Registers { af: Word(value, self.af.1), ..self },
            Register8::B => Registers { bc: Word(value, self.bc.1), ..self },
            Register8::C => Registers { bc: Word(self.bc.0, value), ..self },
            Register8::D => Registers { de: Word(value, self.de.1), ..self },
            Register8::E => Registers { de: Word(self.de.0, value), ..self },
            Register8::F => Registers { af: Word(self.af.0, value), ..self },
            Register8::H => Registers { hl: Word(value, self.hl.1), ..self },
            Register8::L => Registers { hl: Word(self.hl.0, value), ..self },
        }
    }

    /// The value of one 16-bit register.
    pub open spec fn r16(self, reg: Register16) -> u16 {
        match reg {
            Register16::AF => combine(self.af.0, self.af.1),
            Register16::BC => combine(self.bc.0, self.bc.1),
            Register16::DE => combine(self.de.0, self.de.1),
            Register16::HL => combine(self.hl.0, self.hl.1),
            Register16::SP => self.sp,
            Register16::PC => self.pc,
        }
    }

    /// The register file with one 16-bit register replaced.
    pub open spec fn with16(self, reg: Register16, value: u16) -> Registers {
        match reg {
            Register16::AF => Registers { af: Word(hi(value), lo(value)), ..self },
            Register16::BC => Registers { bc: Word(hi(value), lo(value)), ..self },
            Register16::DE => Registers { de: Word(hi(value), lo(value)), ..self },
            Register16::HL => Registers { hl: Word(hi(value), lo(value)), ..self },
            Register16::SP => Registers { sp: value, ..self },
            Register16::PC => Registers { pc: value, ..self },
        }
    }

    /// Whether one flag is set in F.
    pub open spec fn flag(self, flag: Flag) -> bool {
        flag_of(self.af.1, flag)
    }

    /// The register file with all four flags overwritten atomically;
    /// the low nibble of F becomes zero.
    pub open spec fn with_flags(
        self,
        zero: bool,
        subtract: bool,
        half_carry: bool,
        carry: bool,
    ) -> Registers {
        Registers { af: Word(self.af.0, flags_value(zero, subtract, half_carry, carry)), ..self }
    }

    /// The register file with a single flag bit changed.
    pub open spec fn with_flag(self, flag: Flag, value: bool) -> Registers {
        Registers { af: Word(self.af.0, flag_update(self.af.1, flag, value)), ..self }
    }

    /// The documented post-boot-ROM register values.
    pub open spec fn initial() -> Registers {
        Registers {
            af: Word(0x01, 0xb0),
            bc: Word(0x00, 0x13),
            de: Word(0x00, 0xd8),
            hl: Word(0x01, 0x4d),
            pc: 0x0100,
            sp: 0xfffe,
        }
    }

    /// Register file at CPU power-on, holding the post-boot-ROM values.
    pub fn new() -> (r: Self)
        ensures
            r == Registers::initial(),
    {
        Self {
            af: Word(0x01, 0xb0),
            bc: Word(0x00, 0x13),
            de: Word(0x00, 0xd8),
            hl: Word(0x01, 0x4d),
            pc: 0x0100,
            sp: 0xfffe,
        }
    }

    /// Write one 8-bit register without disturbing the other lane of its word.
    pub fn set8(&mut self, reg: Register8, value: u8)
        ensures
            *final(self) == old(self).with8(reg, value),
            final(self).r8(reg) == value,
    {
        match reg {
            Register8::A => { self.af.0 = value; }
            Register8::B => { self.bc.0 = value; }
            Register8::C => { self.bc.1 = value; }
            Register8::D => { self.de.0 = value; }
            Register8::E => { self.de.1 = value; }
            Register8::F => { self.af.1 = value; }
            Register8::H => { self.hl.0 = value; }
            Register8::L => { self.hl.1 = value; }
        }
    }

    /// Read one 8-bit register.
    pub fn get8(&self, reg: Register8) -> (v: u8)
        ensures
            v == self.r8(reg),
    {
        match reg {
            Register8::A => self.af.0,
            Register8::B => self.bc.0,
            Register8::C => self.bc.1,
            Register8::D => self.de.0,
            Register8::E => self.de.1,
            Register8::F => self.af.1,
            Register8::H => self.hl.0,
            Register8::L => self.hl.1,
        }
    }

    /// Write one 16-bit register: both lanes of its word together.
    pub fn set16(&mut self, reg: Register16, value: u16)
        ensures
            *final(self) == old(self).with16(reg, value),
            final(self).r16(reg) == value,
    {
        proof {
            lemma_combine_split(value, 0, 0);
        }
        match reg {
            Register16::AF => { self.af.set16(value); }
            Register16::BC => { self.bc.set16(value); }
            Register16::DE => { self.de.set16(value); }
            Register16::HL => { self.hl.set16(value); }
            Register16::PC => { self.pc = value; }
            Register16::SP => { self.sp = value; }
        }
    }

    /// Read one 16-bit register: the combination of its two lanes.
    pub fn get16(&mut self, reg: Register16) -> (v: u16)
        ensures
            *final(self) == *old(self),
            v == old(self).r16(reg),
    {
        match reg {
            Register16::AF => self.af.get16(),
            Register16::BC => self.bc.get16(),
            Register16::DE => self.de.get16(),
            Register16::HL => self.hl.get16(),
            Register16::PC => self.pc,
            Register16::SP => self.sp,
        }
    }

    /// Set or clear a single flag bit without disturbing the others.
    pub fn set_flag(&mut self, flag: Flag, value: bool)
        ensures
            *final(self) == old(self).with_flag(flag, value),
            final(self).flag(flag) == value,
            forall|other: Flag|
                flag_mask(other) != flag_mask(flag) ==> #[trigger] final(self).flag(other) == old(
                    self,
                ).flag(other),
    {
        proof {
            lemma_flag_update(self.af.1, flag, value);
        }
        let v: u8 = match flag {
            Flag::Zero => 0x80,
            Flag::Subtract => 0x40,
            Flag::HalfCarry => 0x20,
            Flag::Carry => 0x10,
        };
        if value {
            self.af.1 = self.af.1 | v;
        } else {
            self.af.1 = self.af.1 & !v;
        }
    }

    /// Overwrite all four flag bits atomically and clear the unused low
    /// nibble of F; this is the form used by every arithmetic instruction.
    pub fn set_flags(&mut self, zero: bool, subtract: bool, half_carry: bool, carry: bool)
        ensures
            *final(self) == old(self).with_flags(zero, subtract, half_carry, carry),
            final(self).flag(Flag::Zero) == zero,
            final(self).flag(Flag::Subtract) == subtract,
            final(self).flag(Flag::HalfCarry) == half_carry,
            final(self).flag(Flag::Carry) == carry,
            final(self).af.1 & 0x0F == 0,
    {
        proof {
            lemma_flags_value(zero, subtract, half_carry, carry);
        }
        self.af.1 = (if zero { 0x80u8 } else { 0u8 }) | (if subtract { 0x40u8 } else { 0u8 })
            | (if half_carry { 0x20u8 } else { 0u8 }) | (if carry { 0x10u8 } else { 0u8 });
    }

    /// Read a single flag bit from F.
    pub fn get_flag(&self, flag: Flag) -> (v: bool)
        ensures
            v == self.flag(flag),
    {
        let v: u8 = match flag {
            Flag::Zero => 0x80,
            Flag::Subtract => 0x40,
            Flag::HalfCarry => 0x20,
            Flag::Carry => 0x10,
        };
        (self.af.1 & v) != 0
    }
}

} // verus!
