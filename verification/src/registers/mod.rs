//! The register file: eight 8-bit registers, the stack pointer and the
//! program counter, with paired 16-bit access and flag handling.

pub mod alu;

use vstd::prelude::*;

use crate::instructions::FlagCondition;

pub use alu::{Alu, Direction};

verus! {

/// The flag mask that selects all four condition flags.
pub const FLAGS_ALL: u8 = 0xF0;

/// The 8-bit general registers.
#[derive(Debug, Clone, Copy, PartialEq, Eq)]
pub enum RegisterU8 {
    A,
    B,
    C,
    D,
    E,
    H,
    L,
}

/// The 16-bit registers: four pairs of 8-bit registers and the stack pointer.
#[derive(Debug, Clone, Copy, PartialEq, Eq)]
pub enum RegisterU16 {
    AF,
    BC,
    DE,
    HL,
    SP,
}

/// The condition flags, kept in the upper nibble of register F.
#[derive(Debug, Clone, Copy, PartialEq, Eq)]
pub enum Flags {
    /// Zero flag
    Z,
    /// Subtraction flag
    N,
    /// Half carry flag
    H,
    /// Carry flag
    CY,
}

impl Flags {
    /// The bit of register F that holds this flag.
    pub open spec fn spec_bit(self) -> u8 {
        match self {
            Flags::Z => 0x80,
            Flags::N => 0x40,
            Flags::H => 0x20,
            Flags::CY => 0x10,
        }
    }

    #[verifier::when_used_as_spec(spec_bit)]
    pub fn bit(self) -> (b: u8)
        ensures
            b == self.spec_bit(),
    {
        match self {
            Flags::Z => 0x80,
            Flags::N => 0x40,
            Flags::H => 0x20,
            Flags::CY => 0x10,
        }
    }
}

/// A value for each of the four flags.
pub struct FlagSet {
    pub z: bool,
    pub n: bool,
    pub h: bool,
    pub cy: bool,
}

impl FlagSet {
    pub open spec fn get(self, flag: Flags) -> bool {
        match flag {
            Flags::Z => self.z,
            Flags::N => self.n,
            Flags::H => self.h,
            Flags::CY => self.cy,
        }
    }
}

#[derive(Debug, Clone, Copy, PartialEq, Eq)]
pub struct Registers {
    pub a: u8,
    pub b: u8,
    pub c: u8,
    pub d: u8,
    pub e: u8,
    pub h: u8,
    pub l: u8,
    pub f: u8,
    pub sp: u16,
    pub pc: u16,
}

impl Default for Registers {
    fn default() -> (r: Registers)
        ensures
            r == Registers::zeroed(),
    {
        Registers { a: 0, b: 0, c: 0, d: 0, e: 0, h: 0, l: 0, f: 0, sp: 0, pc: 0 }
    }
}

/// Facts about one bit of a byte: what toggling, setting and clearing it do
/// to that bit, and that they leave alone any other bit and, for a bit of the
/// upper nibble, the lower nibble.
pub proof fn lemma_single_bit(f: u8, bit: u8, other: u8)
    by (bit_vector)
    requires
        bit == 0x80 || bit == 0x40 || bit == 0x20 || bit == 0x10 || bit == 0x08 || bit == 0x04
            || bit == 0x02 || bit == 0x01,
        other == 0x80 || other == 0x40 || other == 0x20 || other == 0x10 || other == 0x08 || other
            == 0x04 || other == 0x02 || other == 0x01 || (other == 0x0F && bit >= 0x10),
        other != bit,
    ensures
        f & bit == 0 ==> f ^ bit == f | bit && f & !bit == f,
        f & bit != 0 ==> f ^ bit == f & !bit && f | bit == f,
        (f | bit) & bit != 0,
        (f & !bit) & bit == 0,
        (f | bit) & other == f & other,
        (f & !bit) & other == f & other,
{
}

impl Registers {
    /// The register file with every register zero.
    pub open spec fn zeroed() -> Registers {
        Registers { a: 0, b: 0, c: 0, d: 0, e: 0, h: 0, l: 0, f: 0, sp: 0, pc: 0 }
    }

    /// The register file after power-on.
    pub open spec fn power_on() -> Registers {
        Registers { pc: 0x100, sp: 0xFFFE, ..Registers::zeroed() }
    }

    /// The low nibble of F is zero.
    pub open spec fn wf(self) -> bool {
        self.f & 0x0F == 0
    }

    /// Whether `flag` is set.
    pub open spec fn flag(self, flag: Flags) -> bool {
        self.f & flag.spec_bit() != 0
    }

    /// Whether the branch condition `c` holds.
    pub open spec fn condition(self, c: FlagCondition) -> bool {
        match c {
            FlagCondition::Z => self.flag(Flags::Z),
            FlagCondition::NZ => !self.flag(Flags::Z),
            FlagCondition::C => self.flag(Flags::CY),
            FlagCondition::NC => !self.flag(Flags::CY),
        }
    }

    /// The register file after `flag` has been given the value `set`, which
    /// happens only where `mask` holds the flag's bit.
    #[verifier::opaque]
    pub open spec fn with_flag(self, flag: Flags, set: bool, mask: u8) -> Registers {
        if mask & flag.spec_bit() != 0 {
            Registers {
                f: if set {
                    self.f | flag.spec_bit()
                } else {
                    self.f & !flag.spec_bit()
                },
                ..self
            }
        } else {
            self
        }
    }

    /// The register file after all four flags have been committed under `mask`.
    pub open spec fn with_flags(self, flags: FlagSet, mask: u8) -> Registers {
        self.with_flag(Flags::Z, flags.z, mask).with_flag(Flags::N, flags.n, mask).with_flag(
            Flags::H,
            flags.h,
            mask,
        ).with_flag(Flags::CY, flags.cy, mask)
    }

    /// The high and the low byte of a 16-bit register.
    pub open spec fn split_pair(self, r: RegisterU16) -> (u8, u8) {
        match r {
            RegisterU16::AF => (self.a, self.f),
            RegisterU16::BC => (self.b, self.c),
            RegisterU16::DE => (self.d, self.e),
            RegisterU16::HL => (self.h, self.l),
            RegisterU16::SP => ((self.sp / 256) as u8, (self.sp % 256) as u8),
        }
    }

    /// The value of a 16-bit register: high byte times 256 plus low byte.
    pub open spec fn pair(self, r: RegisterU16) -> u16 {
        (self.split_pair(r).0 * 256 + self.split_pair(r).1) as u16
    }

    /// The register file after a 16-bit register has been given its two bytes.
    /// The low nibble of F cannot be set: it is cleared on a write to AF.
    pub open spec fn with_split_pair(self, r: RegisterU16, hi: u8, lo: u8) -> Registers {
        match r {
            RegisterU16::AF => Registers { a: hi, f: lo & 0xF0, ..self },
            RegisterU16::BC => Registers { b: hi, c: lo, ..self },
            RegisterU16::DE => Registers { d: hi, e: lo, ..self },
            RegisterU16::HL => Registers { h: hi, l: lo, ..self },
            RegisterU16::SP => Registers { sp: (hi * 256 + lo) as u16, ..self },
        }
    }

    /// The register file after a 16-bit register has been given `val`.
    pub open spec fn with_pair(self, r: RegisterU16, val: u16) -> Registers {
        self.with_split_pair(r, (val / 256) as u8, (val % 256) as u8)
    }

    /// The value of an 8-bit register.
    pub open spec fn reg8(self, r: RegisterU8) -> u8 {
        match r {
            RegisterU8::A => self.a,
            RegisterU8::B => self.b,
            RegisterU8::C => self.c,
            RegisterU8::D => self.d,
            RegisterU8::E => self.e,
            RegisterU8::H => self.h,
            RegisterU8::L => self.l,
        }
    }

    /// The register file after an 8-bit register has been given `val`.
    pub open spec fn with_reg8(self, r: RegisterU8, val: u8) -> Registers {
        match r {
            RegisterU8::A => Registers { a: val, ..self },
            RegisterU8::B => Registers { b: val, ..self },
            RegisterU8::C => Registers { c: val, ..self },
            RegisterU8::D => Registers { d: val, ..self },
            RegisterU8::E => Registers { e: val, ..self },
            RegisterU8::H => Registers { h: val, ..self },
            RegisterU8::L => Registers { l: val, ..self },
        }
    }

    /// The state after power-on: execution starts at 0x0100 with the stack
    /// at the top of high RAM.
    pub fn new() -> (r: Registers)
        ensures
            r == Registers::power_on(),
            r.wf(),
    {
        assert(0u8 & 0x0F == 0) by (bit_vector);
        Registers { a: 0, b: 0, c: 0, d: 0, e: 0, h: 0, l: 0, f: 0, sp: 0xFFFE, pc: 0x100 }
    }

    pub fn get_flag(&self, flag: Flags) -> (set: bool)
        ensures
            set == self.flag(flag),
    {
        self.f & flag.bit() > 0
    }

    pub fn get_flag_condition(&self, flag_condition: FlagCondition) -> (holds: bool)
        ensures
            holds == self.condition(flag_condition),
    {
        match flag_condition {
            FlagCondition::Z => self.get_flag(Flags::Z),
            FlagCondition::NZ => !self.get_flag(Flags::Z),
            FlagCondition::C => self.get_flag(Flags::CY),
            FlagCondition::NC => !self.get_flag(Flags::CY),
        }
    }

    /// Gives `flag` the value `set` if `flag_mask` holds the flag's bit, and
    /// leaves it untouched otherwise.
    pub fn set_flag(&mut self, flag: Flags, set: bool, flag_mask: u8)
        ensures
            *final(self) == old(self).with_flag(flag, set, flag_mask),
    {
        proof {
            reveal(Registers::with_flag);
            lemma_single_bit(self.f, flag.spec_bit(), 0x0F);
        }
        if self.get_flag(flag) != set && flag_mask & flag.bit() != 0 {
            self.f = self.f ^ flag.bit();
        }
    }

    /// Committing one flag gives that flag its new value where the mask
    /// selects it, and changes neither another flag, nor the low nibble of
    /// F, nor any other register.
    pub proof fn lemma_with_flag(self, flag: Flags, set: bool, mask: u8, other: Flags)
        ensures
            self.with_flag(flag, set, mask).flag(flag) == (if mask & flag.spec_bit() != 0 {
                set
            } else {
                self.flag(flag)
            }),
            other != flag ==> self.with_flag(flag, set, mask).flag(other) == self.flag(other),
            self.with_flag(flag, set, mask).f & 0x0F == self.f & 0x0F,
            self.with_flag(flag, set, mask) == (Registers {
                f: self.with_flag(flag, set, mask).f,
                ..self
            }),
    {
        reveal(Registers::with_flag);
        lemma_single_bit(self.f, flag.spec_bit(), 0x0F);
        if other != flag {
            lemma_single_bit(self.f, flag.spec_bit(), other.spec_bit());
        }
    }

    /// Committing flags under the empty mask changes nothing.
    pub proof fn lemma_with_no_flags(self, flags: FlagSet)
        ensures
            self.with_flags(flags, 0) == self,
    {
        reveal(Registers::with_flag);
        assert(0u8 & 0x80 == 0 && 0u8 & 0x40 == 0 && 0u8 & 0x20 == 0 && 0u8 & 0x10 == 0)
            by (bit_vector);
    }

    /// Committing four flags under a mask gives each selected flag its new
    /// value and keeps each other flag, the low nibble of F and every other
    /// register.
    pub proof fn lemma_with_flags(self, flags: FlagSet, mask: u8, flag: Flags)
        ensures
            self.with_flags(flags, mask).flag(flag) == (if mask & flag.spec_bit() != 0 {
                flags.get(flag)
            } else {
                self.flag(flag)
            }),
            self.with_flags(flags, mask).wf() == self.wf(),
            self.with_flags(flags, mask) == (Registers {
                f: self.with_flags(flags, mask).f,
                ..self
            }),
    {
        let r1 = self.with_flag(Flags::Z, flags.z, mask);
        let r2 = r1.with_flag(Flags::N, flags.n, mask);
        let r3 = r2.with_flag(Flags::H, flags.h, mask);
        self.lemma_with_flag(Flags::Z, flags.z, mask, flag);
        r1.lemma_with_flag(Flags::N, flags.n, mask, flag);
        r2.lemma_with_flag(Flags::H, flags.h, mask, flag);
        r3.lemma_with_flag(Flags::CY, flags.cy, mask, flag);
    }

    /// What was written to an 8-bit register is what is read from it, and
    /// no other register has changed.
    pub proof fn lemma_reg8_after_with_reg8(self, r: RegisterU8, val: u8, other: RegisterU8)
        ensures
            self.with_reg8(r, val).reg8(r) == val,
            other != r ==> self.with_reg8(r, val).reg8(other) == self.reg8(other),
            self.with_reg8(r, val).f == self.f,
            self.with_reg8(r, val).sp == self.sp,
            self.with_reg8(r, val).pc == self.pc,
    {
    }

    /// A write to a 16-bit register keeps the low nibble of F at zero.
    pub proof fn lemma_with_pair_wf(self, r: RegisterU16, hi: u8, lo: u8)
        requires
            self.wf(),
        ensures
            self.with_split_pair(r, hi, lo).wf(),
            self.with_pair(r, (hi * 256 + lo) as u16).wf(),
    {
        assert((lo & 0xF0) & 0x0F == 0) by (bit_vector);
        let v = (hi * 256 + lo) as u16;
    }

    /// What was written to a 16-bit register is what is read from it; of
    /// AF, the low nibble of F reads as zero.
    pub proof fn lemma_pair_after_with_pair(self, r: RegisterU16, val: u16)
        ensures
            r != RegisterU16::AF ==> self.with_pair(r, val).pair(r) == val,
            r == RegisterU16::AF ==> self.with_pair(r, val).pair(r) == (val / 256) * 256 + ((val
                % 256) as u8 & 0xF0),
    {
        let lo = (val % 256) as u8;
        assert(lo & 0xF0 <= lo) by (bit_vector);
    }

    pub fn get_u16(&self, regs: &RegisterU16) -> (val: u16)
        ensures
            val == self.pair(*regs),
    {
        let (hi, lo) = self.get_split_u16(regs);
        hi as u16 * 256 + lo as u16
    }

    pub fn get_split_u16(&self, regs: &RegisterU16) -> (bytes: (u8, u8))
        ensures
            bytes == self.split_pair(*regs),
    {
        match regs {
            RegisterU16::AF => (self.a, self.f),
            RegisterU16::BC => (self.b, self.c),
            RegisterU16::DE => (self.d, self.e),
            RegisterU16::HL => (self.h, self.l),
            RegisterU16::SP => ((self.sp / 256) as u8, (self.sp % 256) as u8),
        }
    }

    pub fn set_split_u16(&mut self, regs: &RegisterU16, higher: u8, lower: u8)
        ensures
            *final(self) == old(self).with_split_pair(*regs, higher, lower),
    {
        match regs {
            RegisterU16::AF => {
                self.a = higher;
                self.f = lower & 0xF0;
            },
            RegisterU16::BC => {
                self.b = higher;
                self.c = lower;
            },
            RegisterU16::DE => {
                self.d = higher;
                self.e = lower;
            },
            RegisterU16::HL => {
                self.h = higher;
                self.l = lower;
            },
            RegisterU16::SP => {
                self.sp = higher as u16 * 256 + lower as u16;
            },
        }
    }

    pub fn set_u16(&mut self, regs: &RegisterU16, val: u16)
        ensures
            *final(self) == old(self).with_pair(*regs, val),
    {
        self.set_split_u16(regs, (val / 256) as u8, (val % 256) as u8);
    }

    pub fn get_u8(&self, regs: &RegisterU8) -> (val: u8)
        ensures
            val == self.reg8(*regs),
    {
        match regs {
            RegisterU8::A => self.a,
            RegisterU8::B => self.b,
            RegisterU8::C => self.c,
            RegisterU8::D => self.d,
            RegisterU8::E => self.e,
            RegisterU8::H => self.h,
            RegisterU8::L => self.l,
        }
    }

    pub fn set_u8(&mut self, regs: &RegisterU8, val: u8)
        ensures
            *final(self) == old(self).with_reg8(*regs, val),
    {
        match regs {
            RegisterU8::A => {
                self.a = val;
            },
            RegisterU8::B => {
                self.b = val;
            },
            RegisterU8::C => {
                self.c = val;
            },
            RegisterU8::D => {
                self.d = val;
            },
            RegisterU8::E => {
                self.e = val;
            },
            RegisterU8::H => {
                self.h = val;
            },
            RegisterU8::L => {
                self.l = val;
            },
        }
    }
}

} // verus!
