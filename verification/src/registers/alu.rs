//! The arithmetic/logic unit: results and flags of every operation.
//!
//! Results are stated as integer arithmetic; the operations themselves work
//! on bits where that is how the hardware is described.

use vstd::prelude::*;

use crate::registers::{FlagSet, Flags, RegisterU16, RegisterU8, Registers, FLAGS_ALL};

verus! {

/// The flag mask of the 8-bit increment and decrement: all flags but Carry.
pub const FLAGS_ZNH: u8 = 0xE0;

/// The flag mask of the 16-bit additions and of the carry-flag operations:
/// all flags but Zero.
pub const FLAGS_NHC: u8 = 0x70;

/// The flag mask of the decimal adjustment: all flags but Subtract.
pub const FLAGS_ZHC: u8 = 0xB0;

/// The flag mask of the complement: Subtract and Half-Carry.
pub const FLAGS_NH: u8 = 0x60;

/// The direction of a rotation or shift.
#[derive(Debug, Clone, Copy, PartialEq, Eq)]
pub enum Direction {
    Left,
    Right,
}

impl Direction {
    /// The bit that leaves the byte: bit 7 to the left, bit 0 to the right.
    pub open spec fn spec_mask(self) -> u8 {
        match self {
            Direction::Left => 0x80,
            Direction::Right => 0x01,
        }
    }

    #[verifier::when_used_as_spec(spec_mask)]
    pub fn mask(self) -> (m: u8)
        ensures
            m == self.spec_mask(),
    {
        match self {
            Direction::Left => 0x80,
            Direction::Right => 0x01,
        }
    }
}

/// An incoming carry or borrow as a number.
pub open spec fn carry_value(carry: bool) -> int {
    if carry {
        1
    } else {
        0
    }
}

pub struct Alu;

impl Alu {
    /// The 8-bit sum, modulo 256.
    pub open spec fn add8_result(a: u8, b: u8, carry: bool) -> u8 {
        ((a + b + carry_value(carry)) % 256) as u8
    }

    /// The flags of an 8-bit addition: Half-Carry is the carry out of bit 3,
    /// Carry the carry out of bit 7.
    pub open spec fn add8_flags(a: u8, b: u8, carry: bool) -> FlagSet {
        FlagSet {
            z: Self::add8_result(a, b, carry) == 0,
            n: false,
            h: a % 16 + b % 16 + carry_value(carry) >= 16,
            cy: a + b + carry_value(carry) >= 256,
        }
    }

    /// The 16-bit sum, modulo 65536.
    pub open spec fn add16_result(a: u16, b: u16, carry: bool) -> u16 {
        ((a + b + carry_value(carry)) % 65536) as u16
    }

    /// The flags of a 16-bit addition: Half-Carry is the carry out of bit 11,
    /// Carry the carry out of bit 15.
    pub open spec fn add16_flags(a: u16, b: u16, carry: bool) -> FlagSet {
        FlagSet {
            z: Self::add16_result(a, b, carry) == 0,
            n: false,
            h: a % 4096 + b % 4096 + carry_value(carry) >= 4096,
            cy: a + b + carry_value(carry) >= 65536,
        }
    }

    /// The 8-bit difference, modulo 256.
    pub open spec fn sub8_result(a: u8, b: u8, borrow: bool) -> u8 {
        ((a - b - carry_value(borrow)) % 256) as u8
    }

    /// The flags of an 8-bit subtraction: Half-Carry is the borrow into bit
    /// 4, taken on the low nibbles alone, Carry the borrow out of bit 7.
    pub open spec fn sub8_flags(a: u8, b: u8, borrow: bool) -> FlagSet {
        FlagSet {
            z: Self::sub8_result(a, b, borrow) == 0,
            n: true,
            h: a % 16 < b % 16 + carry_value(borrow),
            cy: a < b + carry_value(borrow),
        }
    }

    /// The flags of AND, OR and XOR with the result `res`.
    pub open spec fn logic_flags(res: u8, half_carry: bool) -> FlagSet {
        FlagSet { z: res == 0, n: false, h: half_carry, cy: false }
    }

    /// Whether the decimal adjustment corrects the low digit.
    pub open spec fn daa_low(reg: Registers) -> bool {
        reg.flag(Flags::H) || (!reg.flag(Flags::N) && reg.a % 16 > 9)
    }

    /// Whether the decimal adjustment corrects the high digit, which is also
    /// the new Carry.
    pub open spec fn daa_high(reg: Registers) -> bool {
        reg.flag(Flags::CY) || (!reg.flag(Flags::N) && reg.a > 0x99)
    }

    /// The correction that the decimal adjustment applies.
    pub open spec fn daa_offset(reg: Registers) -> int {
        (if Self::daa_low(reg) {
            0x06int
        } else {
            0
        }) + (if Self::daa_high(reg) {
            0x60int
        } else {
            0
        })
    }

    /// The accumulator after the decimal adjustment: the correction is added
    /// after an addition and subtracted after a subtraction.
    pub open spec fn daa_result(reg: Registers) -> u8 {
        if reg.flag(Flags::N) {
            ((reg.a - Self::daa_offset(reg)) % 256) as u8
        } else {
            ((reg.a + Self::daa_offset(reg)) % 256) as u8
        }
    }

    /// The register file after the decimal adjustment.
    pub open spec fn daa_spec(reg: Registers) -> Registers {
        (Registers { a: Self::daa_result(reg), ..reg }).with_flags(
            FlagSet {
                z: Self::daa_result(reg) == 0,
                n: false,
                h: false,
                cy: Self::daa_high(reg),
            },
            FLAGS_ZHC,
        )
    }

    /// The bit that a rotation or shift of `op` pushes out.
    pub open spec fn shifted_out(dir: Direction, op: u8) -> bool {
        match dir {
            Direction::Left => op >= 0x80,
            Direction::Right => op % 2 == 1,
        }
    }

    /// `op` moved by one bit with `end_bit` coming in at the free end.
    pub open spec fn shifted(dir: Direction, op: u8, end_bit: bool) -> u8 {
        match dir {
            Direction::Left => ((op * 2) % 256 + carry_value(end_bit)) as u8,
            Direction::Right => (op / 2 + 0x80 * carry_value(end_bit)) as u8,
        }
    }

    /// The result of a rotation: through the Carry flag, or circular.
    pub open spec fn rotate_result(dir: Direction, op: u8, through_carry: bool, carry: bool) -> u8 {
        Self::shifted(
            dir,
            op,
            if through_carry {
                carry
            } else {
                Self::shifted_out(dir, op)
            },
        )
    }

    /// The result of a shift: a left shift and a logical right shift fill
    /// with zero, an arithmetic right shift keeps bit 7.
    pub open spec fn shift_result(dir: Direction, op: u8, arithmetic: bool) -> u8 {
        Self::shifted(dir, op, dir == Direction::Right && arithmetic && op >= 0x80)
    }

    /// The flags of a rotation or shift of `op` with the result `res`.
    pub open spec fn shift_flags(dir: Direction, op: u8, res: u8) -> FlagSet {
        FlagSet { z: res == 0, n: false, h: false, cy: Self::shifted_out(dir, op) }
    }

    /// `op` with its two nibbles exchanged.
    pub open spec fn swap_result(op: u8) -> u8 {
        ((op % 16) * 16 + op / 16) as u8
    }

    /// Whether bit `n` of `op` is set.
    pub open spec fn bit_is_set(n: u8, op: u8) -> bool {
        op & (1u8 << n) != 0
    }

    /// The register file after the accumulator has been complemented.
    pub open spec fn cpl_spec(reg: Registers) -> Registers {
        (Registers { a: (255 - reg.a) as u8, ..reg }).with_flags(
            FlagSet { z: false, n: true, h: true, cy: false },
            FLAGS_NH,
        )
    }

    /// The register file after Carry has been given the value `carry`, with
    /// Subtract and Half-Carry cleared.
    pub open spec fn carry_spec(reg: Registers, carry: bool) -> Registers {
        reg.with_flags(FlagSet { z: false, n: false, h: false, cy: carry }, FLAGS_NHC)
    }

    /// The number from -128 to 127 that a byte stands for as an offset.
    pub open spec fn offset_value(e: u8) -> int {
        if e < 128 {
            e as int
        } else {
            e - 256
        }
    }

    /// `base` moved by the signed offset `e`, modulo 65536.
    pub open spec fn offset_result(base: u16, e: u8) -> u16 {
        ((base + Self::offset_value(e)) % 0x10000) as u16
    }

    /// The flags of the addition of a signed offset to a 16-bit value: they
    /// are those of the unsigned addition of the offset byte to the low byte.
    pub open spec fn offset_flags(base: u16, e: u8) -> FlagSet {
        FlagSet { z: false, n: false, h: base % 16 + e % 16 >= 16, cy: base % 256 + e >= 256 }
    }

    /// `flag_mask` specifies which flags should be affected
    pub fn add_u8(reg: &mut Registers, a: u8, b: u8, carry: bool, flag_mask: u8) -> (res: u8)
        ensures
            res == Self::add8_result(a, b, carry),
            *final(reg) == old(reg).with_flags(Self::add8_flags(a, b, carry), flag_mask),
    {
        let cin: u16 = if carry {
            1
        } else {
            0
        };
        let sum: u16 = a as u16 + b as u16 + cin;
        let res: u8 = (sum & 0xFF) as u8;
        let cy: bool = sum > 0xFF;
        assert((a & 0xF) as u16 + (b & 0xF) as u16 + cin <= 31 && (a & 0xF) == a % 16 && (b & 0xF)
            == b % 16 && (sum & 0xFF) == sum % 256) by (bit_vector)
            requires
                cin <= 1,
        ;
        let hc: bool = (a & 0xF) as u16 + (b & 0xF) as u16 + cin > 0xF;

        reg.set_flag(Flags::Z, res == 0, flag_mask);
        reg.set_flag(Flags::N, false, flag_mask);
        reg.set_flag(Flags::H, hc, flag_mask);
        reg.set_flag(Flags::CY, cy, flag_mask);

        res
    }

    /// Adds `b` to the register pair `reg1` and stores the sum there.
    /// `flag_mask` specifies which flags should be affected
    pub fn add_u16(reg: &mut Registers, reg1: &RegisterU16, b: u16, carry: bool, flag_mask: u8)
        ensures
            *final(reg) == old(reg).with_flags(
                Self::add16_flags(old(reg).pair(*reg1), b, carry),
                flag_mask,
            ).with_pair(*reg1, Self::add16_result(old(reg).pair(*reg1), b, carry)),
    {
        let a: u16 = reg.get_u16(reg1);
        let cin: u32 = if carry {
            1
        } else {
            0
        };
        let sum: u32 = a as u32 + b as u32 + cin;
        let res: u16 = (sum % 65536) as u16;
        let cy: bool = sum > 0xFFFF;
        let hc: bool = (a % 4096) as u32 + (b % 4096) as u32 + cin > 0xFFF;

        reg.set_flag(Flags::Z, res == 0, flag_mask);
        reg.set_flag(Flags::N, false, flag_mask);
        reg.set_flag(Flags::H, hc, flag_mask);
        reg.set_flag(Flags::CY, cy, flag_mask);

        reg.set_u16(reg1, res);
    }

    /// `flag_mask` specifies which flags should be affected
    pub fn sub(reg: &mut Registers, a: u8, b: u8, borrow: bool, flag_mask: u8) -> (res: u8)
        ensures
            res == Self::sub8_result(a, b, borrow),
            *final(reg) == old(reg).with_flags(Self::sub8_flags(a, b, borrow), flag_mask),
    {
        let bin: u16 = if borrow {
            1
        } else {
            0
        };
        let taken: u16 = b as u16 + bin;
        let bo: bool = (a as u16) < taken;
        let res: u8 = if bo {
            (a as u16 + 256 - taken) as u8
        } else {
            (a as u16 - taken) as u8
        };
        let hc: bool = ((a % 16) as u16) < (b % 16) as u16 + bin;

        reg.set_flag(Flags::Z, res == 0, flag_mask);
        reg.set_flag(Flags::N, true, flag_mask);
        reg.set_flag(Flags::H, hc, flag_mask);
        reg.set_flag(Flags::CY, bo, flag_mask);

        res
    }

    /// Does not affect flag register
    /// Only `DEC` instruction requires 16 bit subtraction
    pub fn dec_u16(reg: &mut Registers, reg1: &RegisterU16)
        ensures
            *final(reg) == old(reg).with_pair(
                *reg1,
                if old(reg).pair(*reg1) == 0 {
                    0xFFFFu16
                } else {
                    (old(reg).pair(*reg1) - 1) as u16
                },
            ),
    {
        let a: u16 = reg.get_u16(reg1);

        let res: u16 = a.wrapping_sub(1);

        reg.set_u16(reg1, res);
    }

    /// AND Operation, Stores value in register A
    pub fn and(reg: &mut Registers, b: u8)
        ensures
            *final(reg) == old(reg).with_flags(
                Self::logic_flags(old(reg).a & b, true),
                FLAGS_ALL,
            ).with_reg8(RegisterU8::A, old(reg).a & b),
    {
        let a: u8 = reg.get_u8(&RegisterU8::A);
        let res: u8 = a & b;

        let flag_mask: u8 = FLAGS_ALL;
        reg.set_flag(Flags::Z, res == 0, flag_mask);
        reg.set_flag(Flags::N, false, flag_mask);
        reg.set_flag(Flags::H, true, flag_mask);
        reg.set_flag(Flags::CY, false, flag_mask);

        reg.set_u8(&RegisterU8::A, res);
    }

    /// OR Operation, Stores value in register A
    pub fn or(reg: &mut Registers, b: u8)
        ensures
            *final(reg) == old(reg).with_flags(
                Self::logic_flags(old(reg).a | b, false),
                FLAGS_ALL,
            ).with_reg8(RegisterU8::A, old(reg).a | b),
    {
        let a: u8 = reg.get_u8(&RegisterU8::A);
        let res: u8 = a | b;

        let flag_mask: u8 = FLAGS_ALL;
        reg.set_flag(Flags::Z, res == 0, flag_mask);
        reg.set_flag(Flags::N, false, flag_mask);
        reg.set_flag(Flags::H, false, flag_mask);
        reg.set_flag(Flags::CY, false, flag_mask);

        reg.set_u8(&RegisterU8::A, res);
    }

    /// XOR Operation, Stores value in register A
    pub fn xor(reg: &mut Registers, b: u8)
        ensures
            *final(reg) == old(reg).with_flags(
                Self::logic_flags(old(reg).a ^ b, false),
                FLAGS_ALL,
            ).with_reg8(RegisterU8::A, old(reg).a ^ b),
    {
        let a: u8 = reg.get_u8(&RegisterU8::A);
        let res: u8 = a ^ b;

        let flag_mask: u8 = FLAGS_ALL;
        reg.set_flag(Flags::Z, res == 0, flag_mask);
        reg.set_flag(Flags::N, false, flag_mask);
        reg.set_flag(Flags::H, false, flag_mask);
        reg.set_flag(Flags::CY, false, flag_mask);

        reg.set_u8(&RegisterU8::A, res);
    }

    /// CMP Operation, Register A - `b`, does not affect Register A
    pub fn cmp(reg: &mut Registers, b: u8)
        ensures
            *final(reg) == old(reg).with_flags(Self::sub8_flags(old(reg).a, b, false), FLAGS_ALL),
            *final(reg) == (Registers { f: final(reg).f, ..*old(reg) }),
            final(reg).a == old(reg).a,
    {
        proof {
            reg.lemma_with_flags(Self::sub8_flags(reg.a, b, false), FLAGS_ALL, Flags::Z);
        }
        let a: u8 = reg.get_u8(&RegisterU8::A);
        Alu::sub(reg, a, b, false, FLAGS_ALL);
    }

    /// Decimal adjustment of the accumulator after an addition or a
    /// subtraction of packed BCD numbers.
    pub fn daa(reg: &mut Registers)
        ensures
            *final(reg) == Self::daa_spec(*old(reg)),
    {
        let mut offset: u8 = 0;
        let mut should_carry: bool = false;

        let a_value: u8 = reg.a;
        let half_carry: bool = reg.get_flag(Flags::H);
        let carry: bool = reg.get_flag(Flags::CY);
        let subtract: bool = reg.get_flag(Flags::N);

        if (!subtract && a_value % 16 > 0x09) || half_carry {
            offset = offset + 0x06;
        }
        if (!subtract && a_value > 0x99) || carry {
            offset = offset + 0x60;
            should_carry = true;
        }
        reg.a = if !subtract {
            a_value.wrapping_add(offset)
        } else {
            a_value.wrapping_sub(offset)
        };

        let flag_mask: u8 = FLAGS_ZHC;
        let zero: bool = reg.a == 0;
        reg.set_flag(Flags::Z, zero, flag_mask);
        reg.set_flag(Flags::N, false, flag_mask);
        reg.set_flag(Flags::H, false, flag_mask);
        reg.set_flag(Flags::CY, should_carry, flag_mask);
    }

    /// Rotates `op` by one bit.  With `carry` the bit that comes in is the
    /// Carry flag, without it the bit that went out.  The new Carry is the bit
    /// that went out.
    pub fn rotate(reg: &mut Registers, dir: Direction, op: u8, carry: bool) -> (res: u8)
        ensures
            res == Self::rotate_result(dir, op, carry, old(reg).flag(Flags::CY)),
            *final(reg) == old(reg).with_flags(Self::shift_flags(dir, op, res), FLAGS_ALL),
    {
        let cy: bool = reg.get_flag(Flags::CY);
        let new_cy: bool = (op & dir.mask()) > 0;

        let end_bit: bool = (carry && cy) || (!carry && new_cy);

        let res: u8 = Self::shift_in(dir, op, end_bit);

        let flag_mask: u8 = FLAGS_ALL;
        reg.set_flag(Flags::Z, res == 0, flag_mask);
        reg.set_flag(Flags::N, false, flag_mask);
        reg.set_flag(Flags::H, false, flag_mask);
        reg.set_flag(Flags::CY, new_cy, flag_mask);

        proof {
            assert((op & 0x80 > 0) == (op >= 0x80) && (op & 0x01 > 0) == (op % 2 == 1))
                by (bit_vector);
        }
        res
    }

    /// Moves `op` by one bit and puts `end_bit` in at the free end.
    fn shift_in(dir: Direction, op: u8, end_bit: bool) -> (res: u8)
        ensures
            res == Self::shifted(dir, op, end_bit),
    {
        match dir {
            Direction::Left => {
                let end: u8 = if end_bit {
                    0x01
                } else {
                    0
                };
                assert((op << 1) | end == (op * 2) % 256 + end) by (bit_vector)
                    requires
                        end <= 1,
                ;
                (op << 1) | end
            },
            Direction::Right => {
                let end: u8 = if end_bit {
                    0x80
                } else {
                    0
                };
                assert((op >> 1) | end == op / 2 + end) by (bit_vector)
                    requires
                        end == 0 || end == 0x80,
                ;
                (op >> 1) | end
            },
        }
    }

    /// Shifts `op` by one bit.  A left shift and a logical right shift fill
    /// with zero; an arithmetic right shift keeps bit 7.  The new Carry is the
    /// bit that went out.
    pub fn shift(reg: &mut Registers, dir: Direction, op: u8, arithmetic: bool) -> (res: u8)
        ensures
            res == Self::shift_result(dir, op, arithmetic),
            *final(reg) == old(reg).with_flags(Self::shift_flags(dir, op, res), FLAGS_ALL),
    {
        let new_cy: bool = match dir {
            Direction::Left => op >= 0x80,
            Direction::Right => op % 2 == 1,
        };
        let end_bit: bool = match dir {
            Direction::Left => false,
            Direction::Right => arithmetic && op >= 0x80,
        };
        let res: u8 = Self::shift_in(dir, op, end_bit);

        let flag_mask: u8 = FLAGS_ALL;
        reg.set_flag(Flags::Z, res == 0, flag_mask);
        reg.set_flag(Flags::N, false, flag_mask);
        reg.set_flag(Flags::H, false, flag_mask);
        reg.set_flag(Flags::CY, new_cy, flag_mask);

        res
    }

    /// Exchanges the two nibbles of `op`.
    pub fn swap(reg: &mut Registers, op: u8) -> (res: u8)
        ensures
            res == Self::swap_result(op),
            *final(reg) == old(reg).with_flags(Self::logic_flags(res, false), FLAGS_ALL),
    {
        assert((op << 4) | (op >> 4) == (op % 16) * 16 + op / 16) by (bit_vector);
        let res: u8 = (op << 4) | (op >> 4);

        let flag_mask: u8 = FLAGS_ALL;
        reg.set_flag(Flags::Z, res == 0, flag_mask);
        reg.set_flag(Flags::N, false, flag_mask);
        reg.set_flag(Flags::H, false, flag_mask);
        reg.set_flag(Flags::CY, false, flag_mask);

        res
    }

    /// Tests bit `n` of `op`: Zero is set iff the bit is clear.  Carry is kept.
    pub fn bit(reg: &mut Registers, n: u8, op: u8)
        requires
            n < 8,
        ensures
            *final(reg) == old(reg).with_flags(
                (FlagSet { z: !Self::bit_is_set(n, op), n: false, h: true, cy: false }),
                FLAGS_ZNH,
            ),
    {
        let zero: bool = op & (1u8 << n) == 0;

        let flag_mask: u8 = FLAGS_ZNH;
        reg.set_flag(Flags::Z, zero, flag_mask);
        reg.set_flag(Flags::N, false, flag_mask);
        reg.set_flag(Flags::H, true, flag_mask);
        reg.set_flag(Flags::CY, false, flag_mask);
    }

    /// `base` moved by the signed offset `e`.  No flag changes.
    pub fn offset(base: u16, e: u8) -> (res: u16)
        ensures
            res == Self::offset_result(base, e),
    {
        let moved: u32 = if e < 128 {
            base as u32 + e as u32
        } else {
            base as u32 + 0x10000 - (256 - e as u32)
        };
        (moved % 0x10000) as u16
    }

    /// Adds the signed offset `e` to `base` and commits the flags of the
    /// addition: Zero and Subtract are cleared.
    pub fn add_offset(reg: &mut Registers, base: u16, e: u8) -> (res: u16)
        ensures
            res == Self::offset_result(base, e),
            *final(reg) == old(reg).with_flags(Self::offset_flags(base, e), FLAGS_ALL),
    {
        let hc: bool = base % 16 + (e % 16) as u16 > 0xF;
        let cy: bool = base % 256 + e as u16 > 0xFF;

        let flag_mask: u8 = FLAGS_ALL;
        reg.set_flag(Flags::Z, false, flag_mask);
        reg.set_flag(Flags::N, false, flag_mask);
        reg.set_flag(Flags::H, hc, flag_mask);
        reg.set_flag(Flags::CY, cy, flag_mask);

        Self::offset(base, e)
    }

    /// Inverts every bit of the accumulator.
    pub fn cpl(reg: &mut Registers)
        ensures
            *final(reg) == Self::cpl_spec(*old(reg)),
    {
        reg.a = 255 - reg.a;

        let flag_mask: u8 = FLAGS_NH;
        reg.set_flag(Flags::Z, false, flag_mask);
        reg.set_flag(Flags::N, true, flag_mask);
        reg.set_flag(Flags::H, true, flag_mask);
        reg.set_flag(Flags::CY, false, flag_mask);
    }

    /// Gives the Carry flag the value `carry` and clears Subtract and
    /// Half-Carry.
    pub fn set_carry(reg: &mut Registers, carry: bool)
        ensures
            *final(reg) == Self::carry_spec(*old(reg), carry),
    {
        let flag_mask: u8 = FLAGS_NHC;
        reg.set_flag(Flags::Z, false, flag_mask);
        reg.set_flag(Flags::N, false, flag_mask);
        reg.set_flag(Flags::H, false, flag_mask);
        reg.set_flag(Flags::CY, carry, flag_mask);
    }
}

/// Which flags each of the flag masks selects.
pub proof fn lemma_flag_masks()
    by (bit_vector)
    ensures
        FLAGS_ALL & 0x80 != 0 && FLAGS_ALL & 0x40 != 0 && FLAGS_ALL & 0x20 != 0 && FLAGS_ALL & 0x10
            != 0,
        FLAGS_ZNH & 0x80 != 0 && FLAGS_ZNH & 0x40 != 0 && FLAGS_ZNH & 0x20 != 0 && FLAGS_ZNH & 0x10
            == 0,
        FLAGS_NHC & 0x80 == 0 && FLAGS_NHC & 0x40 != 0 && FLAGS_NHC & 0x20 != 0 && FLAGS_NHC & 0x10
            != 0,
        FLAGS_ZHC & 0x80 != 0 && FLAGS_ZHC & 0x40 == 0 && FLAGS_ZHC & 0x20 != 0 && FLAGS_ZHC & 0x10
            != 0,
        FLAGS_NH & 0x80 == 0 && FLAGS_NH & 0x40 != 0 && FLAGS_NH & 0x20 != 0 && FLAGS_NH & 0x10
            == 0,
{
}

/// Committing flags under the mask of all flags gives each flag its new
/// value, whatever it was before.
pub proof fn lemma_commit_all(reg: Registers, flags: FlagSet)
    ensures
        reg.with_flags(flags, FLAGS_ALL).flag(Flags::Z) == flags.z,
        reg.with_flags(flags, FLAGS_ALL).flag(Flags::N) == flags.n,
        reg.with_flags(flags, FLAGS_ALL).flag(Flags::H) == flags.h,
        reg.with_flags(flags, FLAGS_ALL).flag(Flags::CY) == flags.cy,
        reg.with_flags(flags, FLAGS_ALL).wf() == reg.wf(),
        reg.with_flags(flags, FLAGS_ALL) == (Registers {
            f: reg.with_flags(flags, FLAGS_ALL).f,
            ..reg
        }),
{
    lemma_flag_masks();
    reg.lemma_with_flags(flags, FLAGS_ALL, Flags::Z);
    reg.lemma_with_flags(flags, FLAGS_ALL, Flags::N);
    reg.lemma_with_flags(flags, FLAGS_ALL, Flags::H);
    reg.lemma_with_flags(flags, FLAGS_ALL, Flags::CY);
}

/// An 8-bit addition without incoming carry that commits all flags sets
/// Zero iff the sum is 0 modulo 256, Carry iff the sum is 256 or more and
/// Half-Carry iff the low nibbles add up to 16 or more; it clears Subtract.
pub proof fn lemma_add_u8_flags(reg: Registers, a: u8, b: u8)
    ensures
        ({
            let after = reg.with_flags(Alu::add8_flags(a, b, false), FLAGS_ALL);
            &&& after.flag(Flags::Z) <==> (a + b) % 256 == 0
            &&& after.flag(Flags::CY) <==> a + b >= 256
            &&& after.flag(Flags::H) <==> (a & 0xF) + (b & 0xF) >= 0x10
            &&& !after.flag(Flags::N)
        }),
{
    lemma_commit_all(reg, Alu::add8_flags(a, b, false));
    assert(a & 0xF == a % 16 && b & 0xF == b % 16) by (bit_vector);
}

/// An 8-bit subtraction without incoming borrow that commits all flags
/// always sets Subtract, and sets Zero iff the operands are equal, Carry iff
/// the first is less than the second and Half-Carry iff the low nibble of
/// the first is less than that of the second.
pub proof fn lemma_sub_flags(reg: Registers, a: u8, b: u8)
    ensures
        ({
            let after = reg.with_flags(Alu::sub8_flags(a, b, false), FLAGS_ALL);
            &&& after.flag(Flags::N)
            &&& after.flag(Flags::Z) <==> a == b
            &&& after.flag(Flags::CY) <==> a < b
            &&& after.flag(Flags::H) <==> (a & 0xF) < (b & 0xF)
        }),
{
    lemma_commit_all(reg, Alu::sub8_flags(a, b, false));
    assert(a & 0xF == a % 16 && b & 0xF == b % 16) by (bit_vector);
}

/// A comparison changes the flags and nothing else: the accumulator and
/// every other register keep their values.
pub proof fn lemma_cmp_keeps_registers(reg: Registers, b: u8)
    ensures
        ({
            let after = reg.with_flags(Alu::sub8_flags(reg.a, b, false), FLAGS_ALL);
            &&& after.a == reg.a
            &&& after == (Registers { f: after.f, ..reg })
            &&& after.flag(Flags::Z) <==> reg.a == b
            &&& after.flag(Flags::CY) <==> reg.a < b
        }),
{
    lemma_sub_flags(reg, reg.a, b);
    lemma_commit_all(reg, Alu::sub8_flags(reg.a, b, false));
}

/// Whether both nibbles of `x` are decimal digits.
pub open spec fn is_bcd(x: u8) -> bool {
    x % 16 <= 9 && x / 16 <= 9
}

/// The number from 0 to 99 that a packed BCD byte stands for.
pub open spec fn bcd_value(x: u8) -> int {
    (x / 16) * 10 + x % 16
}

/// The register file after `x + y + carry` has been added into the
/// accumulator with all flags committed.
pub open spec fn after_add(reg: Registers, x: u8, y: u8, carry: bool) -> Registers {
    (Registers { a: Alu::add8_result(x, y, carry), ..reg }).with_flags(
        Alu::add8_flags(x, y, carry),
        FLAGS_ALL,
    )
}

/// The register file after `x - y - borrow` has been put into the
/// accumulator with all flags committed.
pub open spec fn after_sub(reg: Registers, x: u8, y: u8, borrow: bool) -> Registers {
    (Registers { a: Alu::sub8_result(x, y, borrow), ..reg }).with_flags(
        Alu::sub8_flags(x, y, borrow),
        FLAGS_ALL,
    )
}

/// A number below 256 written as sixteen times `q` plus `r` has the high
/// nibble `q` and the low nibble `r`.
proof fn lemma_nibbles(v: int, q: int, r: int)
    requires
        v == 16 * q + r,
        0 <= r < 16,
    ensures
        v / 16 == q,
        v % 16 == r,
{
}

/// A number that differs from `w` by a multiple of 256 is `w` modulo 256.
proof fn lemma_wrap(v: int, w: int, k: int)
    requires
        v == w + 256 * k,
        0 <= w < 256,
    ensures
        v % 256 == w,
{
}

/// A number that differs from `w` by a multiple of 100 is `w` modulo 100.
proof fn lemma_wrap100(v: int, w: int, k: int)
    requires
        v == w + 100 * k,
        0 <= w < 100,
    ensures
        v % 100 == w,
{
}

/// The arithmetic of the decimal adjustment after an addition of two packed
/// BCD bytes: `res` is the binary sum, `off` the correction and `out` the
/// adjusted byte.
proof fn lemma_daa_add_digits(x: int, y: int, c: int, res: int, off: int, out: int)
    requires
        0 <= c <= 1,
        0 <= x < 256 && x % 16 <= 9 && x / 16 <= 9,
        0 <= y < 256 && y % 16 <= 9 && y / 16 <= 9,
        res == (x + y + c) % 256,
        off == 0 || off == 0x06 || off == 0x60 || off == 0x66,
        (off == 0x06 || off == 0x66) <==> (x % 16 + y % 16 + c >= 16 || res % 16 > 9),
        (off == 0x60 || off == 0x66) <==> (x + y + c >= 256 || res > 0x99),
        out == (res + off) % 256,
    ensures
        out % 16 <= 9,
        out / 16 <= 9,
        (out / 16) * 10 + out % 16 == ((x / 16) * 10 + x % 16 + (y / 16) * 10 + y % 16 + c) % 100,
        (off == 0x60 || off == 0x66) <==> (x / 16) * 10 + x % 16 + (y / 16) * 10 + y % 16 + c
            >= 100,
{
    let l = x % 16 + y % 16 + c;
    let t = x / 16 + y / 16;
    let s = x + y + c;
    // the binary sum and its low nibble
    let wrapped: int = if s >= 256 { 1 } else { 0 };
    lemma_wrap(s, s - 256 * wrapped, wrapped);
    let over: int = if l >= 16 { 1 } else { 0 };
    lemma_nibbles(res, t + over - 16 * wrapped, l - 16 * over);
    // the decimal digits
    let k: int = if l >= 10 { 1 } else { 0 };
    let high: int = if t + k >= 10 { 1 } else { 0 };
    let dl = l - 10 * k;
    let dh = t + k - 10 * high;
    lemma_wrap(res + off, 16 * dh + dl, high - wrapped);
    lemma_nibbles(out, dh, dl);
    lemma_wrap100(10 * t + l, 10 * dh + dl, high);
}

/// The arithmetic of the decimal adjustment after a subtraction of two
/// packed BCD bytes: `res` is the binary difference, `off` the correction and
/// `out` the adjusted byte.
proof fn lemma_daa_sub_digits(x: int, y: int, c: int, res: int, off: int, out: int)
    requires
        0 <= c <= 1,
        0 <= x < 256 && x % 16 <= 9 && x / 16 <= 9,
        0 <= y < 256 && y % 16 <= 9 && y / 16 <= 9,
        res == (x - y - c) % 256,
        off == 0 || off == 0x06 || off == 0x60 || off == 0x66,
        (off == 0x06 || off == 0x66) <==> x % 16 < y % 16 + c,
        (off == 0x60 || off == 0x66) <==> x < y + c,
        out == (res - off) % 256,
    ensures
        out % 16 <= 9,
        out / 16 <= 9,
        (out / 16) * 10 + out % 16 == ((x / 16) * 10 + x % 16 - (y / 16) * 10 - y % 16 - c) % 100,
        (off == 0x60 || off == 0x66) <==> (x / 16) * 10 + x % 16 < (y / 16) * 10 + y % 16 + c,
{
    let l = x % 16 - y % 16 - c;
    let t = x / 16 - y / 16;
    let s = x - y - c;
    let k: int = if l < 0 { 1 } else { 0 };
    let high: int = if t - k < 0 { 1 } else { 0 };
    lemma_wrap(s, s + 256 * high, -high);
    let dl = l + 10 * k;
    let dh = t - k + 10 * high;
    lemma_wrap(res - off, 16 * dh + dl, 0);
    lemma_nibbles(out, dh, dl);
    lemma_wrap100(10 * t + l, 10 * dh + dl, -high);
}

/// The accumulator and the flags after an addition with all flags committed.
pub proof fn lemma_after_add(reg: Registers, x: u8, y: u8, carry: bool)
    ensures
        after_add(reg, x, y, carry).a == Alu::add8_result(x, y, carry),
        after_add(reg, x, y, carry).flag(Flags::Z) == Alu::add8_flags(x, y, carry).z,
        !after_add(reg, x, y, carry).flag(Flags::N),
        after_add(reg, x, y, carry).flag(Flags::H) == Alu::add8_flags(x, y, carry).h,
        after_add(reg, x, y, carry).flag(Flags::CY) == Alu::add8_flags(x, y, carry).cy,
{
    lemma_commit_all(
        (Registers { a: Alu::add8_result(x, y, carry), ..reg }),
        Alu::add8_flags(x, y, carry),
    );
}

/// The accumulator and the flags after a subtraction with all flags
/// committed.
pub proof fn lemma_after_sub(reg: Registers, x: u8, y: u8, borrow: bool)
    ensures
        after_sub(reg, x, y, borrow).a == Alu::sub8_result(x, y, borrow),
        after_sub(reg, x, y, borrow).flag(Flags::Z) == Alu::sub8_flags(x, y, borrow).z,
        after_sub(reg, x, y, borrow).flag(Flags::N),
        after_sub(reg, x, y, borrow).flag(Flags::H) == Alu::sub8_flags(x, y, borrow).h,
        after_sub(reg, x, y, borrow).flag(Flags::CY) == Alu::sub8_flags(x, y, borrow).cy,
{
    lemma_commit_all(
        (Registers { a: Alu::sub8_result(x, y, borrow), ..reg }),
        Alu::sub8_flags(x, y, borrow),
    );
}

/// The decimal adjustment puts the adjusted byte into the accumulator, sets
/// Zero iff that byte is 0 and Carry iff the high digit was corrected, clears
/// Half-Carry, and keeps Subtract and every other register.
pub proof fn lemma_daa(reg: Registers)
    ensures
        Alu::daa_spec(reg).a == Alu::daa_result(reg),
        Alu::daa_spec(reg).flag(Flags::Z) == (Alu::daa_result(reg) == 0),
        Alu::daa_spec(reg).flag(Flags::N) == reg.flag(Flags::N),
        !Alu::daa_spec(reg).flag(Flags::H),
        Alu::daa_spec(reg).flag(Flags::CY) == Alu::daa_high(reg),
        Alu::daa_spec(reg).wf() == reg.wf(),
        Alu::daa_spec(reg) == (Registers {
            a: Alu::daa_spec(reg).a,
            f: Alu::daa_spec(reg).f,
            ..reg
        }),
{
    let res = Alu::daa_result(reg);
    let mid = (Registers { a: res, ..reg });
    let fs = (FlagSet { z: res == 0, n: false, h: false, cy: Alu::daa_high(reg) });
    lemma_flag_masks();
    mid.lemma_with_flags(fs, FLAGS_ZHC, Flags::Z);
    mid.lemma_with_flags(fs, FLAGS_ZHC, Flags::N);
    mid.lemma_with_flags(fs, FLAGS_ZHC, Flags::H);
    mid.lemma_with_flags(fs, FLAGS_ZHC, Flags::CY);
}

/// Adding two packed BCD bytes and then adjusting gives the packed BCD
/// form of the decimal sum modulo 100, and Carry iff the sum reached 100.
pub proof fn lemma_daa_after_add(reg: Registers, x: u8, y: u8, carry: bool)
    requires
        is_bcd(x),
        is_bcd(y),
    ensures
        ({
            let adjusted = Alu::daa_spec(after_add(reg, x, y, carry));
            let sum = bcd_value(x) + bcd_value(y) + carry_value(carry);
            &&& is_bcd(adjusted.a)
            &&& bcd_value(adjusted.a) == sum % 100
            &&& adjusted.flag(Flags::CY) <==> sum >= 100
            &&& adjusted.flag(Flags::Z) <==> sum % 100 == 0
            &&& !adjusted.flag(Flags::N)
            &&& !adjusted.flag(Flags::H)
        }),
{
    let added = after_add(reg, x, y, carry);
    lemma_after_add(reg, x, y, carry);
    lemma_daa(added);
    lemma_daa_add_digits(
        x as int,
        y as int,
        carry_value(carry),
        added.a as int,
        Alu::daa_offset(added),
        Alu::daa_result(added) as int,
    );
}

/// Subtracting one packed BCD byte from another and then adjusting gives
/// the packed BCD form of the decimal difference modulo 100, and Carry iff
/// the subtraction borrowed.
pub proof fn lemma_daa_after_sub(reg: Registers, x: u8, y: u8, borrow: bool)
    requires
        is_bcd(x),
        is_bcd(y),
    ensures
        ({
            let adjusted = Alu::daa_spec(after_sub(reg, x, y, borrow));
            let diff = bcd_value(x) - bcd_value(y) - carry_value(borrow);
            &&& is_bcd(adjusted.a)
            &&& bcd_value(adjusted.a) == diff % 100
            &&& adjusted.flag(Flags::CY) <==> diff < 0
            &&& adjusted.flag(Flags::N)
        }),
{
    let subbed = after_sub(reg, x, y, borrow);
    lemma_after_sub(reg, x, y, borrow);
    lemma_daa(subbed);
    lemma_daa_sub_digits(
        x as int,
        y as int,
        carry_value(borrow),
        subbed.a as int,
        Alu::daa_offset(subbed),
        Alu::daa_result(subbed) as int,
    );
}

} // verus!
