//! The condition flags of the processor and the rules by which an
//! arithmetic or logical result sets them.
//!
//! Every rule is stated over the mathematical value of a widened result, so
//! that the instruction semantics can speak of flags without bit tricks. The
//! executable setters keep the customary mask-and-compare form and are proved
//! against those statements.
use vstd::prelude::*;

verus! {

/// The five condition flags, and one unused byte that no setter touches.
#[derive(Debug, Clone, Copy, PartialEq, Eq, Structural)]
pub struct ConditionCodes {
    /// Zero: the low byte of the result is zero.
    pub z: bool,
    /// Sign: bit 7 of the result is set.
    pub s: bool,
    /// Parity: the low byte of the result has an even number of set bits.
    pub p: bool,
    /// Carry: an addition left the byte range, or a subtraction borrowed.
    pub cy: bool,
    /// Auxiliary carry, in the simplified form this machine uses.
    pub ac: bool,
    /// Padding, kept for layout; never read or written by the flag rules.
    pub pad: u8,
}

/// Number of set bits in the binary expansion of `n`.
pub open spec fn bit_count(n: nat) -> nat
    decreases n,
{
    if n == 0 {
        0
    } else {
        (n % 2) + bit_count(n / 2)
    }
}

/// The low byte of a widened result.
pub open spec fn low_byte(v: int) -> int {
    v % 256
}

/// Zero flag: the low byte of `v` is zero.
pub open spec fn zero_of(v: int) -> bool {
    low_byte(v) == 0
}

/// Sign flag: bit 7 of `v` is set.
pub open spec fn sign_of(v: int) -> bool {
    (v / 128) % 2 == 1
}

/// Parity flag: the low byte of `v` has an even population count.
#[verifier::opaque]
pub open spec fn parity_of(v: int) -> bool {
    bit_count(low_byte(v) as nat) % 2 == 0
}

/// Carry after an addition widened to sixteen bits: the sum left the byte
/// range.
pub open spec fn carry_add_of(v: int) -> bool {
    v > 0xff
}

/// Carry after a subtraction. The widened value is the minuend plus the two's
/// complement of the subtrahend, `a + 0x100 - b`; a borrow shows as the
/// absence of a carry out of bit 7, so the flag is set when the value stays
/// within a byte.
pub open spec fn carry_sub_of(v: int) -> bool {
    v < 0x100
}

/// Auxiliary carry, simplified: the low byte of the result exceeds `0xF`.
/// This is not the carry out of bit 3 of real hardware and is kept as it is on
/// purpose.
pub open spec fn aux_carry_of(v: int) -> bool {
    low_byte(v) > 0xf
}

/// The widened form of `a - b` that the subtraction rules take.
pub open spec fn widened_difference(a: int, b: int) -> int {
    a + 0x100 - b
}

/// Flags after an ADD-like result: zero, sign, carry, parity and auxiliary
/// carry are recomputed.
#[verifier::opaque]
pub open spec fn add_flags(c: ConditionCodes, v: int) -> ConditionCodes {
    ConditionCodes {
        z: zero_of(v),
        s: sign_of(v),
        p: parity_of(v),
        cy: carry_add_of(v),
        ac: aux_carry_of(v),
        pad: c.pad,
    }
}

/// Flags after an increment- or decrement-like result: as `add_flags`, but
/// the carry flag is left alone.
#[verifier::opaque]
pub open spec fn step_flags(c: ConditionCodes, v: int) -> ConditionCodes {
    ConditionCodes {
        z: zero_of(v),
        s: sign_of(v),
        p: parity_of(v),
        cy: c.cy,
        ac: aux_carry_of(v),
        pad: c.pad,
    }
}

/// Flags after a SUB-like result in widened form (see `carry_sub_of`).
#[verifier::opaque]
pub open spec fn sub_flags(c: ConditionCodes, v: int) -> ConditionCodes {
    ConditionCodes {
        z: zero_of(v),
        s: sign_of(v),
        p: parity_of(v),
        cy: carry_sub_of(v),
        ac: aux_carry_of(v),
        pad: c.pad,
    }
}

/// The subtraction carry is exactly the borrow: for bytes `a` and `b`, the
/// flag computed from the widened difference is set if and only if `a < b`,
/// and the low byte of the widened difference is `a - b` modulo 256.
pub proof fn lemma_sub_carry_is_borrow(a: u8, b: u8)
    ensures
        carry_sub_of(widened_difference(a as int, b as int)) <==> a < b,
        low_byte(widened_difference(a as int, b as int)) == (a - b) % 256,
        0 < widened_difference(a as int, b as int) < 0x200,
{
}

impl Default for ConditionCodes {
    /// All flags clear.
    fn default() -> (c: ConditionCodes)
        ensures
            c == (ConditionCodes { z: false, s: false, p: false, cy: false, ac: false, pad: 0 }),
    {
        ConditionCodes { z: false, s: false, p: false, cy: false, ac: false, pad: 0 }
    }
}

impl ConditionCodes {
    /// Recomputes zero, sign, carry, parity and auxiliary carry from the
    /// widened sum `val`.
    pub fn set_add_flags(&mut self, val: u16)
        ensures
            *final(self) == add_flags(*old(self), val as int),
            final(self).z == zero_of(val as int),
            final(self).s == sign_of(val as int),
            final(self).p == parity_of(val as int),
            final(self).cy == carry_add_of(val as int),
            final(self).ac == aux_carry_of(val as int),
            final(self).pad == old(self).pad,
    {
        reveal(parity_of);
        reveal(add_flags);
        self.set_zero_flag(val);
        self.set_sign_flag(val);
        self.set_carry_flag_add(val);
        let lower: u8 = (val & 0xff) as u8;
        assert(val & 0xff == val % 256) by (bit_vector);
        self.set_parity_flag(lower);
        self.set_ac_flag(val);
    }

    /// Recomputes zero, sign, parity and auxiliary carry after an increment;
    /// the carry flag is not touched.
    pub fn set_inr_flags(&mut self, val: u16)
        ensures
            *final(self) == step_flags(*old(self), val as int),
            final(self).z == zero_of(val as int),
            final(self).s == sign_of(val as int),
            final(self).p == parity_of(val as int),
            final(self).cy == old(self).cy,
            final(self).ac == aux_carry_of(val as int),
            final(self).pad == old(self).pad,
    {
        reveal(parity_of);
        reveal(step_flags);
        self.set_zero_flag(val);
        self.set_sign_flag(val);
        let lower: u8 = (val & 0xff) as u8;
        assert(val & 0xff == val % 256) by (bit_vector);
        self.set_parity_flag(lower);
        self.set_ac_flag(val);
    }

    /// Recomputes zero, sign, parity and auxiliary carry after a decrement;
    /// the carry flag is not touched.
    pub fn set_dcr_flags(&mut self, val: u16)
        ensures
            *final(self) == step_flags(*old(self), val as int),
            final(self).z == zero_of(val as int),
            final(self).s == sign_of(val as int),
            final(self).p == parity_of(val as int),
            final(self).cy == old(self).cy,
            final(self).ac == aux_carry_of(val as int),
            final(self).pad == old(self).pad,
    {
        reveal(parity_of);
        reveal(step_flags);
        self.set_zero_flag(val);
        self.set_sign_flag(val);
        let lower: u8 = (val & 0xff) as u8;
        assert(val & 0xff == val % 256) by (bit_vector);
        self.set_parity_flag(lower);
        self.set_ac_flag(val);
    }

    /// Recomputes zero, sign, carry, parity and auxiliary carry from the
    /// widened difference `val` (see `carry_sub_of` for its form).
    pub fn set_sub_flags(&mut self, val: u16)
        ensures
            *final(self) == sub_flags(*old(self), val as int),
            final(self).z == zero_of(val as int),
            final(self).s == sign_of(val as int),
            final(self).p == parity_of(val as int),
            final(self).cy == carry_sub_of(val as int),
            final(self).ac == aux_carry_of(val as int),
            final(self).pad == old(self).pad,
    {
        reveal(parity_of);
        reveal(sub_flags);
        self.set_zero_flag(val);
        self.set_sign_flag(val);
        self.set_carry_flag_sub(val);
        let lower: u8 = (val & 0xff) as u8;
        assert(val & 0xff == val % 256) by (bit_vector);
        self.set_parity_flag(lower);
        self.set_ac_flag(val);
    }

    /// Sets the zero flag from the low byte of `val`.
    pub fn set_zero_flag(&mut self, val: u16)
        ensures
            *final(self) == (ConditionCodes { z: zero_of(val as int), ..*old(self) }),
    {
        assert(val & 0xff == val % 256) by (bit_vector);
        self.z = val & 0xff == 0;
    }

    /// Sets the sign flag from bit 7 of `val`.
    pub fn set_sign_flag(&mut self, val: u16)
        ensures
            *final(self) == (ConditionCodes { s: sign_of(val as int), ..*old(self) }),
    {
        assert((val & 0x80 == 0x80) == ((val / 128) % 2 == 1)) by (bit_vector);
        self.s = val & 0x80 == 0x80;
    }

    /// Sets the carry flag after an addition widened to sixteen bits.
    pub fn set_carry_flag_add(&mut self, val: u16)
        ensures
            *final(self) == (ConditionCodes { cy: carry_add_of(val as int), ..*old(self) }),
    {
        self.cy = val > 0xff;
    }

    /// Sets the carry flag after a subtraction in widened form.
    pub fn set_carry_flag_sub(&mut self, val: u16)
        ensures
            *final(self) == (ConditionCodes { cy: carry_sub_of(val as int), ..*old(self) }),
    {
        self.cy = val < 0x100;
    }

    /// Sets the parity flag: true exactly when `val` has an even number of
    /// set bits.
    pub fn set_parity_flag(&mut self, val: u8)
        ensures
            *final(self) == (ConditionCodes { p: parity_of(val as int), ..*old(self) }),
            final(self).p == (bit_count(val as nat) % 2 == 0),
    {
        reveal(parity_of);
        let mut rest: u8 = val;
        let mut odd: bool = false;
        while rest != 0
            invariant
                (bit_count(val as nat) % 2 == 1) == (odd != (bit_count(rest as nat) % 2 == 1)),
            decreases rest,
        {
            if rest % 2 == 1 {
                odd = !odd;
            }
            rest = rest / 2;
        }
        self.p = !odd;
    }

    /// Sets the auxiliary carry flag from the low byte of `val`.
    pub fn set_ac_flag(&mut self, val: u16)
        ensures
            *final(self) == (ConditionCodes { ac: aux_carry_of(val as int), ..*old(self) }),
    {
        assert(val & 0xff == val % 256) by (bit_vector);
        self.ac = (val & 0xff) > 0xf;
    }
}

} // verus!
