//! The status register: six flags and two bits without a meaning, with
//! their packed form.

use vstd::prelude::*;
use crate::bits::bit_of;

verus! {

/// The status register of the processor: six flags, and two bits that no
/// instruction gives a meaning to but that are carried along.
#[derive(Copy, Clone, Debug, PartialEq, Eq, Structural)]
pub struct CPUStatus {
    pub carry: bool,
    pub add_sub: bool,
    pub overflow: bool,
    pub half_carry: bool,
    pub zero: bool,
    pub sign: bool,
    pub bit_3: bool,
    pub bit_5: bool,
}

/// 1 for a flag that is set, 0 for one that is clear.
pub open spec fn unit(flag: bool) -> int {
    if flag {
        1
    } else {
        0
    }
}

impl From<u8> for CPUStatus {
    /// Unpacks a status byte.
    fn from(val: u8) -> (status: CPUStatus)
        ensures
            status == CPUStatus::unpacked(val),
    {
        proof {
            lemma_masks(val);
        }
        CPUStatus {
            carry: (val & 0x1) > 0,
            add_sub: (val & 0x2) > 0,
            overflow: (val & 0x4) > 0,
            bit_3: (val & 0x8) > 0,
            bit_5: (val & 0x20) > 0,
            zero: (val & 0x40) > 0,
            sign: (val & 0x80) > 0,
            half_carry: false,
        }
    }
}

impl vstd::std_specs::convert::FromSpecImpl<u8> for CPUStatus {
    open spec fn obeys_from_spec() -> bool {
        true
    }

    open spec fn from_spec(val: u8) -> CPUStatus {
        CPUStatus::unpacked(val)
    }
}

impl core::ops::BitOr<u8> for CPUStatus {
    type Output = CPUStatus;

    /// Sets the flags whose bits are set in `val`, in the packed form.
    fn bitor(self, val: u8) -> (status: CPUStatus)
        ensures
            status == CPUStatus::unpacked(self.to_u8() | val),
    {
        CPUStatus::from(self.to_u8() | val)
    }
}

impl vstd::std_specs::ops::BitOrSpecImpl<u8> for CPUStatus {
    open spec fn obeys_bitor_spec() -> bool {
        true
    }

    open spec fn bitor_req(self, rhs: u8) -> bool {
        true
    }

    open spec fn bitor_spec(self, rhs: u8) -> CPUStatus {
        CPUStatus::unpacked(self.spec_to_u8() | rhs)
    }
}

impl core::ops::BitAnd<u8> for CPUStatus {
    type Output = CPUStatus;

    /// Keeps the flags whose bits are set in `val`, in the packed form.
    fn bitand(self, val: u8) -> (status: CPUStatus)
        ensures
            status == CPUStatus::unpacked(self.to_u8() & val),
    {
        CPUStatus::from(self.to_u8() & val)
    }
}

impl vstd::std_specs::ops::BitAndSpecImpl<u8> for CPUStatus {
    open spec fn obeys_bitand_spec() -> bool {
        true
    }

    open spec fn bitand_req(self, rhs: u8) -> bool {
        true
    }

    open spec fn bitand_spec(self, rhs: u8) -> CPUStatus {
        CPUStatus::unpacked(self.spec_to_u8() & rhs)
    }
}

/// Mask tests on a byte, read as arithmetic.
proof fn lemma_masks(val: u8)
    by (bit_vector)
    ensures
        ((val & 0x1) > 0) == ((val / 1) % 2 == 1),
        ((val & 0x2) > 0) == ((val / 2) % 2 == 1),
        ((val & 0x4) > 0) == ((val / 4) % 2 == 1),
        ((val & 0x8) > 0) == ((val / 8) % 2 == 1),
        ((val & 0x10) > 0) == ((val / 16) % 2 == 1),
        ((val & 0x20) > 0) == ((val / 32) % 2 == 1),
        ((val & 0x40) > 0) == ((val / 64) % 2 == 1),
        ((val & 0x80) > 0) == ((val / 128) % 2 == 1),
{
}

/// Bits that are shifted into place and joined add up to their weights.
proof fn lemma_pack(c: u8, n: u8, v: u8, b3: u8, b5: u8, z: u8, s: u8)
    by (bit_vector)
    requires
        c <= 1,
        n <= 1,
        v <= 1,
        b3 <= 1,
        b5 <= 1,
        z <= 1,
        s <= 1,
    ensures
        c | (n << 1) | (v << 2) | (b3 << 3) | (n << 4) | (b5 << 5) | (z << 6) | (s << 7) == c + 2
            * n + 4 * v + 8 * b3 + 16 * n + 32 * b5 + 64 * z + 128 * s,
{
}

/// A flag as the bit 0 or 1.
fn as_bit(flag: bool) -> (b: u8)
    ensures
        b == unit(flag),
{
    if flag {
        1
    } else {
        0
    }
}

impl CPUStatus {
    /// The register with every flag clear.
    pub open spec fn cleared() -> CPUStatus {
        CPUStatus {
            carry: false,
            add_sub: false,
            overflow: false,
            half_carry: false,
            zero: false,
            sign: false,
            bit_3: false,
            bit_5: false,
        }
    }

    /// The register that a packed byte stands for. Bit 4 is not read: the
    /// half-carry flag is always clear in the result.
    pub open spec fn unpacked(val: u8) -> CPUStatus {
        CPUStatus {
            carry: bit_of(val, 0),
            add_sub: bit_of(val, 1),
            overflow: bit_of(val, 2),
            bit_3: bit_of(val, 3),
            bit_5: bit_of(val, 5),
            zero: bit_of(val, 6),
            sign: bit_of(val, 7),
            half_carry: false,
        }
    }

    /// The packed byte. The half-carry flag has no place in it; bit 4
    /// repeats the add/subtract flag.
    pub open spec fn spec_to_u8(&self) -> u8 {
        (unit(self.carry) + 2 * unit(self.add_sub) + 4 * unit(self.overflow) + 8 * unit(
            self.bit_3,
        ) + 16 * unit(self.add_sub) + 32 * unit(self.bit_5) + 64 * unit(self.zero) + 128 * unit(
            self.sign,
        )) as u8
    }

    /// A status register with every flag clear.
    pub fn new() -> (status: CPUStatus)
        ensures
            status == CPUStatus::cleared(),
    {
        CPUStatus {
            carry: false,
            add_sub: false,
            overflow: false,
            half_carry: false,
            zero: false,
            sign: false,
            bit_3: false,
            bit_5: false,
        }
    }

    /// The carry flag.
    pub fn carry(&self) -> (flag: bool)
        ensures
            flag == self.carry,
    {
        self.carry
    }

    /// The add/subtract flag.
    pub fn add_sub(&self) -> (flag: bool)
        ensures
            flag == self.add_sub,
    {
        self.add_sub
    }

    /// The overflow or parity flag.
    pub fn overflow(&self) -> (flag: bool)
        ensures
            flag == self.overflow,
    {
        self.overflow
    }

    /// The half-carry flag.
    pub fn half_carry(&self) -> (flag: bool)
        ensures
            flag == self.half_carry,
    {
        self.half_carry
    }

    /// The zero flag.
    pub fn zero(&self) -> (flag: bool)
        ensures
            flag == self.zero,
    {
        self.zero
    }

    /// The sign flag.
    pub fn sign(&self) -> (flag: bool)
        ensures
            flag == self.sign,
    {
        self.sign
    }

    /// Bit 3 of the packed byte, which has no meaning.
    pub fn bit_3(&self) -> (flag: bool)
        ensures
            flag == self.bit_3,
    {
        self.bit_3
    }

    /// Bit 5 of the packed byte, which has no meaning.
    pub fn bit_5(&self) -> (flag: bool)
        ensures
            flag == self.bit_5,
    {
        self.bit_5
    }

    /// Sets or clears the carry flag.
    pub fn set_carry(&mut self, val: bool)
        ensures
            *final(self) == (CPUStatus { carry: val, ..*old(self) }),
    {
        self.carry = val;
    }

    /// Sets or clears the add/subtract flag.
    pub fn set_add_sub(&mut self, val: bool)
        ensures
            *final(self) == (CPUStatus { add_sub: val, ..*old(self) }),
    {
        self.add_sub = val;
    }

    /// Sets or clears the overflow or parity flag.
    pub fn set_overflow(&mut self, val: bool)
        ensures
            *final(self) == (CPUStatus { overflow: val, ..*old(self) }),
    {
        self.overflow = val;
    }

    /// Sets or clears the half-carry flag.
    pub fn set_half_carry(&mut self, val: bool)
        ensures
            *final(self) == (CPUStatus { half_carry: val, ..*old(self) }),
    {
        self.half_carry = val;
    }

    /// Sets or clears the zero flag.
    pub fn set_zero(&mut self, val: bool)
        ensures
            *final(self) == (CPUStatus { zero: val, ..*old(self) }),
    {
        self.zero = val;
    }

    /// Sets or clears the sign flag.
    pub fn set_sign(&mut self, val: bool)
        ensures
            *final(self) == (CPUStatus { sign: val, ..*old(self) }),
    {
        self.sign = val;
    }

    /// Sets or clears bit 3 of the packed byte.
    pub fn set_bit_3(&mut self, val: bool)
        ensures
            *final(self) == (CPUStatus { bit_3: val, ..*old(self) }),
    {
        self.bit_3 = val;
    }

    /// Sets or clears bit 5 of the packed byte.
    pub fn set_bit_5(&mut self, val: bool)
        ensures
            *final(self) == (CPUStatus { bit_5: val, ..*old(self) }),
    {
        self.bit_5 = val;
    }

    /// Packs the register into a byte.
    #[verifier::when_used_as_spec(spec_to_u8)]
    pub fn to_u8(&self) -> (val: u8)
        ensures
            val == self.spec_to_u8(),
    {
        let c: u8 = as_bit(self.carry);
        let n: u8 = as_bit(self.add_sub);
        let v: u8 = as_bit(self.overflow);
        let b3: u8 = as_bit(self.bit_3);
        let b5: u8 = as_bit(self.bit_5);
        let z: u8 = as_bit(self.zero);
        let s: u8 = as_bit(self.sign);
        proof {
            lemma_pack(c, n, v, b3, b5, z, s);
        }
        let mut val: u8 = c;
        val |= n << 1;
        val |= v << 2;
        val |= b3 << 3;
        val |= n << 4;
        val |= b5 << 5;
        val |= z << 6;
        val |= s << 7;
        val
    }
}

/// The binary digits of `byte`, with digit 1 written again in place of
/// digit 4, make a byte that agrees with `byte` in every other digit.
proof fn lemma_repack(byte: u8)
    by (bit_vector)
    ensures
        ({
            let t = (byte % 2) + 2 * ((byte / 2) % 2) + 4 * ((byte / 4) % 2) + 8 * ((byte / 8) % 2)
                + 16 * ((byte / 2) % 2) + 32 * ((byte / 32) % 2) + 64 * ((byte / 64) % 2) + 128 * (
            (byte / 128) % 2);
            &&& t <= 255
            &&& t % 2 == byte % 2
            &&& (t / 2) % 2 == (byte / 2) % 2
            &&& (t / 4) % 2 == (byte / 4) % 2
            &&& (t / 8) % 2 == (byte / 8) % 2
            &&& (t / 16) % 2 == (byte / 2) % 2
            &&& (t / 32) % 2 == (byte / 32) % 2
            &&& (t / 64) % 2 == (byte / 64) % 2
            &&& (t / 128) % 2 == (byte / 128) % 2
        }),
{
}

/// Unpacking a byte and packing it again keeps bits 0 to 3 and 5 to 7.
/// Bit 4 is lost: the half-carry flag is clear after unpacking, and the
/// packed bit 4 repeats bit 1.
pub proof fn lemma_pack_unpack(byte: u8)
    ensures
        !CPUStatus::unpacked(byte).half_carry,
        forall|k: int|
            0 <= k < 8 && k != 4 ==> #[trigger] bit_of(CPUStatus::unpacked(byte).to_u8(), k)
                == bit_of(byte, k),
        bit_of(CPUStatus::unpacked(byte).to_u8(), 4) == bit_of(byte, 1),
{
    let f = CPUStatus::unpacked(byte);
    let t = (byte % 2) + 2 * ((byte / 2) % 2) + 4 * ((byte / 4) % 2) + 8 * ((byte / 8) % 2) + 16 * (
    (byte / 2) % 2) + 32 * ((byte / 32) % 2) + 64 * ((byte / 64) % 2) + 128 * ((byte / 128) % 2);
    lemma_repack(byte);
    assert(unit(f.carry) == byte % 2);
    assert(unit(f.add_sub) == (byte / 2) % 2);
    assert(unit(f.overflow) == (byte / 4) % 2);
    assert(unit(f.bit_3) == (byte / 8) % 2);
    assert(unit(f.bit_5) == (byte / 32) % 2);
    assert(unit(f.zero) == (byte / 64) % 2);
    assert(unit(f.sign) == (byte / 128) % 2);
    let packed = f.to_u8();
    assert(packed == t);
    assert(bit_of(packed, 0) == bit_of(byte, 0));
    assert(bit_of(packed, 1) == bit_of(byte, 1));
    assert(bit_of(packed, 2) == bit_of(byte, 2));
    assert(bit_of(packed, 3) == bit_of(byte, 3));
    assert(bit_of(packed, 5) == bit_of(byte, 5));
    assert(bit_of(packed, 6) == bit_of(byte, 6));
    assert(bit_of(packed, 7) == bit_of(byte, 7));
}

} // verus!
