//! Fixed-width 256-bit integers, unsigned and signed, as the chain holds them.

use vstd::bytes::{
    lemma_auto_spec_u64_to_from_le_bytes, spec_u64_from_le_bytes, spec_u64_to_le_bytes,
    u64_from_le_bytes, u64_to_le_bytes,
};
use vstd::prelude::*;
use vstd::slice::slice_subrange;

verus! {

/// Two to the power 64: the weight of one limb.
pub open spec fn limb_base() -> nat {
    0x1_0000_0000_0000_0000
}

/// Two to the power 256: one more than the largest `U256`.
pub open spec fn two_pow_256() -> nat {
    0x1_0000_0000_0000_0000_0000_0000_0000_0000_0000_0000_0000_0000_0000_0000_0000_0000nat
}

/// Two to the power 255: one more than the largest `I256`.
pub open spec fn two_pow_255() -> nat {
    0x8000_0000_0000_0000_0000_0000_0000_0000_0000_0000_0000_0000_0000_0000_0000_0000nat
}

/// The number that four 64-bit limbs stand for, least significant first.
pub open spec fn limbs_value(limbs: Seq<u64>) -> nat {
    (limbs[0] + limb_base() * (limbs[1] + limb_base() * (limbs[2] + limb_base() * limbs[3]))) as nat
}

/// An unsigned 256-bit integer in four 64-bit limbs, least significant first.
#[derive(Clone, Copy, Debug, PartialEq, Eq)]
pub struct U256 {
    pub w0: u64,
    pub w1: u64,
    pub w2: u64,
    pub w3: u64,
}

impl View for U256 {
    type V = nat;

    /// The number that the four limbs stand for.
    open spec fn view(&self) -> nat {
        (self.w0 + limb_base() * (self.w1 + limb_base() * (self.w2 + limb_base() * self.w3))) as nat
    }
}

/// Every `U256` lies below two to the power 256.
pub proof fn lemma_u256_bounded(x: U256)
    ensures
        x@ < two_pow_256(),
{
}

/// Two `U256` that stand for the same number have the same limbs.
pub proof fn lemma_u256_injective(x: U256, y: U256)
    requires
        x@ == y@,
    ensures
        x == y,
{
    let b = limb_base() as int;
    let xt2 = x.w2 + b * x.w3;
    let yt2 = y.w2 + b * y.w3;
    let xt1 = x.w1 + b * xt2;
    let yt1 = y.w1 + b * yt2;
    assert(x.w0 + b * xt1 == y.w0 + b * yt1);
    lemma_split_unique(x.w0 as int, xt1, y.w0 as int, yt1);
    lemma_split_unique(x.w1 as int, xt2, y.w1 as int, yt2);
    lemma_split_unique(x.w2 as int, x.w3 as int, y.w2 as int, y.w3 as int);
}

/// The top limb tells whether a `U256` is below two to the power 255, and
/// the limbs together whether it is just that.
pub proof fn lemma_top_limb(x: U256)
    ensures
        x.w3 < 0x8000_0000_0000_0000 <==> x@ < two_pow_255(),
        (x.w3 == 0x8000_0000_0000_0000 && x.w2 == 0 && x.w1 == 0 && x.w0 == 0) <==> x@
            == two_pow_255(),
{
}

/// A low limb and the rest above it are determined by their sum.
proof fn lemma_split_unique(lo1: int, hi1: int, lo2: int, hi2: int)
    requires
        0 <= lo1 < limb_base(),
        0 <= lo2 < limb_base(),
        lo1 + limb_base() * hi1 == lo2 + limb_base() * hi2,
    ensures
        lo1 == lo2,
        hi1 == hi2,
{
    let b = limb_base() as int;
    assert(hi1 == hi2) by (nonlinear_arith)
        requires
            0 <= lo1 < b,
            0 <= lo2 < b,
            lo1 + b * hi1 == lo2 + b * hi2,
            b > 0,
    ;
}

impl U256 {
    /// Zero.
    pub fn zero() -> (r: U256)
        ensures
            r@ == 0,
    {
        U256 { w0: 0, w1: 0, w2: 0, w3: 0 }
    }

    /// The integer that four limbs stand for, least significant first.
    pub fn from_limbs(limbs: [u64; 4]) -> (r: U256)
        ensures
            r@ == limbs_value(limbs@),
    {
        U256 { w0: limbs[0], w1: limbs[1], w2: limbs[2], w3: limbs[3] }
    }

    /// The 256-bit integer with the value of `v`.
    pub fn from_u128(v: u128) -> (r: U256)
        ensures
            r@ == v,
    {
        let lo: u64 = (v % 0x1_0000_0000_0000_0000) as u64;
        let hi: u64 = (v / 0x1_0000_0000_0000_0000) as u64;
        U256 { w0: lo, w1: hi, w2: 0, w3: 0 }
    }

    /// Whether `self` and `other` are the same number.
    pub fn equals(&self, other: &U256) -> (r: bool)
        ensures
            r == (self@ == other@),
    {
        let same: bool = self.w0 == other.w0 && self.w1 == other.w1 && self.w2 == other.w2
            && self.w3 == other.w3;
        proof {
            if self@ == other@ {
                lemma_u256_injective(*self, *other);
            }
        }
        same
    }

    /// Whether `self` is smaller than `other`.
    pub fn less_than(&self, other: &U256) -> (r: bool)
        ensures
            r == (self@ < other@),
    {
        if self.w3 != other.w3 {
            self.w3 < other.w3
        } else if self.w2 != other.w2 {
            self.w2 < other.w2
        } else if self.w1 != other.w1 {
            self.w1 < other.w1
        } else {
            self.w0 < other.w0
        }
    }

    /// The sum of `self` and `other`, where it fits in 256 bits.
    pub fn checked_add(&self, other: &U256) -> (r: Option<U256>)
        ensures
            match r {
                Some(sum) => sum@ == self@ + other@,
                None => self@ + other@ >= two_pow_256(),
            },
    {
        let t0: u128 = self.w0 as u128 + other.w0 as u128;
        let t1: u128 = self.w1 as u128 + other.w1 as u128 + t0 / 0x1_0000_0000_0000_0000;
        let t2: u128 = self.w2 as u128 + other.w2 as u128 + t1 / 0x1_0000_0000_0000_0000;
        let t3: u128 = self.w3 as u128 + other.w3 as u128 + t2 / 0x1_0000_0000_0000_0000;
        if t3 / 0x1_0000_0000_0000_0000 != 0 {
            None
        } else {
            Some(
                U256 {
                    w0: (t0 % 0x1_0000_0000_0000_0000) as u64,
                    w1: (t1 % 0x1_0000_0000_0000_0000) as u64,
                    w2: (t2 % 0x1_0000_0000_0000_0000) as u64,
                    w3: (t3 % 0x1_0000_0000_0000_0000) as u64,
                },
            )
        }
    }

    /// `self` less `other`, which may not be the larger.
    pub fn sub(&self, other: &U256) -> (r: U256)
        requires
            other@ <= self@,
        ensures
            r@ == self@ - other@,
    {
        let t0: u128 = 0x1_0000_0000_0000_0000 + self.w0 as u128 - other.w0 as u128;
        let b0: u128 = 1 - t0 / 0x1_0000_0000_0000_0000;
        let t1: u128 = 0x1_0000_0000_0000_0000 + self.w1 as u128 - other.w1 as u128 - b0;
        let b1: u128 = 1 - t1 / 0x1_0000_0000_0000_0000;
        let t2: u128 = 0x1_0000_0000_0000_0000 + self.w2 as u128 - other.w2 as u128 - b1;
        let b2: u128 = 1 - t2 / 0x1_0000_0000_0000_0000;
        assert(self.w3 >= other.w3 + b2);
        let t3: u128 = self.w3 as u128 - other.w3 as u128 - b2;
        U256 {
            w0: (t0 % 0x1_0000_0000_0000_0000) as u64,
            w1: (t1 % 0x1_0000_0000_0000_0000) as u64,
            w2: (t2 % 0x1_0000_0000_0000_0000) as u64,
            w3: t3 as u64,
        }
    }

    /// The distance between `self` and `other`.
    pub fn abs_diff(&self, other: &U256) -> (r: U256)
        ensures
            r@ == if self@ < other@ {
                other@ - self@
            } else {
                self@ - other@
            },
    {
        if self.less_than(other) {
            other.sub(self)
        } else {
            self.sub(other)
        }
    }

    /// `self` times `factor`: the low 256 bits of the product, and what
    /// lies above them.
    pub fn mul_small(&self, factor: u32) -> (r: (u64, U256))
        ensures
            r.0 * two_pow_256() + r.1@ == self@ * factor,
            r.0 < 0x1_0000_0000,
    {
        let k: u128 = factor as u128;
        assert(self.w0 * k <= 0xffff_ffff_ffff_ffff * 0xffff_ffff && self.w1 * k
            <= 0xffff_ffff_ffff_ffff * 0xffff_ffff && self.w2 * k <= 0xffff_ffff_ffff_ffff
            * 0xffff_ffff && self.w3 * k <= 0xffff_ffff_ffff_ffff * 0xffff_ffff)
            by (nonlinear_arith)
            requires
                k <= 0xffff_ffff,
        ;
        let t0: u128 = self.w0 as u128 * k;
        let t1: u128 = self.w1 as u128 * k + t0 / 0x1_0000_0000_0000_0000;
        let t2: u128 = self.w2 as u128 * k + t1 / 0x1_0000_0000_0000_0000;
        let t3: u128 = self.w3 as u128 * k + t2 / 0x1_0000_0000_0000_0000;
        let low: U256 = U256 {
            w0: (t0 % 0x1_0000_0000_0000_0000) as u64,
            w1: (t1 % 0x1_0000_0000_0000_0000) as u64,
            w2: (t2 % 0x1_0000_0000_0000_0000) as u64,
            w3: (t3 % 0x1_0000_0000_0000_0000) as u64,
        };
        let high: u64 = (t3 / 0x1_0000_0000_0000_0000) as u64;
        proof {
            let b = limb_base() as int;
            let m0 = self.w0 * k;
            let m1 = self.w1 * k;
            let m2 = self.w2 * k;
            let m3 = self.w3 * k;
            assert((self.w0 + b * (self.w1 + b * (self.w2 + b * self.w3))) * k == m0 + b * (m1 + b
                * (m2 + b * m3))) by (nonlinear_arith)
                requires
                    m0 == self.w0 * k,
                    m1 == self.w1 * k,
                    m2 == self.w2 * k,
                    m3 == self.w3 * k,
            ;
        }
        (high, low)
    }

    /// Whether `self` is zero.
    pub fn is_zero(&self) -> (r: bool)
        ensures
            r == (self@ == 0),
    {
        let z: U256 = U256::zero();
        self.equals(&z)
    }
}

/// A signed 256-bit integer, from minus two to the power 255 up to, but
/// not reaching, two to the power 255. It is held as a sign and a magnitude;
/// zero has no sign.
#[derive(Clone, Copy, Debug, PartialEq, Eq)]
pub struct I256 {
    negative: bool,
    magnitude: U256,
}

impl View for I256 {
    type V = int;

    /// The number itself.
    closed spec fn view(&self) -> int {
        if self.negative {
            -(self.magnitude@ as int)
        } else {
            self.magnitude@ as int
        }
    }
}

/// The number with the given sign and magnitude.
pub open spec fn signed(negative: bool, magnitude: nat) -> int {
    if negative {
        -(magnitude as int)
    } else {
        magnitude as int
    }
}

/// Whether `v` lies in the range of an `I256`.
pub open spec fn fits_i256(v: int) -> bool {
    -(two_pow_255() as int) <= v < two_pow_255()
}

impl I256 {
    /// Sign and magnitude agree with the range, and zero is not negative.
    #[verifier::type_invariant]
    pub closed spec fn in_range(self) -> bool {
        if self.negative {
            0 < self.magnitude@ <= two_pow_255()
        } else {
            self.magnitude@ < two_pow_255()
        }
    }

    /// A value in range is a number in range.
    pub proof fn lemma_in_range(self)
        requires
            self.in_range(),
        ensures
            fits_i256(self@),
    {
    }

    /// The 33 bytes that store `self`: one byte for the sign, 1 if negative
    /// and 0 if not, then the four limbs of the magnitude, least significant
    /// limb and byte first.
    pub closed spec fn spec_to_bytes(self) -> Seq<u8> {
        seq![if self.negative { 1u8 } else { 0u8 }] + spec_u64_to_le_bytes(self.magnitude.w0)
            + spec_u64_to_le_bytes(self.magnitude.w1) + spec_u64_to_le_bytes(self.magnitude.w2)
            + spec_u64_to_le_bytes(self.magnitude.w3)
    }

    /// The value that `bytes` store, if they store one.
    pub closed spec fn spec_from_bytes(bytes: Seq<u8>) -> Option<I256> {
        if bytes.len() != 33 || bytes[0] > 1 {
            None
        } else {
            let value = I256 {
                negative: bytes[0] == 1,
                magnitude: U256 {
                    w0: spec_u64_from_le_bytes(bytes.subrange(1, 9)),
                    w1: spec_u64_from_le_bytes(bytes.subrange(9, 17)),
                    w2: spec_u64_from_le_bytes(bytes.subrange(17, 25)),
                    w3: spec_u64_from_le_bytes(bytes.subrange(25, 33)),
                },
            };
            if value.in_range() {
                Some(value)
            } else {
                None
            }
        }
    }

    /// A value is read back from its bytes as it was written.
    pub proof fn lemma_bytes_round_trip(self)
        requires
            self.in_range(),
        ensures
            self.spec_to_bytes().len() == 33,
            I256::spec_from_bytes(self.spec_to_bytes()) == Some(self),
    {
        lemma_auto_spec_u64_to_from_le_bytes();
        let bytes = self.spec_to_bytes();
        assert(bytes.subrange(1, 9) =~= spec_u64_to_le_bytes(self.magnitude.w0));
        assert(bytes.subrange(9, 17) =~= spec_u64_to_le_bytes(self.magnitude.w1));
        assert(bytes.subrange(17, 25) =~= spec_u64_to_le_bytes(self.magnitude.w2));
        assert(bytes.subrange(25, 33) =~= spec_u64_to_le_bytes(self.magnitude.w3));
    }

    /// Bytes that store a value are the bytes that the value is written as,
    /// and the value is in range.
    pub proof fn lemma_bytes_canonical(bytes: Seq<u8>)
        requires
            I256::spec_from_bytes(bytes) is Some,
        ensures
            I256::spec_from_bytes(bytes)->0.in_range(),
            I256::spec_from_bytes(bytes)->0.spec_to_bytes() == bytes,
    {
        lemma_auto_spec_u64_to_from_le_bytes();
        let value = I256::spec_from_bytes(bytes)->0;
        assert(value.spec_to_bytes() =~= seq![bytes[0]] + bytes.subrange(1, 9) + bytes.subrange(
            9,
            17,
        ) + bytes.subrange(17, 25) + bytes.subrange(25, 33));
        assert(value.spec_to_bytes() =~= bytes);
    }

    /// The 33 bytes that store `self`.
    pub fn to_bytes(&self) -> (r: Vec<u8>)
        ensures
            r@ == self.spec_to_bytes(),
            r@.len() == 33,
    {
        let mut out: Vec<u8> = Vec::new();
        out.push(if self.negative { 1u8 } else { 0u8 });
        let mut w0: Vec<u8> = u64_to_le_bytes(self.magnitude.w0);
        let mut w1: Vec<u8> = u64_to_le_bytes(self.magnitude.w1);
        let mut w2: Vec<u8> = u64_to_le_bytes(self.magnitude.w2);
        let mut w3: Vec<u8> = u64_to_le_bytes(self.magnitude.w3);
        out.append(&mut w0);
        out.append(&mut w1);
        out.append(&mut w2);
        out.append(&mut w3);
        assert(out@ =~= self.spec_to_bytes());
        out
    }

    /// The value that `bytes` store. There is none unless `bytes` are the 33
    /// bytes that some value is written as.
    pub fn from_bytes(bytes: &[u8]) -> (r: Option<I256>)
        ensures
            r == I256::spec_from_bytes(bytes@),
    {
        if bytes.len() != 33 || bytes[0] > 1 {
            return None;
        }
        let negative: bool = bytes[0] == 1;
        let magnitude: U256 = U256 {
            w0: u64_from_le_bytes(slice_subrange(bytes, 1, 9)),
            w1: u64_from_le_bytes(slice_subrange(bytes, 9, 17)),
            w2: u64_from_le_bytes(slice_subrange(bytes, 17, 25)),
            w3: u64_from_le_bytes(slice_subrange(bytes, 25, 33)),
        };
        let below: bool = magnitude.w3 < 0x8000_0000_0000_0000;
        let at_limit: bool = magnitude.w3 == 0x8000_0000_0000_0000 && magnitude.w2 == 0
            && magnitude.w1 == 0 && magnitude.w0 == 0;
        let zero: bool = magnitude.is_zero();
        let fits: bool = if negative {
            !zero && (below || at_limit)
        } else {
            below
        };
        proof {
            lemma_top_limb(magnitude);
        }
        if fits {
            Some(I256 { negative, magnitude })
        } else {
            None
        }
    }

    /// Zero.
    pub fn zero() -> (r: I256)
        ensures
            r@ == 0,
    {
        I256 { negative: false, magnitude: U256::zero() }
    }

    /// The 256-bit integer with the value of `v`.
    pub fn from_i128(v: i128) -> (r: I256)
        ensures
            r@ == v,
    {
        if v < 0 {
            let m: u128 = (-(v + 1)) as u128 + 1;
            I256 { negative: true, magnitude: U256::from_u128(m) }
        } else {
            I256 { negative: false, magnitude: U256::from_u128(v as u128) }
        }
    }

    /// The number with the given sign and magnitude, where it is in range.
    /// A negative zero is zero.
    pub fn from_sign_magnitude(negative: bool, magnitude: U256) -> (r: Option<I256>)
        ensures
            r is Some <==> fits_i256(signed(negative, magnitude@)),
            r matches Some(x) ==> x@ == signed(negative, magnitude@),
    {
        proof {
            lemma_top_limb(magnitude);
        }
        let below: bool = magnitude.w3 < 0x8000_0000_0000_0000;
        let at_limit: bool = magnitude.w3 == 0x8000_0000_0000_0000 && magnitude.w2 == 0
            && magnitude.w1 == 0 && magnitude.w0 == 0;
        if below {
            let zero: bool = magnitude.is_zero();
            Some(I256 { negative: negative && !zero, magnitude })
        } else if negative && at_limit {
            Some(I256 { negative: true, magnitude })
        } else {
            None
        }
    }

    /// Whether `self` is below zero.
    pub fn is_negative(&self) -> (r: bool)
        ensures
            r == (self@ < 0),
    {
        proof {
            use_type_invariant(self);
        }
        self.negative
    }

    /// Whether `self` is zero.
    pub fn is_zero(&self) -> (r: bool)
        ensures
            r == (self@ == 0),
    {
        proof {
            use_type_invariant(self);
        }
        self.magnitude.is_zero()
    }

    /// The distance of `self` from zero.
    pub fn unsigned_abs(&self) -> (r: U256)
        ensures
            r@ == if self@ < 0 {
                -self@
            } else {
                self@
            },
    {
        proof {
            use_type_invariant(self);
        }
        self.magnitude
    }

    /// Whether `self` and `other` are the same number.
    pub fn equals(&self, other: &I256) -> (r: bool)
        ensures
            r == (self@ == other@),
    {
        proof {
            use_type_invariant(self);
            use_type_invariant(other);
        }
        self.negative == other.negative && self.magnitude.equals(&other.magnitude)
    }

    /// Whether `self` is smaller than `other`.
    pub fn less_than(&self, other: &I256) -> (r: bool)
        ensures
            r == (self@ < other@),
    {
        proof {
            use_type_invariant(self);
            use_type_invariant(other);
        }
        if self.negative {
            if other.negative {
                other.magnitude.less_than(&self.magnitude)
            } else {
                true
            }
        } else {
            if other.negative {
                false
            } else {
                self.magnitude.less_than(&other.magnitude)
            }
        }
    }

    /// The distance between `self` and `other`.
    pub fn abs_diff(&self, other: &I256) -> (r: U256)
        ensures
            r@ == if self@ < other@ {
                other@ - self@
            } else {
                self@ - other@
            },
    {
        proof {
            use_type_invariant(self);
            use_type_invariant(other);
        }
        if self.negative == other.negative {
            self.magnitude.abs_diff(&other.magnitude)
        } else {
            // One of the two is below two to the power 255 and the other is
            // not above it, so the sum of the magnitudes fits.
            assert(self.magnitude@ + other.magnitude@ < two_pow_256());
            match self.magnitude.checked_add(&other.magnitude) {
                Some(sum) => sum,
                None => U256::zero(),
            }
        }
    }
}

} // verus!
