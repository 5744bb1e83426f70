//! Fixed-width 256-bit unsigned integers.
//!
//! A [`U256`] is stored as two 128-bit halves. Its view is the mathematical
//! value it represents, a natural number below `2^256`. Arithmetic is
//! checked: an operation whose exact result does not fit in 256 bits reports
//! overflow instead of wrapping or truncating.

use vstd::prelude::*;
use vstd::arithmetic::div_mod::{lemma_fundamental_div_mod, lemma_mod_bound};
use vstd::arithmetic::mul::{lemma_mul_inequality, lemma_mul_is_commutative, lemma_mul_upper_bound};

verus! {

/// `2^128`, the number of values of one 128-bit half.
pub open spec fn half_bound() -> nat {
    0x1_0000_0000_0000_0000_0000_0000_0000_0000nat
}

/// `2^256`, the number of values representable in 256 bits.
pub open spec fn u256_bound() -> nat {
    0x1_0000_0000_0000_0000_0000_0000_0000_0000_0000_0000_0000_0000_0000_0000_0000_0000nat
}

/// The two bounds agree: `2^256` is the square of `2^128`.
pub proof fn lemma_bound_square()
    ensures
        u256_bound() == half_bound() * half_bound(),
{
    assert(u256_bound() == half_bound() * half_bound());
}

/// The largest 256-bit unsigned value, `2^256 - 1`.
pub open spec fn u256_max() -> nat {
    (u256_bound() - 1) as nat
}

/// Full product of two 128-bit integers, as a high and a low 128-bit half.
fn mul_u128_wide(a: u128, b: u128) -> (r: (u128, u128))
    ensures
        (r.0 as nat) * half_bound() + r.1 as nat == (a as nat) * (b as nat),
{
    let ah: u128 = a / 0x1_0000_0000_0000_0000;
    let al: u128 = a % 0x1_0000_0000_0000_0000;
    let bh: u128 = b / 0x1_0000_0000_0000_0000;
    let bl: u128 = b % 0x1_0000_0000_0000_0000;
    proof {
        lemma_fundamental_div_mod(a as int, 0x1_0000_0000_0000_0000);
        lemma_fundamental_div_mod(b as int, 0x1_0000_0000_0000_0000);
        lemma_mod_bound(a as int, 0x1_0000_0000_0000_0000);
        lemma_mod_bound(b as int, 0x1_0000_0000_0000_0000);
        lemma_mul_upper_bound(
            al as int,
            0xffff_ffff_ffff_ffff,
            bl as int,
            0xffff_ffff_ffff_ffff,
        );
        lemma_mul_upper_bound(
            ah as int,
            0xffff_ffff_ffff_ffff,
            bl as int,
            0xffff_ffff_ffff_ffff,
        );
        lemma_mul_upper_bound(
            al as int,
            0xffff_ffff_ffff_ffff,
            bh as int,
            0xffff_ffff_ffff_ffff,
        );
        lemma_mul_upper_bound(
            ah as int,
            0xffff_ffff_ffff_ffff,
            bh as int,
            0xffff_ffff_ffff_ffff,
        );
    }
    let albl: u128 = al * bl;
    let ahbl: u128 = ah * bl;
    let albh: u128 = al * bh;
    let ahbh: u128 = ah * bh;
    proof {
        lemma_fundamental_div_mod(albl as int, 0x1_0000_0000_0000_0000);
        lemma_mod_bound(albl as int, 0x1_0000_0000_0000_0000);
        lemma_fundamental_div_mod(ahbl as int, 0x1_0000_0000_0000_0000);
        lemma_mod_bound(ahbl as int, 0x1_0000_0000_0000_0000);
        lemma_fundamental_div_mod(albh as int, 0x1_0000_0000_0000_0000);
        lemma_mod_bound(albh as int, 0x1_0000_0000_0000_0000);
    }
    let mid: u128 = albl / 0x1_0000_0000_0000_0000 + ahbl % 0x1_0000_0000_0000_0000 + albh
        % 0x1_0000_0000_0000_0000;
    proof {
        lemma_fundamental_div_mod(mid as int, 0x1_0000_0000_0000_0000);
        lemma_mod_bound(mid as int, 0x1_0000_0000_0000_0000);
    }
    let lo: u128 = (mid % 0x1_0000_0000_0000_0000) * 0x1_0000_0000_0000_0000 + albl
        % 0x1_0000_0000_0000_0000;
    let hi: u128 = ahbh + ahbl / 0x1_0000_0000_0000_0000 + albh / 0x1_0000_0000_0000_0000 + mid
        / 0x1_0000_0000_0000_0000;
    proof {
        assert((a as int) * (b as int) == (ahbh as int) * 0x1_0000_0000_0000_0000_0000_0000_0000_0000
            + (ahbl as int + albh as int) * 0x1_0000_0000_0000_0000 + albl as int)
            by (nonlinear_arith)
            requires
                a as int == (ah as int) * 0x1_0000_0000_0000_0000 + al as int,
                b as int == (bh as int) * 0x1_0000_0000_0000_0000 + bl as int,
                ahbh as int == (ah as int) * (bh as int),
                ahbl as int == (ah as int) * (bl as int),
                albh as int == (al as int) * (bh as int),
                albl as int == (al as int) * (bl as int),
        ;
        assert((hi as int) * 0x1_0000_0000_0000_0000_0000_0000_0000_0000 + lo as int == (a as int)
            * (b as int));
    }
    (hi, lo)
}

/// An unsigned 256-bit integer: `lo` holds the low 128 bits, `hi` the high.
#[derive(Clone, Copy, PartialEq, Eq, Structural, Debug)]
pub struct U256 {
    lo: u128,
    hi: u128,
}

impl View for U256 {
    type V = nat;

    closed spec fn view(&self) -> nat {
        self.lo as nat + (self.hi as nat) * half_bound()
    }
}

/// The value of a 256-bit integer is below `2^256`.
pub proof fn lemma_view_bound(v: U256)
    ensures
        v@ <= u256_max(),
        v@ < u256_bound(),
{
    lemma_bound_square();
    assert(v.lo as nat + (v.hi as nat) * half_bound() <= (half_bound() - 1) + (half_bound() - 1)
        * half_bound());
}

/// Two 256-bit integers with the same value are the same integer.
pub proof fn lemma_view_injective(a: U256, b: U256)
    requires
        a@ == b@,
    ensures
        a == b,
{
    assert(a.lo as nat + (a.hi as nat) * half_bound() == b.lo as nat + (b.hi as nat)
        * half_bound());
    if a.hi != b.hi {
        assert(false);
    }
}

impl U256 {
    /// The integer zero.
    pub fn zero() -> (r: U256)
        ensures
            r@ == 0,
    {
        U256 { lo: 0, hi: 0 }
    }

    /// The 256-bit integer with the value of `n`.
    pub fn from_u64(n: u64) -> (r: U256)
        ensures
            r@ == n as nat,
    {
        U256 { lo: n as u128, hi: 0 }
    }

    /// The 256-bit integer with the value of `n`.
    pub fn from_u128(n: u128) -> (r: U256)
        ensures
            r@ == n as nat,
    {
        U256 { lo: n, hi: 0 }
    }

    /// The 256-bit integer with high 128-bit half `hi` and low half `lo`.
    pub fn from_halves(hi: u128, lo: u128) -> (r: U256)
        ensures
            r@ == lo as nat + (hi as nat) * half_bound(),
    {
        U256 { lo, hi }
    }

    /// The largest 256-bit integer, `2^256 - 1`.
    pub fn max_value() -> (r: U256)
        ensures
            r@ == u256_max(),
    {
        U256 { lo: u128::MAX, hi: u128::MAX }
    }

    /// The sum of `self` and `other`, or `None` if it exceeds `2^256 - 1`.
    pub fn checked_add(self, other: U256) -> (r: Option<U256>)
        ensures
            self@ + other@ < u256_bound() ==> (r matches Some(s) && s@ == self@ + other@),
            self@ + other@ >= u256_bound() ==> r is None,
    {
        proof {
            lemma_bound_square();
        }
        let (lo, carry): (u128, bool) = if self.lo > u128::MAX - other.lo {
            (self.lo - (u128::MAX - other.lo) - 1, true)
        } else {
            (self.lo + other.lo, false)
        };
        proof {
            if carry {
                assert(lo as nat + half_bound() == self.lo as nat + other.lo as nat);
            }
        }
        let hi_carried: Option<u128> = if carry {
            if self.hi == u128::MAX {
                None
            } else {
                Some(self.hi + 1)
            }
        } else {
            Some(self.hi)
        };
        match hi_carried {
            None => None,
            Some(h) => {
                if h > u128::MAX - other.hi {
                    None
                } else {
                    Some(U256 { lo, hi: h + other.hi })
                }
            },
        }
    }

    /// The product of `self` and `other`, or `None` if it exceeds `2^256 - 1`.
    pub fn checked_mul(self, other: U256) -> (r: Option<U256>)
        ensures
            self@ * other@ < u256_bound() ==> (r matches Some(s) && s@ == self@ * other@),
            self@ * other@ >= u256_bound() ==> r is None,
    {
        proof {
            lemma_bound_square();
        }
        if self.hi != 0 && other.hi != 0 {
            proof {
                lemma_mul_inequality(half_bound() as int, self@ as int, other@ as int);
                lemma_mul_inequality(half_bound() as int, other@ as int, half_bound() as int);
                lemma_mul_is_commutative(other@ as int, half_bound() as int);
            }
            None
        } else {
            let (p_hi, p_lo) = mul_u128_wide(self.lo, other.lo);
            let (q_hi, q_lo) = mul_u128_wide(self.lo, other.hi);
            let (r_hi, r_lo) = mul_u128_wide(self.hi, other.lo);
            proof {
                let lolo: nat = (self.lo as nat) * (other.lo as nat);
                let lohi: nat = (self.lo as nat) * (other.hi as nat);
                let hilo: nat = (self.hi as nat) * (other.lo as nat);
                assert((self.hi as nat) * (other.hi as nat) == 0) by (nonlinear_arith)
                    requires
                        self.hi == 0 || other.hi == 0,
                ;
                assert(self@ * other@ == lolo + (lohi + hilo) * half_bound()) by (nonlinear_arith)
                    requires
                        self@ == self.lo as nat + (self.hi as nat) * half_bound(),
                        other@ == other.lo as nat + (other.hi as nat) * half_bound(),
                        lolo == (self.lo as nat) * (other.lo as nat),
                        lohi == (self.lo as nat) * (other.hi as nat),
                        hilo == (self.hi as nat) * (other.lo as nat),
                        (self.hi as nat) * (other.hi as nat) == 0,
                        half_bound() == 0x1_0000_0000_0000_0000_0000_0000_0000_0000nat,
                ;
                if q_hi != 0 {
                    lemma_mul_inequality(half_bound() as int, lohi as int, half_bound() as int);
                }
                if r_hi != 0 {
                    lemma_mul_inequality(half_bound() as int, hilo as int, half_bound() as int);
                }
            }
            if q_hi != 0 || r_hi != 0 {
                None
            } else if p_hi > u128::MAX - q_lo {
                None
            } else {
                let t: u128 = p_hi + q_lo;
                if t > u128::MAX - r_lo {
                    None
                } else {
                    Some(U256 { lo: p_lo, hi: t + r_lo })
                }
            }
        }
    }
}

} // verus!
