//! Unsigned 256-bit amounts, held as two 128-bit limbs.
//!
//! Every value of [`U256`] stands for exactly one natural number below
//! 2^256, its view; all contracts speak of that number.

use vstd::prelude::*;

verus! {

/// The weight of the high limb, 2^128.
pub open spec fn limb() -> nat {
    u128::MAX as nat + 1
}

/// An unsigned 256-bit integer: `hi * 2^128 + lo`.
#[derive(Clone, Copy, Debug, PartialEq, Eq, Structural)]
pub struct U256 {
    pub hi: u128,
    pub lo: u128,
}

impl View for U256 {
    type V = nat;

    open spec fn view(&self) -> nat {
        self.hi as nat * limb() + self.lo as nat
    }
}

/// A factor that is larger by at least one gives a product larger by at least `l`.
proof fn lemma_mul_step(x: nat, y: nat, l: nat)
    requires
        x < y,
    ensures
        y * l >= x * l + l,
{
    assert(y * l >= x * l + l) by (nonlinear_arith)
        requires
            x < y,
    ;
}

/// Multiplication by `l` distributes over a sum of three.
proof fn lemma_mul_sum(x: nat, y: nat, c: nat, l: nat)
    ensures
        (x + y + c) * l == x * l + y * l + c * l,
{
    assert((x + y + c) * l == x * l + y * l + c * l) by (nonlinear_arith);
}

/// Two amounts that stand for the same number are the same value.
pub proof fn lemma_view_injective(a: U256, b: U256)
    requires
        a@ == b@,
    ensures
        a == b,
{
    if a.hi < b.hi {
        lemma_mul_step(a.hi as nat, b.hi as nat, limb());
    } else if b.hi < a.hi {
        lemma_mul_step(b.hi as nat, a.hi as nat, limb());
    }
}

impl U256 {
    /// The number zero.
    pub fn zero() -> (z: U256)
        ensures
            z@ == 0,
            z == (U256 { hi: 0, lo: 0 }),
    {
        U256 { hi: 0, lo: 0 }
    }

    /// The amount that stands for `v`.
    pub fn from_u128(v: u128) -> (a: U256)
        ensures
            a@ == v,
            a == (U256 { hi: 0, lo: v }),
    {
        U256 { hi: 0, lo: v }
    }

    /// The amount as a `u128`, where it fits in one.
    pub fn to_u128(&self) -> (v: Option<u128>)
        ensures
            v is Some <==> self@ <= u128::MAX,
            v is Some ==> v->0 == self@,
    {
        proof {
            if self.hi > 0 {
                lemma_mul_step(0, self.hi as nat, limb());
            }
            lemma_mul_sum(0, 0, 0, limb());
        }
        if self.hi == 0 {
            Some(self.lo)
        } else {
            None
        }
    }

    /// Whether the amount is zero.
    pub fn is_zero(&self) -> (z: bool)
        ensures
            z == (self@ == 0),
    {
        proof {
            if self.hi > 0 {
                lemma_mul_step(0, self.hi as nat, limb());
            }
            lemma_mul_sum(0, 0, 0, limb());
        }
        self.hi == 0 && self.lo == 0
    }

    /// Whether `self` is strictly less than `other`.
    pub fn lt(&self, other: &U256) -> (less: bool)
        ensures
            less == (self@ < other@),
    {
        proof {
            let (a, b) = (*self, *other);
            if a.hi < b.hi {
                lemma_mul_step(a.hi as nat, b.hi as nat, limb());
            } else if b.hi < a.hi {
                lemma_mul_step(b.hi as nat, a.hi as nat, limb());
            }
        }
        self.hi < other.hi || (self.hi == other.hi && self.lo < other.lo)
    }

    /// Whether `self` is strictly greater than `other`.
    pub fn gt(&self, other: &U256) -> (greater: bool)
        ensures
            greater == (self@ > other@),
    {
        other.lt(self)
    }

    /// Whether `self` is at least `other`.
    pub fn ge(&self, other: &U256) -> (at_least: bool)
        ensures
            at_least == (self@ >= other@),
    {
        !self.lt(other)
    }

    /// Whether the two amounts stand for the same number.
    pub fn same(&self, other: &U256) -> (equal: bool)
        ensures
            equal == (self@ == other@),
            equal == (*self == *other),
    {
        proof {
            if self@ == other@ {
                lemma_view_injective(*self, *other);
            }
        }
        self.hi == other.hi && self.lo == other.lo
    }

    /// `self - rhs`, or `None` where that would fall below zero.
    pub fn checked_sub(self, rhs: U256) -> (diff: Option<U256>)
        ensures
            diff is Some <==> self@ >= rhs@,
            diff is Some ==> diff->0@ == self@ - rhs@,
    {
        if self.lt(&rhs) {
            None
        } else if self.lo >= rhs.lo {
            proof {
                if self.hi < rhs.hi {
                    lemma_mul_step(self.hi as nat, rhs.hi as nat, limb());
                }
                lemma_mul_sum((self.hi - rhs.hi) as nat, rhs.hi as nat, 0, limb());
            }
            Some(U256 { hi: self.hi - rhs.hi, lo: self.lo - rhs.lo })
        } else {
            proof {
                if self.hi < rhs.hi {
                    lemma_mul_step(self.hi as nat, rhs.hi as nat, limb());
                }
                lemma_mul_sum((self.hi - rhs.hi - 1) as nat, rhs.hi as nat, 1, limb());
            }
            let below: u128 = u128::MAX - rhs.lo;
            Some(U256 { hi: self.hi - rhs.hi - 1, lo: below + self.lo + 1 })
        }
    }

    /// `self + rhs`, or `None` where that would not fit in 256 bits.
    pub fn checked_add(self, rhs: U256) -> (sum: Option<U256>)
        ensures
            sum is Some <==> self@ + rhs@ < limb() * limb(),
            sum is Some ==> sum->0@ == self@ + rhs@,
    {
        let room: u128 = u128::MAX - self.lo;
        let carry: u128 = if rhs.lo > room { 1 } else { 0 };
        let lo: u128 = if rhs.lo > room {
            rhs.lo - room - 1
        } else {
            self.lo + rhs.lo
        };
        let top: u128 = u128::MAX - self.hi;
        if rhs.hi > top || (rhs.hi == top && carry == 1) {
            proof {
                let top_sum = self.hi as nat + rhs.hi as nat + carry as nat;
                lemma_mul_sum(self.hi as nat, rhs.hi as nat, carry as nat, limb());
                if top_sum > limb() {
                    lemma_mul_step(limb(), top_sum, limb());
                }
            }
            None
        } else {
            let hi: u128 = self.hi + rhs.hi + carry;
            proof {
                lemma_mul_sum(self.hi as nat, rhs.hi as nat, carry as nat, limb());
                if (hi as nat) < u128::MAX as nat {
                    lemma_mul_step(hi as nat + 1, limb(), limb());
                }
                lemma_mul_sum(hi as nat, 0, 1, limb());
            }
            Some(U256 { hi, lo })
        }
    }
}

} // verus!
