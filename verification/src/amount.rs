//! Amounts: unsigned integers of 256 bits.
//!
//! An `Amount` holds the four 64-bit words of the number, least significant
//! first, and stands for the natural number `a@`. The arithmetic itself is
//! done by `casper_types::U256`, which has the same layout; every operation
//! is checked, so a result that does not fit is reported and never wraps.

use casper_types::U256;
use vstd::arithmetic::power::pow;
use vstd::prelude::*;

verus! {

/// An unsigned integer below `2^256`.
#[derive(Clone, Copy, Debug, PartialEq, Eq)]
pub struct Amount {
    /// The words of the number, least significant first.
    pub limbs: [u64; 4],
}

/// `2^64`, the weight of the second word.
pub open spec fn word_weight() -> nat {
    0x1_0000_0000_0000_0000nat
}

/// `2^256`: every amount is below it.
pub open spec fn amount_limit() -> nat {
    0x1_0000_0000_0000_0000_0000_0000_0000_0000_0000_0000_0000_0000_0000_0000_0000_0000nat
}

/// The 32 digits of `value` in base 256, most significant first.
pub open spec fn be_bytes32(value: nat) -> Seq<u8> {
    Seq::new(32, |i: int| ((value as int / pow(256, (31 - i) as nat)) % 256) as u8)
}

impl View for Amount {
    type V = nat;

    /// The number that the four words stand for.
    open spec fn view(&self) -> nat {
        (self.limbs[0] as nat) + word_weight() * ((self.limbs[1] as nat) + word_weight() * ((
        self.limbs[2] as nat) + word_weight() * (self.limbs[3] as nat)))
    }
}

impl Amount {
    /// The amount zero.
    pub fn zero() -> (z: Amount)
        ensures
            z@ == 0,
    {
        Amount { limbs: [0, 0, 0, 0] }
    }

    /// The amount with the value of `v`.
    pub fn from_u64(v: u64) -> (a: Amount)
        ensures
            a@ == v,
    {
        Amount { limbs: [v, 0, 0, 0] }
    }

    /// Whether the amount is zero.
    pub fn is_zero(&self) -> (z: bool)
        ensures
            z == (self@ == 0),
    {
        proof {
            lemma_words(*self);
        }
        self.limbs[0] == 0 && self.limbs[1] == 0 && self.limbs[2] == 0 && self.limbs[3] == 0
    }

    /// Whether `self` is strictly below `other`.
    ///
    /// Trusted: `<` of `casper_types::U256` compares the words from the most
    /// significant down, which is the order of the numbers.
    #[verifier::external_body]
    pub(crate) fn less_than(&self, other: &Amount) -> (lt: bool)
        ensures
            lt == (self@ < other@),
    {
        U256(self.limbs) < U256(other.limbs)
    }

    /// The sum, or `None` when it does not fit.
    ///
    /// Trusted: `U256::checked_add` of `casper_types` returns the sum of the
    /// two numbers, or `None` when it is `2^256` or more.
    #[verifier::external_body]
    pub(crate) fn checked_add(&self, other: &Amount) -> (sum: Option<Amount>)
        ensures
            match sum {
                Some(s) => s@ == self@ + other@,
                None => self@ + other@ >= amount_limit(),
            },
    {
        U256(self.limbs).checked_add(U256(other.limbs)).map(|s| Amount { limbs: s.0 })
    }

    /// The difference, or `None` when `other` is the larger.
    ///
    /// Trusted: `U256::checked_sub` of `casper_types` returns the difference of
    /// the two numbers, or `None` when it would be negative.
    #[verifier::external_body]
    pub(crate) fn checked_sub(&self, other: &Amount) -> (difference: Option<Amount>)
        ensures
            match difference {
                Some(d) => d@ == self@ - other@,
                None => self@ < other@,
            },
    {
        U256(self.limbs).checked_sub(U256(other.limbs)).map(|d| Amount { limbs: d.0 })
    }

    /// The product, or `None` when it does not fit.
    ///
    /// Trusted: `U256::checked_mul` of `casper_types` returns the product of
    /// the two numbers, or `None` when it is `2^256` or more.
    #[verifier::external_body]
    pub(crate) fn checked_mul(&self, other: &Amount) -> (product: Option<Amount>)
        ensures
            match product {
                Some(p) => p@ == self@ * other@,
                None => self@ * other@ >= amount_limit(),
            },
    {
        U256(self.limbs).checked_mul(U256(other.limbs)).map(|p| Amount { limbs: p.0 })
    }

    /// The quotient rounded down, or `None` when `other` is zero.
    ///
    /// Trusted: `U256::checked_div` of `casper_types` returns the integer
    /// quotient of the two numbers, or `None` when the divisor is zero.
    #[verifier::external_body]
    pub(crate) fn checked_div(&self, other: &Amount) -> (quotient: Option<Amount>)
        ensures
            match quotient {
                Some(q) => other@ != 0 && q@ == self@ / other@,
                None => other@ == 0,
            },
    {
        U256(self.limbs).checked_div(U256(other.limbs)).map(|q| Amount { limbs: q.0 })
    }

    /// The 32 bytes of the amount, most significant first.
    ///
    /// Trusted: `U256::to_big_endian` of `casper_types` writes the words from
    /// the most significant down, each most significant byte first.
    #[verifier::external_body]
    pub(crate) fn to_be_bytes(&self) -> (bytes: [u8; 32])
        ensures
            bytes@ == be_bytes32(self@),
    {
        let mut bytes = [0u8; 32];
        U256(self.limbs).to_big_endian(&mut bytes);
        bytes
    }
}

/// The value of an amount is below `2^256`, and is zero only when all four
/// words are.
pub proof fn lemma_words(a: Amount)
    ensures
        a@ < amount_limit(),
        a@ == 0 <==> (a.limbs[0] == 0 && a.limbs[1] == 0 && a.limbs[2] == 0 && a.limbs[3] == 0),
{
    let w = word_weight();
    let l0 = a.limbs[0] as nat;
    let l1 = a.limbs[1] as nat;
    let l2 = a.limbs[2] as nat;
    let l3 = a.limbs[3] as nat;
    assert(a@ == l0 + w * (l1 + w * (l2 + w * l3)));
    assert(w * l3 <= w * (w - 1)) by (nonlinear_arith)
        requires
            l3 <= w - 1,
    ;
    assert(w * (l2 + w * l3) <= w * (w * w - 1)) by (nonlinear_arith)
        requires
            l2 + w * l3 <= w * w - 1,
    ;
    assert(w * (l1 + w * (l2 + w * l3)) <= w * (w * w * w - 1)) by (nonlinear_arith)
        requires
            l1 + w * (l2 + w * l3) <= w * w * w - 1,
    ;
    assert(w * w * w * w == amount_limit()) by (nonlinear_arith)
        requires
            w == 0x1_0000_0000_0000_0000,
    ;
    assert(l3 > 0 ==> w * l3 > 0) by (nonlinear_arith)
        requires
            w > 0,
    ;
    assert(l2 + w * l3 > 0 ==> w * (l2 + w * l3) > 0) by (nonlinear_arith)
        requires
            w > 0,
    ;
    assert(l1 + w * (l2 + w * l3) > 0 ==> w * (l1 + w * (l2 + w * l3)) > 0) by (nonlinear_arith)
        requires
            w > 0,
    ;
}

} // verus!
