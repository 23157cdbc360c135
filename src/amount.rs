//! Unsigned 256-bit quantities of native coin or token units.
use ethers::types::U256;
use vstd::arithmetic::power::pow;
use vstd::prelude::*;

verus! {

/// Two to the 64th: the weight of one word.
pub open spec fn word_base() -> nat {
    0x1_0000_0000_0000_0000nat
}

/// Two to the 256th: every amount is below it.
pub open spec fn amount_limit() -> nat {
    word_base() * word_base() * word_base() * word_base()
}

/// A 256-bit unsigned integer, as four 64-bit words, least significant first
/// (the layout of `U256`).
#[derive(Clone, Copy, Debug, PartialEq, Eq)]
pub struct Amount {
    pub w0: u64,
    pub w1: u64,
    pub w2: u64,
    pub w3: u64,
}

impl Amount {
    /// The number this amount stands for.
    pub open spec fn value(self) -> nat {
        self.w0 as nat + self.w1 as nat * word_base() + self.w2 as nat * (word_base()
            * word_base()) + self.w3 as nat * (word_base() * word_base() * word_base())
    }

    pub proof fn lemma_below_limit(self)
        ensures
            self.value() < amount_limit(),
    {
        let b = word_base();
        assert(self.w0 + self.w1 * b + self.w2 * (b * b) + self.w3 * (b * b * b) < b * b * b * b)
            by (nonlinear_arith)
            requires
                b == 0x1_0000_0000_0000_0000nat,
                self.w0 < b,
                self.w1 < b,
                self.w2 < b,
                self.w3 < b,
        ;
    }

    proof fn lemma_zero_iff_words_zero(self)
        ensures
            (self.value() == 0) == (self.w0 == 0 && self.w1 == 0 && self.w2 == 0 && self.w3 == 0),
    {
        let b = word_base();
        assert((self.w0 + self.w1 * b + self.w2 * (b * b) + self.w3 * (b * b * b) == 0) == (
        self.w0 == 0 && self.w1 == 0 && self.w2 == 0 && self.w3 == 0)) by (nonlinear_arith)
            requires
                b == 0x1_0000_0000_0000_0000nat,
        ;
    }

    pub fn zero() -> (r: Amount)
        ensures
            r.value() == 0,
    {
        Amount { w0: 0, w1: 0, w2: 0, w3: 0 }
    }

    /// The largest amount, two to the 256th less one.
    pub fn max() -> (r: Amount)
        ensures
            r.value() == amount_limit() - 1,
            r == (Amount { w0: u64::MAX, w1: u64::MAX, w2: u64::MAX, w3: u64::MAX }),
    {
        let r = Amount { w0: u64::MAX, w1: u64::MAX, w2: u64::MAX, w3: u64::MAX };
        proof {
            let b = word_base();
            assert(r.w0 + r.w1 * b + r.w2 * (b * b) + r.w3 * (b * b * b) == b * b * b * b - 1)
                by (nonlinear_arith)
                requires
                    b == 0x1_0000_0000_0000_0000nat,
                    r.w0 == b - 1,
                    r.w1 == b - 1,
                    r.w2 == b - 1,
                    r.w3 == b - 1,
            ;
        }
        r
    }

    pub fn from_u64(x: u64) -> (r: Amount)
        ensures
            r.value() == x,
            r == (Amount { w0: x, w1: 0, w2: 0, w3: 0 }),
    {
        Amount { w0: x, w1: 0, w2: 0, w3: 0 }
    }

    pub fn from_u128(x: u128) -> (r: Amount)
        ensures
            r.value() == x,
    {
        let lo = #[verifier::truncate] (x as u64);
        let hi = #[verifier::truncate] ((x >> 64u128) as u64);
        assert(x == (x & 0xffff_ffff_ffff_ffffu128) + (x >> 64u128) * 0x1_0000_0000_0000_0000u128
            && (x >> 64u128) < 0x1_0000_0000_0000_0000u128) by (bit_vector);
        assert(lo == x & 0xffff_ffff_ffff_ffffu128) by (bit_vector)
            requires lo == #[verifier::truncate] (x as u64);
        Amount { w0: lo, w1: hi, w2: 0, w3: 0 }
    }

    pub fn is_zero(&self) -> (r: bool)
        ensures
            r == (self.value() == 0),
    {
        proof {
            self.lemma_zero_iff_words_zero();
        }
        self.w0 == 0 && self.w1 == 0 && self.w2 == 0 && self.w3 == 0
    }
}

/// Relies on `U256::checked_mul`: the product, or `None` when it does not fit.
#[verifier::external_body]
pub(crate) fn checked_mul(a: &Amount, b: &Amount) -> (r: Option<Amount>)
    ensures
        match r {
            Some(c) => c.value() == a.value() * b.value(),
            None => a.value() * b.value() >= amount_limit(),
        },
{
    let x = U256([a.w0, a.w1, a.w2, a.w3]);
    let y = U256([b.w0, b.w1, b.w2, b.w3]);
    x.checked_mul(y).map(|c| Amount { w0: c.0[0], w1: c.0[1], w2: c.0[2], w3: c.0[3] })
}

/// Relies on `U256::checked_add`: the sum, or `None` when it does not fit.
#[verifier::external_body]
pub(crate) fn checked_add(a: &Amount, b: &Amount) -> (r: Option<Amount>)
    ensures
        match r {
            Some(c) => c.value() == a.value() + b.value(),
            None => a.value() + b.value() >= amount_limit(),
        },
{
    let x = U256([a.w0, a.w1, a.w2, a.w3]);
    let y = U256([b.w0, b.w1, b.w2, b.w3]);
    x.checked_add(y).map(|c| Amount { w0: c.0[0], w1: c.0[1], w2: c.0[2], w3: c.0[3] })
}

/// Relies on `U256::saturating_sub`: the difference, or zero when `b` exceeds `a`.
#[verifier::external_body]
pub(crate) fn saturating_sub(a: &Amount, b: &Amount) -> (r: Amount)
    ensures
        r.value() == if a.value() >= b.value() {
            (a.value() - b.value()) as nat
        } else {
            0nat
        },
{
    let c = U256([a.w0, a.w1, a.w2, a.w3]).saturating_sub(U256([b.w0, b.w1, b.w2, b.w3]));
    Amount { w0: c.0[0], w1: c.0[1], w2: c.0[2], w3: c.0[3] }
}

/// Relies on `U256::div_mod`: quotient and remainder; it panics on a zero divisor.
#[verifier::external_body]
pub(crate) fn div_mod(a: &Amount, b: &Amount) -> (r: (Amount, Amount))
    requires
        b.value() > 0,
    ensures
        r.0.value() == a.value() / b.value(),
        r.1.value() == a.value() % b.value(),
{
    let (q, m) = U256([a.w0, a.w1, a.w2, a.w3]).div_mod(U256([b.w0, b.w1, b.w2, b.w3]));
    (
        Amount { w0: q.0[0], w1: q.0[1], w2: q.0[2], w3: q.0[3] },
        Amount { w0: m.0[0], w1: m.0[1], w2: m.0[2], w3: m.0[3] },
    )
}

/// Relies on `U256::checked_pow`: `base` to the power `exp`, or `None` when it
/// does not fit.
#[verifier::external_body]
pub(crate) fn checked_pow(base: &Amount, exp: &Amount) -> (r: Option<Amount>)
    ensures
        match r {
            Some(c) => c.value() == pow(base.value() as int, exp.value()),
            None => pow(base.value() as int, exp.value()) >= amount_limit(),
        },
{
    let x = U256([base.w0, base.w1, base.w2, base.w3]);
    let y = U256([exp.w0, exp.w1, exp.w2, exp.w3]);
    x.checked_pow(y).map(|c| Amount { w0: c.0[0], w1: c.0[1], w2: c.0[2], w3: c.0[3] })
}

/// Relies on the ordering of `U256`, which compares by value.
#[verifier::external_body]
pub(crate) fn less_than(a: &Amount, b: &Amount) -> (r: bool)
    ensures
        r == (a.value() < b.value()),
{
    U256([a.w0, a.w1, a.w2, a.w3]) < U256([b.w0, b.w1, b.w2, b.w3])
}

} // verus!
