//! Static facts about the probed token, and the output amounts of the sweep.
use crate::amount::{
    amount_limit, checked_add, checked_mul, checked_pow, div_mod, less_than, saturating_sub,
    Amount,
};
use vstd::arithmetic::div_mod::{lemma_div_is_ordered, lemma_hoist_over_denominator};
use vstd::arithmetic::mul::lemma_mul_inequality;
use vstd::arithmetic::power::pow;
use vstd::prelude::*;

verus! {

/// Sweep steps are counted in hundredths of a percent of the total supply.
pub const BASIS_POINTS: u32 = 10000;

/// One native-coin unit in its smallest denomination.
pub const ONE_ETH_WEI: u64 = 1_000_000_000_000_000_000;

/// Ten native-coin units in the smallest denomination.
pub const TEN_ETH_WEI: u64 = 10_000_000_000_000_000_000;

pub fn one_eth() -> (r: Amount)
    ensures
        r.value() == ONE_ETH_WEI,
        r == (Amount { w0: ONE_ETH_WEI, w1: 0, w2: 0, w3: 0 }),
{
    Amount::from_u64(ONE_ETH_WEI)
}

pub fn ten_eth() -> (r: Amount)
    ensures
        r.value() == TEN_ETH_WEI,
        r == (Amount { w0: TEN_ETH_WEI, w1: 0, w2: 0, w3: 0 }),
{
    Amount::from_u64(TEN_ETH_WEI)
}

/// The output amount requested at sweep index `index`: `index` basis points of
/// the supply, less one whole token unless the supply is below one whole token.
/// The subtraction stops at zero.
pub open spec fn reference_output_of(supply: nat, unit: nat, index: nat) -> nat {
    let base = supply * index / (BASIS_POINTS as nat);
    if supply < unit {
        base
    } else if base >= unit {
        (base - unit) as nat
    } else {
        0
    }
}

/// A larger sweep index never asks for a smaller output.
pub proof fn lemma_reference_output_monotonic(supply: nat, unit: nat, i1: nat, i2: nat)
    requires
        i1 > i2,
    ensures
        reference_output_of(supply, unit, i1) >= reference_output_of(supply, unit, i2),
{
    lemma_mul_inequality(i2 as int, i1 as int, supply as int);
    assert(supply * i2 <= supply * i1) by (nonlinear_arith)
        requires
            i2 * supply <= i1 * supply,
    ;
    lemma_div_is_ordered((supply * i2) as int, (supply * i1) as int, BASIS_POINTS as int);
}

/// Total supply and decimals of a token, with ten to the power of the decimals
/// (one whole token).
#[derive(Clone, Copy, Debug, PartialEq, Eq)]
pub struct TokenProfile {
    pub total_supply: Amount,
    pub decimals: u8,
    pub unit: Amount,
}

impl TokenProfile {
    pub open spec fn wf(self) -> bool {
        self.unit.value() == pow(10, self.decimals as nat)
    }

    /// The profile of a token, or `None` when one whole token does not fit in
    /// 256 bits.
    pub fn new(total_supply: Amount, decimals: u8) -> (r: Option<TokenProfile>)
        ensures
            r is Some <==> pow(10, decimals as nat) < amount_limit(),
            r matches Some(p) ==> p.wf() && p.total_supply == total_supply && p.decimals
                == decimals,
    {
        let ten = Amount::from_u64(10);
        let exp = Amount::from_u64(decimals as u64);
        match checked_pow(&ten, &exp) {
            Some(unit) => {
                proof {
                    unit.lemma_below_limit();
                }
                Some(TokenProfile { total_supply, decimals, unit })
            },
            None => None,
        }
    }

    /// The output amount of sweep index `index`.
    pub open spec fn reference_output_spec(self, index: nat) -> nat {
        reference_output_of(self.total_supply.value(), self.unit.value(), index)
    }

    pub fn reference_output(&self, index: u32) -> (r: Amount)
        requires
            self.wf(),
            index <= BASIS_POINTS,
        ensures
            r.value() == self.reference_output_spec(index as nat),
    {
        let s = self.total_supply;
        let bp = Amount::from_u64(BASIS_POINTS as u64);
        let i = Amount::from_u64(index as u64);
        let (q, m) = div_mod(&s, &bp);
        let ghost sv = s.value() as int;
        let ghost qv = q.value() as int;
        let ghost mv = m.value() as int;
        let ghost iv = index as int;
        let ghost d = BASIS_POINTS as int;
        proof {
            s.lemma_below_limit();
            assert(sv == d * qv + mv) by (nonlinear_arith)
                requires
                    d > 0,
                    qv == sv / d,
                    mv == sv % d,
            ;
            assert(qv * iv <= sv) by (nonlinear_arith)
                requires
                    sv == d * qv + mv,
                    0 <= mv,
                    0 <= qv,
                    0 <= iv <= d,
            ;
            lemma_hoist_over_denominator(mv * iv, qv * iv, d as nat);
            assert(mv * iv + (qv * iv) * d == sv * iv) by (nonlinear_arith)
                requires
                    sv == d * qv + mv,
            ;
            assert(sv * iv / d <= sv) by (nonlinear_arith)
                requires
                    0 <= iv <= d,
                    0 <= sv,
                    d > 0,
            ;
        }
        let whole = match checked_mul(&q, &i) {
            Some(c) => c,
            None => {
                proof {
                    s.lemma_below_limit();
                }
                Amount::zero()
            },
        };
        // The remainder is below the number of basis points, so it is its low word.
        let low: u64 = m.w0;
        proof {
            assert(mv < d);
            assert(m.w1 == 0 && m.w2 == 0 && m.w3 == 0 && mv == m.w0) by (nonlinear_arith)
                requires
                    mv == m.w0 + m.w1 * 0x1_0000_0000_0000_0000int + m.w2 * (
                    0x1_0000_0000_0000_0000int * 0x1_0000_0000_0000_0000int) + m.w3 * (
                    0x1_0000_0000_0000_0000int * 0x1_0000_0000_0000_0000int
                        * 0x1_0000_0000_0000_0000int),
                    mv < 10000,
            ;
            assert(low * index <= 10000 * 10000) by (nonlinear_arith)
                requires
                    low < 10000,
                    index <= 10000,
            ;
        }
        let part = Amount::from_u64(low * (index as u64) / (BASIS_POINTS as u64));
        let base = match checked_add(&whole, &part) {
            Some(c) => c,
            None => Amount::zero(),
        };
        if less_than(&s, &self.unit) {
            base
        } else {
            saturating_sub(&base, &self.unit)
        }
    }
}

} // verus!
