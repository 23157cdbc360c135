//! The descending sweep that finds a tradable amount, and the fee it implies.
//!
//! The probe names each swap to try; the caller submits it on the fork from a
//! funded trader and reports whether it was included.
use crate::amount::{amount_limit, checked_mul, div_mod, less_than, saturating_sub, Amount};
use crate::bootstrap::ROUTER_DEADLINE;
use crate::token::{one_eth, TokenProfile, ONE_ETH_WEI};
use vstd::prelude::*;

verus! {

/// The first and largest sweep index; the sweep ends after index one.
pub const SWEEP_FIRST_INDEX: u32 = 499;

#[derive(Clone, Copy, Debug, PartialEq, Eq)]
pub enum ProbeState {
    NotStarted,
    Sweeping(u32),
    Succeeded(u32),
    Exhausted,
}

#[derive(Clone, Copy, Debug, PartialEq, Eq)]
pub enum ProbeError {
    /// No swap of the sweep was included.
    NoTradableAmount,
    /// The included swap asked for nothing, or the received amount is too
    /// large to scale to a percentage.
    FeeUndefined,
}

/// A `swapETHForExactTokens` call to submit from the trader.
#[derive(Clone, Copy, Debug, PartialEq, Eq)]
pub struct SwapRequest {
    pub index: u32,
    pub amount_out: Amount,
    /// The native value attached, which caps the input.
    pub max_input: Amount,
    pub deadline: u64,
}

/// A fee in percent: `points` below zero when `surplus`, else above.
#[derive(Clone, Copy, Debug, PartialEq, Eq)]
pub struct FeePercent {
    pub surplus: bool,
    pub points: Amount,
}

impl FeePercent {
    pub open spec fn value(self) -> int {
        if self.surplus {
            -(self.points.value() as int)
        } else {
            self.points.value() as int
        }
    }
}

/// The effective fee: `100 - received * 100 / requested`, not clamped.
pub open spec fn fee_of(requested: nat, received: nat) -> int {
    100 - (received * 100 / requested) as int
}

/// The fee, or `None` when nothing was requested or `received * 100` does not
/// fit in 256 bits.
pub fn compute_fee(requested: &Amount, received: &Amount) -> (r: Option<FeePercent>)
    ensures
        r is Some <==> requested.value() > 0 && received.value() * 100 < amount_limit(),
        r matches Some(f) ==> f.value() == fee_of(requested.value(), received.value()) && (
        f.surplus ==> f.points.value() > 0),
{
    if requested.is_zero() {
        return None;
    }
    let hundred = Amount::from_u64(100);
    let scaled = match checked_mul(received, &hundred) {
        Some(p) => {
            proof {
                p.lemma_below_limit();
            }
            p
        },
        None => {
            return None;
        },
    };
    let (q, _) = div_mod(&scaled, requested);
    if less_than(&q, &Amount::from_u64(101)) {
        Some(FeePercent { surplus: false, points: saturating_sub(&hundred, &q) })
    } else {
        Some(FeePercent { surplus: true, points: saturating_sub(&q, &hundred) })
    }
}

/// A measured fee, at the sweep index whose swap was included.
#[derive(Clone, Copy, Debug, PartialEq, Eq)]
pub struct ProbeResult {
    pub index: u32,
    pub requested: Amount,
    pub received: Amount,
    pub fee: FeePercent,
}

/// The state after one swap was reported `included` or not. Only a sweeping
/// probe moves: to success on an inclusion, else to the next smaller index or,
/// after index one, to exhaustion.
pub open spec fn step(state: ProbeState, included: bool) -> ProbeState {
    match state {
        ProbeState::Sweeping(i) => if included {
            ProbeState::Succeeded(i)
        } else if i > 1 {
            ProbeState::Sweeping((i - 1) as u32)
        } else {
            ProbeState::Exhausted
        },
        _ => state,
    }
}

/// The state after a series of swap outcomes, in order.
pub open spec fn run_sweep(state: ProbeState, outcomes: Seq<bool>) -> ProbeState
    decreases outcomes.len(),
{
    if outcomes.len() == 0 {
        state
    } else {
        run_sweep(step(state, outcomes[0]), outcomes.drop_first())
    }
}

pub open spec fn reverts(n: nat) -> Seq<bool> {
    Seq::new(n, |k: int| false)
}

proof fn lemma_run_append(state: ProbeState, a: Seq<bool>, b: Seq<bool>)
    ensures
        run_sweep(state, a + b) == run_sweep(run_sweep(state, a), b),
    decreases a.len(),
{
    if a.len() > 0 {
        assert((a + b).drop_first() =~= a.drop_first() + b);
        assert((a + b)[0] == a[0]);
        lemma_run_append(step(state, a[0]), a.drop_first(), b);
    } else {
        assert(a + b =~= b);
    }
}

proof fn lemma_run_reverts(k: u32, n: nat)
    requires
        n < k,
    ensures
        run_sweep(ProbeState::Sweeping(k), reverts(n)) == ProbeState::Sweeping((k - n) as u32),
    decreases n,
{
    if n > 0 {
        assert(reverts(n).drop_first() =~= reverts((n - 1) as nat));
        lemma_run_reverts((k - 1) as u32, (n - 1) as nat);
    }
}

proof fn lemma_terminal_stays(state: ProbeState, outcomes: Seq<bool>)
    requires
        state !is Sweeping,
    ensures
        run_sweep(state, outcomes) == state,
    decreases outcomes.len(),
{
    if outcomes.len() > 0 {
        lemma_terminal_stays(state, outcomes.drop_first());
    }
}

/// When every swap from index `k` down to one reverts, the sweep ends
/// exhausted; an exhausted probe then reports `NoTradableAmount` (see
/// `FeeProbe::finish`).
pub proof fn lemma_all_reverts_exhaust(k: u32)
    requires
        k >= 1,
    ensures
        run_sweep(ProbeState::Sweeping(k), reverts(k as nat)) == ProbeState::Exhausted,
{
    lemma_run_reverts(k, (k - 1) as nat);
    assert(reverts(k as nat) =~= reverts((k - 1) as nat) + seq![false]);
    lemma_run_append(ProbeState::Sweeping(k), reverts((k - 1) as nat), seq![false]);
    assert(seq![false].drop_first() =~= Seq::<bool>::empty());
    assert(run_sweep(ProbeState::Sweeping(1), seq![false]) == run_sweep(ProbeState::Exhausted, Seq::empty()));
}

/// When the swaps from index `k` down to `j + 1` revert and the one at `j` is
/// included, the sweep tried exactly the indices `k` down to `j`, stops at
/// `j`, and stays there whatever comes after.
pub proof fn lemma_first_success_stops(k: u32, j: u32, later: Seq<bool>)
    requires
        1 <= j <= k,
    ensures
        forall|t: nat|
            t <= k - j ==> run_sweep(ProbeState::Sweeping(k), #[trigger] reverts(t))
                == ProbeState::Sweeping((k - t) as u32),
        run_sweep(ProbeState::Sweeping(k), reverts((k - j) as nat).push(true)) == ProbeState::Succeeded(
            j,
        ),
        run_sweep(ProbeState::Sweeping(k), reverts((k - j) as nat).push(true) + later)
            == ProbeState::Succeeded(j),
{
    assert forall|t: nat| t <= k - j implies run_sweep(ProbeState::Sweeping(k), #[trigger] reverts(t))
        == ProbeState::Sweeping((k - t) as u32) by {
        lemma_run_reverts(k, t);
    }
    let pre = reverts((k - j) as nat);
    lemma_run_reverts(k, (k - j) as nat);
    assert(pre.push(true) =~= pre + seq![true]);
    lemma_run_append(ProbeState::Sweeping(k), pre, seq![true]);
    assert(seq![true].drop_first() =~= Seq::<bool>::empty());
    assert(run_sweep(ProbeState::Sweeping(j), seq![true]) == run_sweep(ProbeState::Succeeded(j), Seq::empty()));
    lemma_run_append(ProbeState::Sweeping(k), pre.push(true), later);
    lemma_terminal_stays(ProbeState::Succeeded(j), later);
}

/// The sweep over one token.
#[derive(Clone, Copy, Debug, PartialEq, Eq)]
pub struct FeeProbe {
    pub profile: TokenProfile,
    pub state: ProbeState,
}

impl FeeProbe {
    pub open spec fn wf(self) -> bool {
        &&& self.profile.wf()
        &&& match self.state {
            ProbeState::Sweeping(i) | ProbeState::Succeeded(i) => 1 <= i <= SWEEP_FIRST_INDEX,
            _ => true,
        }
    }

    /// Whether `q` is the swap of sweep index `index`.
    pub open spec fn is_request(self, q: SwapRequest, index: u32) -> bool {
        &&& q.index == index
        &&& q.amount_out.value() == self.profile.reference_output_spec(index as nat)
        &&& q.max_input.value() == ONE_ETH_WEI
        &&& q.deadline == ROUTER_DEADLINE
    }

    pub fn new(profile: TokenProfile) -> (r: FeeProbe)
        requires
            profile.wf(),
        ensures
            r.wf(),
            r.profile == profile,
            r.state == ProbeState::NotStarted,
    {
        FeeProbe { profile, state: ProbeState::NotStarted }
    }

    /// The swap of sweep index `index`.
    pub fn swap_at(&self, index: u32) -> (r: SwapRequest)
        requires
            self.wf(),
            1 <= index <= SWEEP_FIRST_INDEX,
        ensures
            self.is_request(r, index),
    {
        SwapRequest {
            index,
            amount_out: self.profile.reference_output(index),
            max_input: one_eth(),
            deadline: ROUTER_DEADLINE,
        }
    }

    /// Begins the sweep at its largest index and names the first swap.
    pub fn start(&mut self) -> (r: SwapRequest)
        requires
            old(self).wf(),
            old(self).state == ProbeState::NotStarted,
        ensures
            final(self).wf(),
            final(self).profile == old(self).profile,
            final(self).state == ProbeState::Sweeping(SWEEP_FIRST_INDEX),
            final(self).is_request(r, SWEEP_FIRST_INDEX),
    {
        self.state = ProbeState::Sweeping(SWEEP_FIRST_INDEX);
        self.swap_at(SWEEP_FIRST_INDEX)
    }

    /// Takes in whether the last swap was included, and names the next swap
    /// while the sweep goes on.
    pub fn record(&mut self, included: bool) -> (r: Option<SwapRequest>)
        requires
            old(self).wf(),
            old(self).state is Sweeping,
        ensures
            final(self).wf(),
            final(self).profile == old(self).profile,
            final(self).state == step(old(self).state, included),
            r is Some <==> final(self).state is Sweeping,
            r matches Some(q) ==> final(self).state == ProbeState::Sweeping(q.index)
                && final(self).is_request(q, q.index),
    {
        match self.state {
            ProbeState::Sweeping(i) => {
                if included {
                    self.state = ProbeState::Succeeded(i);
                    None
                } else if i > 1 {
                    self.state = ProbeState::Sweeping(i - 1);
                    Some(self.swap_at(i - 1))
                } else {
                    self.state = ProbeState::Exhausted;
                    None
                }
            },
            _ => None,
        }
    }

    /// The report of a finished sweep, given the trader's token balance read
    /// after the included swap.
    pub fn finish(&self, received: &Amount) -> (r: Result<ProbeResult, ProbeError>)
        requires
            self.wf(),
            self.state is Succeeded || self.state is Exhausted,
        ensures
            self.state is Exhausted ==> r == Err::<ProbeResult, ProbeError>(
                ProbeError::NoTradableAmount,
            ),
            self.state matches ProbeState::Succeeded(i) ==> {
                let req = self.profile.reference_output_spec(i as nat);
                &&& (r is Ok <==> req > 0 && received.value() * 100 < amount_limit())
                &&& (r is Err ==> r == Err::<ProbeResult, ProbeError>(ProbeError::FeeUndefined))
                &&& (r matches Ok(p) ==> p.index == i && p.requested.value() == req && p.received
                    == *received && p.fee.value() == fee_of(req, received.value()))
            },
    {
        match self.state {
            ProbeState::Succeeded(i) => {
                let requested = self.profile.reference_output(i);
                match compute_fee(&requested, received) {
                    Some(fee) => Ok(ProbeResult { index: i, requested, received: *received, fee }),
                    None => Err(ProbeError::FeeUndefined),
                }
            },
            _ => Err(ProbeError::NoTradableAmount),
        }
    }
}

} // verus!
