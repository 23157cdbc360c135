use simulate_new_contracts::address::ChainAddress;
use simulate_new_contracts::amount::Amount;
use simulate_new_contracts::bootstrap::{BootstrapError, BootstrapStep, Bootstrapper};
use simulate_new_contracts::probe::{compute_fee, FeeProbe, ProbeError, ProbeState, SwapRequest};
use simulate_new_contracts::resolver::{
    get_owner_with_balance, needs_creator_balance, primary_holder, OwnerResolution,
    ResolutionError,
};
use simulate_new_contracts::run::SubmitOutcome;
use simulate_new_contracts::token::{one_eth, ten_eth, TokenProfile};

const E18: u128 = 1_000_000_000_000_000_000;

fn addr(b: u8) -> ChainAddress {
    ChainAddress::new([b; 20])
}

fn amt(x: u128) -> Amount {
    Amount::from_u128(x)
}

fn as_u128(a: Amount) -> u128 {
    assert_eq!((a.w2, a.w3), (0, 0));
    ((a.w1 as u128) << 64) + a.w0 as u128
}

#[test]
fn addresses_compare_by_bytes() {
    assert!(addr(1).same_as(&addr(1)));
    let mut b = [1u8; 20];
    b[19] = 2;
    assert!(!addr(1).same_as(&ChainAddress::new(b)));
}

#[test]
fn resolver_owner_missing() {
    let creator = addr(1);
    assert_eq!(primary_holder(&creator, &None), creator);
    assert!(!needs_creator_balance(&creator, &None, &Some(amt(0))));
    let r = get_owner_with_balance(&creator, &None, &Some(amt(5)), &None);
    assert_eq!(r, Ok(OwnerResolution { holder: creator, balance: amt(5) }));
    let r = get_owner_with_balance(&creator, &None, &Some(amt(0)), &None);
    assert_eq!(r, Err(ResolutionError::ZeroBalance));
    let r = get_owner_with_balance(&creator, &None, &None, &None);
    assert_eq!(r, Err(ResolutionError::NotAnErc20));
}

#[test]
fn resolver_owner_is_creator() {
    let creator = addr(1);
    let owner = Some(addr(1));
    assert!(!needs_creator_balance(&creator, &owner, &Some(amt(0))));
    let r = get_owner_with_balance(&creator, &owner, &Some(amt(9)), &None);
    assert_eq!(r, Ok(OwnerResolution { holder: creator, balance: amt(9) }));
    let r = get_owner_with_balance(&creator, &owner, &Some(amt(0)), &Some(amt(9)));
    assert_eq!(r, Err(ResolutionError::ZeroBalance));
    let r = get_owner_with_balance(&creator, &owner, &None, &None);
    assert_eq!(r, Err(ResolutionError::NotAnErc20));
}

#[test]
fn resolver_owner_differs_with_owner_balance() {
    let creator = addr(1);
    let owner = Some(addr(2));
    assert_eq!(primary_holder(&creator, &owner), addr(2));
    assert!(!needs_creator_balance(&creator, &owner, &Some(amt(3))));
    let r = get_owner_with_balance(&creator, &owner, &Some(amt(3)), &None);
    assert_eq!(r, Ok(OwnerResolution { holder: addr(2), balance: amt(3) }));
}

#[test]
fn resolver_owner_differs_uses_creator_balance_with_owner_address() {
    let creator = addr(1);
    let owner = Some(addr(2));
    assert!(needs_creator_balance(&creator, &owner, &Some(amt(0))));
    let r = get_owner_with_balance(&creator, &owner, &Some(amt(0)), &Some(amt(40)));
    assert_eq!(r, Ok(OwnerResolution { holder: addr(2), balance: amt(40) }));
}

#[test]
fn resolver_owner_differs_both_zero_or_failing() {
    let creator = addr(1);
    let owner = Some(addr(2));
    let r = get_owner_with_balance(&creator, &owner, &Some(amt(0)), &Some(amt(0)));
    assert_eq!(r, Err(ResolutionError::ZeroBalance));
    let r = get_owner_with_balance(&creator, &owner, &Some(amt(0)), &None);
    assert_eq!(r, Err(ResolutionError::NotAnErc20));
    let r = get_owner_with_balance(&creator, &owner, &None, &Some(amt(7)));
    assert_eq!(r, Err(ResolutionError::NotAnErc20));
}

fn fee_value(requested: u128, received: u128) -> i128 {
    let f = compute_fee(&amt(requested), &amt(received)).unwrap();
    let m = as_u128(f.points) as i128;
    if f.surplus {
        -m
    } else {
        m
    }
}

#[test]
fn fee_examples() {
    assert_eq!(fee_value(1000, 1000), 0);
    assert_eq!(fee_value(1000, 750), 25);
    assert_eq!(fee_value(1000, 1100), -10);
    assert_eq!(fee_value(1000, 0), 100);
    assert_eq!(fee_value(3, 2), 34);
}

#[test]
fn fee_undefined_inputs() {
    assert!(compute_fee(&Amount::zero(), &amt(5)).is_none());
    assert!(compute_fee(&amt(5), &Amount::max()).is_none());
}

/// Runs the sweep against a swap double; returns the attempted indices and the
/// probe at its end.
fn sweep(profile: TokenProfile, included: impl Fn(&SwapRequest) -> bool) -> (Vec<u32>, FeeProbe) {
    let mut probe = FeeProbe::new(profile);
    let mut next = Some(probe.start());
    let mut attempted = Vec::new();
    while let Some(req) = next {
        assert_eq!(req.amount_out, profile.reference_output(req.index));
        assert_eq!(req.max_input, one_eth());
        attempted.push(req.index);
        next = probe.record(included(&req));
    }
    (attempted, probe)
}

fn million_token_profile() -> TokenProfile {
    TokenProfile::new(amt(1_000_000 * E18), 18).unwrap()
}

#[test]
fn sweep_all_reverts_reports_no_tradable_amount() {
    let (attempted, probe) = sweep(million_token_profile(), |_| false);
    assert_eq!(attempted, (1..500u32).rev().collect::<Vec<u32>>());
    assert_eq!(probe.state, ProbeState::Exhausted);
    assert_eq!(probe.finish(&amt(0)), Err(ProbeError::NoTradableAmount));
}

#[test]
fn sweep_stops_at_first_success() {
    let profile = million_token_profile();
    let (attempted, probe) = sweep(profile, |q| q.index <= 300);
    assert_eq!(attempted, (300..500u32).rev().collect::<Vec<u32>>());
    assert_eq!(probe.state, ProbeState::Succeeded(300));
    let baseline = profile.reference_output(300);
    let res = probe.finish(&baseline).unwrap();
    assert_eq!(res.index, 300);
    assert_eq!(res.requested, baseline);
    assert_eq!(res.received, baseline);
    assert!(!res.fee.surplus);
    assert!(res.fee.points.is_zero());
}

#[test]
fn end_to_end_untaxed_token() {
    let profile = million_token_profile();
    let (attempted, probe) = sweep(profile, |_| true);
    assert_eq!(attempted, vec![499]);
    let requested = profile.reference_output(499);
    assert_eq!(requested, amt(49_900 * E18 - E18));
    let res = probe.finish(&requested).unwrap();
    assert_eq!(res.index, 499);
    assert!(!res.fee.surplus);
    assert_eq!(res.fee.points, Amount::zero());
}

#[test]
fn end_to_end_capped_and_taxed_token() {
    // The token refuses transfers above 2% of its supply and keeps 25% of each buy.
    let supply = 1_000_000 * E18;
    let cap = supply / 50;
    let profile = million_token_profile();
    let (attempted, probe) = sweep(profile, |q| as_u128(q.amount_out) <= cap);
    assert_eq!(*attempted.last().unwrap(), 200);
    assert_eq!(attempted.len(), 300);
    let requested = as_u128(profile.reference_output(200));
    assert!(requested <= cap);
    assert!(as_u128(profile.reference_output(201)) > cap);
    let received = requested * 3 / 4;
    let res = probe.finish(&amt(received)).unwrap();
    assert_eq!(res.index, 200);
    assert!(!res.fee.surplus);
    assert_eq!(res.fee.points, amt(25));
}

#[test]
fn finish_with_nothing_requested_is_undefined() {
    let profile = TokenProfile::new(amt(5), 18).unwrap();
    let (attempted, probe) = sweep(profile, |_| true);
    assert_eq!(attempted, vec![499]);
    assert_eq!(probe.finish(&amt(0)), Err(ProbeError::FeeUndefined));
}

/// A fork double that refuses liquidity without a prior included approval.
struct PoolDouble {
    approved: bool,
    approve_succeeds: bool,
    liquidity_added: bool,
    calls: Vec<&'static str>,
}

impl PoolDouble {
    fn submit(&mut self, step: &BootstrapStep) -> SubmitOutcome {
        match step {
            BootstrapStep::Provision { .. } => {
                self.calls.push("provision");
                SubmitOutcome::Included
            }
            BootstrapStep::Approve { .. } => {
                self.calls.push("approve");
                self.approved = self.approve_succeeds;
                if self.approve_succeeds {
                    SubmitOutcome::Included
                } else {
                    SubmitOutcome::Reverted
                }
            }
            BootstrapStep::AddLiquidity { .. } => {
                self.calls.push("add_liquidity");
                assert!(self.approved, "liquidity submitted before approval");
                self.liquidity_added = true;
                SubmitOutcome::Included
            }
            BootstrapStep::EnableTrading { .. } => {
                self.calls.push("enable_trading");
                SubmitOutcome::Reverted
            }
            BootstrapStep::Finished(_) => panic!("nothing to submit"),
        }
    }
}

fn bootstrap(approve_succeeds: bool) -> (PoolDouble, Result<(), BootstrapError>) {
    let res = OwnerResolution { holder: addr(2), balance: amt(77) };
    let mut b = Bootstrapper::new(addr(9), addr(8), &res);
    let mut pool = PoolDouble { approved: false, approve_succeeds, liquidity_added: false, calls: vec![] };
    loop {
        let step = b.next_step();
        if let BootstrapStep::Finished(r) = step {
            assert_eq!(b.outcome(), Some(r));
            return (pool, r);
        }
        let outcome = pool.submit(&step);
        b.record(outcome.is_included());
    }
}

#[test]
fn bootstrap_approves_before_adding_liquidity() {
    let (pool, r) = bootstrap(true);
    assert_eq!(r, Ok(()));
    assert!(pool.liquidity_added);
    assert_eq!(pool.calls, vec!["provision", "approve", "add_liquidity", "enable_trading"]);
}

#[test]
fn bootstrap_stops_when_approval_reverts() {
    let (pool, r) = bootstrap(false);
    assert_eq!(r, Err(BootstrapError::ApproveFailed));
    assert!(!pool.liquidity_added);
    assert_eq!(pool.calls, vec!["provision", "approve"]);
}

#[test]
fn bootstrap_steps_carry_the_resolution() {
    let res = OwnerResolution { holder: addr(2), balance: amt(77) };
    let mut b = Bootstrapper::new(addr(9), addr(8), &res);
    assert_eq!(b.next_step(), BootstrapStep::Provision { holder: addr(2), native_balance: ten_eth() });
    b.record(true);
    assert_eq!(
        b.next_step(),
        BootstrapStep::Approve {
            holder: addr(2),
            token: addr(9),
            spender: addr(8),
            allowance: Amount::max(),
        }
    );
    b.record(true);
    assert_eq!(
        b.next_step(),
        BootstrapStep::AddLiquidity {
            holder: addr(2),
            token: addr(9),
            amount_token: amt(77),
            amount_token_min: amt(77),
            amount_eth_min: one_eth(),
            value: one_eth(),
        }
    );
    b.record(false);
    assert_eq!(b.next_step(), BootstrapStep::Finished(Err(BootstrapError::AddLiquidityFailed)));
}

#[test]
fn submit_outcomes_classify() {
    assert!(SubmitOutcome::Included.is_included());
    assert!(!SubmitOutcome::Reverted.is_included());
    assert!(!SubmitOutcome::Reverted.is_fault());
    assert!(SubmitOutcome::FillFailed.is_fault());
}
