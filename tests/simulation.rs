use simulate_new_contracts::address::ChainAddress;
use simulate_new_contracts::amount::Amount;
use simulate_new_contracts::bootstrap::{BootstrapError, BootstrapStep};
use simulate_new_contracts::probe::ProbeError;
use simulate_new_contracts::resolver::ResolutionError;
use simulate_new_contracts::run::{RunFailure, RunReport, SubmitOutcome};
use simulate_new_contracts::simulation::{SimAction, SimEvent, Simulation};

const E18: u128 = 1_000_000_000_000_000_000;

fn addr(b: u8) -> ChainAddress {
    ChainAddress::new([b; 20])
}

fn as_u128(a: Amount) -> u128 {
    assert_eq!((a.w2, a.w3), (0, 0));
    ((a.w1 as u128) << 64) + a.w0 as u128
}

/// A forked chain holding one token: it refuses buys above `cap` and keeps
/// `tax_percent` of each buy.
struct ChainDouble {
    supply: u128,
    owner: Option<ChainAddress>,
    balances: Vec<(ChainAddress, Option<u128>)>,
    cap: u128,
    tax_percent: u128,
    approve_included: bool,
    approved: bool,
    received: u128,
    swaps: Vec<u32>,
}

impl ChainDouble {
    fn new(supply: u128, cap: u128, tax_percent: u128) -> Self {
        ChainDouble {
            supply,
            owner: Some(addr(2)),
            balances: vec![(addr(2), Some(supply / 2)), (addr(1), Some(0))],
            cap,
            tax_percent,
            approve_included: true,
            approved: false,
            received: 0,
            swaps: vec![],
        }
    }

    fn balance(&self, who: ChainAddress) -> Option<Amount> {
        let found = self.balances.iter().find(|(a, _)| *a == who);
        found.and_then(|(_, b)| b.map(Amount::from_u128))
    }

    fn answer(&mut self, action: SimAction) -> Result<SimEvent, RunReport> {
        Ok(match action {
            SimAction::Done(report) => return Err(report),
            SimAction::ReadProfile => SimEvent::Profile(Some((Amount::from_u128(self.supply), 18))),
            SimAction::ReadOwner => SimEvent::Owner(self.owner),
            SimAction::ReadBalance { who } => SimEvent::Balance(self.balance(who)),
            SimAction::Bootstrap(step) => SimEvent::Submitted(match step {
                BootstrapStep::Approve { .. } => {
                    self.approved = self.approve_included;
                    if self.approve_included {
                        SubmitOutcome::Included
                    } else {
                        SubmitOutcome::Reverted
                    }
                }
                BootstrapStep::AddLiquidity { .. } => {
                    assert!(self.approved, "liquidity before approval");
                    SubmitOutcome::Included
                }
                BootstrapStep::EnableTrading { .. } => SubmitOutcome::Reverted,
                _ => SubmitOutcome::Included,
            }),
            SimAction::FundTrader { .. } => SimEvent::Submitted(SubmitOutcome::Included),
            SimAction::Swap(q) => {
                self.swaps.push(q.index);
                let out = as_u128(q.amount_out);
                if out <= self.cap {
                    self.received = out * (100 - self.tax_percent) / 100;
                    SimEvent::Submitted(SubmitOutcome::Included)
                } else {
                    SimEvent::Submitted(SubmitOutcome::Reverted)
                }
            }
            SimAction::ReadReceived => SimEvent::Balance(Some(Amount::from_u128(self.received))),
            SimAction::ReadReserves => {
                SimEvent::Reserves(Some((Amount::from_u64(1), Amount::from_u64(2))))
            }
        })
    }

    fn run(&mut self) -> RunReport {
        let mut sim = Simulation::new(addr(9), addr(1), addr(8));
        loop {
            match self.answer(sim.next_action()) {
                Ok(event) => sim.on_event(event),
                Err(report) => return report,
            }
        }
    }
}

#[test]
fn run_untaxed_token_succeeds_at_first_index() {
    let supply = 1_000_000 * E18;
    let mut chain = ChainDouble::new(supply, supply, 0);
    let report = chain.run();
    assert_eq!(chain.swaps, vec![499]);
    assert_eq!(report.holder, Some(addr(2)));
    let res = report.outcome.unwrap();
    assert_eq!(res.index, 499);
    assert_eq!(as_u128(res.requested), 49_900 * E18 - E18);
    assert!(!res.fee.surplus);
    assert!(res.fee.points.is_zero());
    assert_eq!(report.reserves, Some((Amount::from_u64(1), Amount::from_u64(2))));
}

#[test]
fn run_capped_token_reports_its_tax() {
    let supply = 1_000_000 * E18;
    let mut chain = ChainDouble::new(supply, supply / 50, 25);
    let report = chain.run();
    assert_eq!(*chain.swaps.first().unwrap(), 499);
    assert_eq!(*chain.swaps.last().unwrap(), 200);
    let res = report.outcome.unwrap();
    assert_eq!(res.index, 200);
    assert_eq!(res.fee.points, Amount::from_u64(25));
    assert!(!res.fee.surplus);
}

#[test]
fn run_without_tradable_amount_reports_no_fee() {
    let supply = 1_000_000 * E18;
    let mut chain = ChainDouble::new(supply, 0, 0);
    let report = chain.run();
    assert_eq!(chain.swaps.len(), 499);
    assert_eq!(report.outcome, Err(RunFailure::Probe(ProbeError::NoTradableAmount)));
    assert!(report.reserves.is_some());
}

#[test]
fn run_with_zero_balances_stops_at_resolution() {
    let mut chain = ChainDouble::new(1000 * E18, 1000 * E18, 0);
    chain.balances = vec![(addr(2), Some(0)), (addr(1), Some(0))];
    let report = chain.run();
    assert_eq!(report.holder, None);
    assert_eq!(report.outcome, Err(RunFailure::Resolution(ResolutionError::ZeroBalance)));
    assert!(chain.swaps.is_empty());
}

#[test]
fn run_uses_owner_address_with_creator_balance() {
    let mut chain = ChainDouble::new(1000 * E18, 1000 * E18, 0);
    chain.balances = vec![(addr(2), Some(0)), (addr(1), Some(5 * E18))];
    let report = chain.run();
    assert_eq!(report.holder, Some(addr(2)));
    assert!(report.outcome.is_ok());
}

#[test]
fn run_stops_when_approval_reverts() {
    let mut chain = ChainDouble::new(1000 * E18, 1000 * E18, 0);
    chain.approve_included = false;
    let report = chain.run();
    assert_eq!(report.outcome, Err(RunFailure::Bootstrap(BootstrapError::ApproveFailed)));
    assert!(chain.swaps.is_empty());
}

#[test]
fn run_ends_on_a_missing_profile() {
    let mut sim = Simulation::new(addr(9), addr(1), addr(8));
    sim.on_event(SimEvent::Profile(None));
    match sim.next_action() {
        SimAction::Done(report) => {
            assert_eq!(report.outcome, Err(RunFailure::Environment));
            assert_eq!(report.holder, None);
        }
        other => panic!("unexpected action {:?}", other),
    }
}

#[test]
fn run_ends_on_a_fill_failure_during_the_sweep() {
    let supply = 1_000_000 * E18;
    let mut chain = ChainDouble::new(supply, supply, 0);
    let mut sim = Simulation::new(addr(9), addr(1), addr(8));
    loop {
        let action = sim.next_action();
        if let SimAction::Swap(_) = action {
            sim.on_event(SimEvent::Submitted(SubmitOutcome::FillFailed));
            break;
        }
        let event = chain.answer(action).unwrap();
        sim.on_event(event);
    }
    match sim.next_action() {
        SimAction::Done(report) => assert_eq!(report.outcome, Err(RunFailure::Environment)),
        other => panic!("unexpected action {:?}", other),
    }
}
