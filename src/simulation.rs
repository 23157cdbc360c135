//! One run from the token's facts to the report: which call to make next on
//! the fork, and what each outcome leads to.
//!
//! A fault of the fork or a view call that does not answer ends the run as an
//! environment failure; the resolver, the bootstrapper and the sweep end it
//! with their own named outcomes.
use crate::address::ChainAddress;
use crate::amount::{amount_limit, Amount};
use crate::bootstrap::{BootstrapStage, BootstrapStep, Bootstrapper};
use crate::probe::{
    fee_of, step, FeeProbe, ProbeError, ProbeResult, ProbeState, SwapRequest, SWEEP_FIRST_INDEX,
};
use crate::resolver::{
    creator_balance_needed, get_owner_with_balance, needs_creator_balance, primary_holder,
    resolution_of, OwnerResolution, ResolutionError,
};
use crate::run::{RunFailure, RunReport, SubmitOutcome};
use crate::token::{ten_eth, TokenProfile, TEN_ETH_WEI};
use vstd::arithmetic::power::pow;
use vstd::prelude::*;

verus! {

/// What the caller does next.
#[derive(Clone, Copy, Debug, PartialEq, Eq)]
pub enum SimAction {
    /// Read `totalSupply()` and `decimals()` of the token.
    ReadProfile,
    /// Read `owner()` of the token; a call that does not exist gives `None`.
    ReadOwner,
    /// Read `balanceOf(who)` on the token.
    ReadBalance { who: ChainAddress },
    /// Perform a bootstrap step.
    Bootstrap(BootstrapStep),
    /// Impersonate a fresh trader and set its native balance.
    FundTrader { native_balance: Amount },
    /// Submit a swap from the trader.
    Swap(SwapRequest),
    /// Mine one block, then read the trader's token balance.
    ReadReceived,
    /// Look up the pair of the token and read its reserves.
    ReadReserves,
    /// The run is over.
    Done(RunReport),
}

/// What came back from the last action.
#[derive(Clone, Copy, Debug, PartialEq, Eq)]
pub enum SimEvent {
    Profile(Option<(Amount, u8)>),
    Owner(Option<ChainAddress>),
    Balance(Option<Amount>),
    Submitted(SubmitOutcome),
    Reserves(Option<(Amount, Amount)>),
}

#[derive(Clone, Copy, Debug, PartialEq, Eq)]
pub enum SimStage {
    ReadingProfile,
    ReadingOwner { profile: TokenProfile },
    ReadingFirst { profile: TokenProfile, owner: Option<ChainAddress> },
    ReadingCreator { profile: TokenProfile, owner: Option<ChainAddress>, first: Option<Amount> },
    Bootstrapping { profile: TokenProfile, boot: Bootstrapper },
    Funding { profile: TokenProfile },
    Sweeping { probe: FeeProbe },
    Receiving { probe: FeeProbe },
    ReadingReserves { outcome: Result<ProbeResult, RunFailure> },
    Finished(RunReport),
}

#[derive(Clone, Copy, Debug, PartialEq, Eq)]
pub struct Simulation {
    pub token: ChainAddress,
    pub creator: ChainAddress,
    pub router: ChainAddress,
    pub holder: Option<ChainAddress>,
    pub stage: SimStage,
}

/// The report of a run that ends with `outcome` before the reserves are read.
pub open spec fn ended(
    holder: Option<ChainAddress>,
    outcome: Result<ProbeResult, RunFailure>,
) -> SimStage {
    SimStage::Finished(RunReport { holder, outcome, reserves: None })
}

/// The outcome of a sweep that stopped at index `i`, given what the trader
/// received.
pub open spec fn sweep_outcome(
    profile: TokenProfile,
    i: u32,
    received: Amount,
    outcome: Result<ProbeResult, RunFailure>,
) -> bool {
    let req = profile.reference_output_spec(i as nat);
    if req > 0 && received.value() * 100 < amount_limit() {
        outcome matches Ok(p) && p.index == i && p.requested.value() == req && p.received
            == received && p.fee.value() == fee_of(req, received.value())
    } else {
        outcome == Err::<ProbeResult, RunFailure>(RunFailure::Probe(ProbeError::FeeUndefined))
    }
}

impl Simulation {
    pub open spec fn wf(self) -> bool {
        match self.stage {
            SimStage::ReadingProfile => true,
            SimStage::ReadingOwner { profile } => profile.wf(),
            SimStage::ReadingFirst { profile, .. } => profile.wf(),
            SimStage::ReadingCreator { profile, .. } => profile.wf(),
            SimStage::Bootstrapping { profile, boot } => {
                &&& profile.wf()
                &&& boot.wf()
                &&& boot.token == self.token
                &&& boot.router == self.router
                &&& !(boot.stage is Ready) && !(boot.stage is Failed)
            },
            SimStage::Funding { profile } => profile.wf(),
            SimStage::Sweeping { probe } => probe.wf() && probe.state is Sweeping,
            SimStage::Receiving { probe } => probe.wf() && probe.state is Succeeded,
            _ => true,
        }
    }

    /// The stage once the resolver has decided.
    pub open spec fn resolved(
        self,
        profile: TokenProfile,
        r: Result<OwnerResolution, ResolutionError>,
    ) -> Simulation {
        match r {
            Ok(res) => Simulation {
                holder: Some(res.holder),
                stage: SimStage::Bootstrapping {
                    profile,
                    boot: Bootstrapper {
                        token: self.token,
                        router: self.router,
                        holder: res.holder,
                        balance: res.balance,
                        stage: BootstrapStage::Provision,
                        approve_confirmed: false,
                    },
                },
                ..self
            },
            Err(e) => Simulation {
                stage: ended(self.holder, Err(RunFailure::Resolution(e))),
                ..self
            },
        }
    }

    /// How the run moves from `self` to `next` on `event`. An event that does
    /// not answer the current action ends the run as an environment failure.
    pub open spec fn transition(self, event: SimEvent, next: Simulation) -> bool {
        let fault = Simulation { stage: ended(self.holder, Err(RunFailure::Environment)), ..self };
        match (self.stage, event) {
            (SimStage::Finished(_), _) => next == self,
            (SimStage::ReadingProfile, SimEvent::Profile(Some((supply, decimals)))) => {
                if pow(10, decimals as nat) < amount_limit() {
                    &&& next.stage matches SimStage::ReadingOwner { profile }
                    &&& profile.wf() && profile.total_supply == supply && profile.decimals
                        == decimals
                    &&& next == Simulation { stage: next.stage, ..self }
                } else {
                    next == fault
                }
            },
            (SimStage::ReadingOwner { profile }, SimEvent::Owner(owner)) => next == Simulation {
                stage: SimStage::ReadingFirst { profile, owner },
                ..self
            },
            (SimStage::ReadingFirst { profile, owner }, SimEvent::Balance(first)) => {
                if creator_balance_needed(self.creator, owner, first) {
                    next == Simulation {
                        stage: SimStage::ReadingCreator { profile, owner, first },
                        ..self
                    }
                } else {
                    next == self.resolved(profile, resolution_of(self.creator, owner, first, None))
                }
            },
            (SimStage::ReadingCreator { profile, owner, first }, SimEvent::Balance(second)) => next
                == self.resolved(profile, resolution_of(self.creator, owner, first, second)),
            (SimStage::Bootstrapping { profile, boot }, SimEvent::Submitted(o)) => {
                let b2 = boot.after(o == SubmitOutcome::Included);
                if o == SubmitOutcome::FillFailed {
                    next == fault
                } else {
                    match b2.stage {
                        BootstrapStage::Ready => next == Simulation {
                            stage: SimStage::Funding { profile },
                            ..self
                        },
                        BootstrapStage::Failed(e) => next == Simulation {
                            stage: ended(self.holder, Err(RunFailure::Bootstrap(e))),
                            ..self
                        },
                        _ => next == Simulation {
                            stage: SimStage::Bootstrapping { profile, boot: b2 },
                            ..self
                        },
                    }
                }
            },
            (SimStage::Funding { profile }, SimEvent::Submitted(o)) => {
                if o == SubmitOutcome::Included {
                    next == Simulation {
                        stage: SimStage::Sweeping {
                            probe: FeeProbe {
                                profile,
                                state: ProbeState::Sweeping(SWEEP_FIRST_INDEX),
                            },
                        },
                        ..self
                    }
                } else {
                    next == fault
                }
            },
            (SimStage::Sweeping { probe }, SimEvent::Submitted(o)) => {
                let p2 = FeeProbe {
                    state: step(probe.state, o == SubmitOutcome::Included),
                    ..probe
                };
                if o == SubmitOutcome::FillFailed {
                    next == fault
                } else {
                    match p2.state {
                        ProbeState::Succeeded(_) => next == Simulation {
                            stage: SimStage::Receiving { probe: p2 },
                            ..self
                        },
                        ProbeState::Exhausted => next == Simulation {
                            stage: SimStage::ReadingReserves {
                                outcome: Err(RunFailure::Probe(ProbeError::NoTradableAmount)),
                            },
                            ..self
                        },
                        _ => next == Simulation { stage: SimStage::Sweeping { probe: p2 }, ..self },
                    }
                }
            },
            (SimStage::Receiving { probe }, SimEvent::Balance(Some(received))) => {
                &&& next.stage matches SimStage::ReadingReserves { outcome }
                &&& probe.state matches ProbeState::Succeeded(i)
                &&& sweep_outcome(probe.profile, i, received, outcome)
                &&& next == Simulation { stage: next.stage, ..self }
            },
            (SimStage::ReadingReserves { outcome }, SimEvent::Reserves(reserves)) => next
                == Simulation {
                stage: SimStage::Finished(RunReport { holder: self.holder, outcome, reserves }),
                ..self
            },
            _ => next == fault,
        }
    }

    /// The action that the current stage asks for.
    pub open spec fn action_matches(self, a: SimAction) -> bool {
        match self.stage {
            SimStage::ReadingProfile => a == SimAction::ReadProfile,
            SimStage::ReadingOwner { .. } => a == SimAction::ReadOwner,
            SimStage::ReadingFirst { owner, .. } => a == SimAction::ReadBalance {
                who: match owner {
                    Some(o) => o,
                    None => self.creator,
                },
            },
            SimStage::ReadingCreator { .. } => a == SimAction::ReadBalance { who: self.creator },
            SimStage::Bootstrapping { boot, .. } => a == SimAction::Bootstrap(boot.step_spec()),
            SimStage::Funding { .. } => a == SimAction::FundTrader {
                native_balance: Amount { w0: TEN_ETH_WEI, w1: 0, w2: 0, w3: 0 },
            },
            SimStage::Sweeping { probe } => a matches SimAction::Swap(q) && probe.state
                == ProbeState::Sweeping(q.index) && probe.is_request(q, q.index),
            SimStage::Receiving { .. } => a == SimAction::ReadReceived,
            SimStage::ReadingReserves { .. } => a == SimAction::ReadReserves,
            SimStage::Finished(report) => a == SimAction::Done(report),
        }
    }

    pub fn new(token: ChainAddress, creator: ChainAddress, router: ChainAddress) -> (r: Simulation)
        ensures
            r.wf(),
            r == (Simulation {
                token,
                creator,
                router,
                holder: None,
                stage: SimStage::ReadingProfile,
            }),
    {
        Simulation { token, creator, router, holder: None, stage: SimStage::ReadingProfile }
    }

    pub fn next_action(&self) -> (r: SimAction)
        requires
            self.wf(),
        ensures
            self.action_matches(r),
    {
        match self.stage {
            SimStage::ReadingProfile => SimAction::ReadProfile,
            SimStage::ReadingOwner { .. } => SimAction::ReadOwner,
            SimStage::ReadingFirst { owner, .. } => SimAction::ReadBalance {
                who: primary_holder(&self.creator, &owner),
            },
            SimStage::ReadingCreator { .. } => SimAction::ReadBalance { who: self.creator },
            SimStage::Bootstrapping { boot, .. } => SimAction::Bootstrap(boot.next_step()),
            SimStage::Funding { .. } => SimAction::FundTrader { native_balance: ten_eth() },
            SimStage::Sweeping { probe } => match probe.state {
                ProbeState::Sweeping(i) => SimAction::Swap(probe.swap_at(i)),
                _ => SimAction::ReadReceived,
            },
            SimStage::Receiving { .. } => SimAction::ReadReceived,
            SimStage::ReadingReserves { .. } => SimAction::ReadReserves,
            SimStage::Finished(report) => SimAction::Done(report),
        }
    }

    fn fail(&mut self, failure: RunFailure)
        ensures
            *final(self) == (Simulation {
                stage: ended(old(self).holder, Err(failure)),
                ..*old(self)
            }),
    {
        self.stage = SimStage::Finished(
            RunReport { holder: self.holder, outcome: Err(failure), reserves: None },
        );
    }

    fn resolve(
        &mut self,
        profile: TokenProfile,
        owner: Option<ChainAddress>,
        first: Option<Amount>,
        second: Option<Amount>,
    )
        requires
            profile.wf(),
            old(self).wf(),
        ensures
            *final(self) == old(self).resolved(
                profile,
                resolution_of(old(self).creator, owner, first, second),
            ),
            final(self).wf(),
    {
        match get_owner_with_balance(&self.creator, &owner, &first, &second) {
            Ok(res) => {
                self.holder = Some(res.holder);
                self.stage = SimStage::Bootstrapping {
                    profile,
                    boot: Bootstrapper::new(self.token, self.router, &res),
                };
            },
            Err(e) => self.fail(RunFailure::Resolution(e)),
        }
    }

    /// Takes in what came back from the last action.
    pub fn on_event(&mut self, event: SimEvent)
        requires
            old(self).wf(),
        ensures
            final(self).wf(),
            old(self).transition(event, *final(self)),
    {
        match (self.stage, event) {
            (SimStage::Finished(_), _) => {},
            (SimStage::ReadingProfile, SimEvent::Profile(Some((supply, decimals)))) => {
                match TokenProfile::new(supply, decimals) {
                    Some(profile) => {
                        self.stage = SimStage::ReadingOwner { profile };
                    },
                    None => self.fail(RunFailure::Environment),
                }
            },
            (SimStage::ReadingOwner { profile }, SimEvent::Owner(owner)) => {
                self.stage = SimStage::ReadingFirst { profile, owner };
            },
            (SimStage::ReadingFirst { profile, owner }, SimEvent::Balance(first)) => {
                if needs_creator_balance(&self.creator, &owner, &first) {
                    self.stage = SimStage::ReadingCreator { profile, owner, first };
                } else {
                    self.resolve(profile, owner, first, None);
                }
            },
            (SimStage::ReadingCreator { profile, owner, first }, SimEvent::Balance(second)) => {
                self.resolve(profile, owner, first, second);
            },
            (SimStage::Bootstrapping { profile, boot }, SimEvent::Submitted(o)) => {
                if o.is_fault() {
                    self.fail(RunFailure::Environment);
                } else {
                    let mut b = boot;
                    b.record(o.is_included());
                    match b.outcome() {
                        Some(Ok(())) => {
                            self.stage = SimStage::Funding { profile };
                        },
                        Some(Err(e)) => self.fail(RunFailure::Bootstrap(e)),
                        None => {
                            self.stage = SimStage::Bootstrapping { profile, boot: b };
                        },
                    }
                }
            },
            (SimStage::Funding { profile }, SimEvent::Submitted(o)) => {
                if o.is_included() {
                    let mut probe = FeeProbe::new(profile);
                    probe.start();
                    self.stage = SimStage::Sweeping { probe };
                } else {
                    self.fail(RunFailure::Environment);
                }
            },
            (SimStage::Sweeping { probe }, SimEvent::Submitted(o)) => {
                if o.is_fault() {
                    self.fail(RunFailure::Environment);
                } else {
                    let mut p = probe;
                    p.record(o.is_included());
                    match p.state {
                        ProbeState::Succeeded(_) => {
                            self.stage = SimStage::Receiving { probe: p };
                        },
                        ProbeState::Exhausted => {
                            self.stage = SimStage::ReadingReserves {
                                outcome: Err(RunFailure::Probe(ProbeError::NoTradableAmount)),
                            };
                        },
                        _ => {
                            self.stage = SimStage::Sweeping { probe: p };
                        },
                    }
                }
            },
            (SimStage::Receiving { probe }, SimEvent::Balance(Some(received))) => {
                let outcome = match probe.finish(&received) {
                    Ok(r) => Ok(r),
                    Err(e) => Err(RunFailure::Probe(e)),
                };
                self.stage = SimStage::ReadingReserves { outcome };
            },
            (SimStage::ReadingReserves { outcome }, SimEvent::Reserves(reserves)) => {
                self.stage = SimStage::Finished(
                    RunReport { holder: self.holder, outcome, reserves },
                );
            },
            _ => self.fail(RunFailure::Environment),
        }
    }
}

} // verus!
