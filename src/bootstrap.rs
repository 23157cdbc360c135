//! Seeding the liquidity pool from the resolved holder.
//!
//! The bootstrapper names each call to make; the caller submits it on the fork
//! and reports whether it was included.
use crate::address::ChainAddress;
use crate::amount::Amount;
use crate::resolver::OwnerResolution;
use crate::token::{one_eth, ten_eth, ONE_ETH_WEI, TEN_ETH_WEI};
use vstd::prelude::*;

verus! {

/// The deadline passed to the router with every liquidity or swap call.
pub const ROUTER_DEADLINE: u64 = 1984669967;

#[derive(Clone, Copy, Debug, PartialEq, Eq)]
pub enum BootstrapError {
    /// Impersonating or funding the holder failed.
    ProvisionFailed,
    /// The router approval was not included.
    ApproveFailed,
    /// Adding liquidity was not included.
    AddLiquidityFailed,
}

#[derive(Clone, Copy, Debug, PartialEq, Eq)]
pub enum BootstrapStage {
    Provision,
    Approve,
    AddLiquidity,
    EnableTrading,
    Ready,
    Failed(BootstrapError),
}

/// The next thing to do on the fork.
#[derive(Clone, Copy, Debug, PartialEq, Eq)]
pub enum BootstrapStep {
    /// Impersonate `holder` and set its native balance.
    Provision { holder: ChainAddress, native_balance: Amount },
    /// Submit `approve(spender, allowance)` on `token` from `holder`.
    Approve { holder: ChainAddress, token: ChainAddress, spender: ChainAddress, allowance: Amount },
    /// Submit `addLiquidityETH` on the router from `holder`, attaching `value`.
    AddLiquidity {
        holder: ChainAddress,
        token: ChainAddress,
        amount_token: Amount,
        amount_token_min: Amount,
        amount_eth_min: Amount,
        value: Amount,
    },
    /// Send the pre-encoded trading toggle to the token from `holder`.
    EnableTrading { holder: ChainAddress, token: ChainAddress },
    /// Nothing is left to do.
    Finished(Result<(), BootstrapError>),
}

#[derive(Clone, Copy, Debug, PartialEq, Eq)]
pub struct Bootstrapper {
    pub token: ChainAddress,
    pub router: ChainAddress,
    pub holder: ChainAddress,
    pub balance: Amount,
    pub stage: BootstrapStage,
    /// Set once the approval was reported included.
    pub approve_confirmed: bool,
}

impl Bootstrapper {
    /// Liquidity stages are only reached with a confirmed approval.
    pub open spec fn wf(self) -> bool {
        match self.stage {
            BootstrapStage::AddLiquidity | BootstrapStage::EnableTrading
            | BootstrapStage::Ready => self.approve_confirmed,
            BootstrapStage::Failed(e) => e == BootstrapError::AddLiquidityFailed
                ==> self.approve_confirmed,
            _ => true,
        }
    }

    /// The step that the current stage asks for.
    pub open spec fn step_spec(self) -> BootstrapStep {
        match self.stage {
            BootstrapStage::Provision => BootstrapStep::Provision {
                holder: self.holder,
                native_balance: Amount { w0: TEN_ETH_WEI, w1: 0, w2: 0, w3: 0 },
            },
            BootstrapStage::Approve => BootstrapStep::Approve {
                holder: self.holder,
                token: self.token,
                spender: self.router,
                allowance: Amount { w0: u64::MAX, w1: u64::MAX, w2: u64::MAX, w3: u64::MAX },
            },
            BootstrapStage::AddLiquidity => BootstrapStep::AddLiquidity {
                holder: self.holder,
                token: self.token,
                amount_token: self.balance,
                amount_token_min: self.balance,
                amount_eth_min: Amount { w0: ONE_ETH_WEI, w1: 0, w2: 0, w3: 0 },
                value: Amount { w0: ONE_ETH_WEI, w1: 0, w2: 0, w3: 0 },
            },
            BootstrapStage::EnableTrading => BootstrapStep::EnableTrading {
                holder: self.holder,
                token: self.token,
            },
            BootstrapStage::Ready => BootstrapStep::Finished(Ok(())),
            BootstrapStage::Failed(e) => BootstrapStep::Finished(Err(e)),
        }
    }

    /// The bootstrapper after the current step was reported `included` or not.
    /// Only the trading toggle may fail without ending the sequence.
    pub open spec fn after(self, included: bool) -> Bootstrapper {
        match self.stage {
            BootstrapStage::Provision => Bootstrapper {
                stage: if included {
                    BootstrapStage::Approve
                } else {
                    BootstrapStage::Failed(BootstrapError::ProvisionFailed)
                },
                ..self
            },
            BootstrapStage::Approve => if included {
                Bootstrapper {
                    stage: BootstrapStage::AddLiquidity,
                    approve_confirmed: true,
                    ..self
                }
            } else {
                Bootstrapper {
                    stage: BootstrapStage::Failed(BootstrapError::ApproveFailed),
                    ..self
                }
            },
            BootstrapStage::AddLiquidity => Bootstrapper {
                stage: if included {
                    BootstrapStage::EnableTrading
                } else {
                    BootstrapStage::Failed(BootstrapError::AddLiquidityFailed)
                },
                ..self
            },
            BootstrapStage::EnableTrading => Bootstrapper { stage: BootstrapStage::Ready, ..self },
            _ => self,
        }
    }

    pub fn new(token: ChainAddress, router: ChainAddress, resolution: &OwnerResolution) -> (r:
        Bootstrapper)
        ensures
            r.wf(),
            r.token == token,
            r.router == router,
            r.holder == resolution.holder,
            r.balance == resolution.balance,
            r.stage == BootstrapStage::Provision,
            !r.approve_confirmed,
    {
        Bootstrapper {
            token,
            router,
            holder: resolution.holder,
            balance: resolution.balance,
            stage: BootstrapStage::Provision,
            approve_confirmed: false,
        }
    }

    pub fn next_step(&self) -> (r: BootstrapStep)
        requires
            self.wf(),
        ensures
            r == self.step_spec(),
            r is AddLiquidity ==> self.approve_confirmed,
    {
        match self.stage {
            BootstrapStage::Provision => BootstrapStep::Provision {
                holder: self.holder,
                native_balance: ten_eth(),
            },
            BootstrapStage::Approve => BootstrapStep::Approve {
                holder: self.holder,
                token: self.token,
                spender: self.router,
                allowance: Amount::max(),
            },
            BootstrapStage::AddLiquidity => BootstrapStep::AddLiquidity {
                holder: self.holder,
                token: self.token,
                amount_token: self.balance,
                amount_token_min: self.balance,
                amount_eth_min: one_eth(),
                value: one_eth(),
            },
            BootstrapStage::EnableTrading => BootstrapStep::EnableTrading {
                holder: self.holder,
                token: self.token,
            },
            BootstrapStage::Ready => BootstrapStep::Finished(Ok(())),
            BootstrapStage::Failed(e) => BootstrapStep::Finished(Err(e)),
        }
    }

    /// Takes in whether the current step was included.
    pub fn record(&mut self, included: bool)
        requires
            old(self).wf(),
        ensures
            *final(self) == old(self).after(included),
            final(self).wf(),
    {
        match self.stage {
            BootstrapStage::Provision => {
                self.stage = if included {
                    BootstrapStage::Approve
                } else {
                    BootstrapStage::Failed(BootstrapError::ProvisionFailed)
                };
            },
            BootstrapStage::Approve => {
                if included {
                    self.stage = BootstrapStage::AddLiquidity;
                    self.approve_confirmed = true;
                } else {
                    self.stage = BootstrapStage::Failed(BootstrapError::ApproveFailed);
                }
            },
            BootstrapStage::AddLiquidity => {
                self.stage = if included {
                    BootstrapStage::EnableTrading
                } else {
                    BootstrapStage::Failed(BootstrapError::AddLiquidityFailed)
                };
            },
            BootstrapStage::EnableTrading => {
                self.stage = BootstrapStage::Ready;
            },
            _ => {},
        }
    }

    /// `Some` once the sequence has ended: success, or the step that failed.
    pub fn outcome(&self) -> (r: Option<Result<(), BootstrapError>>)
        ensures
            r == match self.stage {
                BootstrapStage::Ready => Some(Ok(())),
                BootstrapStage::Failed(e) => Some(Err(e)),
                _ => None,
            },
    {
        match self.stage {
            BootstrapStage::Ready => Some(Ok(())),
            BootstrapStage::Failed(e) => Some(Err(e)),
            _ => None,
        }
    }
}

/// Liquidity is never asked for before the approval was confirmed, and the
/// confirmation comes only from an included approval.
pub proof fn lemma_approval_precedes_liquidity(b: Bootstrapper, included: bool)
    requires
        b.wf(),
    ensures
        b.step_spec() is AddLiquidity ==> b.approve_confirmed,
        b.after(included).wf(),
        b.after(included).step_spec() is AddLiquidity ==> b.stage == BootstrapStage::Approve
            && included || b.stage == BootstrapStage::AddLiquidity,
        !b.approve_confirmed && b.after(included).approve_confirmed ==> b.stage
            == BootstrapStage::Approve && included,
{
}

} // verus!
