//! Choosing the account whose token balance provides the liquidity.
//!
//! The caller reads `owner()` and the balances from the fork and hands the
//! outcomes over: `None` stands for a call that did not execute.
use crate::address::ChainAddress;
use crate::amount::Amount;
use vstd::prelude::*;

verus! {

#[derive(Clone, Copy, Debug, PartialEq, Eq)]
pub enum ResolutionError {
    /// Every balance that was consulted is zero.
    ZeroBalance,
    /// A `balanceOf` call did not execute.
    NotAnErc20,
}

/// The account that is impersonated to add liquidity, and the token amount
/// that it provides.
#[derive(Clone, Copy, Debug, PartialEq, Eq)]
pub struct OwnerResolution {
    pub holder: ChainAddress,
    pub balance: Amount,
}

/// A balance read on `holder`'s behalf: positive gives a resolution, zero
/// `ZeroBalance`, a failed call `NotAnErc20`.
pub open spec fn balance_outcome(holder: ChainAddress, read: Option<Amount>) -> Result<
    OwnerResolution,
    ResolutionError,
> {
    match read {
        None => Err(ResolutionError::NotAnErc20),
        Some(b) => if b.value() > 0 {
            Ok(OwnerResolution { holder, balance: b })
        } else {
            Err(ResolutionError::ZeroBalance)
        },
    }
}

/// The decision table. `first` is the balance of the primary holder (the
/// owner when the token reports one, else the creator); `second` that of the
/// creator, read only when the owner differs from the creator and holds
/// nothing. In that case the owner stays the holder while the creator's
/// balance is used. Whether the creator was meant as the holder there is
/// open; downstream impersonation goes by the holder returned here.
pub open spec fn resolution_of(
    creator: ChainAddress,
    owner: Option<ChainAddress>,
    first: Option<Amount>,
    second: Option<Amount>,
) -> Result<OwnerResolution, ResolutionError> {
    match owner {
        None => balance_outcome(creator, first),
        Some(o) => if o == creator {
            balance_outcome(o, first)
        } else {
            match first {
                None => Err(ResolutionError::NotAnErc20),
                Some(b) => if b.value() > 0 {
                    Ok(OwnerResolution { holder: o, balance: b })
                } else {
                    balance_outcome(o, second)
                },
            }
        },
    }
}

/// Whether the table consults the creator's balance as a second read.
pub open spec fn creator_balance_needed(
    creator: ChainAddress,
    owner: Option<ChainAddress>,
    first: Option<Amount>,
) -> bool {
    &&& owner matches Some(o)
    &&& o != creator
    &&& first matches Some(b)
    &&& b.value() == 0
}

/// The address whose balance is read first.
pub fn primary_holder(creator: &ChainAddress, owner: &Option<ChainAddress>) -> (r: ChainAddress)
    ensures
        r == match *owner {
            Some(o) => o,
            None => *creator,
        },
{
    match owner {
        Some(o) => *o,
        None => *creator,
    }
}

/// Whether the creator's balance must be read before deciding.
pub fn needs_creator_balance(
    creator: &ChainAddress,
    owner: &Option<ChainAddress>,
    first: &Option<Amount>,
) -> (r: bool)
    ensures
        r == creator_balance_needed(*creator, *owner, *first),
{
    match (owner, first) {
        (Some(o), Some(b)) => !o.same_as(creator) && b.is_zero(),
        _ => false,
    }
}

/// When the creator's balance is not needed, what was passed for it does not
/// change the decision.
pub proof fn lemma_second_read_unused(
    creator: ChainAddress,
    owner: Option<ChainAddress>,
    first: Option<Amount>,
    second1: Option<Amount>,
    second2: Option<Amount>,
)
    requires
        !creator_balance_needed(creator, owner, first),
    ensures
        resolution_of(creator, owner, first, second1) == resolution_of(
            creator,
            owner,
            first,
            second2,
        ),
{
}

/// A successful resolution always carries a positive balance.
pub proof fn lemma_resolved_balance_positive(
    creator: ChainAddress,
    owner: Option<ChainAddress>,
    first: Option<Amount>,
    second: Option<Amount>,
)
    ensures
        resolution_of(creator, owner, first, second) matches Ok(p) ==> p.balance.value() > 0,
{
}

fn outcome_of_read(holder: ChainAddress, read: &Option<Amount>) -> (r: Result<
    OwnerResolution,
    ResolutionError,
>)
    ensures
        r == balance_outcome(holder, *read),
{
    match read {
        None => Err(ResolutionError::NotAnErc20),
        Some(b) => if b.is_zero() {
            Err(ResolutionError::ZeroBalance)
        } else {
            Ok(OwnerResolution { holder, balance: *b })
        },
    }
}

/// Decides the liquidity holder from the outcomes of the reads.
pub fn get_owner_with_balance(
    creator: &ChainAddress,
    owner: &Option<ChainAddress>,
    first: &Option<Amount>,
    second: &Option<Amount>,
) -> (r: Result<OwnerResolution, ResolutionError>)
    ensures
        r == resolution_of(*creator, *owner, *first, *second),
        r matches Ok(res) ==> res.balance.value() > 0,
{
    match owner {
        None => outcome_of_read(*creator, first),
        Some(o) => {
            if o.same_as(creator) {
                outcome_of_read(*o, first)
            } else {
                match first {
                    None => Err(ResolutionError::NotAnErc20),
                    Some(b) => if !b.is_zero() {
                        Ok(OwnerResolution { holder: *o, balance: *b })
                    } else {
                        outcome_of_read(*o, second)
                    },
                }
            }
        },
    }
}

} // verus!
