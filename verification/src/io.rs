//! The messages that the sale takes and gives.

use crate::actor::ActorId;
use crate::actor_map::ActorMap;
use vstd::prelude::*;

verus! {

/// The record of one purchase.
#[derive(Clone, Copy, Debug, PartialEq, Eq, Structural)]
pub struct Participate {
    /// Sale tokens bought.
    pub amount_bought: u128,
    /// Payment made for them.
    pub amount_paid_gear: u128,
    /// When the purchase was made.
    pub participated_datetime: u64,
}

impl Participate {
    /// The record of no purchase: nothing bought, nothing paid, at time zero.
    pub open spec fn spec_empty() -> Participate {
        Participate { amount_bought: 0, amount_paid_gear: 0, participated_datetime: 0 }
    }

    /// The record of no purchase.
    #[verifier::when_used_as_spec(spec_empty)]
    pub fn empty() -> (p: Participate)
        ensures
            p == Self::spec_empty(),
    {
        Participate { amount_bought: 0, amount_paid_gear: 0, participated_datetime: 0 }
    }
}

impl Default for Participate {
    fn default() -> (p: Participate)
        ensures
            p == Participate::spec_empty(),
    {
        Participate::empty()
    }
}

/// What the admin fixes when creating the sale.
#[derive(Clone, Copy, Debug, PartialEq, Eq, Structural)]
pub struct SaleParameters {
    /// The ledger of the token on sale.
    pub token: ActorId,
    /// Who sells: deposits the tokens and collects the earnings.
    pub owner: ActorId,
    /// The staking ledger that is asked before a registration.
    pub staking: ActorId,
    /// How many tokens are on sale.
    pub tokens_to_sell: u128,
    /// Payment asked for one whole token.
    pub token_price_in_gear: u128,
    /// The deposit that a registration takes.
    pub registration_fee_gear: u128,
}

impl Default for SaleParameters {
    fn default() -> (p: SaleParameters)
        ensures
            p == (SaleParameters {
                token: ActorId::spec_zero(),
                owner: ActorId::spec_zero(),
                staking: ActorId::spec_zero(),
                tokens_to_sell: 0,
                token_price_in_gear: 0,
                registration_fee_gear: 0,
            }),
    {
        SaleParameters {
            token: ActorId::zero(),
            owner: ActorId::zero(),
            staking: ActorId::zero(),
            tokens_to_sell: 0,
            token_price_in_gear: 0,
            registration_fee_gear: 0,
        }
    }
}

/// What the contract is started with.
#[derive(Clone, Copy, Debug, PartialEq, Eq, Structural)]
pub struct SaleInitialConfiguration {
    /// Who administers the sale.
    pub sale_admin: ActorId,
    /// The staking ledger.
    pub staking_contract: ActorId,
}

/// A request to the sale. Who asks, what is attached and when it is served
/// come with the request, not in it.
#[derive(Debug)]
pub enum SaleAction {
    /// Create the sale with these parameters.
    CreateSale(SaleParameters),
    /// Name the ledger of the token on sale.
    SetSaleToken(ActorId),
    /// Open a new registration round, from the first time to the second.
    SetRegistrationTime(u64, u64),
    /// Open a new sale round, from the first time to the second.
    SetSaleTime(u64, u64),
    /// Add to the allocation caps of registered users.
    SetMaxAllocationSizes(ActorMap<u128>),
    /// Ask for the allocation cap of a user.
    GetAllocationSizeOf(ActorId),
    /// Ask for the purchase of a user.
    GetParticipationOf(ActorId),
    /// Ask for the ledger of the token on sale.
    GetSaleToken,
    /// Ask for the tokens sold.
    GetTotalSold,
    /// Ask for the payment raised.
    GetTotalRaised,
    /// Register the sender, who attaches the registration fee.
    RegisterOnSale,
    /// Buy tokens for the payment attached.
    Participate,
    /// Take the tokens for sale from the owner into custody.
    DepositTokens,
    /// Hand out the tokens that the sender bought.
    WithdrawAllocation,
    /// Hand the unsold tokens back to the owner.
    WithdrawLeftover,
    /// Pay the earnings out to the owner.
    WithdrawEarnings,
    /// Pay the registration fees out to the admin.
    WithdrawRegistrationFees,
    /// Take a user out of the registered users.
    RemoveRegistered(ActorId),
    /// Freeze the configuration.
    CloseGate,
}

/// What the sale answers to a request that succeeded.
#[derive(Clone, Copy, Debug, PartialEq, Eq)]
pub enum SaleEvent {
    /// The sale was created with these parameters.
    SaleCreated(SaleParameters),
    /// This user was registered.
    UserRegistered(ActorId),
    /// This user bought, and gets this registration fee back.
    RegistrationGEARRefunded(ActorId, u128),
    /// This user was handed this many bought tokens.
    AllocationWithdrawn(ActorId, u128),
    /// The admin was paid these registration fees.
    RegistrationFeeWithdrawn(u128),
    /// The owner was paid these earnings.
    EarningsWithdrawn(u128),
    /// A registration round was opened at this time.
    RegistrationTimeSet(u64),
    /// A sale round was opened at this time.
    SaleTimeSet(u64),
    /// This ledger was named as the one of the token on sale.
    SaleTokenSet(ActorId),
    /// This user was granted this much more allocation.
    MaxAllocationSizeSet((ActorId, u128)),
    /// This user was taken out of the registered users.
    RegisteredRemoved(ActorId),
    /// The configuration was frozen at this time.
    GateClosed(u64),
    /// The ledger of the token on sale.
    SaleToken(ActorId),
    /// The allocation cap asked for.
    AllocationSize(u128),
    /// The purchase asked for.
    Participation(Participate),
    /// The tokens sold so far.
    TotalSold(u128),
    /// The payment raised so far.
    TotalRaised(u128),
}

impl SaleEvent {
    /// The payment that leaves the sale together with the event: the refund,
    /// the earnings or the fees that the event reports, and nothing with any
    /// other event.
    pub open spec fn spec_value(&self) -> u128 {
        match *self {
            SaleEvent::RegistrationGEARRefunded(_, amount) => amount,
            SaleEvent::RegistrationFeeWithdrawn(amount) => amount,
            SaleEvent::EarningsWithdrawn(amount) => amount,
            _ => 0,
        }
    }

    /// The payment that leaves the sale together with the event.
    #[verifier::when_used_as_spec(spec_value)]
    pub fn value(&self) -> (v: u128)
        ensures
            v == self.spec_value(),
    {
        match self {
            SaleEvent::RegistrationGEARRefunded(_, amount) => *amount,
            SaleEvent::RegistrationFeeWithdrawn(amount) => *amount,
            SaleEvent::EarningsWithdrawn(amount) => *amount,
            _ => 0,
        }
    }
}

/// A question about the state of the sale.
#[derive(Clone, Copy, Debug, PartialEq, Eq)]
pub enum SaleState {
    GetAllocationSizeOf(ActorId),
    GetParticipationOf(ActorId),
    GetSaleRoundTime,
    GetRegistrationRoundTime,
    GetSaleOwner,
    GetSaleToken,
    GetTotalSold,
    GetTotalRaised,
}

/// The answer to a question about the state of the sale.
#[derive(Clone, Copy, Debug, PartialEq, Eq)]
pub enum SaleReply {
    SaleToken(ActorId),
    SaleOwner(ActorId),
    SaleRoundTime(u64, u64),
    RegistrationRoundTime(u64, u64),
    AllocationSize(u128),
    Participation(Participate),
    TotalSold(u128),
    TotalRaised(u128),
}

} // verus!
