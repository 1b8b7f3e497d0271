//! Calls to the collaborating ledgers, and what comes back from them.
//!
//! The sale never waits by itself. It says which call is to be made; the host
//! makes it, and hands the reply to the function that finishes the request.

use crate::actor::ActorId;
use crate::error::SaleError;
use vstd::prelude::*;

verus! {

/// A call that the sale asks the host to make.
#[derive(Clone, Copy, Debug, PartialEq, Eq, Structural)]
pub enum LedgerCall {
    /// Ask the staking ledger `staking` how much `user` has staked.
    StakeOf { staking: ActorId, user: ActorId },
    /// Ask the token ledger `token` for the number of decimals of its token.
    Decimals { token: ActorId },
    /// Ask the token ledger `token` to move `amount` tokens from `from` to
    /// `to`.
    TransferFrom { token: ActorId, from: ActorId, to: ActorId, amount: u128 },
}

impl LedgerCall {
    /// The actor that the call goes to.
    pub open spec fn spec_target(&self) -> ActorId {
        match *self {
            LedgerCall::StakeOf { staking, .. } => staking,
            LedgerCall::Decimals { token } => token,
            LedgerCall::TransferFrom { token, .. } => token,
        }
    }

    /// The actor that the call goes to.
    #[verifier::when_used_as_spec(spec_target)]
    pub fn target(&self) -> (to: ActorId)
        ensures
            to == self.spec_target(),
    {
        match self {
            LedgerCall::StakeOf { staking, .. } => *staking,
            LedgerCall::Decimals { token } => *token,
            LedgerCall::TransferFrom { token, .. } => *token,
        }
    }

    /// The tokens that the call moves: none, where it only asks.
    pub open spec fn spec_amount(&self) -> u128 {
        match *self {
            LedgerCall::TransferFrom { amount, .. } => amount,
            _ => 0,
        }
    }

    /// The tokens that the call moves: none, where it only asks.
    #[verifier::when_used_as_spec(spec_amount)]
    pub fn amount(&self) -> (amount: u128)
        ensures
            amount == self.spec_amount(),
    {
        match self {
            LedgerCall::TransferFrom { amount, .. } => *amount,
            _ => 0,
        }
    }
}

/// How a call ended.
#[derive(Clone, Copy, Debug, PartialEq, Eq, Structural)]
pub enum CallReply {
    /// The call could not be made, or the collaborator rejected it, or its
    /// reply could not be read.
    Rejected,
    /// The staking ledger reports this stake.
    Staked(u128),
    /// The token ledger reports this number of decimals.
    Decimals(u8),
    /// The collaborator answered with anything else.
    Other,
}

impl CallReply {
    /// The stake that the reply reports, if it reports one.
    pub open spec fn spec_stake(&self) -> Result<u128, SaleError> {
        match *self {
            CallReply::Staked(balance) => Ok(balance),
            _ => Err(SaleError::ExternalCallFailed),
        }
    }

    /// Reads the reply to a question about a stake. Any other reply fails
    /// the call.
    #[verifier::when_used_as_spec(spec_stake)]
    pub fn stake(&self) -> (r: Result<u128, SaleError>)
        ensures
            r == self.spec_stake(),
    {
        match self {
            CallReply::Staked(balance) => Ok(*balance),
            _ => Err(SaleError::ExternalCallFailed),
        }
    }

    /// The number of decimals that the reply reports, if it reports one.
    pub open spec fn spec_decimals(&self) -> Result<u8, SaleError> {
        match *self {
            CallReply::Decimals(decimals) => Ok(decimals),
            _ => Err(SaleError::ExternalCallFailed),
        }
    }

    /// Reads the reply to a question about decimals. Any other reply fails
    /// the call.
    #[verifier::when_used_as_spec(spec_decimals)]
    pub fn decimals(&self) -> (r: Result<u8, SaleError>)
        ensures
            r == self.spec_decimals(),
    {
        match self {
            CallReply::Decimals(decimals) => Ok(*decimals),
            _ => Err(SaleError::ExternalCallFailed),
        }
    }

    /// Whether the reply acknowledges a transfer: every reply but a
    /// rejection does.
    pub open spec fn spec_transferred(&self) -> Result<(), SaleError> {
        match *self {
            CallReply::Rejected => Err(SaleError::ExternalCallFailed),
            _ => Ok(()),
        }
    }

    /// Reads the reply to a transfer. A rejection fails the call; the ledger
    /// acknowledges in whatever shape it likes.
    #[verifier::when_used_as_spec(spec_transferred)]
    pub fn transferred(&self) -> (r: Result<(), SaleError>)
        ensures
            r == self.spec_transferred(),
    {
        match self {
            CallReply::Rejected => Err(SaleError::ExternalCallFailed),
            _ => Ok(()),
        }
    }
}

/// The call that moves `amount` tokens of the ledger `token_address` from
/// `from` to `to`.
pub fn transfer_tokens(
    token_address: &ActorId,
    from: &ActorId,
    to: &ActorId,
    amount: u128,
) -> (call: LedgerCall)
    ensures
        call == (LedgerCall::TransferFrom {
            token: *token_address,
            from: *from,
            to: *to,
            amount,
        }),
{
    LedgerCall::TransferFrom { token: *token_address, from: *from, to: *to, amount }
}

} // verus!
