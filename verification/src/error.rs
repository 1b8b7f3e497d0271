//! The ways in which a request to the sale can fail.

use vstd::prelude::*;

verus! {

/// Why a request failed. A request that the sale turns down by its own checks
/// changes nothing. A deposit or a withdrawal of unsold tokens that fails with
/// `ExternalCallFailed` had thrown its switch before the ledger rejected the
/// transfer, and the switch stays thrown.
#[derive(Clone, Copy, Debug, PartialEq, Eq, Structural)]
pub enum SaleError {
    /// The caller does not hold the role that the request needs.
    Unauthorized,
    /// The configuration is frozen: its gate has been closed.
    GateMustBeOpen,
    /// The request came outside the round that it belongs to.
    WindowClosed,
    /// The caller is already registered in the current round.
    AlreadyRegistered,
    /// The caller has already taken part in the sale round.
    AlreadyParticipated,
    /// The user is not registered in the current round.
    UserNotRegistered,
    /// The attached value is not the registration fee.
    FeeMismatch,
    /// The staking ledger reports no stake for the caller.
    InsufficientStake,
    /// The purchase is larger than the caller's allocation cap.
    AllocationExceeded,
    /// The purchase is larger than what is left to sell.
    InsufficientInventory,
    /// There is nothing to buy or to pay out.
    ZeroAmount,
    /// No record is held for the actor asked about.
    NotFound,
    /// The tokens for sale have been deposited before.
    AlreadyDeposited,
    /// The payout has been made before.
    AlreadyWithdrawn,
    /// The sale is not, or not yet, configured as the request needs.
    InvalidConfiguration,
    /// A collaborator rejected a call or answered in an unexpected shape.
    ExternalCallFailed,
}

} // verus!
