use polkapad_sale::actor::ActorId;
use polkapad_sale::error::SaleError;
use polkapad_sale::io::{Participate, SaleEvent, SaleParameters};
use polkapad_sale::ledger::{transfer_tokens, CallReply, LedgerCall};
use polkapad_sale::sale::allocation_withdrawn;

fn id(n: u64) -> ActorId {
    n.into()
}

#[test]
fn stake_is_read_from_a_stake_reply_only() {
    assert_eq!(CallReply::Staked(50).stake(), Ok(50));
    assert_eq!(CallReply::Staked(0).stake(), Ok(0));
    assert_eq!(CallReply::Decimals(18).stake(), Err(SaleError::ExternalCallFailed));
    assert_eq!(CallReply::Other.stake(), Err(SaleError::ExternalCallFailed));
    assert_eq!(CallReply::Rejected.stake(), Err(SaleError::ExternalCallFailed));
}

#[test]
fn decimals_are_read_from_a_decimals_reply_only() {
    assert_eq!(CallReply::Decimals(18).decimals(), Ok(18));
    assert_eq!(CallReply::Decimals(0).decimals(), Ok(0));
    assert_eq!(CallReply::Staked(18).decimals(), Err(SaleError::ExternalCallFailed));
    assert_eq!(CallReply::Other.decimals(), Err(SaleError::ExternalCallFailed));
    assert_eq!(CallReply::Rejected.decimals(), Err(SaleError::ExternalCallFailed));
}

#[test]
fn transfer_fails_on_rejection_only() {
    assert_eq!(CallReply::Other.transferred(), Ok(()));
    assert_eq!(CallReply::Staked(1).transferred(), Ok(()));
    assert_eq!(CallReply::Decimals(1).transferred(), Ok(()));
    assert_eq!(CallReply::Rejected.transferred(), Err(SaleError::ExternalCallFailed));
}

#[test]
fn transfer_names_the_ledger_and_both_sides() {
    let call = transfer_tokens(&id(2), &id(11), &id(4), 700);
    assert_eq!(call, LedgerCall::TransferFrom { token: id(2), from: id(11), to: id(4), amount: 700 });
    assert_eq!(call.target(), id(2));
    assert_eq!(LedgerCall::Decimals { token: id(2) }.target(), id(2));
    assert_eq!(LedgerCall::StakeOf { staking: id(3), user: id(13) }.target(), id(3));
}

#[test]
fn allocation_is_reported_when_the_transfer_went_through() {
    assert_eq!(
        allocation_withdrawn(id(13), 500, CallReply::Other),
        Ok(SaleEvent::AllocationWithdrawn(id(13), 500))
    );
    assert_eq!(
        allocation_withdrawn(id(13), 500, CallReply::Rejected),
        Err(SaleError::ExternalCallFailed)
    );
}

#[test]
fn payment_leaves_with_three_events_only() {
    assert_eq!(SaleEvent::RegistrationGEARRefunded(id(13), 1000).value(), 1000);
    assert_eq!(SaleEvent::RegistrationFeeWithdrawn(2000).value(), 2000);
    assert_eq!(SaleEvent::EarningsWithdrawn(3000).value(), 3000);
    assert_eq!(SaleEvent::AllocationWithdrawn(id(13), 500).value(), 0);
    assert_eq!(SaleEvent::TotalRaised(500).value(), 0);
    assert_eq!(SaleEvent::TotalSold(500).value(), 0);
    assert_eq!(SaleEvent::AllocationSize(500).value(), 0);
    assert_eq!(SaleEvent::UserRegistered(id(13)).value(), 0);
    assert_eq!(SaleEvent::SaleCreated(SaleParameters::default()).value(), 0);
    assert_eq!(SaleEvent::Participation(Participate::default()).value(), 0);
}

#[test]
fn defaults_are_empty() {
    assert_eq!(
        Participate::default(),
        Participate { amount_bought: 0, amount_paid_gear: 0, participated_datetime: 0 }
    );
    assert_eq!(Participate::empty(), Participate::default());
    let parameters = SaleParameters::default();
    assert!(parameters.owner.is_zero());
    assert!(parameters.token.is_zero());
    assert!(parameters.staking.is_zero());
    assert_eq!(parameters.tokens_to_sell, 0);
    assert_eq!(parameters.token_price_in_gear, 0);
    assert_eq!(parameters.registration_fee_gear, 0);
}
