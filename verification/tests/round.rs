use polkapad_sale::actor::ActorId;
use polkapad_sale::error::SaleError;
use polkapad_sale::io::{Participate, SaleEvent, SaleParameters};
use polkapad_sale::ledger::{CallReply, LedgerCall};
use polkapad_sale::round::{RegistrationRound, SaleRound};
use polkapad_sale::sale::{init, Sale};

fn id(n: u64) -> ActorId {
    n.into()
}

#[test]
fn round_is_open_from_its_first_to_its_last_moment() {
    let registration = RegistrationRound::new(10, 20);
    assert!(!registration.is_open(9));
    assert!(registration.is_open(10));
    assert!(registration.is_open(15));
    assert!(registration.is_open(20));
    assert!(!registration.is_open(21));

    let sale = SaleRound::new(30, 40);
    assert!(!sale.is_open(29));
    assert!(sale.is_open(30));
    assert!(sale.is_open(40));
    assert!(!sale.is_open(41));
    assert!(!sale.is_over(39));
    assert!(sale.is_over(40));
    assert!(sale.is_over(41));
}

#[test]
fn default_rounds_are_empty_and_at_time_zero() {
    let registration = RegistrationRound::default();
    assert_eq!((registration.start_datetime, registration.end_datetime), (0, 0));
    assert!(registration.users.is_empty());
    assert!(registration.is_open(0));
    assert!(!registration.is_open(1));
    let sale = SaleRound::default();
    assert_eq!((sale.start_datetime, sale.end_datetime), (0, 0));
    assert!(sale.participants.is_empty());
    assert!(sale.is_over(0));
}

#[test]
fn user_registers_once_while_the_round_is_open() {
    let mut round = RegistrationRound::new(10, 20);
    assert_eq!(round.register_user(id(13), 9), Err(SaleError::WindowClosed));
    assert_eq!(round.register_user(id(13), 21), Err(SaleError::WindowClosed));
    assert!(round.users.is_empty());
    assert_eq!(round.register_user(id(13), 10), Ok(()));
    assert_eq!(round.users.get(&id(13)), Some(0));
    assert_eq!(round.register_user(id(13), 11), Err(SaleError::AlreadyRegistered));
    assert_eq!(round.register_user(id(13), 21), Err(SaleError::WindowClosed));
    assert_eq!(round.register_user(id(14), 20), Ok(()));
    assert_eq!(round.users.len(), 2);
    assert_eq!((round.start_datetime, round.end_datetime), (10, 20));
}

#[test]
fn grants_add_to_the_cap() {
    let mut round = RegistrationRound::new(10, 20);
    assert_eq!(round.grant_allocation(id(13), 5), Err(SaleError::UserNotRegistered));
    assert!(round.users.is_empty());
    round.register_user(id(13), 10).unwrap();
    assert_eq!(round.grant_allocation(id(13), 5), Ok(()));
    assert_eq!(round.grant_allocation(id(13), 7), Ok(()));
    assert_eq!(round.users.get(&id(13)), Some(12));
    assert_eq!(round.grant_allocation(id(13), 0), Ok(()));
    assert_eq!(round.users.get(&id(13)), Some(12));
    assert_eq!(round.grant_allocation(id(13), u128::MAX - 12), Ok(()));
    assert_eq!(round.users.get(&id(13)), Some(u128::MAX));
    assert_eq!(round.grant_allocation(id(13), 1), Ok(()));
    assert_eq!(round.users.get(&id(13)), Some(u128::MAX));
}

#[test]
fn purchase_is_recorded_once() {
    let mut round = SaleRound::new(30, 40);
    let first = Participate { amount_bought: 5, amount_paid_gear: 25, participated_datetime: 31 };
    let second = Participate { amount_bought: 6, amount_paid_gear: 30, participated_datetime: 32 };
    assert_eq!(round.record(id(13), first), Ok(()));
    assert_eq!(round.record(id(13), second), Err(SaleError::AlreadyParticipated));
    assert_eq!(round.participants.get(&id(13)), Some(first));
    assert_eq!(round.record(id(14), second), Ok(()));
    assert_eq!(round.participants.len(), 2);
}

#[test]
fn guards_pass_the_right_caller_only() {
    let mut sale = init(id(12));
    assert_eq!(sale.only_admin(id(12)), Ok(()));
    assert_eq!(sale.only_admin(id(11)), Err(SaleError::Unauthorized));
    assert_eq!(sale.only_sale_owner(id(11)), Err(SaleError::Unauthorized));
    assert_eq!(sale.only_sale_owner(ActorId::zero()), Ok(()));
    sale.owner = id(11);
    assert_eq!(sale.only_sale_owner(id(11)), Ok(()));
    assert_eq!(sale.only_sale_owner(id(12)), Err(SaleError::Unauthorized));
    assert_eq!(sale.only_if_gate_open(), Ok(()));
    sale.gate_closed = true;
    assert_eq!(sale.only_if_gate_open(), Err(SaleError::GateMustBeOpen));
}

#[test]
fn fresh_sale_is_empty() {
    let sale = init(id(12));
    assert_eq!(sale.admin, id(12));
    assert!(sale.owner.is_zero());
    assert!(sale.token.is_zero());
    assert!(sale.staking.is_zero());
    assert_eq!(sale.tokens_to_sell, 0);
    assert_eq!(sale.tokens_sold, 0);
    assert_eq!(sale.tokens_raised, 0);
    assert_eq!(sale.token_price_in_gear, 0);
    assert_eq!(sale.registration_fee_gear, 0);
    assert_eq!(sale.registration_fees, 0);
    assert!(!sale.tokens_deposited);
    assert!(!sale.earnings_withdrawn);
    assert!(!sale.leftover_withdrawn);
    assert!(!sale.is_created);
    assert!(!sale.gate_closed);
    assert!(sale.registration.users.is_empty());
    assert!(sale.sale.participants.is_empty());
    assert!(Sale::default().admin.is_zero());
}

fn created_sale() -> Sale {
    let mut sale = init(id(12));
    let parameters = SaleParameters {
        token: id(2),
        owner: id(11),
        staking: id(3),
        tokens_to_sell: 100,
        token_price_in_gear: 5,
        registration_fee_gear: 1000,
    };
    assert_eq!(sale.set_sale_parameters(id(12), parameters), Ok(SaleEvent::SaleCreated(parameters)));
    assert_eq!(sale.set_sale_time(id(12), 30, 40, 5), Ok(SaleEvent::SaleTimeSet(5)));
    assert_eq!(
        sale.set_registration_time(id(12), 10, 20, 5),
        Ok(SaleEvent::RegistrationTimeSet(5))
    );
    sale
}

#[test]
fn registration_asks_the_staking_ledger_first() {
    let mut sale = created_sale();
    assert_eq!(sale.start_register(id(13), 999, 15), Err(SaleError::FeeMismatch));
    assert_eq!(sale.start_register(id(13), 1000, 9), Err(SaleError::WindowClosed));
    assert_eq!(
        sale.start_register(id(13), 1000, 15),
        Ok(LedgerCall::StakeOf { staking: id(3), user: id(13) })
    );
    assert!(sale.registration.users.is_empty());

    assert_eq!(
        sale.register(id(13), 1000, 15, CallReply::Rejected),
        Err(SaleError::ExternalCallFailed)
    );
    assert_eq!(
        sale.register(id(13), 1000, 15, CallReply::Decimals(18)),
        Err(SaleError::ExternalCallFailed)
    );
    assert_eq!(
        sale.register(id(13), 1000, 15, CallReply::Staked(0)),
        Err(SaleError::InsufficientStake)
    );
    assert_eq!(sale.register(id(13), 999, 15, CallReply::Staked(1)), Err(SaleError::FeeMismatch));
    assert_eq!(sale.register(id(13), 1000, 21, CallReply::Staked(1)), Err(SaleError::WindowClosed));
    assert!(sale.registration.users.is_empty());
    assert_eq!(sale.registration_fees, 0);

    assert_eq!(
        sale.register(id(13), 1000, 15, CallReply::Staked(1)),
        Ok(SaleEvent::UserRegistered(id(13)))
    );
    assert_eq!(sale.registration_fees, 1000);
    assert_eq!(sale.start_register(id(13), 1000, 15), Err(SaleError::AlreadyRegistered));
    assert_eq!(
        sale.register(id(13), 1000, 15, CallReply::Staked(1)),
        Err(SaleError::AlreadyRegistered)
    );
    assert_eq!(sale.registration_fees, 1000);
}

#[test]
fn registration_fees_are_held_at_the_largest_value() {
    let mut sale = created_sale();
    sale.registration_fees = u128::MAX - 1;
    assert_eq!(
        sale.register(id(13), 1000, 15, CallReply::Staked(1)),
        Ok(SaleEvent::UserRegistered(id(13)))
    );
    assert_eq!(sale.registration_fees, u128::MAX);
}

#[test]
fn purchase_asks_the_token_ledger_first() {
    let mut sale = created_sale();
    sale.register(id(13), 1000, 15, CallReply::Staked(1)).unwrap();
    sale.registration.grant_allocation(id(13), 60).unwrap();

    assert_eq!(sale.start_participate(id(13), 29), Err(SaleError::WindowClosed));
    assert_eq!(sale.start_participate(id(14), 30), Err(SaleError::UserNotRegistered));
    assert_eq!(sale.start_participate(id(13), 30), Ok(LedgerCall::Decimals { token: id(2) }));

    assert_eq!(
        sale.participate(id(13), 25, 30, CallReply::Staked(1)),
        Err(SaleError::ExternalCallFailed)
    );
    assert_eq!(
        sale.participate(id(13), 25, 30, CallReply::Decimals(2)),
        Err(SaleError::AllocationExceeded)
    );
    assert_eq!(sale.participate(id(13), 4, 30, CallReply::Decimals(0)), Err(SaleError::ZeroAmount));
    assert_eq!(sale.tokens_sold, 0);

    // 25 units of payment at a price of 5 buy 50 tokens of one decimal.
    assert_eq!(
        sale.participate(id(13), 25, 30, CallReply::Decimals(1)),
        Ok(SaleEvent::RegistrationGEARRefunded(id(13), 1000))
    );
    assert_eq!(sale.tokens_sold, 50);
    assert_eq!(sale.tokens_raised, 25);
    assert_eq!(sale.registration_fees, 0);
    assert_eq!(
        sale.sale.participants.get(&id(13)),
        Some(Participate { amount_bought: 50, amount_paid_gear: 25, participated_datetime: 30 })
    );
    assert_eq!(sale.start_participate(id(13), 30), Err(SaleError::AlreadyParticipated));
}

#[test]
fn purchase_at_no_price_is_turned_down() {
    let mut sale = init(id(12));
    sale.registration.register_user(id(13), 0).unwrap();
    assert_eq!(
        sale.participate(id(13), 25, 0, CallReply::Decimals(1)),
        Err(SaleError::InvalidConfiguration)
    );
    assert!(sale.sale.participants.is_empty());
}

#[test]
fn call_moves_the_amount_of_a_transfer() {
    let sale = created_sale();
    let mut sale = sale;
    let deposit = sale.deposit_tokens(id(11), id(4)).unwrap();
    assert_eq!(deposit.amount(), 100);
    assert_eq!(deposit.target(), id(2));
    assert_eq!(LedgerCall::Decimals { token: id(2) }.amount(), 0);
    assert_eq!(LedgerCall::StakeOf { staking: id(3), user: id(13) }.amount(), 0);
}
