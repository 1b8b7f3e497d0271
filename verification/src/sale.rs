//! The sale: its totals, its switches, and the requests that change them.
//!
//! The sale never waits for a collaborating ledger by itself: it names the
//! call, and the host makes it. Other requests may be served while a call is
//! under way, so every request keeps to one order of steps.
//!
//! A request that needs something from a ledger before it can decide (a
//! stake, the decimals) comes in two parts. The `start_` function checks what
//! can be checked beforehand and names the question. The function that
//! carries the request's name takes the answer, checks everything again on
//! the sale as it is by then, and only then changes it.
//!
//! A request that ends in a transfer of tokens checks, changes the sale, and
//! only then names the transfer, so that no second request of its kind can
//! pass the checks while the transfer is under way.
//!
//! A request that is turned down by the sale's own checks leaves the sale as
//! it was. One that fails because the ledger rejected its transfer has
//! changed the sale before, and nothing of that is undone.

use crate::actor::ActorId;
use crate::actor_map::{
    as_map, lemma_key_has_entry, lemma_take_ends, lemma_take_next, position, ActorMap,
};
use crate::error::SaleError;
use crate::io::{Participate, SaleEvent, SaleParameters, SaleReply, SaleState};
use crate::ledger::{transfer_tokens, CallReply, LedgerCall};
use crate::model::{granted, SaleModel};
use crate::price::tokens_for_payment;
use crate::round::{RegistrationRound, SaleRound};
use vstd::prelude::*;

verus! {

/// A token sale.
#[derive(Debug)]
pub struct Sale {
    /// Who configures the sale.
    pub admin: ActorId,
    /// Who sells: deposits the tokens and collects the earnings.
    pub owner: ActorId,
    /// The ledger of the token on sale.
    pub token: ActorId,
    /// The staking ledger that is asked before a registration.
    pub staking: ActorId,
    pub registration: RegistrationRound,
    pub sale: SaleRound,
    pub tokens_to_sell: u128,
    pub tokens_sold: u128,
    /// The payment taken for the tokens sold.
    pub tokens_raised: u128,
    /// Payment asked for one whole token.
    pub token_price_in_gear: u128,
    pub tokens_deposited: bool,
    /// The deposit that a registration takes.
    pub registration_fee_gear: u128,
    /// The registration deposits held.
    pub registration_fees: u128,
    pub earnings_withdrawn: bool,
    pub leftover_withdrawn: bool,
    pub is_created: bool,
    pub gate_closed: bool,
}

impl View for Sale {
    type V = SaleModel;

    open spec fn view(&self) -> SaleModel {
        SaleModel {
            admin: self.admin,
            owner: self.owner,
            token: self.token,
            staking: self.staking,
            registration_start: self.registration.start_datetime,
            registration_end: self.registration.end_datetime,
            users: self.registration.users@,
            sale_start: self.sale.start_datetime,
            sale_end: self.sale.end_datetime,
            participants: self.sale.participants@,
            tokens_to_sell: self.tokens_to_sell,
            tokens_sold: self.tokens_sold,
            tokens_raised: self.tokens_raised,
            token_price_in_gear: self.token_price_in_gear,
            tokens_deposited: self.tokens_deposited,
            registration_fee_gear: self.registration_fee_gear,
            registration_fees: self.registration_fees,
            earnings_withdrawn: self.earnings_withdrawn,
            leftover_withdrawn: self.leftover_withdrawn,
            is_created: self.is_created,
            gate_closed: self.gate_closed,
        }
    }
}

/// The sale that `admin` starts: nothing configured, nobody registered,
/// nothing sold.
pub fn init(admin: ActorId) -> (sale: Sale)
    ensures
        sale@ == SaleModel::initial(admin),
        sale@.wf(),
{
    Sale {
        admin,
        owner: ActorId::zero(),
        token: ActorId::zero(),
        staking: ActorId::zero(),
        registration: RegistrationRound::new(0, 0),
        sale: SaleRound::new(0, 0),
        tokens_to_sell: 0,
        tokens_sold: 0,
        tokens_raised: 0,
        token_price_in_gear: 0,
        tokens_deposited: false,
        registration_fee_gear: 0,
        registration_fees: 0,
        earnings_withdrawn: false,
        leftover_withdrawn: false,
        is_created: false,
        gate_closed: false,
    }
}

impl Default for Sale {
    fn default() -> (sale: Sale)
        ensures
            sale@ == SaleModel::initial(ActorId::spec_zero()),
    {
        init(ActorId::zero())
    }
}

/// The result of a check: the error that the guard names, or a pass.
pub open spec fn checked(guard: Option<SaleError>) -> Result<(), SaleError> {
    match guard {
        Some(e) => Err(e),
        None => Ok(()),
    }
}

// Guards.
impl Sale {
    /// Passes only the admin.
    pub fn only_admin(&self, source: ActorId) -> (r: Result<(), SaleError>)
        ensures
            r == checked(self@.admin_error(source)),
    {
        if self.admin == source {
            Ok(())
        } else {
            Err(SaleError::Unauthorized)
        }
    }

    /// Passes only the sale owner.
    pub fn only_sale_owner(&self, source: ActorId) -> (r: Result<(), SaleError>)
        ensures
            r == checked(self@.owner_error(source)),
    {
        if self.owner == source {
            Ok(())
        } else {
            Err(SaleError::Unauthorized)
        }
    }

    /// Passes while the configuration is not frozen.
    pub fn only_if_gate_open(&self) -> (r: Result<(), SaleError>)
        ensures
            r == checked(self@.gate_error()),
    {
        if self.gate_closed {
            Err(SaleError::GateMustBeOpen)
        } else {
            Ok(())
        }
    }

    /// Checks what every change of the rounds needs: the admin, a
    /// configuration that is not frozen, and a created sale.
    fn check_configuration(&self, source: ActorId) -> (r: Result<(), SaleError>)
        ensures
            r == checked(self@.configuration_error(source)),
    {
        self.only_admin(source)?;
        self.only_if_gate_open()?;
        if !self.is_created {
            return Err(SaleError::InvalidConfiguration);
        }
        Ok(())
    }
}

// Creation and configuration.
impl Sale {
    /// Creates the sale with `parameters`, on the request of `source`: where
    /// `source` is the admin, the sale has not been created before, and the
    /// parameters name an owner, a price above zero and tokens to sell.
    pub fn set_sale_parameters(&mut self, source: ActorId, parameters: SaleParameters) -> (r:
        Result<SaleEvent, SaleError>)
        ensures
            match r {
                Ok(event) => {
                    &&& old(self)@.create_error(source, parameters) is None
                    &&& final(self)@ == old(self)@.after_create(parameters)
                    &&& event == SaleEvent::SaleCreated(parameters)
                },
                Err(e) => {
                    &&& old(self)@.create_error(source, parameters) == Some(e)
                    &&& final(self)@ == old(self)@
                },
            },
            old(self)@.wf() ==> final(self)@.wf(),
    {
        self.only_admin(source)?;
        if self.is_created || parameters.owner.is_zero() || parameters.tokens_to_sell == 0
            || parameters.token_price_in_gear == 0 {
            return Err(SaleError::InvalidConfiguration);
        }
        self.owner = parameters.owner;
        self.token = parameters.token;
        self.staking = parameters.staking;
        self.token_price_in_gear = parameters.token_price_in_gear;
        self.tokens_to_sell = parameters.tokens_to_sell;
        self.registration_fee_gear = parameters.registration_fee_gear;
        self.is_created = true;
        Ok(SaleEvent::SaleCreated(parameters))
    }

    /// Opens a new registration round from `start_datetime` to
    /// `end_datetime`, on the request of `source` at `now`. The round that
    /// was there is discarded with everybody registered in it.
    pub fn set_registration_time(
        &mut self,
        source: ActorId,
        start_datetime: u64,
        end_datetime: u64,
        now: u64,
    ) -> (r: Result<SaleEvent, SaleError>)
        ensures
            match r {
                Ok(event) => {
                    &&& old(self)@.set_registration_time_error(
                        source,
                        start_datetime,
                        end_datetime,
                        now,
                    ) is None
                    &&& final(self)@ == old(self)@.after_set_registration_time(
                        start_datetime,
                        end_datetime,
                    )
                    &&& event == SaleEvent::RegistrationTimeSet(now)
                },
                Err(e) => {
                    &&& old(self)@.set_registration_time_error(
                        source,
                        start_datetime,
                        end_datetime,
                        now,
                    ) == Some(e)
                    &&& final(self)@ == old(self)@
                },
            },
            old(self)@.wf() ==> final(self)@.wf(),
    {
        self.check_configuration(source)?;
        if !(self.sale.end_datetime > end_datetime) || !(start_datetime >= now && start_datetime
            < end_datetime) {
            return Err(SaleError::InvalidConfiguration);
        }
        self.registration = RegistrationRound::new(start_datetime, end_datetime);
        Ok(SaleEvent::RegistrationTimeSet(now))
    }

    /// Opens a new sale round from `start_datetime` to `end_datetime`, on
    /// the request of `source` at `now`. The round that was there is
    /// discarded with every purchase on its record.
    pub fn set_sale_time(
        &mut self,
        source: ActorId,
        start_datetime: u64,
        end_datetime: u64,
        now: u64,
    ) -> (r: Result<SaleEvent, SaleError>)
        ensures
            match r {
                Ok(event) => {
                    &&& old(self)@.set_sale_time_error(source, start_datetime, end_datetime, now)
                        is None
                    &&& final(self)@ == old(self)@.after_set_sale_time(start_datetime, end_datetime)
                    &&& event == SaleEvent::SaleTimeSet(now)
                },
                Err(e) => {
                    &&& old(self)@.set_sale_time_error(source, start_datetime, end_datetime, now)
                        == Some(e)
                    &&& final(self)@ == old(self)@
                },
            },
            old(self)@.wf() ==> final(self)@.wf(),
    {
        self.check_configuration(source)?;
        if !(start_datetime >= now && start_datetime < end_datetime) || !(end_datetime
            > self.registration.end_datetime) {
            return Err(SaleError::InvalidConfiguration);
        }
        self.sale = SaleRound::new(start_datetime, end_datetime);
        Ok(SaleEvent::SaleTimeSet(now))
    }

    /// Names `sale_token` as the ledger of the token on sale, on the request
    /// of `source`: the admin, while the configuration is not frozen.
    pub fn set_sale_token(&mut self, source: ActorId, sale_token: ActorId) -> (r: Result<
        SaleEvent,
        SaleError,
    >)
        ensures
            match r {
                Ok(event) => {
                    &&& old(self)@.set_token_error(source) is None
                    &&& final(self)@ == old(self)@.after_set_token(sale_token)
                    &&& event == SaleEvent::SaleTokenSet(sale_token)
                },
                Err(e) => {
                    &&& old(self)@.set_token_error(source) == Some(e)
                    &&& final(self)@ == old(self)@
                },
            },
            old(self)@.wf() ==> final(self)@.wf(),
    {
        self.only_admin(source)?;
        self.only_if_gate_open()?;
        self.token = sale_token;
        Ok(SaleEvent::SaleTokenSet(sale_token))
    }

    /// Freezes the configuration, on the request of `source` at `now`: where
    /// `source` is the admin, it is not frozen yet, the sale is created, its
    /// token is set, the tokens are deposited and a registration round is
    /// set. What is frozen stays frozen.
    pub fn close_gate(&mut self, source: ActorId, now: u64) -> (r: Result<SaleEvent, SaleError>)
        ensures
            match r {
                Ok(event) => {
                    &&& old(self)@.close_gate_error(source) is None
                    &&& final(self)@ == old(self)@.after_close_gate()
                    &&& event == SaleEvent::GateClosed(now)
                },
                Err(e) => {
                    &&& old(self)@.close_gate_error(source) == Some(e)
                    &&& final(self)@ == old(self)@
                },
            },
            old(self)@.wf() ==> final(self)@.wf(),
    {
        self.only_admin(source)?;
        self.only_if_gate_open()?;
        if !self.is_created || self.token.is_zero() || !self.tokens_deposited
            || self.registration.start_datetime == 0 || self.registration.end_datetime == 0 {
            return Err(SaleError::InvalidConfiguration);
        }
        self.gate_closed = true;
        Ok(SaleEvent::GateClosed(now))
    }

    /// Grants allocations, on the request of `source`: each user named in
    /// `allocations_sizes` has the amount given there added to the cap. Where
    /// `source` is not the admin or one of the users is not registered,
    /// nothing is granted to anybody. One event reports each grant, in the
    /// order of the users' identities.
    pub fn set_allocation_sizes(
        &mut self,
        source: ActorId,
        allocations_sizes: &ActorMap<u128>,
    ) -> (r: Result<Vec<SaleEvent>, SaleError>)
        ensures
            match r {
                Ok(events) => {
                    &&& old(self)@.grant_error(source, allocations_sizes@) is None
                    &&& final(self)@ == old(self)@.after_grant(allocations_sizes@)
                    &&& events@.len() == allocations_sizes.pairs().len()
                    &&& forall|i: int|
                        0 <= i < events@.len() ==> #[trigger] events@[i]
                            == SaleEvent::MaxAllocationSizeSet(allocations_sizes.pairs()[i])
                },
                Err(e) => {
                    &&& old(self)@.grant_error(source, allocations_sizes@) == Some(e)
                    &&& final(self)@ == old(self)@
                },
            },
            old(self)@.wf() ==> final(self)@.wf(),
    {
        self.only_admin(source)?;
        let ghost grants = allocations_sizes.pairs();
        let n = allocations_sizes.len();
        // Nothing is granted unless everything can be.
        let mut i: usize = 0;
        while i < n
            invariant
                i <= n,
                n == grants.len(),
                grants == allocations_sizes.pairs(),
                old(self).admin == source,
                *self == *old(self),
                forall|j: int| 0 <= j < i ==> self@.users.contains_key((#[trigger] grants[j]).0),
            decreases n - i,
        {
            match allocations_sizes.entry(i) {
                Some((user, _)) => {
                    if !self.registration.users.contains(&user) {
                        assert(allocations_sizes@.contains_key(user) && !self@.users.contains_key(
                            user,
                        ));
                        return Err(SaleError::UserNotRegistered);
                    }
                },
                None => {},
            }
            i += 1;
        }
        proof {
            assert forall|k: ActorId| allocations_sizes@.contains_key(k) implies old(
                self,
            )@.users.contains_key(k) by {
                lemma_key_has_entry(grants, k);
                assert(self@.users.contains_key(grants[position(grants, k)].0));
            }
            lemma_take_ends(grants);
            assert(self@.users =~= granted(old(self)@.users, as_map(grants.take(0))));
        }
        let mut events: Vec<SaleEvent> = Vec::new();
        let mut i: usize = 0;
        while i < n
            invariant
                i <= n,
                n == grants.len(),
                grants == allocations_sizes.pairs(),
                old(self).admin == source,
                forall|k: ActorId|
                    allocations_sizes@.contains_key(k) ==> old(self)@.users.contains_key(k),
                self@ == (SaleModel { users: self@.users, ..old(self)@ }),
                self@.users == granted(old(self)@.users, as_map(grants.take(i as int))),
                events@.len() == i,
                forall|j: int|
                    0 <= j < i ==> #[trigger] events@[j] == SaleEvent::MaxAllocationSizeSet(
                        grants[j],
                    ),
            decreases n - i,
        {
            match allocations_sizes.entry(i) {
                Some((user, allocation_size)) => {
                    proof {
                        lemma_take_next(grants, i as int);
                    }
                    match self.registration.grant_allocation(user, allocation_size) {
                        Ok(()) => {
                            events.push(SaleEvent::MaxAllocationSizeSet((user, allocation_size)));
                        },
                        Err(_) => {},
                    }
                    assert(self@.users =~= granted(old(self)@.users, as_map(grants.take(i + 1))));
                },
                None => {},
            }
            i += 1;
        }
        proof {
            lemma_take_ends(grants);
        }
        Ok(events)
    }
}

// Registration.
impl Sale {
    /// Checks that `source` may register at `now` with `value` attached.
    fn check_registration(&self, source: ActorId, value: u128, now: u64) -> (r: Result<
        (),
        SaleError,
    >)
        ensures
            r == checked(self@.registration_error(source, value, now)),
    {
        if self.registration_fee_gear != value {
            Err(SaleError::FeeMismatch)
        } else if !self.registration.is_open(now) {
            Err(SaleError::WindowClosed)
        } else if self.registration.users.contains(&source) {
            Err(SaleError::AlreadyRegistered)
        } else {
            Ok(())
        }
    }

    /// Begins the registration of `source` at `now` with `value` attached:
    /// where the value is the registration fee, the registration round is
    /// open and `source` is not registered yet, the staking ledger is to be
    /// asked for the stake of `source`. The sale changes only when the
    /// registration is finished, by `register`.
    pub fn start_register(&self, source: ActorId, value: u128, now: u64) -> (r: Result<
        LedgerCall,
        SaleError,
    >)
        ensures
            r == (match self@.registration_error(source, value, now) {
                Some(e) => Err(e),
                None => Ok((LedgerCall::StakeOf { staking: self.staking, user: source })),
            }),
    {
        self.check_registration(source, value, now)?;
        Ok(LedgerCall::StakeOf { staking: self.staking, user: source })
    }

    /// Finishes the registration of `source`, who attached `value`, at `now`,
    /// with the staking ledger's `reply` to the question about the stake.
    ///
    /// The registration goes through where the ledger reports a stake above
    /// zero, the value is the registration fee, the registration round is
    /// open and `source` is not registered yet. The user then has a cap of
    /// zero, and the fee is in the pool.
    pub fn register(&mut self, source: ActorId, value: u128, now: u64, reply: CallReply) -> (r:
        Result<SaleEvent, SaleError>)
        ensures
            match r {
                Ok(event) => {
                    &&& old(self)@.register_error(source, value, now, reply) is None
                    &&& final(self)@ == old(self)@.after_register(source, value)
                    &&& event == SaleEvent::UserRegistered(source)
                },
                Err(e) => {
                    &&& old(self)@.register_error(source, value, now, reply) == Some(e)
                    &&& final(self)@ == old(self)@
                },
            },
            old(self)@.wf() ==> final(self)@.wf(),
    {
        let stake = reply.stake()?;
        if stake == 0 {
            return Err(SaleError::InsufficientStake);
        }
        if self.registration_fee_gear != value {
            return Err(SaleError::FeeMismatch);
        }
        self.registration.register_user(source, now)?;
        self.registration_fees = self.registration_fees.saturating_add(value);
        Ok(SaleEvent::UserRegistered(source))
    }

    /// Takes `who` out of the registered users, on the request of `source`
    /// at `now`: where `source` is the admin and the registration round is
    /// open. Nobody else is touched. Where `who` is not registered, nothing
    /// changes; the fee that `who` paid stays in the pool.
    pub fn remove_registered(&mut self, source: ActorId, who: ActorId, now: u64) -> (r: Result<
        SaleEvent,
        SaleError,
    >)
        ensures
            match r {
                Ok(event) => {
                    &&& old(self)@.remove_registered_error(source, now) is None
                    &&& final(self)@ == old(self)@.after_remove_registered(who)
                    &&& event == SaleEvent::RegisteredRemoved(who)
                },
                Err(e) => {
                    &&& old(self)@.remove_registered_error(source, now) == Some(e)
                    &&& final(self)@ == old(self)@
                },
            },
            old(self)@.wf() ==> final(self)@.wf(),
    {
        self.only_admin(source)?;
        if !self.registration.is_open(now) {
            return Err(SaleError::WindowClosed);
        }
        self.registration.users.remove(&who);
        Ok(SaleEvent::RegisteredRemoved(who))
    }
}

// Participation.
impl Sale {
    /// Checks that `source` may take part in the sale at `now`.
    fn check_participation(&self, source: ActorId, now: u64) -> (r: Result<(), SaleError>)
        ensures
            r == checked(self@.participation_error(source, now)),
    {
        if !self.sale.is_open(now) {
            Err(SaleError::WindowClosed)
        } else if !self.registration.users.contains(&source) {
            Err(SaleError::UserNotRegistered)
        } else if self.sale.participants.contains(&source) {
            Err(SaleError::AlreadyParticipated)
        } else {
            Ok(())
        }
    }

    /// Begins a purchase by `source` at `now`: where the sale round is open
    /// and `source` is registered and has not bought yet, the token ledger is
    /// to be asked for its decimals. The sale changes only when the purchase
    /// is finished, by `participate`.
    pub fn start_participate(&self, source: ActorId, now: u64) -> (r: Result<
        LedgerCall,
        SaleError,
    >)
        ensures
            r == (match self@.participation_error(source, now) {
                Some(e) => Err(e),
                None => Ok((LedgerCall::Decimals { token: self.token })),
            }),
    {
        self.check_participation(source, now)?;
        Ok(LedgerCall::Decimals { token: self.token })
    }

    /// Finishes a purchase by `source`, who paid `value`, at `now`, with the
    /// token ledger's `reply` to the question about its decimals.
    ///
    /// The purchase goes through where the sale round is open, `source` is
    /// registered and has not bought before, and the tokens that `value`
    /// buys are more than none, within the cap of `source` and within what is
    /// left to sell. The registration fee is then refunded with the event.
    pub fn participate(&mut self, source: ActorId, value: u128, now: u64, reply: CallReply) -> (r:
        Result<SaleEvent, SaleError>)
        ensures
            match r {
                Ok(event) => {
                    &&& old(self)@.participate_error(source, value, now, reply) is None
                    &&& reply matches CallReply::Decimals(decimals) && final(self)@ == old(
                        self,
                    )@.after_participate(source, value, now, decimals)
                    &&& event == SaleEvent::RegistrationGEARRefunded(
                        source,
                        old(self).registration_fee_gear,
                    )
                },
                Err(e) => {
                    &&& old(self)@.participate_error(source, value, now, reply) == Some(e)
                    &&& final(self)@ == old(self)@
                },
            },
            old(self)@.wf() ==> final(self)@.wf(),
    {
        self.check_participation(source, now)?;
        let decimals = reply.decimals()?;
        if self.token_price_in_gear == 0 {
            return Err(SaleError::InvalidConfiguration);
        }
        let tokens_to_buy = tokens_for_payment(value, self.token_price_in_gear, decimals);
        let cap = match self.registration.users.get(&source) {
            Some(cap) => cap,
            None => {
                return Err(SaleError::UserNotRegistered);
            },
        };
        if tokens_to_buy > cap {
            return Err(SaleError::AllocationExceeded);
        }
        if tokens_to_buy == 0 {
            return Err(SaleError::ZeroAmount);
        }
        if tokens_to_buy > self.tokens_to_sell.saturating_sub(self.tokens_sold) {
            return Err(SaleError::InsufficientInventory);
        }
        self.sale.record(
            source,
            Participate {
                amount_bought: tokens_to_buy,
                amount_paid_gear: value,
                participated_datetime: now,
            },
        )?;
        self.tokens_sold = self.tokens_sold.saturating_add(tokens_to_buy);
        self.tokens_raised = self.tokens_raised.saturating_add(value);
        self.registration_fees = self.registration_fees.saturating_sub(self.registration_fee_gear);
        Ok(SaleEvent::RegistrationGEARRefunded(source, self.registration_fee_gear))
    }
}

// Settlement.
impl Sale {
    /// Takes the tokens for sale into custody, on the request of `source`:
    /// where `source` is the owner, the configuration is not frozen, the sale
    /// is created and nothing has been deposited yet, the tokens count as
    /// deposited from now on, and the token ledger is to move all the tokens
    /// on sale from the owner to `program`, the sale's own account.
    ///
    /// The deposit is on the books before the ledger is asked, so that no
    /// second deposit can start while the transfer is under way. Where the
    /// ledger then rejects the transfer, the books say more than the ledger
    /// holds: `CallReply::transferred` reports that, and nothing is undone.
    pub fn deposit_tokens(&mut self, source: ActorId, program: ActorId) -> (r: Result<
        LedgerCall,
        SaleError,
    >)
        ensures
            match r {
                Ok(call) => {
                    &&& old(self)@.deposit_error(source) is None
                    &&& final(self)@ == old(self)@.after_deposit()
                    &&& call == (LedgerCall::TransferFrom {
                        token: old(self).token,
                        from: source,
                        to: program,
                        amount: old(self).tokens_to_sell,
                    })
                },
                Err(e) => {
                    &&& old(self)@.deposit_error(source) == Some(e)
                    &&& final(self)@ == old(self)@
                },
            },
            old(self)@.wf() ==> final(self)@.wf(),
    {
        self.only_sale_owner(source)?;
        self.only_if_gate_open()?;
        if !self.is_created {
            return Err(SaleError::InvalidConfiguration);
        }
        if self.tokens_deposited {
            return Err(SaleError::AlreadyDeposited);
        }
        self.tokens_deposited = true;
        Ok(transfer_tokens(&self.token, &source, &program, self.tokens_to_sell))
    }

    /// Hands out the tokens that `source` bought: where the sale round is
    /// over and `source` has bought tokens, the token ledger is to move
    /// exactly those from `program`, the sale's own account, to `source`. The
    /// record of the purchase stays as it is.
    pub fn withdraw_allocation(&self, source: ActorId, program: ActorId, now: u64) -> (r: Result<
        LedgerCall,
        SaleError,
    >)
        ensures
            r == (match self@.withdraw_allocation_error(source, now) {
                Some(e) => Err(e),
                None => Ok(
                    (LedgerCall::TransferFrom {
                        token: self.token,
                        from: program,
                        to: source,
                        amount: self@.participants[source].amount_bought,
                    }),
                ),
            }),
    {
        if !self.sale.is_over(now) {
            return Err(SaleError::WindowClosed);
        }
        match self.sale.participants.get(&source) {
            None => Err(SaleError::NotFound),
            Some(participation) => {
                if participation.amount_bought == 0 {
                    Err(SaleError::ZeroAmount)
                } else {
                    Ok(transfer_tokens(&self.token, &program, &source, participation.amount_bought))
                }
            },
        }
    }

    /// Pays the earnings out to the owner: where `source` is the owner, the
    /// sale round is over, the earnings have not been paid out before and
    /// something was raised, all that was raised leaves with the event, once
    /// and for all.
    pub fn withdraw_earnings(&mut self, source: ActorId, now: u64) -> (r: Result<
        SaleEvent,
        SaleError,
    >)
        ensures
            match r {
                Ok(event) => {
                    &&& old(self)@.withdraw_earnings_error(source, now) is None
                    &&& final(self)@ == old(self)@.after_withdraw_earnings()
                    &&& event == SaleEvent::EarningsWithdrawn(old(self).tokens_raised)
                },
                Err(e) => {
                    &&& old(self)@.withdraw_earnings_error(source, now) == Some(e)
                    &&& final(self)@ == old(self)@
                },
            },
            old(self)@.wf() ==> final(self)@.wf(),
    {
        self.only_sale_owner(source)?;
        if !self.sale.is_over(now) {
            return Err(SaleError::WindowClosed);
        }
        if self.earnings_withdrawn {
            return Err(SaleError::AlreadyWithdrawn);
        }
        if self.tokens_raised == 0 {
            return Err(SaleError::ZeroAmount);
        }
        self.earnings_withdrawn = true;
        Ok(SaleEvent::EarningsWithdrawn(self.tokens_raised))
    }

    /// Hands the unsold tokens back to the owner: where `source` is the
    /// owner, the sale round is over, the unsold tokens have not been
    /// withdrawn before and there are any, they count as withdrawn from now
    /// on, and the token ledger is to move them from `program`, the sale's
    /// own account, to the owner.
    ///
    /// The withdrawal is on the books before the ledger is asked, so that no
    /// second one can start while the transfer is under way. Where the ledger
    /// then rejects the transfer, `CallReply::transferred` reports that, and
    /// nothing is undone.
    pub fn withdraw_leftover(&mut self, source: ActorId, program: ActorId, now: u64) -> (r: Result<
        LedgerCall,
        SaleError,
    >)
        ensures
            match r {
                Ok(call) => {
                    &&& old(self)@.withdraw_leftover_error(source, now) is None
                    &&& final(self)@ == old(self)@.after_withdraw_leftover()
                    &&& call == (LedgerCall::TransferFrom {
                        token: old(self).token,
                        from: program,
                        to: source,
                        amount: old(self)@.leftover(),
                    })
                },
                Err(e) => {
                    &&& old(self)@.withdraw_leftover_error(source, now) == Some(e)
                    &&& final(self)@ == old(self)@
                },
            },
            old(self)@.wf() ==> final(self)@.wf(),
    {
        self.only_sale_owner(source)?;
        if !self.sale.is_over(now) {
            return Err(SaleError::WindowClosed);
        }
        if self.leftover_withdrawn {
            return Err(SaleError::AlreadyWithdrawn);
        }
        let leftover = self.tokens_to_sell.saturating_sub(self.tokens_sold);
        if leftover == 0 {
            return Err(SaleError::ZeroAmount);
        }
        self.leftover_withdrawn = true;
        Ok(transfer_tokens(&self.token, &program, &source, leftover))
    }

    /// Pays the registration fees out to the admin: where `source` is the
    /// admin, the sale round is over and the pool is not empty, the whole
    /// pool leaves with the event, and the pool is empty afterwards.
    pub fn withdraw_registration_fees(&mut self, source: ActorId, now: u64) -> (r: Result<
        SaleEvent,
        SaleError,
    >)
        ensures
            match r {
                Ok(event) => {
                    &&& old(self)@.withdraw_fees_error(source, now) is None
                    &&& final(self)@ == old(self)@.after_withdraw_fees()
                    &&& event == SaleEvent::RegistrationFeeWithdrawn(old(self).registration_fees)
                },
                Err(e) => {
                    &&& old(self)@.withdraw_fees_error(source, now) == Some(e)
                    &&& final(self)@ == old(self)@
                },
            },
            old(self)@.wf() ==> final(self)@.wf(),
    {
        self.only_admin(source)?;
        if !self.sale.is_over(now) {
            return Err(SaleError::WindowClosed);
        }
        if self.registration_fees == 0 {
            return Err(SaleError::ZeroAmount);
        }
        let fees = self.registration_fees;
        self.registration_fees = 0;
        Ok(SaleEvent::RegistrationFeeWithdrawn(fees))
    }
}

/// Reports the withdrawal of the `amount` tokens that `source` bought, once
/// the token ledger has answered `reply` to their transfer: a rejection fails
/// the withdrawal.
pub fn allocation_withdrawn(source: ActorId, amount: u128, reply: CallReply) -> (r: Result<
    SaleEvent,
    SaleError,
>)
    ensures
        r == (match SaleModel::transfer_error(reply) {
            Some(e) => Err(e),
            None => Ok(SaleEvent::AllocationWithdrawn(source, amount)),
        }),
{
    reply.transferred()?;
    Ok(SaleEvent::AllocationWithdrawn(source, amount))
}

// Questions.
impl Sale {
    /// The allocation cap of `participiant`, where registered.
    pub fn get_allocation_size_of(&self, participiant: ActorId) -> (r: Result<SaleEvent, SaleError>)
        ensures
            r == (if self@.users.contains_key(participiant) {
                Ok(SaleEvent::AllocationSize(self@.users[participiant]))
            } else {
                Err(SaleError::NotFound)
            }),
    {
        match self.registration.users.get(&participiant) {
            Some(allocation_size) => Ok(SaleEvent::AllocationSize(allocation_size)),
            None => Err(SaleError::NotFound),
        }
    }

    /// The purchase of `participiant`, where one is on record.
    pub fn get_participation_of(&self, participiant: ActorId) -> (r: Result<SaleEvent, SaleError>)
        ensures
            r == (if self@.participants.contains_key(participiant) {
                Ok(SaleEvent::Participation(self@.participants[participiant]))
            } else {
                Err(SaleError::NotFound)
            }),
    {
        match self.sale.participants.get(&participiant) {
            Some(participation) => Ok(SaleEvent::Participation(participation)),
            None => Err(SaleError::NotFound),
        }
    }

    /// The ledger of the token on sale.
    pub fn get_sale_token(&self) -> (event: SaleEvent)
        ensures
            event == SaleEvent::SaleToken(self.token),
    {
        SaleEvent::SaleToken(self.token)
    }

    /// The payment raised so far.
    pub fn get_total_raised(&self) -> (event: SaleEvent)
        ensures
            event == SaleEvent::TotalRaised(self.tokens_raised),
    {
        SaleEvent::TotalRaised(self.tokens_raised)
    }

    /// The tokens sold so far.
    pub fn get_total_sold(&self) -> (event: SaleEvent)
        ensures
            event == SaleEvent::TotalSold(self.tokens_sold),
    {
        SaleEvent::TotalSold(self.tokens_sold)
    }
}

/// The answer that the state `s` gives to `query`.
///
/// An actor without a cap is reported with a cap of zero, one without a
/// purchase with the empty record. Each round is reported with its own
/// bounds, and each total under its own name.
pub open spec fn spec_meta_state(s: SaleModel, query: SaleState) -> SaleReply {
    match query {
        SaleState::GetAllocationSizeOf(who) => SaleReply::AllocationSize(
            if s.users.contains_key(who) {
                s.users[who]
            } else {
                0
            },
        ),
        SaleState::GetParticipationOf(who) => SaleReply::Participation(
            if s.participants.contains_key(who) {
                s.participants[who]
            } else {
                Participate::spec_empty()
            },
        ),
        SaleState::GetSaleRoundTime => SaleReply::SaleRoundTime(s.sale_start, s.sale_end),
        SaleState::GetRegistrationRoundTime => SaleReply::RegistrationRoundTime(
            s.registration_start,
            s.registration_end,
        ),
        SaleState::GetSaleToken => SaleReply::SaleToken(s.token),
        SaleState::GetSaleOwner => SaleReply::SaleOwner(s.owner),
        SaleState::GetTotalSold => SaleReply::TotalSold(s.tokens_sold),
        SaleState::GetTotalRaised => SaleReply::TotalRaised(s.tokens_raised),
    }
}

/// Answers a question about the state of `sale`, which stays as it is.
pub fn meta_state(sale: &Sale, query: SaleState) -> (reply: SaleReply)
    ensures
        reply == spec_meta_state(sale@, query),
{
    match query {
        SaleState::GetAllocationSizeOf(who) => SaleReply::AllocationSize(
            match sale.registration.users.get(&who) {
                Some(allocation_size) => allocation_size,
                None => 0,
            },
        ),
        SaleState::GetParticipationOf(who) => SaleReply::Participation(
            match sale.sale.participants.get(&who) {
                Some(participation) => participation,
                None => Participate::empty(),
            },
        ),
        SaleState::GetSaleRoundTime => SaleReply::SaleRoundTime(
            sale.sale.start_datetime,
            sale.sale.end_datetime,
        ),
        SaleState::GetRegistrationRoundTime => SaleReply::RegistrationRoundTime(
            sale.registration.start_datetime,
            sale.registration.end_datetime,
        ),
        SaleState::GetSaleToken => SaleReply::SaleToken(sale.token),
        SaleState::GetSaleOwner => SaleReply::SaleOwner(sale.owner),
        SaleState::GetTotalSold => SaleReply::TotalSold(sale.tokens_sold),
        SaleState::GetTotalRaised => SaleReply::TotalRaised(sale.tokens_raised),
    }
}

} // verus!
