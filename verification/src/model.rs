//! The sale as a mathematical state, and each request as a guard and an
//! effect on that state.
//!
//! For every request there is a function that names the first condition
//! that the request violates (`None` when it violates none) and a function
//! that gives the state after the request has gone through. The executable
//! sale is held to exactly these.

use crate::actor::ActorId;
use crate::error::SaleError;
use crate::io::{Participate, SaleParameters};
use crate::ledger::CallReply;
use crate::price::spec_tokens_for_payment;
use vstd::prelude::*;

verus! {

/// `a + b`, held at the largest 128-bit value.
pub open spec fn add_saturating(a: u128, b: u128) -> u128 {
    if a + b > u128::MAX {
        u128::MAX
    } else {
        (a + b) as u128
    }
}

/// `a - b`, held at zero.
pub open spec fn sub_saturating(a: u128, b: u128) -> u128 {
    if a < b {
        0
    } else {
        (a - b) as u128
    }
}

/// The caps after the admin has granted `grants`: each registered user named
/// in `grants` has the grant added to the cap, the others keep theirs.
pub open spec fn granted(users: Map<ActorId, u128>, grants: Map<ActorId, u128>) -> Map<
    ActorId,
    u128,
> {
    Map::new(
        |k: ActorId| users.contains_key(k),
        |k: ActorId|
            if grants.contains_key(k) {
                add_saturating(users[k], grants[k])
            } else {
                users[k]
            },
    )
}

/// The state of a sale.
pub struct SaleModel {
    pub admin: ActorId,
    pub owner: ActorId,
    pub token: ActorId,
    pub staking: ActorId,
    pub registration_start: u64,
    pub registration_end: u64,
    /// The users registered in the current registration round, each with the
    /// allocation cap.
    pub users: Map<ActorId, u128>,
    pub sale_start: u64,
    pub sale_end: u64,
    /// The purchases made in the current sale round.
    pub participants: Map<ActorId, Participate>,
    pub tokens_to_sell: u128,
    pub tokens_sold: u128,
    pub tokens_raised: u128,
    pub token_price_in_gear: u128,
    pub tokens_deposited: bool,
    pub registration_fee_gear: u128,
    pub registration_fees: u128,
    pub earnings_withdrawn: bool,
    pub leftover_withdrawn: bool,
    pub is_created: bool,
    pub gate_closed: bool,
}

impl SaleModel {
    /// The state of a sale that `admin` has just started: nothing configured,
    /// nobody registered, nothing sold.
    pub open spec fn initial(admin: ActorId) -> SaleModel {
        SaleModel {
            admin,
            owner: ActorId::spec_zero(),
            token: ActorId::spec_zero(),
            staking: ActorId::spec_zero(),
            registration_start: 0,
            registration_end: 0,
            users: Map::empty(),
            sale_start: 0,
            sale_end: 0,
            participants: Map::empty(),
            tokens_to_sell: 0,
            tokens_sold: 0,
            tokens_raised: 0,
            token_price_in_gear: 0,
            tokens_deposited: false,
            registration_fee_gear: 0,
            registration_fees: 0,
            earnings_withdrawn: false,
            leftover_withdrawn: false,
            is_created: false,
            gate_closed: false,
        }
    }

    /// What holds of every sale: no more is sold than is on sale, nothing is
    /// on sale before the sale is created, and only the configuration of a
    /// created sale is ever frozen.
    pub open spec fn wf(self) -> bool {
        &&& self.tokens_sold <= self.tokens_to_sell
        &&& !self.is_created ==> self.tokens_to_sell == 0
        &&& self.gate_closed ==> self.is_created
    }

    /// Whether `now` lies in the registration round, ends included.
    pub open spec fn registration_open(self, now: u64) -> bool {
        self.registration_start <= now <= self.registration_end
    }

    /// Whether `now` lies in the sale round, ends included.
    pub open spec fn sale_open(self, now: u64) -> bool {
        self.sale_start <= now <= self.sale_end
    }

    /// Whether the sale round has ended at `now`.
    pub open spec fn sale_over(self, now: u64) -> bool {
        now >= self.sale_end
    }

    /// The tokens on sale that are not sold.
    pub open spec fn leftover(self) -> u128 {
        sub_saturating(self.tokens_to_sell, self.tokens_sold)
    }

    /// Fails unless `source` is the admin.
    pub open spec fn admin_error(self, source: ActorId) -> Option<SaleError> {
        if source != self.admin {
            Some(SaleError::Unauthorized)
        } else {
            None
        }
    }

    /// Fails unless `source` is the sale owner.
    pub open spec fn owner_error(self, source: ActorId) -> Option<SaleError> {
        if source != self.owner {
            Some(SaleError::Unauthorized)
        } else {
            None
        }
    }

    /// Fails once the configuration is frozen.
    pub open spec fn gate_error(self) -> Option<SaleError> {
        if self.gate_closed {
            Some(SaleError::GateMustBeOpen)
        } else {
            None
        }
    }

    /// What the admin needs to change the configuration: the role, an open
    /// gate, and a sale that has been created.
    pub open spec fn configuration_error(self, source: ActorId) -> Option<SaleError> {
        if source != self.admin {
            Some(SaleError::Unauthorized)
        } else if self.gate_closed {
            Some(SaleError::GateMustBeOpen)
        } else if !self.is_created {
            Some(SaleError::InvalidConfiguration)
        } else {
            None
        }
    }

    /// Why the sale cannot be created with `parameters` by `source`.
    pub open spec fn create_error(self, source: ActorId, parameters: SaleParameters) -> Option<
        SaleError,
    > {
        if source != self.admin {
            Some(SaleError::Unauthorized)
        } else if self.is_created || parameters.owner == ActorId::spec_zero()
            || parameters.tokens_to_sell == 0 || parameters.token_price_in_gear == 0 {
            Some(SaleError::InvalidConfiguration)
        } else {
            None
        }
    }

    /// The sale, created with `parameters`.
    pub open spec fn after_create(self, parameters: SaleParameters) -> SaleModel {
        SaleModel {
            owner: parameters.owner,
            token: parameters.token,
            staking: parameters.staking,
            token_price_in_gear: parameters.token_price_in_gear,
            tokens_to_sell: parameters.tokens_to_sell,
            registration_fee_gear: parameters.registration_fee_gear,
            is_created: true,
            ..self
        }
    }

    /// Why `source` cannot set the sale token.
    pub open spec fn set_token_error(self, source: ActorId) -> Option<SaleError> {
        if source != self.admin {
            Some(SaleError::Unauthorized)
        } else if self.gate_closed {
            Some(SaleError::GateMustBeOpen)
        } else {
            None
        }
    }

    /// The sale with `token` as the ledger of the token on sale.
    pub open spec fn after_set_token(self, token: ActorId) -> SaleModel {
        SaleModel { token, ..self }
    }

    /// Why `source` cannot open a registration round from `start` to `end`
    /// at `now`: beyond what every change of configuration needs, the round
    /// must end before the sale round does, begin no earlier than now and
    /// end after it begins.
    pub open spec fn set_registration_time_error(
        self,
        source: ActorId,
        start: u64,
        end: u64,
        now: u64,
    ) -> Option<SaleError> {
        if self.configuration_error(source) is Some {
            self.configuration_error(source)
        } else if !(self.sale_end > end) || !(start >= now && start < end) {
            Some(SaleError::InvalidConfiguration)
        } else {
            None
        }
    }

    /// The sale with a new registration round in which nobody is registered.
    pub open spec fn after_set_registration_time(self, start: u64, end: u64) -> SaleModel {
        SaleModel { registration_start: start, registration_end: end, users: Map::empty(), ..self }
    }

    /// Why `source` cannot open a sale round from `start` to `end` at `now`:
    /// beyond what every change of configuration needs, the round must begin
    /// no earlier than now, end after it begins and end after the
    /// registration round does.
    pub open spec fn set_sale_time_error(
        self,
        source: ActorId,
        start: u64,
        end: u64,
        now: u64,
    ) -> Option<SaleError> {
        if self.configuration_error(source) is Some {
            self.configuration_error(source)
        } else if !(start >= now && start < end) || !(end > self.registration_end) {
            Some(SaleError::InvalidConfiguration)
        } else {
            None
        }
    }

    /// The sale with a new sale round in which nobody has bought.
    pub open spec fn after_set_sale_time(self, start: u64, end: u64) -> SaleModel {
        SaleModel { sale_start: start, sale_end: end, participants: Map::empty(), ..self }
    }

    /// Why `source` cannot grant `grants`: every user named must be
    /// registered.
    pub open spec fn grant_error(self, source: ActorId, grants: Map<ActorId, u128>) -> Option<
        SaleError,
    > {
        if source != self.admin {
            Some(SaleError::Unauthorized)
        } else if exists|k: ActorId| grants.contains_key(k) && !self.users.contains_key(k) {
            Some(SaleError::UserNotRegistered)
        } else {
            None
        }
    }

    /// The sale with `grants` added to the caps of the users named there.
    pub open spec fn after_grant(self, grants: Map<ActorId, u128>) -> SaleModel {
        SaleModel { users: granted(self.users, grants), ..self }
    }

    /// Why `source` cannot freeze the configuration: the sale must be created, its
    /// token set, the tokens deposited and a registration round set.
    pub open spec fn close_gate_error(self, source: ActorId) -> Option<SaleError> {
        if source != self.admin {
            Some(SaleError::Unauthorized)
        } else if self.gate_closed {
            Some(SaleError::GateMustBeOpen)
        } else if !self.is_created || self.token == ActorId::spec_zero() || !self.tokens_deposited
            || self.registration_start == 0 || self.registration_end == 0 {
            Some(SaleError::InvalidConfiguration)
        } else {
            None
        }
    }

    /// The sale with its configuration frozen.
    pub open spec fn after_close_gate(self) -> SaleModel {
        SaleModel { gate_closed: true, ..self }
    }

    /// Why `source` cannot register at `now` with `value` attached, whatever
    /// the staking ledger says.
    pub open spec fn registration_error(self, source: ActorId, value: u128, now: u64) -> Option<
        SaleError,
    > {
        if value != self.registration_fee_gear {
            Some(SaleError::FeeMismatch)
        } else if !self.registration_open(now) {
            Some(SaleError::WindowClosed)
        } else if self.users.contains_key(source) {
            Some(SaleError::AlreadyRegistered)
        } else {
            None
        }
    }

    /// Why `source` cannot register at `now` with `value` attached, when the
    /// staking ledger has answered `reply`.
    pub open spec fn register_error(
        self,
        source: ActorId,
        value: u128,
        now: u64,
        reply: CallReply,
    ) -> Option<SaleError> {
        match reply.spec_stake() {
            Err(e) => Some(e),
            Ok(stake) => if stake == 0 {
                Some(SaleError::InsufficientStake)
            } else {
                self.registration_error(source, value, now)
            },
        }
    }

    /// The sale with `source` registered: the cap is zero, the fee is in the
    /// pool.
    pub open spec fn after_register(self, source: ActorId, value: u128) -> SaleModel {
        SaleModel {
            users: self.users.insert(source, 0),
            registration_fees: add_saturating(self.registration_fees, value),
            ..self
        }
    }

    /// Why `source` cannot remove a registration at `now`: only the admin
    /// can, and only while the registration round is open.
    pub open spec fn remove_registered_error(self, source: ActorId, now: u64) -> Option<
        SaleError,
    > {
        if source != self.admin {
            Some(SaleError::Unauthorized)
        } else if !self.registration_open(now) {
            Some(SaleError::WindowClosed)
        } else {
            None
        }
    }

    /// The sale without the registration of `who`.
    pub open spec fn after_remove_registered(self, who: ActorId) -> SaleModel {
        SaleModel { users: self.users.remove(who), ..self }
    }

    /// Why `source` cannot take part in the sale at `now`, whatever is paid.
    pub open spec fn participation_error(self, source: ActorId, now: u64) -> Option<SaleError> {
        if !self.sale_open(now) {
            Some(SaleError::WindowClosed)
        } else if !self.users.contains_key(source) {
            Some(SaleError::UserNotRegistered)
        } else if self.participants.contains_key(source) {
            Some(SaleError::AlreadyParticipated)
        } else {
            None
        }
    }

    /// The tokens that `value` buys when the token has `decimals` decimals.
    pub open spec fn tokens_bought(self, value: u128, decimals: u8) -> int {
        spec_tokens_for_payment(value, self.token_price_in_gear, decimals)
    }

    /// Why the registered user `source` cannot buy for `value`: the tokens
    /// bought must be more than none, within the user's cap and within what
    /// is left.
    pub open spec fn purchase_error(self, source: ActorId, value: u128, decimals: u8) -> Option<
        SaleError,
    > {
        if self.token_price_in_gear == 0 {
            Some(SaleError::InvalidConfiguration)
        } else if self.tokens_bought(value, decimals) > self.users[source] {
            Some(SaleError::AllocationExceeded)
        } else if self.tokens_bought(value, decimals) == 0 {
            Some(SaleError::ZeroAmount)
        } else if self.tokens_bought(value, decimals) > self.leftover() {
            Some(SaleError::InsufficientInventory)
        } else {
            None
        }
    }

    /// Why `source` cannot buy for `value` at `now`, when the token ledger
    /// has answered `reply`.
    pub open spec fn participate_error(
        self,
        source: ActorId,
        value: u128,
        now: u64,
        reply: CallReply,
    ) -> Option<SaleError> {
        if self.participation_error(source, now) is Some {
            self.participation_error(source, now)
        } else {
            match reply.spec_decimals() {
                Err(e) => Some(e),
                Ok(decimals) => self.purchase_error(source, value, decimals),
            }
        }
    }

    /// The sale after `source` has bought for `value` at `now`: the tokens
    /// are sold, the payment is raised, the registration fee has left the
    /// pool, and the purchase is on record.
    pub open spec fn after_participate(
        self,
        source: ActorId,
        value: u128,
        now: u64,
        decimals: u8,
    ) -> SaleModel {
        let tokens = self.tokens_bought(value, decimals) as u128;
        SaleModel {
            tokens_sold: add_saturating(self.tokens_sold, tokens),
            tokens_raised: add_saturating(self.tokens_raised, value),
            registration_fees: sub_saturating(self.registration_fees, self.registration_fee_gear),
            participants: self.participants.insert(
                source,
                Participate {
                    amount_bought: tokens,
                    amount_paid_gear: value,
                    participated_datetime: now,
                },
            ),
            ..self
        }
    }

    /// Why `source` cannot deposit the tokens for sale.
    pub open spec fn deposit_error(self, source: ActorId) -> Option<SaleError> {
        if source != self.owner {
            Some(SaleError::Unauthorized)
        } else if self.gate_closed {
            Some(SaleError::GateMustBeOpen)
        } else if !self.is_created {
            Some(SaleError::InvalidConfiguration)
        } else if self.tokens_deposited {
            Some(SaleError::AlreadyDeposited)
        } else {
            None
        }
    }

    /// The sale with the tokens for sale counted as deposited.
    pub open spec fn after_deposit(self) -> SaleModel {
        SaleModel { tokens_deposited: true, ..self }
    }

    /// Why `source` cannot withdraw an allocation at `now`.
    pub open spec fn withdraw_allocation_error(self, source: ActorId, now: u64) -> Option<
        SaleError,
    > {
        if !self.sale_over(now) {
            Some(SaleError::WindowClosed)
        } else if !self.participants.contains_key(source) {
            Some(SaleError::NotFound)
        } else if self.participants[source].amount_bought == 0 {
            Some(SaleError::ZeroAmount)
        } else {
            None
        }
    }

    /// Why `source` cannot withdraw the earnings at `now`.
    pub open spec fn withdraw_earnings_error(self, source: ActorId, now: u64) -> Option<
        SaleError,
    > {
        if source != self.owner {
            Some(SaleError::Unauthorized)
        } else if !self.sale_over(now) {
            Some(SaleError::WindowClosed)
        } else if self.earnings_withdrawn {
            Some(SaleError::AlreadyWithdrawn)
        } else if self.tokens_raised == 0 {
            Some(SaleError::ZeroAmount)
        } else {
            None
        }
    }

    /// The sale with the earnings counted as paid out.
    pub open spec fn after_withdraw_earnings(self) -> SaleModel {
        SaleModel { earnings_withdrawn: true, ..self }
    }

    /// Why `source` cannot withdraw the unsold tokens at `now`.
    pub open spec fn withdraw_leftover_error(self, source: ActorId, now: u64) -> Option<
        SaleError,
    > {
        if source != self.owner {
            Some(SaleError::Unauthorized)
        } else if !self.sale_over(now) {
            Some(SaleError::WindowClosed)
        } else if self.leftover_withdrawn {
            Some(SaleError::AlreadyWithdrawn)
        } else if self.leftover() == 0 {
            Some(SaleError::ZeroAmount)
        } else {
            None
        }
    }

    /// The sale with the unsold tokens counted as withdrawn.
    pub open spec fn after_withdraw_leftover(self) -> SaleModel {
        SaleModel { leftover_withdrawn: true, ..self }
    }

    /// Why `source` cannot withdraw the registration fees at `now`.
    pub open spec fn withdraw_fees_error(self, source: ActorId, now: u64) -> Option<SaleError> {
        if source != self.admin {
            Some(SaleError::Unauthorized)
        } else if !self.sale_over(now) {
            Some(SaleError::WindowClosed)
        } else if self.registration_fees == 0 {
            Some(SaleError::ZeroAmount)
        } else {
            None
        }
    }

    /// The sale with the pool of registration fees paid out.
    pub open spec fn after_withdraw_fees(self) -> SaleModel {
        SaleModel { registration_fees: 0, ..self }
    }

    /// Why a request that waited for a transfer fails once the ledger has
    /// answered `reply`: only because the ledger rejected the transfer.
    pub open spec fn transfer_error(reply: CallReply) -> Option<SaleError> {
        match reply.spec_transferred() {
            Err(e) => Some(e),
            Ok(_) => None,
        }
    }
}

} // verus!
