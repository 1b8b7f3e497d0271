//! From a request to the operation of the sale that serves it.
//!
//! The host hands every request to `handle`. A request that needs no
//! collaborator is served at once. One that does is suspended: `handle` names
//! the call, the host makes it, and `resume` finishes the request with the
//! reply. Other requests may be served in between.

use crate::actor::ActorId;
use crate::error::SaleError;
use crate::io::{SaleAction, SaleEvent};
use crate::ledger::{CallReply, LedgerCall};
use crate::model::SaleModel;
use crate::sale::{allocation_withdrawn, Sale};
use vstd::prelude::*;

verus! {

/// What the host knows of a request.
#[derive(Clone, Copy, Debug, PartialEq, Eq, Structural)]
pub struct Env {
    /// Who sent the request.
    pub source: ActorId,
    /// The payment attached to it.
    pub value: u128,
    /// The time at which it is served.
    pub now: u64,
    /// The sale's own identity, under which it holds tokens.
    pub program: ActorId,
}

/// A request that waits for a collaborator.
#[derive(Clone, Copy, Debug, PartialEq, Eq, Structural)]
pub enum Pending {
    /// A registration that waits for the stake of its sender.
    Register,
    /// A purchase that waits for the decimals of the token.
    Participate,
    /// A deposit that waits for the transfer to be acknowledged.
    DepositTokens,
    /// A withdrawal of this many bought tokens that waits for their transfer
    /// to be acknowledged.
    WithdrawAllocation(u128),
    /// A withdrawal of the unsold tokens that waits for their transfer to be
    /// acknowledged.
    WithdrawLeftover,
}

/// How far `handle` has brought a request.
#[derive(Debug)]
pub enum Step {
    /// The request is served: these events answer it, in this order.
    Reply(Vec<SaleEvent>),
    /// The request waits for this call; `resume` finishes it.
    Await(LedgerCall, Pending),
}

/// What reaches a sale: a request, or the reply that a suspended request
/// waited for.
pub enum Input {
    Request(Env, SaleAction),
    Reply(Env, Pending, CallReply),
}

/// One event for each entry of `grants`, in the order of the entries.
pub open spec fn grant_events(grants: Seq<(ActorId, u128)>) -> Seq<SaleEvent> {
    Seq::new(grants.len(), |i: int| SaleEvent::MaxAllocationSizeSet(grants[i]))
}

impl SaleModel {
    /// Why `handle` turns the request `action` down.
    pub open spec fn handle_error(self, env: Env, action: SaleAction) -> Option<SaleError> {
        match action {
            SaleAction::CreateSale(parameters) => self.create_error(env.source, parameters),
            SaleAction::SetSaleToken(_) => self.set_token_error(env.source),
            SaleAction::SetRegistrationTime(start, end) => self.set_registration_time_error(
                env.source,
                start,
                end,
                env.now,
            ),
            SaleAction::SetSaleTime(start, end) => self.set_sale_time_error(
                env.source,
                start,
                end,
                env.now,
            ),
            SaleAction::SetMaxAllocationSizes(grants) => self.grant_error(env.source, grants@),
            SaleAction::GetAllocationSizeOf(who) => if self.users.contains_key(who) {
                None
            } else {
                Some(SaleError::NotFound)
            },
            SaleAction::GetParticipationOf(who) => if self.participants.contains_key(who) {
                None
            } else {
                Some(SaleError::NotFound)
            },
            SaleAction::GetSaleToken => None,
            SaleAction::GetTotalSold => None,
            SaleAction::GetTotalRaised => None,
            SaleAction::RegisterOnSale => self.registration_error(env.source, env.value, env.now),
            SaleAction::Participate => self.participation_error(env.source, env.now),
            SaleAction::DepositTokens => self.deposit_error(env.source),
            SaleAction::WithdrawAllocation => self.withdraw_allocation_error(env.source, env.now),
            SaleAction::WithdrawLeftover => self.withdraw_leftover_error(env.source, env.now),
            SaleAction::WithdrawEarnings => self.withdraw_earnings_error(env.source, env.now),
            SaleAction::WithdrawRegistrationFees => self.withdraw_fees_error(env.source, env.now),
            SaleAction::RemoveRegistered(_) => self.remove_registered_error(env.source, env.now),
            SaleAction::CloseGate => self.close_gate_error(env.source),
        }
    }

    /// The sale after `handle` has accepted the request `action`. A request
    /// that waits for a stake or for decimals has changed nothing yet, and a
    /// question never does.
    pub open spec fn after_handle(self, env: Env, action: SaleAction) -> SaleModel {
        match action {
            SaleAction::CreateSale(parameters) => self.after_create(parameters),
            SaleAction::SetSaleToken(token) => self.after_set_token(token),
            SaleAction::SetRegistrationTime(start, end) => self.after_set_registration_time(
                start,
                end,
            ),
            SaleAction::SetSaleTime(start, end) => self.after_set_sale_time(start, end),
            SaleAction::SetMaxAllocationSizes(grants) => self.after_grant(grants@),
            SaleAction::DepositTokens => self.after_deposit(),
            SaleAction::WithdrawLeftover => self.after_withdraw_leftover(),
            SaleAction::WithdrawEarnings => self.after_withdraw_earnings(),
            SaleAction::WithdrawRegistrationFees => self.after_withdraw_fees(),
            SaleAction::RemoveRegistered(who) => self.after_remove_registered(who),
            SaleAction::CloseGate => self.after_close_gate(),
            _ => self,
        }
    }

    /// The call that the accepted request `action` waits for, if it waits.
    pub open spec fn call_of(self, env: Env, action: SaleAction) -> Option<(LedgerCall, Pending)> {
        match action {
            SaleAction::RegisterOnSale => Some(
                (
                    LedgerCall::StakeOf { staking: self.staking, user: env.source },
                    Pending::Register,
                ),
            ),
            SaleAction::Participate => Some(
                (LedgerCall::Decimals { token: self.token }, Pending::Participate),
            ),
            SaleAction::DepositTokens => Some(
                (
                    LedgerCall::TransferFrom {
                        token: self.token,
                        from: env.source,
                        to: env.program,
                        amount: self.tokens_to_sell,
                    },
                    Pending::DepositTokens,
                ),
            ),
            SaleAction::WithdrawAllocation => Some(
                (
                    LedgerCall::TransferFrom {
                        token: self.token,
                        from: env.program,
                        to: env.source,
                        amount: self.participants[env.source].amount_bought,
                    },
                    Pending::WithdrawAllocation(self.participants[env.source].amount_bought),
                ),
            ),
            SaleAction::WithdrawLeftover => Some(
                (
                    LedgerCall::TransferFrom {
                        token: self.token,
                        from: env.program,
                        to: env.source,
                        amount: self.leftover(),
                    },
                    Pending::WithdrawLeftover,
                ),
            ),
            _ => None,
        }
    }

    /// The events that answer the accepted request `action`, where it does
    /// not wait.
    pub open spec fn events_of(self, env: Env, action: SaleAction) -> Seq<SaleEvent> {
        match action {
            SaleAction::CreateSale(parameters) => seq![SaleEvent::SaleCreated(parameters)],
            SaleAction::SetSaleToken(token) => seq![SaleEvent::SaleTokenSet(token)],
            SaleAction::SetRegistrationTime(_, _) => seq![SaleEvent::RegistrationTimeSet(env.now)],
            SaleAction::SetSaleTime(_, _) => seq![SaleEvent::SaleTimeSet(env.now)],
            SaleAction::SetMaxAllocationSizes(grants) => grant_events(grants.pairs()),
            SaleAction::GetAllocationSizeOf(who) => seq![
                SaleEvent::AllocationSize(self.users[who]),
            ],
            SaleAction::GetParticipationOf(who) => seq![
                SaleEvent::Participation(self.participants[who]),
            ],
            SaleAction::GetSaleToken => seq![SaleEvent::SaleToken(self.token)],
            SaleAction::GetTotalSold => seq![SaleEvent::TotalSold(self.tokens_sold)],
            SaleAction::GetTotalRaised => seq![SaleEvent::TotalRaised(self.tokens_raised)],
            SaleAction::WithdrawEarnings => seq![SaleEvent::EarningsWithdrawn(self.tokens_raised)],
            SaleAction::WithdrawRegistrationFees => seq![
                SaleEvent::RegistrationFeeWithdrawn(self.registration_fees),
            ],
            SaleAction::RemoveRegistered(who) => seq![SaleEvent::RegisteredRemoved(who)],
            SaleAction::CloseGate => seq![SaleEvent::GateClosed(env.now)],
            _ => Seq::empty(),
        }
    }

    /// Why `resume` turns the suspended request down once the collaborator
    /// has answered `reply`.
    pub open spec fn resume_error(self, env: Env, pending: Pending, reply: CallReply) -> Option<
        SaleError,
    > {
        match pending {
            Pending::Register => self.register_error(env.source, env.value, env.now, reply),
            Pending::Participate => self.participate_error(env.source, env.value, env.now, reply),
            Pending::DepositTokens => Self::transfer_error(reply),
            Pending::WithdrawAllocation(_) => Self::transfer_error(reply),
            Pending::WithdrawLeftover => Self::transfer_error(reply),
        }
    }

    /// The sale after `resume` has finished the suspended request. A request
    /// that waited for a transfer took effect before it was suspended.
    pub open spec fn after_resume(self, env: Env, pending: Pending, reply: CallReply) -> SaleModel {
        match pending {
            Pending::Register => self.after_register(env.source, env.value),
            Pending::Participate => match reply {
                CallReply::Decimals(decimals) => self.after_participate(
                    env.source,
                    env.value,
                    env.now,
                    decimals,
                ),
                _ => self,
            },
            Pending::DepositTokens => self,
            Pending::WithdrawAllocation(_) => self,
            Pending::WithdrawLeftover => self,
        }
    }

    /// The events that answer the suspended request once it is finished.
    pub open spec fn resume_events(self, env: Env, pending: Pending) -> Seq<SaleEvent> {
        match pending {
            Pending::Register => seq![SaleEvent::UserRegistered(env.source)],
            Pending::Participate => seq![
                SaleEvent::RegistrationGEARRefunded(env.source, self.registration_fee_gear),
            ],
            Pending::DepositTokens => Seq::empty(),
            Pending::WithdrawAllocation(amount) => seq![
                SaleEvent::AllocationWithdrawn(env.source, amount),
            ],
            Pending::WithdrawLeftover => Seq::empty(),
        }
    }

    /// The sale after `input` has reached it: changed as the input asks where
    /// the input is accepted, and as it was where the input is turned down.
    pub open spec fn next(self, input: Input) -> SaleModel {
        match input {
            Input::Request(env, action) => if self.handle_error(env, action) is None {
                self.after_handle(env, action)
            } else {
                self
            },
            Input::Reply(env, pending, reply) => if self.resume_error(env, pending, reply)
                is None {
                self.after_resume(env, pending, reply)
            } else {
                self
            },
        }
    }

    /// The sale after all of `inputs` have reached it, one after the other.
    pub open spec fn run(self, inputs: Seq<Input>) -> SaleModel
        decreases inputs.len(),
    {
        if inputs.len() == 0 {
            self
        } else {
            self.run(inputs.drop_last()).next(inputs.last())
        }
    }
}

/// Whether `step` is what an accepted request owes: the call it waits for,
/// or else the events that answer it.
pub open spec fn step_is(
    step: Step,
    call: Option<(LedgerCall, Pending)>,
    events: Seq<SaleEvent>,
) -> bool {
    match call {
        Some((call, pending)) => step == Step::Await(call, pending),
        None => step matches Step::Reply(answer) && answer@ == events,
    }
}

/// The one event `event`.
fn single(event: SaleEvent) -> (events: Vec<SaleEvent>)
    ensures
        events@ == seq![event],
{
    let mut events: Vec<SaleEvent> = Vec::new();
    events.push(event);
    assert(events@ =~= seq![event]);
    events
}

/// The answer made of `event`, or the error.
fn reply_with(r: Result<SaleEvent, SaleError>) -> (step: Result<Step, SaleError>)
    ensures
        match r {
            Ok(event) => step matches Ok(Step::Reply(answer)) && answer@ == seq![event],
            Err(e) => step == Err::<Step, SaleError>(e),
        },
{
    match r {
        Ok(event) => Ok(Step::Reply(single(event))),
        Err(e) => Err(e),
    }
}

/// The suspension on `call`, or the error.
fn wait_for(r: Result<LedgerCall, SaleError>, pending: Pending) -> (step: Result<Step, SaleError>)
    ensures
        step == (match r {
            Ok(call) => Ok(Step::Await(call, pending)),
            Err(e) => Err(e),
        }),
{
    match r {
        Ok(call) => Ok(Step::Await(call, pending)),
        Err(e) => Err(e),
    }
}

/// Serves the request `action`, made under `env`, as far as the sale can by
/// itself.
///
/// A request that the sale turns down leaves it unchanged. An accepted
/// request that needs a stake or decimals first changes nothing yet, and
/// names the question to ask; one that ends in a transfer takes effect and
/// names the transfer; every other accepted request takes effect and is
/// answered.
pub fn handle(sale: &mut Sale, env: Env, action: &SaleAction) -> (r: Result<Step, SaleError>)
    ensures
        match r {
            Ok(step) => {
                &&& old(sale)@.handle_error(env, *action) is None
                &&& final(sale)@ == old(sale)@.after_handle(env, *action)
                &&& step_is(
                    step,
                    old(sale)@.call_of(env, *action),
                    old(sale)@.events_of(env, *action),
                )
            },
            Err(e) => {
                &&& old(sale)@.handle_error(env, *action) == Some(e)
                &&& final(sale)@ == old(sale)@
            },
        },
        final(sale)@ == old(sale)@.next(Input::Request(env, *action)),
        old(sale)@.wf() ==> final(sale)@.wf(),
{
    match action {
        SaleAction::CreateSale(parameters) => reply_with(
            sale.set_sale_parameters(env.source, *parameters),
        ),
        SaleAction::SetSaleToken(token) => reply_with(sale.set_sale_token(env.source, *token)),
        SaleAction::SetRegistrationTime(start, end) => reply_with(
            sale.set_registration_time(env.source, *start, *end, env.now),
        ),
        SaleAction::SetSaleTime(start, end) => reply_with(
            sale.set_sale_time(env.source, *start, *end, env.now),
        ),
        SaleAction::SetMaxAllocationSizes(grants) => {
            let events = sale.set_allocation_sizes(env.source, grants)?;
            assert(events@ =~= grant_events(grants.pairs()));
            Ok(Step::Reply(events))
        },
        SaleAction::GetAllocationSizeOf(who) => reply_with(sale.get_allocation_size_of(*who)),
        SaleAction::GetParticipationOf(who) => reply_with(sale.get_participation_of(*who)),
        SaleAction::GetSaleToken => reply_with(Ok(sale.get_sale_token())),
        SaleAction::GetTotalSold => reply_with(Ok(sale.get_total_sold())),
        SaleAction::GetTotalRaised => reply_with(Ok(sale.get_total_raised())),
        SaleAction::RegisterOnSale => wait_for(
            sale.start_register(env.source, env.value, env.now),
            Pending::Register,
        ),
        SaleAction::Participate => wait_for(
            sale.start_participate(env.source, env.now),
            Pending::Participate,
        ),
        SaleAction::DepositTokens => wait_for(
            sale.deposit_tokens(env.source, env.program),
            Pending::DepositTokens,
        ),
        SaleAction::WithdrawAllocation => {
            let call = sale.withdraw_allocation(env.source, env.program, env.now)?;
            Ok(Step::Await(call, Pending::WithdrawAllocation(call.amount())))
        },
        SaleAction::WithdrawLeftover => wait_for(
            sale.withdraw_leftover(env.source, env.program, env.now),
            Pending::WithdrawLeftover,
        ),
        SaleAction::WithdrawEarnings => reply_with(sale.withdraw_earnings(env.source, env.now)),
        SaleAction::WithdrawRegistrationFees => reply_with(
            sale.withdraw_registration_fees(env.source, env.now),
        ),
        SaleAction::RemoveRegistered(who) => reply_with(
            sale.remove_registered(env.source, *who, env.now),
        ),
        SaleAction::CloseGate => reply_with(sale.close_gate(env.source, env.now)),
    }
}

/// Finishes the suspended request `pending`, made under `env`, with the
/// collaborator's `reply`.
///
/// For a request that waited for a stake or for decimals, everything that
/// `handle` checked is checked again on the sale as it is now, and the
/// request takes effect only here. A request that waited for a transfer took
/// effect before; it fails here only where the ledger rejected the transfer,
/// and the sale stays as it is either way.
pub fn resume(sale: &mut Sale, env: Env, pending: Pending, reply: CallReply) -> (r: Result<
    Vec<SaleEvent>,
    SaleError,
>)
    ensures
        match r {
            Ok(events) => {
                &&& old(sale)@.resume_error(env, pending, reply) is None
                &&& final(sale)@ == old(sale)@.after_resume(env, pending, reply)
                &&& events@ == old(sale)@.resume_events(env, pending)
            },
            Err(e) => {
                &&& old(sale)@.resume_error(env, pending, reply) == Some(e)
                &&& final(sale)@ == old(sale)@
            },
        },
        final(sale)@ == old(sale)@.next(Input::Reply(env, pending, reply)),
        old(sale)@.wf() ==> final(sale)@.wf(),
{
    match pending {
        Pending::Register => Ok(single(sale.register(env.source, env.value, env.now, reply)?)),
        Pending::Participate => Ok(
            single(sale.participate(env.source, env.value, env.now, reply)?),
        ),
        Pending::DepositTokens => {
            reply.transferred()?;
            Ok(Vec::new())
        },
        Pending::WithdrawAllocation(amount) => Ok(
            single(allocation_withdrawn(env.source, amount, reply)?),
        ),
        Pending::WithdrawLeftover => {
            reply.transferred()?;
            Ok(Vec::new())
        },
    }
}

} // verus!
