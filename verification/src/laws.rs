//! What holds of every sale, whatever reaches it and in whatever order.

use crate::actor::ActorId;
use crate::dispatch::{Env, Input, Pending};
use crate::error::SaleError;
use crate::io::{SaleAction, SaleEvent};
use crate::ledger::{CallReply, LedgerCall};
use crate::model::SaleModel;
use crate::price::lemma_tokens_in_range;
use vstd::prelude::*;

verus! {

/// No input takes a sale out of its invariant: a sale that has sold no more
/// than it has on sale still has not after the input, be it accepted or not.
pub proof fn lemma_next_keeps_wf(s: SaleModel, input: Input)
    requires
        s.wf(),
    ensures
        s.next(input).wf(),
{
    match input {
        Input::Reply(env, Pending::Participate, CallReply::Decimals(decimals)) => {
            if s.token_price_in_gear > 0 {
                lemma_tokens_in_range(env.value, s.token_price_in_gear, decimals);
            }
        },
        _ => {},
    }
}

/// No sequence of inputs takes a sale out of its invariant.
pub proof fn lemma_run_keeps_wf(s: SaleModel, inputs: Seq<Input>)
    requires
        s.wf(),
    ensures
        s.run(inputs).wf(),
    decreases inputs.len(),
{
    if inputs.len() > 0 {
        lemma_run_keeps_wf(s, inputs.drop_last());
        lemma_next_keeps_wf(s.run(inputs.drop_last()), inputs.last());
    }
}

/// A sale never sells more than it has on sale: after any requests and
/// replies, in any order, from the start of the sale on, the tokens sold are
/// within the tokens to sell.
pub proof fn lemma_never_oversold(admin: ActorId, inputs: Seq<Input>)
    ensures
        SaleModel::initial(admin).run(inputs).tokens_sold <= SaleModel::initial(admin).run(
            inputs,
        ).tokens_to_sell,
{
    lemma_run_keeps_wf(SaleModel::initial(admin), inputs);
}

/// What is sold and what is raised only grow, and they grow only by a
/// purchase that is finished.
pub proof fn lemma_totals_grow(s: SaleModel, input: Input)
    ensures
        s.next(input).tokens_sold >= s.tokens_sold,
        s.next(input).tokens_raised >= s.tokens_raised,
        s.next(input).tokens_sold != s.tokens_sold || s.next(input).tokens_raised
            != s.tokens_raised ==> (input matches Input::Reply(env, Pending::Participate, reply)
            && s.participate_error(env.source, env.value, env.now, reply) is None),
{
    match input {
        Input::Reply(env, Pending::Participate, CallReply::Decimals(decimals)) => {
            if s.token_price_in_gear > 0 {
                lemma_tokens_in_range(env.value, s.token_price_in_gear, decimals);
            }
        },
        _ => {},
    }
}

/// A registered user cannot register again while the registration stands:
/// with the fee attached and the round open, the second registration is
/// turned down as a repetition, and it is turned down in any case.
pub proof fn lemma_registers_once(
    s: SaleModel,
    source: ActorId,
    value: u128,
    now: u64,
    reply: CallReply,
    again_value: u128,
    again_now: u64,
    again_reply: CallReply,
)
    requires
        s.register_error(source, value, now, reply) is None,
    ensures
        s.after_register(source, value).users.contains_key(source),
        s.after_register(source, value).registration_error(source, again_value, again_now)
            is Some,
        s.after_register(source, value).register_error(
            source,
            again_value,
            again_now,
            again_reply,
        ) is Some,
        again_value == s.registration_fee_gear && s.registration_open(again_now)
            ==> s.after_register(source, value).registration_error(
            source,
            again_value,
            again_now,
        ) == Some(SaleError::AlreadyRegistered),
{
}

/// A new registration round starts with nobody registered: whoever was
/// registered before is absent from it.
pub proof fn lemma_new_round_forgets_registrations(
    s: SaleModel,
    source: ActorId,
    start: u64,
    end: u64,
    now: u64,
    who: ActorId,
)
    requires
        s.set_registration_time_error(source, start, end, now) is None,
    ensures
        !s.after_set_registration_time(start, end).users.contains_key(who),
        s.after_set_registration_time(start, end).users == Map::<ActorId, u128>::empty(),
        s.next(
            Input::Request(
                (Env { source, value: 0, now, program: ActorId::spec_zero() }),
                SaleAction::SetRegistrationTime(start, end),
            ),
        ).users == Map::<ActorId, u128>::empty(),
{
}

/// The admin removes a registration while the registration round is open,
/// registered or not; nobody else does. The removal takes out the one user
/// and leaves every other registration, the pool, the purchases and the
/// totals as they were.
pub proof fn lemma_admin_removes(s: SaleModel, source: ActorId, who: ActorId, now: u64)
    ensures
        s.remove_registered_error(source, now) is None <==> source == s.admin
            && s.registration_open(now),
        source != s.admin ==> s.remove_registered_error(source, now) == Some(
            SaleError::Unauthorized,
        ),
        !s.after_remove_registered(who).users.contains_key(who),
        forall|other: ActorId|
            other != who ==> (#[trigger] s.after_remove_registered(who).users.contains_key(other)
                == s.users.contains_key(other) && s.after_remove_registered(who).users[other]
                == s.users[other]),
        s.after_remove_registered(who) == (SaleModel {
            users: s.after_remove_registered(who).users,
            ..s
        }),
{
}

/// Whether `input` ends the registration of `who` in the sale `s`: an
/// accepted request for a new registration round, or for the removal of
/// `who`.
pub open spec fn ends_registration(s: SaleModel, who: ActorId, input: Input) -> bool {
    ||| (input matches Input::Request(env, SaleAction::SetRegistrationTime(start, end))
        && s.set_registration_time_error(env.source, start, end, env.now) is None)
    ||| (input matches Input::Request(env, SaleAction::RemoveRegistered(removed)) && removed
        == who && s.remove_registered_error(env.source, env.now) is None)
}

/// A registration stands, and its cap does not shrink, whatever reaches the
/// sale, until the user is removed or a new registration round replaces the
/// round that the registration was made in.
pub proof fn lemma_registration_stands(s: SaleModel, who: ActorId, input: Input)
    requires
        s.users.contains_key(who),
    ensures
        s.next(input).users.contains_key(who) ==> s.next(input).users[who] >= s.users[who],
        !s.next(input).users.contains_key(who) ==> ends_registration(s, who, input),
{
}

/// Whether the registration of `who` in `s` still stands after `inputs`:
/// none of them ends it.
pub open spec fn registration_stands(s: SaleModel, who: ActorId, inputs: Seq<Input>) -> bool
    decreases inputs.len(),
{
    inputs.len() == 0 || (registration_stands(s, who, inputs.drop_last()) && !ends_registration(
        s.run(inputs.drop_last()),
        who,
        inputs.last(),
    ))
}

/// A user registers once per registration: while the registration stands,
/// whatever reaches the sale, the user stays registered, and every further
/// registration by the same user is turned down, when it is begun and when
/// it is finished.
pub proof fn lemma_one_registration_per_round(
    s: SaleModel,
    who: ActorId,
    between: Seq<Input>,
    again: Env,
    reply: CallReply,
)
    requires
        s.users.contains_key(who),
        registration_stands(s, who, between),
        again.source == who,
    ensures
        s.run(between).users.contains_key(who),
        s.run(between).users[who] >= s.users[who],
        s.run(between).handle_error(again, SaleAction::RegisterOnSale) is Some,
        s.run(between).resume_error(again, Pending::Register, reply) is Some,
    decreases between.len(),
{
    if between.len() > 0 {
        lemma_one_registration_per_round(s, who, between.drop_last(), again, reply);
        lemma_registration_stands(s.run(between.drop_last()), who, between.last());
    }
}

/// Only a user who is registered in the current round, and has not bought in
/// the current sale round, can buy.
pub proof fn lemma_participation_needs_registration(
    s: SaleModel,
    source: ActorId,
    value: u128,
    now: u64,
    reply: CallReply,
)
    requires
        s.participate_error(source, value, now, reply) is None,
    ensures
        s.users.contains_key(source),
        !s.participants.contains_key(source),
        s.sale_open(now),
        reply is Decimals,
{
}

/// A user who was registered in a round that has been replaced cannot buy
/// on the strength of that registration.
pub proof fn lemma_new_round_needs_new_registration(
    s: SaleModel,
    start: u64,
    end: u64,
    source: ActorId,
    value: u128,
    now: u64,
    reply: CallReply,
)
    ensures
        s.after_set_registration_time(start, end).participation_error(source, now) is Some,
        s.after_set_registration_time(start, end).participate_error(source, value, now, reply)
            is Some,
        s.after_set_registration_time(start, end).sale_open(now) ==> s.after_set_registration_time(
            start,
            end,
        ).participation_error(source, now) == Some(SaleError::UserNotRegistered),
{
}

/// A user buys at most once in a sale round: after a purchase, the purchase
/// is on record, and a second one by the same user is turned down, as a
/// repetition while the round is open.
pub proof fn lemma_participates_once(
    s: SaleModel,
    source: ActorId,
    value: u128,
    now: u64,
    decimals: u8,
    again_value: u128,
    again_now: u64,
    again_reply: CallReply,
)
    requires
        s.participate_error(source, value, now, CallReply::Decimals(decimals)) is None,
    ensures
        s.after_participate(source, value, now, decimals).participants.contains_key(source),
        s.after_participate(source, value, now, decimals).participants[source].amount_bought
            == s.tokens_bought(value, decimals),
        s.after_participate(source, value, now, decimals).participation_error(source, again_now)
            is Some,
        s.after_participate(source, value, now, decimals).participate_error(
            source,
            again_value,
            again_now,
            again_reply,
        ) is Some,
        s.sale_open(again_now) ==> s.after_participate(
            source,
            value,
            now,
            decimals,
        ).participation_error(source, again_now) == Some(SaleError::AlreadyParticipated),
{
    lemma_tokens_in_range(value, s.token_price_in_gear, decimals);
}

/// Whether `input` is a request for a new sale round that the sale `s`
/// accepts.
pub open spec fn opens_sale_round(s: SaleModel, input: Input) -> bool {
    input matches Input::Request(env, SaleAction::SetSaleTime(start, end))
        && s.set_sale_time_error(env.source, start, end, env.now) is None
}

/// A purchase on record stays as it is, whatever reaches the sale, until a
/// new sale round replaces the round that it was made in.
pub proof fn lemma_purchase_stays(s: SaleModel, who: ActorId, input: Input)
    requires
        s.participants.contains_key(who),
    ensures
        s.next(input).participants.contains_key(who) ==> s.next(input).participants[who]
            == s.participants[who],
        !s.next(input).participants.contains_key(who) ==> opens_sale_round(s, input),
{
}

/// Whether the sale round of `s` is still the current one after `inputs`:
/// none of them opens a new one.
pub open spec fn in_same_sale_round(s: SaleModel, inputs: Seq<Input>) -> bool
    decreases inputs.len(),
{
    inputs.len() == 0 || (in_same_sale_round(s, inputs.drop_last()) && !opens_sale_round(
        s.run(inputs.drop_last()),
        inputs.last(),
    ))
}

/// A user buys once per sale round: while the round of the purchase is the
/// current one, whatever reaches the sale, the purchase stays on record as
/// it was made, and every further purchase by the same user is turned down,
/// when it is begun and when it is finished.
pub proof fn lemma_one_purchase_per_round(
    s: SaleModel,
    who: ActorId,
    between: Seq<Input>,
    again: Env,
    reply: CallReply,
)
    requires
        s.participants.contains_key(who),
        in_same_sale_round(s, between),
        again.source == who,
    ensures
        s.run(between).participants.contains_key(who),
        s.run(between).participants[who] == s.participants[who],
        s.run(between).handle_error(again, SaleAction::Participate) is Some,
        s.run(between).resume_error(again, Pending::Participate, reply) is Some,
    decreases between.len(),
{
    if between.len() > 0 {
        lemma_one_purchase_per_round(s, who, between.drop_last(), again, reply);
        lemma_purchase_stays(s.run(between.drop_last()), who, between.last());
    }
}

/// The switches of a sale go one way: once the sale is created, the tokens
/// deposited, the earnings or the unsold tokens withdrawn, or the
/// configuration frozen, no input undoes it. The admin never changes.
pub proof fn lemma_latches_hold(s: SaleModel, input: Input)
    ensures
        s.next(input).admin == s.admin,
        s.is_created ==> s.next(input).is_created,
        s.tokens_deposited ==> s.next(input).tokens_deposited,
        s.earnings_withdrawn ==> s.next(input).earnings_withdrawn,
        s.leftover_withdrawn ==> s.next(input).leftover_withdrawn,
        s.gate_closed ==> s.next(input).gate_closed,
{
}

/// The switches of a sale stay as they are thrown over any sequence of
/// inputs, and the admin stays who it was.
pub proof fn lemma_latches_stay(s: SaleModel, inputs: Seq<Input>)
    ensures
        s.run(inputs).admin == s.admin,
        s.is_created ==> s.run(inputs).is_created,
        s.tokens_deposited ==> s.run(inputs).tokens_deposited,
        s.earnings_withdrawn ==> s.run(inputs).earnings_withdrawn,
        s.leftover_withdrawn ==> s.run(inputs).leftover_withdrawn,
        s.gate_closed ==> s.run(inputs).gate_closed,
    decreases inputs.len(),
{
    if inputs.len() > 0 {
        lemma_latches_stay(s, inputs.drop_last());
        lemma_latches_hold(s.run(inputs.drop_last()), inputs.last());
    }
}

/// A request that has left its mark is turned down for good: where the
/// earnings or the unsold tokens are withdrawn, or the tokens deposited, no
/// inputs that follow make the sale accept the request again.
pub proof fn lemma_latched_for_good(s: SaleModel, between: Seq<Input>, again: Env)
    ensures
        s.earnings_withdrawn ==> s.run(between).handle_error(again, SaleAction::WithdrawEarnings)
            is Some,
        s.leftover_withdrawn ==> s.run(between).handle_error(again, SaleAction::WithdrawLeftover)
            is Some,
        s.tokens_deposited ==> s.run(between).handle_error(again, SaleAction::DepositTokens)
            is Some,
{
    lemma_latches_stay(s, between);
}

/// The earnings are paid out once. The request that is accepted is answered
/// with all that was raised. After it, whatever else reaches the sale in
/// between, every further request for the earnings is turned down; one by the
/// owner after the end of the sale round, made next, because the earnings
/// have been withdrawn. What leaves the sale over all these requests is the
/// one payout.
pub proof fn lemma_earnings_paid_once(s: SaleModel, env: Env, between: Seq<Input>, again: Env)
    requires
        s.handle_error(env, SaleAction::WithdrawEarnings) is None,
    ensures
        s.events_of(env, SaleAction::WithdrawEarnings) == seq![
            SaleEvent::EarningsWithdrawn(s.tokens_raised),
        ],
        SaleEvent::EarningsWithdrawn(s.tokens_raised).spec_value() == s.tokens_raised,
        s.next(Input::Request(env, SaleAction::WithdrawEarnings)).run(between).handle_error(
            again,
            SaleAction::WithdrawEarnings,
        ) is Some,
        again.source == env.source && again.now >= env.now ==> s.next(
            Input::Request(env, SaleAction::WithdrawEarnings),
        ).handle_error(again, SaleAction::WithdrawEarnings) == Some(SaleError::AlreadyWithdrawn),
{
    lemma_latched_for_good(
        s.next(Input::Request(env, SaleAction::WithdrawEarnings)),
        between,
        again,
    );
}

/// The unsold tokens are handed back once. The request that is accepted
/// names one transfer, of exactly the tokens left unsold. After it, whatever
/// else reaches the sale in between, every further request for the unsold
/// tokens is turned down before any transfer is named; one by the owner
/// after the end of the sale round, made next, because the tokens have been
/// withdrawn.
pub proof fn lemma_leftover_paid_once(s: SaleModel, env: Env, between: Seq<Input>, again: Env)
    requires
        s.handle_error(env, SaleAction::WithdrawLeftover) is None,
    ensures
        s.call_of(env, SaleAction::WithdrawLeftover) == Some(
            (
                (LedgerCall::TransferFrom {
                    token: s.token,
                    from: env.program,
                    to: env.source,
                    amount: (s.tokens_to_sell - s.tokens_sold) as u128,
                }),
                Pending::WithdrawLeftover,
            ),
        ),
        s.next(Input::Request(env, SaleAction::WithdrawLeftover)).run(between).handle_error(
            again,
            SaleAction::WithdrawLeftover,
        ) is Some,
        again.source == env.source && again.now >= env.now ==> s.next(
            Input::Request(env, SaleAction::WithdrawLeftover),
        ).handle_error(again, SaleAction::WithdrawLeftover) == Some(SaleError::AlreadyWithdrawn),
{
    lemma_latched_for_good(
        s.next(Input::Request(env, SaleAction::WithdrawLeftover)),
        between,
        again,
    );
}

/// Once the sale is created, its owner, its price, its inventory and its fee
/// stay; once the configuration is frozen, so do the token and both rounds'
/// times.
pub proof fn lemma_configuration_holds(s: SaleModel, input: Input)
    requires
        s.wf(),
    ensures
        s.is_created ==> {
            &&& s.next(input).owner == s.owner
            &&& s.next(input).staking == s.staking
            &&& s.next(input).tokens_to_sell == s.tokens_to_sell
            &&& s.next(input).token_price_in_gear == s.token_price_in_gear
            &&& s.next(input).registration_fee_gear == s.registration_fee_gear
        },
        s.gate_closed ==> {
            &&& s.next(input).token == s.token
            &&& s.next(input).registration_start == s.registration_start
            &&& s.next(input).registration_end == s.registration_end
            &&& s.next(input).sale_start == s.sale_start
            &&& s.next(input).sale_end == s.sale_end
        },
{
}

} // verus!
