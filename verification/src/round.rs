//! The two rounds of a sale and the records that they keep.
//!
//! A round is a span of time with both ends included. The registration round
//! keeps the registered users with their allocation caps; the sale round
//! keeps the purchases. A round that replaces another starts with no record.

use crate::actor::ActorId;
use crate::actor_map::ActorMap;
use crate::error::SaleError;
use crate::io::Participate;
use crate::model::add_saturating;
use vstd::prelude::*;

verus! {

/// The round in which users register.
#[derive(Debug)]
pub struct RegistrationRound {
    pub start_datetime: u64,
    pub end_datetime: u64,
    /// The registered users, each with the allocation cap.
    pub users: ActorMap<u128>,
}

impl RegistrationRound {
    /// A round from `start_datetime` to `end_datetime` with no user in it.
    pub fn new(start_datetime: u64, end_datetime: u64) -> (round: RegistrationRound)
        ensures
            round.start_datetime == start_datetime,
            round.end_datetime == end_datetime,
            round.users@ == Map::<ActorId, u128>::empty(),
    {
        RegistrationRound { start_datetime, end_datetime, users: ActorMap::new() }
    }

    /// Whether `now` lies in the round, ends included.
    pub open spec fn spec_is_open(&self, now: u64) -> bool {
        self.start_datetime <= now <= self.end_datetime
    }

    /// Whether `now` lies in the round, ends included.
    #[verifier::when_used_as_spec(spec_is_open)]
    pub fn is_open(&self, now: u64) -> (r: bool)
        ensures
            r == self.spec_is_open(now),
    {
        now >= self.start_datetime && now <= self.end_datetime
    }

    /// Registers `id` at `now` with a cap of zero, where the round is open
    /// and `id` is not registered in it yet.
    pub fn register_user(&mut self, id: ActorId, now: u64) -> (r: Result<(), SaleError>)
        ensures
            final(self).start_datetime == old(self).start_datetime,
            final(self).end_datetime == old(self).end_datetime,
            r == (if !old(self).spec_is_open(now) {
                Err(SaleError::WindowClosed)
            } else if old(self).users@.contains_key(id) {
                Err(SaleError::AlreadyRegistered)
            } else {
                Ok(())
            }),
            final(self).users@ == (if r is Ok {
                old(self).users@.insert(id, 0)
            } else {
                old(self).users@
            }),
    {
        if !self.is_open(now) {
            return Err(SaleError::WindowClosed);
        }
        if self.users.contains(&id) {
            return Err(SaleError::AlreadyRegistered);
        }
        self.users.insert(id, 0);
        Ok(())
    }

    /// Adds `delta` to the cap of `id`, where `id` is registered. The cap is
    /// held at the largest 128-bit value.
    pub fn grant_allocation(&mut self, id: ActorId, delta: u128) -> (r: Result<(), SaleError>)
        ensures
            final(self).start_datetime == old(self).start_datetime,
            final(self).end_datetime == old(self).end_datetime,
            r == (if old(self).users@.contains_key(id) {
                Ok(())
            } else {
                Err(SaleError::UserNotRegistered)
            }),
            final(self).users@ == (if r is Ok {
                old(self).users@.insert(id, add_saturating(old(self).users@[id], delta))
            } else {
                old(self).users@
            }),
    {
        match self.users.get(&id) {
            Some(cap) => {
                self.users.insert(id, cap.saturating_add(delta));
                Ok(())
            },
            None => Err(SaleError::UserNotRegistered),
        }
    }
}

impl Default for RegistrationRound {
    fn default() -> (round: RegistrationRound)
        ensures
            round.start_datetime == 0,
            round.end_datetime == 0,
            round.users@ == Map::<ActorId, u128>::empty(),
    {
        RegistrationRound::new(0, 0)
    }
}

/// The round in which registered users buy.
#[derive(Debug)]
pub struct SaleRound {
    pub start_datetime: u64,
    pub end_datetime: u64,
    /// The purchases made, by buyer.
    pub participants: ActorMap<Participate>,
}

impl SaleRound {
    /// A round from `start_datetime` to `end_datetime` with no purchase in it.
    pub fn new(start_datetime: u64, end_datetime: u64) -> (round: SaleRound)
        ensures
            round.start_datetime == start_datetime,
            round.end_datetime == end_datetime,
            round.participants@ == Map::<ActorId, Participate>::empty(),
    {
        SaleRound { start_datetime, end_datetime, participants: ActorMap::new() }
    }

    /// Whether `now` lies in the round, ends included.
    pub open spec fn spec_is_open(&self, now: u64) -> bool {
        self.start_datetime <= now <= self.end_datetime
    }

    /// Whether `now` lies in the round, ends included.
    #[verifier::when_used_as_spec(spec_is_open)]
    pub fn is_open(&self, now: u64) -> (r: bool)
        ensures
            r == self.spec_is_open(now),
    {
        now >= self.start_datetime && now <= self.end_datetime
    }

    /// Whether the round has ended at `now`: from its last moment on.
    pub open spec fn spec_is_over(&self, now: u64) -> bool {
        now >= self.end_datetime
    }

    /// Whether the round has ended at `now`: from its last moment on.
    #[verifier::when_used_as_spec(spec_is_over)]
    pub fn is_over(&self, now: u64) -> (r: bool)
        ensures
            r == self.spec_is_over(now),
    {
        now >= self.end_datetime
    }

    /// Puts the purchase `participation` of `id` on record, where `id` has
    /// none on record yet.
    pub fn record(&mut self, id: ActorId, participation: Participate) -> (r: Result<(), SaleError>)
        ensures
            final(self).start_datetime == old(self).start_datetime,
            final(self).end_datetime == old(self).end_datetime,
            r == (if old(self).participants@.contains_key(id) {
                Err(SaleError::AlreadyParticipated)
            } else {
                Ok(())
            }),
            final(self).participants@ == (if r is Ok {
                old(self).participants@.insert(id, participation)
            } else {
                old(self).participants@
            }),
    {
        if self.participants.contains(&id) {
            return Err(SaleError::AlreadyParticipated);
        }
        self.participants.insert(id, participation);
        Ok(())
    }
}

impl Default for SaleRound {
    fn default() -> (round: SaleRound)
        ensures
            round.start_datetime == 0,
            round.end_datetime == 0,
            round.participants@ == Map::<ActorId, Participate>::empty(),
    {
        SaleRound::new(0, 0)
    }
}

} // verus!
