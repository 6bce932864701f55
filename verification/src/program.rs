//! The four operations of the counter program: `initialize`, `increment`,
//! `decrement` and `reset`.
//!
//! Each operation first has the resolver derive the address that belongs to
//! the owner and compares it with the account it was given, then compares the
//! signer with the recorded owner, and only then touches the record. An
//! operation that is refused leaves everything as it was.

use vstd::prelude::*;
use crate::counter::{Counter, CounterError, Operation, step, verdict};
use crate::identity::Identity;
use crate::resolver::{counter_address, derivation_view, derive_counter_address};

verus! {

/// A storage address that may or may not hold a counter yet.
#[derive(Clone, Copy, Debug, PartialEq, Eq)]
pub struct Slot {
    pub address: Identity,
    pub record: Option<Counter>,
}

/// A counter together with the address it is stored at.
#[derive(Clone, Copy, Debug, PartialEq, Eq)]
pub struct Account {
    pub address: Identity,
    pub data: Counter,
}

/// What an `initialize` call names: the slot to fill, and the user who signs
/// and pays for it and becomes the counter's owner.
#[derive(Clone, Copy, Debug, PartialEq, Eq)]
pub struct Initialize {
    pub counter: Slot,
    pub user: Identity,
}

/// What a mutation names: the counter, and the signer who claims to own it.
#[derive(Clone, Copy, Debug, PartialEq, Eq)]
pub struct UpdateCounter {
    pub counter: Account,
    pub owner: Identity,
}

/// Whether `address` is the address that a derivation found.
pub open spec fn address_matches(address: Seq<u8>, derived: Option<(Seq<u8>, u8)>) -> bool {
    derived matches Some(found) && found.0 == address
}

/// Whether an `initialize` call may go ahead, given what the derivation from
/// the user's identity found. The address is checked before the slot.
pub open spec fn creation_admitted(ctx: Initialize, derived: Option<(Seq<u8>, u8)>) -> Result<(), CounterError> {
    if !address_matches(ctx.counter.address@, derived) {
        Err(CounterError::AddressMismatch)
    } else if ctx.counter.record is Some {
        Err(CounterError::AlreadyExists)
    } else {
        Ok(())
    }
}

/// The call as it stands after `initialize`: with a fresh counter in the slot,
/// owned by the user and counting from zero, where the creation is admitted;
/// unchanged where it is refused.
pub open spec fn created(ctx: Initialize, derived: Option<(Seq<u8>, u8)>) -> Initialize {
    match creation_admitted(ctx, derived) {
        Ok(_) => Initialize {
            counter: Slot {
                address: ctx.counter.address,
                record: Some(Counter { owner: ctx.user, count: 0 }),
            },
            user: ctx.user,
        },
        Err(_) => ctx,
    }
}

/// Whether a mutation may go ahead, given what the derivation from the
/// recorded owner found. The address is checked before the signer.
pub open spec fn update_admitted(ctx: UpdateCounter, derived: Option<(Seq<u8>, u8)>) -> Result<(), CounterError> {
    if !address_matches(ctx.counter.address@, derived) {
        Err(CounterError::AddressMismatch)
    } else if ctx.counter.data.owner@ != ctx.owner@ {
        Err(CounterError::OwnerMismatch)
    } else {
        Ok(())
    }
}

/// The count that a mutation leaves, or the reason why it is refused.
pub open spec fn update_outcome(ctx: UpdateCounter, derived: Option<(Seq<u8>, u8)>, op: Operation) -> Result<i64, CounterError> {
    match update_admitted(ctx, derived) {
        Ok(_) => step(ctx.counter.data.count, op),
        Err(error) => Err(error),
    }
}

/// The call as it stands after a mutation: with the new count where the
/// mutation is applied, unchanged where it is refused.
pub open spec fn after(ctx: UpdateCounter, derived: Option<(Seq<u8>, u8)>, op: Operation) -> UpdateCounter {
    match update_outcome(ctx, derived, op) {
        Ok(count) => UpdateCounter {
            counter: Account {
                address: ctx.counter.address,
                data: Counter { owner: ctx.counter.data.owner, count },
            },
            owner: ctx.owner,
        },
        Err(_) => ctx,
    }
}

/// What a mutation reports: nothing where it is applied, else the reason why
/// it is refused.
pub open spec fn report(ctx: UpdateCounter, derived: Option<(Seq<u8>, u8)>, op: Operation) -> Result<(), CounterError> {
    verdict(update_outcome(ctx, derived, op))
}

/// Compares an account's address with what the derivation found.
pub fn check_address(address: &Identity, derived: &Option<(Identity, u8)>) -> (matches: bool)
    ensures
        matches == address_matches(address@, derivation_view(*derived)),
{
    match derived {
        Some((found, _)) => *found == *address,
        None => false,
    }
}

/// Decides whether a mutation may go ahead, given the result of deriving the
/// address from the recorded owner.
pub fn authorize(ctx: &UpdateCounter, derived: &Option<(Identity, u8)>) -> (verdict: Result<(), CounterError>)
    ensures
        verdict == update_admitted(*ctx, derivation_view(*derived)),
{
    if !check_address(&ctx.counter.address, derived) {
        return Err(CounterError::AddressMismatch);
    }
    if ctx.counter.data.owner != ctx.owner {
        return Err(CounterError::OwnerMismatch);
    }
    Ok(())
}

/// Fills the slot with a fresh counter owned by the user, given the result of
/// deriving the address from the user's identity.
pub fn create(ctx: &mut Initialize, derived: &Option<(Identity, u8)>) -> (outcome: Result<(), CounterError>)
    ensures
        outcome == creation_admitted(*old(ctx), derivation_view(*derived)),
        *final(ctx) == created(*old(ctx), derivation_view(*derived)),
{
    if !check_address(&ctx.counter.address, derived) {
        return Err(CounterError::AddressMismatch);
    }
    if ctx.counter.record.is_some() {
        return Err(CounterError::AlreadyExists);
    }
    ctx.counter.record = Some(Counter::new(ctx.user));
    Ok(())
}

/// Applies `op` to the counter if the call is authorized, given the result of
/// deriving the address from the recorded owner.
pub fn apply(ctx: &mut UpdateCounter, derived: &Option<(Identity, u8)>, op: Operation) -> (outcome: Result<(), CounterError>)
    ensures
        outcome == report(*old(ctx), derivation_view(*derived), op),
        *final(ctx) == after(*old(ctx), derivation_view(*derived), op),
{
    match authorize(ctx, derived) {
        Err(error) => Err(error),
        Ok(_) => match op {
            Operation::Increment => ctx.counter.data.increment(),
            Operation::Decrement => ctx.counter.data.decrement(),
            Operation::Reset => {
                ctx.counter.data.reset();
                Ok(())
            },
        },
    }
}

/// Creates the user's counter: owned by the user, counting from zero.
///
/// Refused with `AddressMismatch` unless the slot is the one derived from the
/// user's identity (so also where no address can be derived), and with
/// `AlreadyExists` if that slot holds a record.
pub fn initialize(ctx: &mut Initialize) -> (outcome: Result<(), CounterError>)
    ensures
        outcome == creation_admitted(*old(ctx), counter_address(old(ctx).user@)),
        *final(ctx) == created(*old(ctx), counter_address(old(ctx).user@)),
{
    let derived = derive_counter_address(&ctx.user);
    create(ctx, &derived)
}

/// Adds one to the owner's counter.
///
/// Refused with `AddressMismatch` unless the account is the one derived from
/// the recorded owner, with `OwnerMismatch` unless the signer is that owner,
/// and with `Overflow` at `i64::MAX`.
pub fn increment(ctx: &mut UpdateCounter) -> (outcome: Result<(), CounterError>)
    ensures
        outcome == report(*old(ctx), counter_address(old(ctx).counter.data.owner@), Operation::Increment),
        *final(ctx) == after(*old(ctx), counter_address(old(ctx).counter.data.owner@), Operation::Increment),
{
    let derived = derive_counter_address(&ctx.counter.data.owner);
    apply(ctx, &derived, Operation::Increment)
}

/// Takes one from the owner's counter.
///
/// Refused with `AddressMismatch` unless the account is the one derived from
/// the recorded owner, with `OwnerMismatch` unless the signer is that owner,
/// and with `Underflow` at zero.
pub fn decrement(ctx: &mut UpdateCounter) -> (outcome: Result<(), CounterError>)
    ensures
        outcome == report(*old(ctx), counter_address(old(ctx).counter.data.owner@), Operation::Decrement),
        *final(ctx) == after(*old(ctx), counter_address(old(ctx).counter.data.owner@), Operation::Decrement),
{
    let derived = derive_counter_address(&ctx.counter.data.owner);
    apply(ctx, &derived, Operation::Decrement)
}

/// Sets the owner's counter back to zero.
///
/// Refused with `AddressMismatch` unless the account is the one derived from
/// the recorded owner, and with `OwnerMismatch` unless the signer is that
/// owner.
pub fn reset(ctx: &mut UpdateCounter) -> (outcome: Result<(), CounterError>)
    ensures
        outcome == report(*old(ctx), counter_address(old(ctx).counter.data.owner@), Operation::Reset),
        *final(ctx) == after(*old(ctx), counter_address(old(ctx).counter.data.owner@), Operation::Reset),
{
    let derived = derive_counter_address(&ctx.counter.data.owner);
    apply(ctx, &derived, Operation::Reset)
}

} // verus!
