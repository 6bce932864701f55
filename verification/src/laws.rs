//! What holds of the operations taken together.

use vstd::prelude::*;
use crate::counter::{Counter, CounterError, Operation};
use crate::program::{
    address_matches, after, created, creation_admitted, report, update_admitted, update_outcome,
    Account, Initialize, UpdateCounter,
};
use crate::resolver::counter_address;

verus! {

/// What an operation adds to the count where it is applied: one for an
/// increment, minus one for a decrement. A reset adds nothing: it starts the
/// sum anew.
pub open spec fn delta(op: Operation) -> int {
    match op {
        Operation::Increment => 1,
        Operation::Decrement => -1,
        Operation::Reset => 0,
    }
}

/// The sum of the deltas of `ops` on top of `start`, begun anew from zero at
/// each reset.
pub open spec fn tally(start: int, ops: Seq<Operation>) -> int
    decreases ops.len(),
{
    if ops.len() == 0 {
        start
    } else if ops.last() == Operation::Reset {
        0
    } else {
        tally(start, ops.drop_last()) + delta(ops.last())
    }
}

/// The call as it stands after the mutations `ops` were asked in turn.
pub open spec fn after_all(ctx: UpdateCounter, derived: Option<(Seq<u8>, u8)>, ops: Seq<Operation>) -> UpdateCounter
    decreases ops.len(),
{
    if ops.len() == 0 {
        ctx
    } else {
        after(after_all(ctx, derived, ops.drop_last()), derived, ops.last())
    }
}

/// Those of the mutations `ops`, asked in turn, that were applied and not
/// refused.
pub open spec fn applied(ctx: UpdateCounter, derived: Option<(Seq<u8>, u8)>, ops: Seq<Operation>) -> Seq<Operation>
    decreases ops.len(),
{
    if ops.len() == 0 {
        Seq::empty()
    } else {
        let earlier = applied(ctx, derived, ops.drop_last());
        if update_outcome(after_all(ctx, derived, ops.drop_last()), derived, ops.last()) is Ok {
            earlier.push(ops.last())
        } else {
            earlier
        }
    }
}

/// A counter that was just created belongs to the user who initialized it and
/// counts from zero.
pub proof fn law_created_counter_is_owned_and_zero(ctx: Initialize)
    requires
        creation_admitted(ctx, counter_address(ctx.user@)) is Ok,
    ensures
        created(ctx, counter_address(ctx.user@)).counter.record == Some(
            Counter { owner: ctx.user, count: 0 },
        ),
        created(ctx, counter_address(ctx.user@)).counter.address == ctx.counter.address,
{
}

/// No mutation, applied or refused, changes the owner, the address or the
/// signer, and the address and the signer that were admitted once are
/// admitted again.
pub proof fn law_owner_never_changes(ctx: UpdateCounter, derived: Option<(Seq<u8>, u8)>, ops: Seq<Operation>)
    ensures
        after_all(ctx, derived, ops).counter.data.owner == ctx.counter.data.owner,
        after_all(ctx, derived, ops).counter.address == ctx.counter.address,
        after_all(ctx, derived, ops).owner == ctx.owner,
        update_admitted(after_all(ctx, derived, ops), derived) == update_admitted(ctx, derived),
    decreases ops.len(),
{
    if ops.len() > 0 {
        law_owner_never_changes(ctx, derived, ops.drop_last());
    }
}

/// After any sequence of mutations by the true owner, the count is the sum of
/// the deltas of those that were applied: plus one for each increment, minus
/// one for each decrement, begun anew from zero at each reset.
pub proof fn law_count_is_sum_of_applied_deltas(ctx: UpdateCounter, derived: Option<(Seq<u8>, u8)>, ops: Seq<Operation>)
    requires
        update_admitted(ctx, derived) is Ok,
    ensures
        after_all(ctx, derived, ops).counter.data.count == tally(
            ctx.counter.data.count as int,
            applied(ctx, derived, ops),
        ),
    decreases ops.len(),
{
    if ops.len() > 0 {
        let earlier = ops.drop_last();
        law_count_is_sum_of_applied_deltas(ctx, derived, earlier);
        law_owner_never_changes(ctx, derived, earlier);
        let kept = applied(ctx, derived, earlier);
        if update_outcome(after_all(ctx, derived, earlier), derived, ops.last()) is Ok {
            assert(kept.push(ops.last()).drop_last() =~= kept);
            assert(kept.push(ops.last()).last() == ops.last());
        }
    }
}

/// A count that is not below zero never goes below zero, whatever is asked
/// of the counter.
pub proof fn law_count_stays_in_range(ctx: UpdateCounter, derived: Option<(Seq<u8>, u8)>, ops: Seq<Operation>)
    requires
        ctx.counter.data.well_formed(),
    ensures
        after_all(ctx, derived, ops).counter.data.well_formed(),
    decreases ops.len(),
{
    if ops.len() > 0 {
        law_count_stays_in_range(ctx, derived, ops.drop_last());
    }
}

/// Where the account is the derived one and the signer is not the recorded
/// owner, every mutation is refused with `OwnerMismatch` and changes nothing.
pub proof fn law_stranger_is_refused(ctx: UpdateCounter, derived: Option<(Seq<u8>, u8)>, op: Operation)
    requires
        address_matches(ctx.counter.address@, derived),
        ctx.owner@ != ctx.counter.data.owner@,
    ensures
        report(ctx, derived, op) == Err::<(), CounterError>(CounterError::OwnerMismatch),
        after(ctx, derived, op) == ctx,
{
}

/// Whatever the account, a signer who is not the recorded owner has every
/// mutation refused, and nothing changes.
pub proof fn law_stranger_changes_nothing(ctx: UpdateCounter, derived: Option<(Seq<u8>, u8)>, op: Operation)
    requires
        ctx.owner@ != ctx.counter.data.owner@,
    ensures
        report(ctx, derived, op) is Err,
        after(ctx, derived, op) == ctx,
{
}

/// A decrement asked by the owner of a counter that is zero is refused with
/// `Underflow` and leaves the count at zero.
pub proof fn law_decrement_at_zero_underflows(ctx: UpdateCounter, derived: Option<(Seq<u8>, u8)>)
    requires
        update_admitted(ctx, derived) is Ok,
        ctx.counter.data.count == 0,
    ensures
        report(ctx, derived, Operation::Decrement) == Err::<(), CounterError>(
            CounterError::Underflow,
        ),
        after(ctx, derived, Operation::Decrement) == ctx,
        after(ctx, derived, Operation::Decrement).counter.data.count == 0,
{
}

/// An increment asked by the owner of a counter that is at `i64::MAX` is
/// refused with `Overflow` and leaves the count as it is.
pub proof fn law_increment_at_max_overflows(ctx: UpdateCounter, derived: Option<(Seq<u8>, u8)>)
    requires
        update_admitted(ctx, derived) is Ok,
        ctx.counter.data.count == i64::MAX,
    ensures
        report(ctx, derived, Operation::Increment) == Err::<(), CounterError>(
            CounterError::Overflow,
        ),
        after(ctx, derived, Operation::Increment) == ctx,
{
}

/// The address derived from the recorded owner at a mutation is the one that
/// the counter was created at: the account that `initialize` admitted passes
/// the address check of every later mutation, and any other account is
/// refused with `AddressMismatch`.
pub proof fn law_address_is_rederived(init: Initialize, update: UpdateCounter, op: Operation)
    requires
        creation_admitted(init, counter_address(init.user@)) is Ok,
        update.counter.data.owner@ == init.user@,
    ensures
        update.counter.address@ == init.counter.address@ ==> update_admitted(
            update,
            counter_address(update.counter.data.owner@),
        ) != Err::<(), CounterError>(CounterError::AddressMismatch),
        update.counter.address@ != init.counter.address@ ==> report(
            update,
            counter_address(update.counter.data.owner@),
            op,
        ) == Err::<(), CounterError>(CounterError::AddressMismatch) && after(
            update,
            counter_address(update.counter.data.owner@),
            op,
        ) == update,
{
}

/// An owner has one counter: two slots that `initialize` admits for the same
/// user are at the same address.
pub proof fn law_one_counter_per_owner(first: Initialize, second: Initialize)
    requires
        first.user@ == second.user@,
        creation_admitted(first, counter_address(first.user@)) is Ok,
        creation_admitted(second, counter_address(second.user@)) is Ok,
    ensures
        first.counter.address@ == second.counter.address@,
{
}

/// An operation that is refused changes nothing.
pub proof fn law_refusal_changes_nothing(
    init: Initialize,
    update: UpdateCounter,
    derived: Option<(Seq<u8>, u8)>,
    op: Operation,
)
    ensures
        creation_admitted(init, derived) is Err ==> created(init, derived) == init,
        report(update, derived, op) is Err ==> after(update, derived, op) == update,
{
}

/// The owner of a counter that `initialize` created may mutate it at once:
/// the record taken from the slot, with the user as signer, is admitted.
pub proof fn law_creator_is_admitted(init: Initialize)
    requires
        creation_admitted(init, counter_address(init.user@)) is Ok,
    ensures
        created(init, counter_address(init.user@)).counter.record matches Some(record)
            && update_admitted(
            UpdateCounter {
                counter: Account { address: init.counter.address, data: record },
                owner: init.user,
            },
            counter_address(record.owner@),
        ) is Ok,
{
}

} // verus!
