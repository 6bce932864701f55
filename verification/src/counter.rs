//! The counter record and the arithmetic of its three mutations.

use vstd::prelude::*;
use crate::identity::Identity;

verus! {

/// Why an operation was refused. A refused operation changes nothing.
#[derive(Clone, Copy, Debug, PartialEq, Eq, Structural)]
pub enum CounterError {
    /// A decrement was asked of a counter that is already zero.
    Underflow,
    /// An increment was asked of a counter that is already `i64::MAX`.
    Overflow,
    /// The signer is not the owner recorded in the counter.
    OwnerMismatch,
    /// The account is not the one derived from the owner's identity.
    AddressMismatch,
    /// A record already lives at the address to initialize.
    AlreadyExists,
}

/// A mutation of the count.
#[derive(Clone, Copy, Debug, PartialEq, Eq, Structural)]
pub enum Operation {
    Increment,
    Decrement,
    Reset,
}

/// Bytes that a stored record takes: a tag of eight bytes that says what kind
/// of record it is, the 32 bytes of the owner, and the eight bytes of the
/// count.
pub const RECORD_SPACE: usize = 8 + 32 + 8;

/// The persistent record: who owns the counter, and its value.
#[derive(Clone, Copy, Debug, PartialEq, Eq)]
pub struct Counter {
    pub owner: Identity,
    pub count: i64,
}

/// The count after `op` is asked of a counter that holds `count`: the new
/// value, or the reason why the count stays as it is.
///
/// Nothing wraps around and nothing is clamped: a decrement of a count that
/// is not above zero is refused with `Underflow`, an increment at `i64::MAX`
/// with `Overflow`. So a count that is not below zero never goes below it.
pub open spec fn step(count: i64, op: Operation) -> Result<i64, CounterError> {
    match op {
        Operation::Increment => if count < i64::MAX {
            Ok((count + 1) as i64)
        } else {
            Err(CounterError::Overflow)
        },
        Operation::Decrement => if count > 0 {
            Ok((count - 1) as i64)
        } else {
            Err(CounterError::Underflow)
        },
        Operation::Reset => Ok(0i64),
    }
}

/// The count that `op` leaves in a counter that holds `count`: the new value
/// where the operation is applied, the old one where it is refused.
pub open spec fn count_after(count: i64, op: Operation) -> i64 {
    match step(count, op) {
        Ok(next) => next,
        Err(_) => count,
    }
}

/// What the caller is told of a step: nothing where it is applied, else the
/// reason why it is refused.
pub open spec fn verdict(stepped: Result<i64, CounterError>) -> Result<(), CounterError> {
    match stepped {
        Ok(_) => Ok(()),
        Err(error) => Err(error),
    }
}

impl Counter {
    /// Whether the count is in the range that the operations keep it in: not
    /// below zero.
    pub open spec fn well_formed(&self) -> bool {
        self.count >= 0
    }

    /// A fresh record for `owner`, counting from zero.
    pub fn new(owner: Identity) -> (counter: Counter)
        ensures
            counter == (Counter { owner, count: 0 }),
            counter.well_formed(),
    {
        Counter { owner, count: 0 }
    }

    /// Adds one to the count, unless it is already `i64::MAX`.
    pub fn increment(&mut self) -> (outcome: Result<(), CounterError>)
        ensures
            outcome == verdict(step(old(self).count, Operation::Increment)),
            final(self).owner == old(self).owner,
            final(self).count == count_after(old(self).count, Operation::Increment),
            old(self).well_formed() ==> final(self).well_formed(),
    {
        if self.count == i64::MAX {
            return Err(CounterError::Overflow);
        }
        self.count = self.count + 1;
        Ok(())
    }

    /// Takes one from the count, unless it is zero or less.
    pub fn decrement(&mut self) -> (outcome: Result<(), CounterError>)
        ensures
            outcome == verdict(step(old(self).count, Operation::Decrement)),
            final(self).owner == old(self).owner,
            final(self).count == count_after(old(self).count, Operation::Decrement),
            old(self).well_formed() ==> final(self).well_formed(),
    {
        if self.count <= 0 {
            return Err(CounterError::Underflow);
        }
        self.count = self.count - 1;
        Ok(())
    }

    /// Sets the count back to zero.
    pub fn reset(&mut self)
        ensures
            final(self).owner == old(self).owner,
            final(self).count == count_after(old(self).count, Operation::Reset),
            old(self).well_formed() ==> final(self).well_formed(),
    {
        self.count = 0;
    }
}

} // verus!
