//! Checks on arguments, and arithmetic that refuses to wrap around.

use vstd::prelude::*;
use crate::errors::Error;
use crate::values::Text;

verus! {

/// Whether `value` can be held in 128 bits.
pub open spec fn fits(value: int) -> bool {
    i128::MIN <= value <= i128::MAX
}

/// Refuses an empty text.
pub fn require_non_empty(text: &Text) -> (outcome: Result<(), Error>)
    ensures
        outcome == if text@.len() == 0 {
            Err::<(), Error>(Error::InvalidInput)
        } else {
            Ok(())
        },
{
    if text.is_empty() {
        Err(Error::InvalidInput)
    } else {
        Ok(())
    }
}

/// Refuses a negative amount.
pub fn require_non_negative_amount(amount: i128) -> (outcome: Result<(), Error>)
    ensures
        outcome == if amount < 0 {
            Err::<(), Error>(Error::InvalidAmount)
        } else {
            Ok(())
        },
{
    if amount < 0 {
        Err(Error::InvalidAmount)
    } else {
        Ok(())
    }
}

/// The sum of the two amounts, if it can be held.
pub fn checked_add(a: i128, b: i128) -> (sum: Result<i128, Error>)
    ensures
        sum == if fits(a + b) {
            Ok::<i128, Error>((a + b) as i128)
        } else {
            Err(Error::Overflow)
        },
{
    match a.checked_add(b) {
        Some(sum) => Ok(sum),
        None => Err(Error::Overflow),
    }
}

/// The difference of the two amounts, if it can be held.
pub fn checked_sub(a: i128, b: i128) -> (difference: Result<i128, Error>)
    ensures
        difference == if fits(a - b) {
            Ok::<i128, Error>((a - b) as i128)
        } else {
            Err(Error::Overflow)
        },
{
    match a.checked_sub(b) {
        Some(difference) => Ok(difference),
        None => Err(Error::Overflow),
    }
}

} // verus!
