//! Validation of student data before construction.
//!
//! Ages must lie in 5..=100. Names must not trim to empty, must hold at
//! most 50 characters, and must not contain an ASCII digit. Both
//! checks are pure and report the first violated constraint.

use vstd::prelude::*;
use crate::errors::{AppError, AppResult, ValidationFault};
use crate::text::{chars_of, has_digit, has_digit_exec, trims_to_empty, trims_to_empty_exec};

verus! {

/// An age passes validation exactly when it lies in 5..=100.
pub open spec fn age_ok(age: u8) -> bool {
    5 <= age <= 100
}

/// The outcome [`validate_age`] owes for a given age: too-small ages
/// are reported before too-large ones.
pub open spec fn age_check(age: u8) -> AppResult<()> {
    if age < 5 {
        Err(AppError::ValidationError(ValidationFault::AgeTooSmall { age }))
    } else if age > 100 {
        Err(AppError::ValidationError(ValidationFault::AgeTooLarge { age }))
    } else {
        Ok(())
    }
}

/// A name passes validation exactly when it does not trim to empty,
/// holds at most 50 characters, and holds no ASCII digit.
pub open spec fn name_ok(s: Seq<char>) -> bool {
    &&& !trims_to_empty(s)
    &&& s.len() <= 50
    &&& !has_digit(s)
}

/// The outcome [`validate_name`] owes for a given name: emptiness is
/// reported first, then excess length, then a digit.
pub open spec fn name_check(s: Seq<char>) -> AppResult<()> {
    if trims_to_empty(s) {
        Err(AppError::ValidationError(ValidationFault::NameEmpty))
    } else if s.len() > 50 {
        Err(AppError::ValidationError(ValidationFault::NameTooLong { len: s.len() as usize }))
    } else if has_digit(s) {
        Err(AppError::ValidationError(ValidationFault::NameHasDigit))
    } else {
        Ok(())
    }
}

/// Accepts an age exactly when it lies in 5..=100.
pub fn validate_age(age: u8) -> (r: AppResult<()>)
    ensures
        r is Ok <==> age_ok(age),
        r == age_check(age),
{
    if age < 5 {
        return Err(AppError::ValidationError(ValidationFault::AgeTooSmall { age }));
    }
    if age > 100 {
        return Err(AppError::ValidationError(ValidationFault::AgeTooLarge { age }));
    }
    Ok(())
}

/// Accepts a name exactly when it does not trim to empty, holds at
/// most 50 characters, and holds no ASCII digit.
pub fn validate_name(name: &str) -> (r: AppResult<()>)
    ensures
        r is Ok <==> name_ok(name@),
        r == name_check(name@),
{
    let cs = chars_of(name);
    if trims_to_empty_exec(&cs) {
        return Err(AppError::ValidationError(ValidationFault::NameEmpty));
    }
    if cs.len() > 50 {
        return Err(AppError::ValidationError(ValidationFault::NameTooLong { len: cs.len() }));
    }
    if has_digit_exec(&cs) {
        return Err(AppError::ValidationError(ValidationFault::NameHasDigit));
    }
    Ok(())
}

} // verus!
