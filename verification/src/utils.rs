//! Small domain-independent helpers.

pub mod math;

use vstd::prelude::*;
use crate::errors::{AppError, AppResult, ValidationFault};
use crate::text::{chars_of, has_char, has_char_exec};

verus! {

/// An e-mail address passes the (deliberately shallow) format check
/// exactly when it holds both an '@' and a '.' character.
pub open spec fn email_ok(s: Seq<char>) -> bool {
    has_char(s, '@') && has_char(s, '.')
}

/// Accepts an e-mail address exactly when it holds both an '@' and a
/// '.' character.
pub fn validate_email(email: &str) -> (r: AppResult<()>)
    ensures
        r is Ok <==> email_ok(email@),
        r is Err ==> r == AppResult::<()>::Err(
            AppError::ValidationError(ValidationFault::EmailMalformed),
        ),
{
    let cs = chars_of(email);
    if !has_char_exec(&cs, '@') || !has_char_exec(&cs, '.') {
        return Err(AppError::ValidationError(ValidationFault::EmailMalformed));
    }
    Ok(())
}

} // verus!
