//! Self-service of an account: changing the password and the address. Both
//! need the current password: a hijacked tab must not take the whole account.
use vstd::prelude::*;
use vstd::string::StringSliceAdditionalSpecFns;

use super::{
    canonical_email, normalize_email, plausible_email, password_long_enough, validate_password,
    verify_password,
};
use crate::crypto::argon2_matches;
use crate::error::{ApiError, STATUS_UNPROCESSABLE};
use crate::text::str_eq;
use crate::users::UserRecord;

verus! {

/// How long the link that confirms a new address lives.
pub const EMAIL_CHANGE_TTL_MINUTES: i64 = 60;

/// `pw` is the user's current password.
pub open spec fn is_current_password(user: UserRecord, pw: Seq<u8>) -> bool {
    match user.password_hash {
        Some(h) => argon2_matches(pw, h@),
        None => false,
    }
}

/// "Is it really you": nothing changes without the current password. An
/// account made through an outside provider has none, and must reset first.
pub fn verify_current_password(user: &UserRecord, current: &str) -> (r: Result<(), ApiError>)
    ensures
        r is Ok <==> is_current_password(*user, current.spec_bytes()),
        user.password_hash is None ==> (r matches Err(e) && e.status == STATUS_UNPROCESSABLE
            && e.key@ == "error-no-password"@ && e.field == Some("current_password")),
        user.password_hash is Some && !is_current_password(*user, current.spec_bytes()) ==> (r matches Err(
            e,
        ) && e.status == STATUS_UNPROCESSABLE && e.key@ == "error-wrong-password"@ && e.field
            == Some("current_password")),
        r matches Err(e) ==> e.args@.len() == 0,
{
    let hash = match &user.password_hash {
        Some(h) => h,
        None => return Err(ApiError::validation("error-no-password").field("current_password")),
    };
    if !verify_password(current, hash.as_str()) {
        return Err(ApiError::validation("error-wrong-password").field("current_password"));
    }
    Ok(())
}

/// What a change of password checks: the current password first, then the
/// length of the new one (tied to the field "new_password").
pub fn check_password_change(user: &UserRecord, current: &str, new: &str) -> (r: Result<(), ApiError>)
    ensures
        r is Ok <==> is_current_password(*user, current.spec_bytes()) && password_long_enough(new@),
        is_current_password(*user, current.spec_bytes()) && !password_long_enough(new@) ==> (r matches Err(
            e,
        ) && e.key@ == "error-password-short"@ && e.field == Some("new_password")),
{
    verify_current_password(user, current)?;
    validate_password(new, "new_password")?;
    Ok(())
}

/// What step 1 of a change of address checks before it looks the new
/// address up: the current password, a plausible new address, and one that
/// differs from the present one. Gives the new address in canonical form.
pub fn check_email_change(user: &UserRecord, new_email: &str, current_password: &str) -> (r: Result<
    String,
    ApiError,
>)
    ensures
        r matches Ok(s) ==> s@ == canonical_email(new_email@) && s@ != user.email@,
        r is Ok <==> is_current_password(*user, current_password.spec_bytes()) && plausible_email(
            canonical_email(new_email@),
        ) && canonical_email(new_email@) != user.email@,
        is_current_password(*user, current_password.spec_bytes()) && plausible_email(
            canonical_email(new_email@),
        ) && canonical_email(new_email@) == user.email@ ==> (r matches Err(e) && e.key@
            == "error-email-same"@ && e.field == Some("new_email")),
        user.password_hash is None ==> (r matches Err(e) && e.status == STATUS_UNPROCESSABLE
            && e.key@ == "error-no-password"@ && e.field == Some("current_password")),
        user.password_hash is Some && !is_current_password(*user, current_password.spec_bytes())
            ==> (r matches Err(e) && e.status == STATUS_UNPROCESSABLE && e.key@
            == "error-wrong-password"@ && e.field == Some("current_password")),
        is_current_password(*user, current_password.spec_bytes()) && !plausible_email(
            canonical_email(new_email@),
        ) ==> (r matches Err(e) && e.status == STATUS_UNPROCESSABLE && e.key@
            == "error-validation-email"@ && e.field == Some("new_email")),
        r matches Err(e) ==> e.status == STATUS_UNPROCESSABLE && e.args@.len() == 0,
{
    match verify_current_password(user, current_password) {
        Ok(()) => {},
        Err(e) => return Err(e),
    }
    let new_email = match normalize_email(new_email, "new_email") {
        Ok(s) => s,
        Err(e) => return Err(e),
    };
    if str_eq(new_email.as_str(), user.email.as_str()) {
        return Err(ApiError::validation("error-email-same").field("new_email"));
    }
    Ok(new_email)
}

} // verus!
