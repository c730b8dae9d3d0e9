//! Authentication: registration, login, password recovery, second factor,
//! one-time tokens. The functions here decide; the app reads and writes the
//! database and hands them what it found.
use vstd::prelude::*;
use vstd::string::StringSliceAdditionalSpecFns;

pub mod account;
pub mod jwt;
pub mod oauth;
pub mod sessions;

use crate::crypto::{
    argon2_hash, argon2_matches, argon2_verify, base32_secret, hex_encode, hex_lower,
    random_bytes_16, random_bytes_32, sha256, sha256_of, totp_check_at, totp_checks, unix_time,
    totp_code, totp_generate_secret, totp_params_valid, totp_secret_bytes, totp_url, totp_valid, otpauth_url,
    TotpParams,
};
use crate::error::{ApiError, STATUS_CONFLICT, STATUS_INTERNAL, STATUS_UNAUTHORIZED, STATUS_UNPROCESSABLE};
use crate::text::{
    ascii_lower_seq, ascii_lowercase, chars_of, concat, decimal, decimal_string, find_char,
    first_index_of, has_char, slice_chars, string_of, trim, trimmed,
};
use crate::users::UserRecord;

verus! {

/// The required length of a password, in characters.
pub const MIN_PASSWORD_LEN: usize = 8;

/// How long a password reset link lives.
pub const RESET_TTL_MINUTES: i64 = 60;

/// How long the link that confirms an address after registration lives.
pub const VERIFY_TTL_HOURS: i64 = 24;

/// A valid argon2 hash of the string "dummy": a login with an unknown
/// address still spends the time of a hash check, so that the speed of the
/// answer does not tell which addresses exist.
pub const DUMMY_HASH: &'static str = "$argon2id$v=19$m=19456,t=2,p=1$C29tZXNhbHRzb21lc2FsdA$8f2VYysvvUlleFvsdEbyR3s1Cew7yeH3WcQVMDBLnJA";

/// The password is long enough.
pub open spec fn password_long_enough(pw: Seq<char>) -> bool {
    pw.len() >= MIN_PASSWORD_LEN
}

/// Refuse a password shorter than `MIN_PASSWORD_LEN` characters; the error
/// is tied to the form field `field` and carries the minimum as `min`.
pub fn validate_password(pw: &str, field: &'static str) -> (r: Result<(), ApiError>)
    ensures
        password_long_enough(pw@) <==> r is Ok,
        r matches Err(e) ==> e.status == STATUS_UNPROCESSABLE && e.key@ == "error-password-short"@
            && e.field == Some(field) && e.args@.len() == 1 && e.args@[0].0@ == "min"@
            && e.args@[0].1@ == decimal(MIN_PASSWORD_LEN as nat),
{
    let chars = chars_of(pw);
    if chars.len() < MIN_PASSWORD_LEN {
        return Err(
            ApiError::validation("error-password-short").arg(
                "min",
                decimal_string(MIN_PASSWORD_LEN as u64),
            ).field(field),
        );
    }
    Ok(())
}

/// An address in its canonical form: trimmed, ASCII letters made small.
pub open spec fn canonical_email(email: Seq<char>) -> Seq<char> {
    ascii_lower_seq(trim(email))
}

/// A plausible address: something before the first `@`, and a dot after it.
pub open spec fn plausible_email(email: Seq<char>) -> bool {
    match first_index_of(email, '@') {
        Some(i) => i > 0 && email.skip(i + 1).contains('.'),
        None => false,
    }
}

/// The canonical form of an address, or a validation error tied to `field`
/// when it has no `@` with something before it and a dot after it.
pub fn normalize_email(email: &str, field: &'static str) -> (r: Result<String, ApiError>)
    ensures
        plausible_email(canonical_email(email@)) <==> r is Ok,
        r matches Ok(s) ==> s@ == canonical_email(email@),
        r matches Err(e) ==> e.status == STATUS_UNPROCESSABLE && e.key@
            == "error-validation-email"@ && e.field == Some(field) && e.args@.len() == 0,
{
    let raw = chars_of(email);
    let t = trimmed(raw.as_slice());
    let e = ascii_lowercase(t.as_slice());
    let ok = match find_char(e.as_slice(), '@') {
        Some(i) => {
            let right = slice_chars(e.as_slice(), i + 1, e.len());
            assert(right@ =~= e@.skip(i + 1));
            i > 0 && has_char(right.as_slice(), '.')
        },
        None => false,
    };
    if !ok {
        return Err(ApiError::validation("error-validation-email").field(field));
    }
    Ok(string_of(e.as_slice()))
}

/// The key an address is looked up by at login and recovery: trimmed, ASCII
/// letters made small, without the plausibility check of registration.
pub fn lookup_email(email: &str) -> (r: String)
    ensures
        r@ == canonical_email(email@),
{
    let raw = chars_of(email);
    let t = trimmed(raw.as_slice());
    let e = ascii_lowercase(t.as_slice());
    string_of(e.as_slice())
}

/// What registration checks before it looks anything up: a plausible
/// address (in canonical form) and a long enough password, in that order.
pub fn check_registration(email: &str, pw: &str) -> (r: Result<String, ApiError>)
    ensures
        r matches Ok(s) ==> plausible_email(canonical_email(email@)) && password_long_enough(pw@)
            && s@ == canonical_email(email@),
        r is Err <==> !plausible_email(canonical_email(email@)) || !password_long_enough(pw@),
        !plausible_email(canonical_email(email@)) ==> (r matches Err(e) && e.key@
            == "error-validation-email"@ && e.field == Some("email")),
        plausible_email(canonical_email(email@)) && !password_long_enough(pw@) ==> (r matches Err(
            e,
        ) && e.key@ == "error-password-short"@ && e.field == Some("password")),
{
    let email = normalize_email(email, "email")?;
    validate_password(pw, "password")?;
    Ok(email)
}

/// The address is already registered.
pub fn email_taken(field: Option<&'static str>) -> (r: ApiError)
    ensures
        r.status == STATUS_CONFLICT,
        r.key@ == "error-email-taken"@,
        r.args@.len() == 0,
        r.field == field,
{
    let e = ApiError::conflict("error-email-taken");
    match field {
        Some(f) => e.field(f),
        None => e,
    }
}

/// A failed write of a new user or address: a unique violation is the same
/// conflict as a taken address (two requests raced), anything else is an
/// internal error.
pub fn write_error(unique_violation: bool) -> (r: ApiError)
    ensures
        unique_violation ==> r.plain(STATUS_CONFLICT, "error-email-taken"@),
        !unique_violation ==> r.plain(STATUS_INTERNAL, "error-internal"@),
{
    if unique_violation {
        ApiError::conflict("error-email-taken")
    } else {
        ApiError::internal()
    }
}

/// The hash of a password: argon2id with a fresh random salt.
pub fn hash_password(pw: &str) -> (r: Result<String, ApiError>)
    ensures
        r matches Ok(h) ==> argon2_matches(pw.spec_bytes(), h@),
        pw.spec_bytes().len() <= u32::MAX ==> r is Ok,
        r matches Err(e) ==> e.plain(STATUS_INTERNAL, "error-internal"@),
{
    let salt = random_bytes_16();
    let bytes = pw.as_bytes();
    match argon2_hash(bytes, &salt) {
        Some(h) => Ok(h),
        None => Err(ApiError::internal()),
    }
}

/// Whether `pw` matches the stored hash.
pub fn verify_password(pw: &str, stored_hash: &str) -> (r: bool)
    ensures
        r == argon2_matches(pw.spec_bytes(), stored_hash@),
{
    argon2_verify(pw.as_bytes(), stored_hash)
}

pub enum LoginOutcome {
    Done(UserRecord),
    /// the password is right, but the second factor is on: a second step is
    /// needed
    Requires2fa(uuid::Uuid),
}

/// The answer to a wrong login, whatever was wrong.
pub open spec fn invalid_credentials(e: ApiError) -> bool {
    e.plain(STATUS_UNAUTHORIZED, "error-invalid-credentials"@)
}

/// The outcome of a login, given the user found by the address (if any):
/// the same answer for an unknown address, an account without a password
/// and a wrong password; for an unknown address a dummy hash is checked all
/// the same. A right password gives the user, or the second step when the
/// second factor is on.
pub fn login_outcome(found: Option<UserRecord>, pw: &str) -> (r: Result<LoginOutcome, ApiError>)
    ensures
        match found {
            None => r matches Err(e) && invalid_credentials(e),
            Some(user) => match user.password_hash {
                None => r matches Err(e) && invalid_credentials(e),
                Some(h) => if !argon2_matches(pw.spec_bytes(), h@) {
                    r matches Err(e) && invalid_credentials(e)
                } else if user.totp_secret is Some {
                    r matches Ok(LoginOutcome::Requires2fa(id)) && id == user.id
                } else {
                    r matches Ok(LoginOutcome::Done(u)) && u == user
                },
            },
        },
{
    let user = match found {
        Some(u) => u,
        None => {
            let _ = verify_password(pw, DUMMY_HASH);
            return Err(ApiError::unauthorized("error-invalid-credentials"));
        },
    };
    let ok = match &user.password_hash {
        Some(h) => verify_password(pw, h.as_str()),
        None => {
            return Err(ApiError::unauthorized("error-invalid-credentials"));
        },
    };
    if !ok {
        return Err(ApiError::unauthorized("error-invalid-credentials"));
    }
    if user.totp_secret.is_some() {
        return Ok(LoginOutcome::Requires2fa(user.id));
    }
    Ok(LoginOutcome::Done(user))
}

/// A fresh one-time token: 32 random bytes in hexadecimal.
pub fn new_raw_token() -> (r: String)
    ensures
        exists|b: Seq<u8>| b.len() == 32 && r@ == #[trigger] hex_lower(b),
{
    let bytes = random_bytes_32();
    let r = hex_encode(&bytes);
    assert(bytes@.len() == 32);
    r
}

/// The hash a one-time token is stored under: the database never sees the
/// token itself.
pub fn hash_token(raw: &[u8]) -> (r: Vec<u8>)
    ensures
        r@ == sha256_of(raw@),
{
    sha256(raw)
}

/// A link of the app that carries a one-time token: `base` + `path` +
/// `?token=` + the token.
pub open spec fn token_link(base: Seq<char>, path: Seq<char>, token: Seq<char>) -> Seq<char> {
    base + path + "?token="@ + token
}

/// The link of a letter: the app's address, the page and the token.
pub fn link_with_token(base: &str, path: &str, token: &str) -> (r: String)
    ensures
        r@ == token_link(base@, path@, token@),
{
    let a = chars_of(base);
    let b = chars_of(path);
    let q = chars_of("?token=");
    let t = chars_of(token);
    let ab = concat(a.as_slice(), b.as_slice());
    let abq = concat(ab.as_slice(), q.as_slice());
    let all = concat(abq.as_slice(), t.as_slice());
    string_of(all.as_slice())
}

/// A one-time token that is unknown, used or expired.
pub fn invalid_token() -> (r: ApiError)
    ensures
        r.plain(STATUS_UNPROCESSABLE, "error-invalid-token"@),
{
    ApiError::validation("error-invalid-token")
}

/// The user a request is made for, or "unauthorized" when the account no
/// longer exists.
pub fn require_user(found: Option<UserRecord>) -> (r: Result<UserRecord, ApiError>)
    ensures
        found matches Some(u) ==> r == Ok::<UserRecord, ApiError>(u),
        found is None ==> (r matches Err(e) && e.plain(STATUS_UNAUTHORIZED, "error-unauthorized"@)),
{
    match found {
        Some(u) => Ok(u),
        None => Err(ApiError::unauthorized("error-unauthorized")),
    }
}

// --- second factor (TOTP) ---------------------------------------------------

/// Six digits, thirty seconds: what Google Authenticator and the like expect.
pub const TOTP_DIGITS: usize = 6;
pub const TOTP_SKEW: u8 = 1;
pub const TOTP_STEP: u64 = 30;

/// The generator can be built for this secret and address: the secret is
/// base32 of at least 16 bytes, and the address holds no `:`.
pub open spec fn totp_buildable(secret_b32: Seq<char>, email: Seq<char>) -> bool {
    match base32_secret(secret_b32) {
        Some(bytes) => bytes.len() >= 16 && !email.contains(':'),
        None => false,
    }
}

/// The issuer the authenticator app shows beside the code.
pub open spec fn totp_issuer() -> Seq<char> {
    "business-project"@
}

/// The TOTP generator of a user: SHA-1, 6 digits, one step of skew, 30
/// seconds, the secret decoded from base32, issuer "business-project", the
/// address as the account name.
pub fn totp_for(secret_b32: &str, email: &str) -> (r: Result<TotpParams, ApiError>)
    ensures
        r is Ok <==> totp_buildable(secret_b32@, email@),
        r matches Ok(p) ==> p.digits == TOTP_DIGITS && p.skew == TOTP_SKEW && p.step == TOTP_STEP
            && base32_secret(secret_b32@) == Some(p.secret@) && p.issuer@ == totp_issuer()
            && p.account@ == email@ && totp_params_valid(p),
        r matches Err(e) ==> e.plain(STATUS_INTERNAL, "error-internal"@),
{
    let secret = match totp_secret_bytes(secret_b32) {
        Some(bytes) => bytes,
        None => return Err(ApiError::internal()),
    };
    let issuer = "business-project".to_owned();
    proof {
        reveal_strlit("business-project");
    }
    assert(!issuer@.contains(':')) by {
        assert forall|i: int| 0 <= i < issuer@.len() implies issuer@[i] != ':' by {}
    }
    let p = TotpParams {
        digits: TOTP_DIGITS,
        skew: TOTP_SKEW,
        step: TOTP_STEP,
        secret,
        issuer,
        account: email.to_owned(),
    };
    if totp_valid(&p) {
        Ok(p)
    } else {
        Err(ApiError::internal())
    }
}

/// `code` is a code of the secret (decoded from base32) for some time step:
/// six ASCII digits, the TOTP code of one step.
pub open spec fn code_of_secret(secret_b32: Seq<char>, code: Seq<char>) -> bool {
    &&& exists|c: u64| code == #[trigger] totp_code(base32_secret(secret_b32).unwrap(), TOTP_DIGITS, c)
    &&& code.len() == TOTP_DIGITS
    &&& forall|i: int| 0 <= i < code.len() ==> '0' <= #[trigger] code[i] <= '9'
}

/// The trimmed `code` is accepted for the secret at `now`: by the check of
/// the generator (30-second steps, one step of skew either way) at a time
/// it can be asked at.
pub open spec fn totp_accepts(secret_b32: Seq<char>, code: Seq<char>, now: u64) -> bool {
    &&& 30 <= now <= u64::MAX - 30
    &&& totp_checks(base32_secret(secret_b32).unwrap(), TOTP_DIGITS, trim(code), now)
}

/// The clock in seconds since the epoch; 0, where no code is accepted, when
/// the clock is before the epoch (as `check_current` then refuses).
fn now_for_totp() -> (r: u64) {
    match unix_time() {
        Some(t) => t,
        None => 0,
    }
}

/// Whether `code`, trimmed, is a code of the secret at `now` (seconds since
/// the epoch). An error when no generator can be built of the secret and
/// the address.
pub fn totp_code_valid_at(secret_b32: &str, email: &str, code: &str, now: u64) -> (r: Result<
    bool,
    ApiError,
>)
    ensures
        r is Ok <==> totp_buildable(secret_b32@, email@),
        r matches Ok(b) ==> b == totp_accepts(secret_b32@, code@, now),
        r matches Ok(b) ==> (b ==> code_of_secret(secret_b32@, trim(code@))),
        r matches Err(e) ==> e.plain(STATUS_INTERNAL, "error-internal"@),
{
    let p = match totp_for(secret_b32, email) {
        Ok(p) => p,
        Err(e) => return Err(e),
    };
    let raw = chars_of(code);
    let t = trimmed(raw.as_slice());
    let trimmed_code = string_of(t.as_slice());
    if now < 30 || now > u64::MAX - 30 {
        return Ok(false);
    }
    Ok(totp_check_at(&p, trimmed_code.as_str(), now))
}

/// Whether `code`, trimmed, is the current code of the secret: as
/// `totp_code_valid_at` at the time the clock reads.
pub fn totp_code_valid(secret_b32: &str, email: &str, code: &str) -> (r: Result<bool, ApiError>)
    ensures
        r is Ok <==> totp_buildable(secret_b32@, email@),
        r matches Ok(b) ==> (b ==> code_of_secret(secret_b32@, trim(code@))),
        r matches Err(e) ==> e.plain(STATUS_INTERNAL, "error-internal"@),
{
    totp_code_valid_at(secret_b32, email, code, now_for_totp())
}

/// What the first step of switching the second factor on gives: the secret
/// and the address for an authenticator app.
#[derive(Debug)]
pub struct TotpSetup {
    pub secret: String,
    pub otpauth_url: String,
}

/// Step 1 of switching the second factor on: a fresh secret, which becomes
/// active only once a code confirms it. Refused when the factor is on.
pub fn totp_setup(user: &UserRecord) -> (r: Result<TotpSetup, ApiError>)
    ensures
        user.totp_secret is Some ==> (r matches Err(e) && e.plain(
            STATUS_CONFLICT,
            "error-totp-already-enabled"@,
        )),
        r matches Err(e) ==> e.plain(STATUS_CONFLICT, "error-totp-already-enabled"@) || e.plain(
            STATUS_INTERNAL,
            "error-internal"@,
        ),
        r matches Ok(s) ==> user.totp_secret is None && totp_buildable(s.secret@, user.email@),
        r matches Ok(s) ==> s.otpauth_url@ == otpauth_url(
            TOTP_DIGITS,
            TOTP_STEP,
            base32_secret(s.secret@).unwrap(),
            totp_issuer(),
            user.email@,
        ),
        r is Ok <==> user.totp_secret is None && !user.email@.contains(':'),
{
    if user.totp_secret.is_some() {
        return Err(ApiError::conflict("error-totp-already-enabled"));
    }
    let secret = totp_generate_secret();
    let p = match totp_for(secret.as_str(), user.email.as_str()) {
        Ok(p) => p,
        Err(e) => return Err(e),
    };
    let url = totp_url(&p);
    Ok(TotpSetup { secret, otpauth_url: url })
}

/// The code does not confirm the second factor.
pub open spec fn invalid_totp(e: ApiError) -> bool {
    e.plain(STATUS_UNPROCESSABLE, "error-invalid-totp"@)
}

/// Once the state and the secret allow the check, the code decides: success
/// exactly when it is `accepted`, "invalid code" otherwise.
pub open spec fn decided_by_code<T>(r: Result<T, ApiError>, accepted: bool) -> bool {
    &&& r is Ok <==> accepted
    &&& r matches Err(e) ==> invalid_totp(e)
}

/// Step 2 at `now`: the user typed the code of the app; the secret may be
/// stored. Refused when the factor is already on, when no generator can be
/// built of the secret, or when the trimmed code is not accepted at `now`.
pub fn totp_enable_at(user: &UserRecord, secret_b32: &str, code: &str, now: u64) -> (r: Result<
    (),
    ApiError,
>)
    ensures
        user.totp_secret is Some ==> (r matches Err(e) && e.plain(
            STATUS_CONFLICT,
            "error-totp-already-enabled"@,
        )),
        user.totp_secret is None && !totp_buildable(secret_b32@, user.email@) ==> (r matches Err(e)
            && e.plain(STATUS_INTERNAL, "error-internal"@)),
        user.totp_secret is None && totp_buildable(secret_b32@, user.email@) ==> decided_by_code(
            r,
            totp_accepts(secret_b32@, code@, now),
        ),
        r is Ok ==> code_of_secret(secret_b32@, trim(code@)),
{
    if user.totp_secret.is_some() {
        return Err(ApiError::conflict("error-totp-already-enabled"));
    }
    let ok = match totp_code_valid_at(secret_b32, user.email.as_str(), code, now) {
        Ok(b) => b,
        Err(e) => return Err(e),
    };
    if !ok {
        return Err(ApiError::validation("error-invalid-totp"));
    }
    Ok(())
}

/// Step 2 of switching the second factor on, at the time the clock reads.
pub fn totp_enable(user: &UserRecord, secret_b32: &str, code: &str) -> (r: Result<(), ApiError>)
    ensures
        user.totp_secret is Some ==> (r matches Err(e) && e.plain(
            STATUS_CONFLICT,
            "error-totp-already-enabled"@,
        )),
        user.totp_secret is None && !totp_buildable(secret_b32@, user.email@) ==> (r matches Err(e)
            && e.plain(STATUS_INTERNAL, "error-internal"@)),
        user.totp_secret is None && totp_buildable(secret_b32@, user.email@) ==> (r matches Err(e)
            ==> invalid_totp(e)),
        r is Ok ==> user.totp_secret is None && totp_buildable(secret_b32@, user.email@)
            && code_of_secret(secret_b32@, trim(code@)),
{
    totp_enable_at(user, secret_b32, code, now_for_totp())
}

/// The code of a user whose second factor is on, checked at `now`:
/// switching it off and the second step of login both go through here.
/// Refused when the factor is off, when no generator can be built of the
/// stored secret, or when the trimmed code is not accepted at `now`.
pub fn check_totp_at(user: &UserRecord, code: &str, now: u64) -> (r: Result<(), ApiError>)
    ensures
        user.totp_secret is None ==> (r matches Err(e) && e.plain(
            STATUS_CONFLICT,
            "error-totp-not-enabled"@,
        )),
        user.totp_secret matches Some(s) && !totp_buildable(s@, user.email@) ==> (r matches Err(e)
            && e.plain(STATUS_INTERNAL, "error-internal"@)),
        user.totp_secret is Some && totp_buildable(user.totp_secret.unwrap()@, user.email@)
            ==> decided_by_code(r, totp_accepts(user.totp_secret.unwrap()@, code@, now)),
        r is Ok ==> (user.totp_secret matches Some(s) && code_of_secret(s@, trim(code@))),
{
    let secret = match &user.totp_secret {
        Some(s) => s,
        None => return Err(ApiError::conflict("error-totp-not-enabled")),
    };
    let ok = match totp_code_valid_at(secret.as_str(), user.email.as_str(), code, now) {
        Ok(b) => b,
        Err(e) => return Err(e),
    };
    if !ok {
        return Err(ApiError::validation("error-invalid-totp"));
    }
    Ok(())
}

/// The code of a user whose second factor is on, checked at the time the
/// clock reads.
pub fn check_totp(user: &UserRecord, code: &str) -> (r: Result<(), ApiError>)
    ensures
        user.totp_secret is None ==> (r matches Err(e) && e.plain(
            STATUS_CONFLICT,
            "error-totp-not-enabled"@,
        )),
        user.totp_secret matches Some(s) && !totp_buildable(s@, user.email@) ==> (r matches Err(e)
            && e.plain(STATUS_INTERNAL, "error-internal"@)),
        user.totp_secret matches Some(s) && totp_buildable(s@, user.email@) ==> (r matches Err(e)
            ==> invalid_totp(e)),
        r is Ok ==> (user.totp_secret matches Some(s) && totp_buildable(s@, user.email@)
            && code_of_secret(s@, trim(code@))),
{
    check_totp_at(user, code, now_for_totp())
}

/// The second step of login at `now`: the code checked, the user given back.
pub fn verify_2fa_login_at(user: UserRecord, code: &str, now: u64) -> (r: Result<UserRecord, ApiError>)
    ensures
        user.totp_secret is None ==> (r matches Err(e) && e.plain(
            STATUS_CONFLICT,
            "error-totp-not-enabled"@,
        )),
        user.totp_secret matches Some(s) && !totp_buildable(s@, user.email@) ==> (r matches Err(e)
            && e.plain(STATUS_INTERNAL, "error-internal"@)),
        user.totp_secret is Some && totp_buildable(user.totp_secret.unwrap()@, user.email@)
            ==> decided_by_code(r, totp_accepts(user.totp_secret.unwrap()@, code@, now)),
        r matches Ok(u) ==> u == user,
{
    match check_totp_at(&user, code, now) {
        Ok(()) => Ok(user),
        Err(e) => Err(e),
    }
}

/// The second step of login, at the time the clock reads.
pub fn verify_2fa_login(user: UserRecord, code: &str) -> (r: Result<UserRecord, ApiError>)
    ensures
        r matches Ok(u) ==> u == user,
        r is Ok ==> (user.totp_secret matches Some(s) && totp_buildable(s@, user.email@)
            && code_of_secret(s@, trim(code@))),
        user.totp_secret is None ==> (r matches Err(e) && e.plain(
            STATUS_CONFLICT,
            "error-totp-not-enabled"@,
        )),
        user.totp_secret matches Some(s) && !totp_buildable(s@, user.email@) ==> (r matches Err(e)
            && e.plain(STATUS_INTERNAL, "error-internal"@)),
        user.totp_secret matches Some(s) && totp_buildable(s@, user.email@) ==> (r matches Err(e)
            ==> invalid_totp(e)),
{
    match check_totp(&user, code) {
        Ok(()) => Ok(user),
        Err(e) => Err(e),
    }
}

} // verus!
