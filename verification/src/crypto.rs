//! The calls into the cryptographic crates: hashing of one-time tokens,
//! random tokens, password hashes and TOTP codes. Each function here makes
//! one outside call; what its contract says is what the crate's code and
//! documentation show.
use argon2::password_hash::{PasswordHash, PasswordHasher, PasswordVerifier, SaltString};
use sha2::Digest;
use vstd::prelude::*;

verus! {

/// SHA-256 digest of `data`.
pub uninterp spec fn sha256_of(data: Seq<u8>) -> Seq<u8>;

/// `sha2::Sha256::digest`: the SHA-256 digest of `data`, named; a SHA-256
/// digest is 32 bytes long.
#[verifier::external_body]
pub(crate) fn sha256(data: &[u8]) -> (r: Vec<u8>)
    ensures
        r@ == sha256_of(data@),
        r@.len() == 32,
{
    sha2::Sha256::digest(data).to_vec()
}

/// The lowercase hexadecimal digit for a value below 16.
pub open spec fn hex_digit(v: int) -> char {
    seq!['0', '1', '2', '3', '4', '5', '6', '7', '8', '9', 'a', 'b', 'c', 'd', 'e', 'f'][v]
}

/// `bytes` in lowercase hexadecimal, two digits per byte, high half first.
pub open spec fn hex_lower(bytes: Seq<u8>) -> Seq<char>
    decreases bytes.len(),
{
    if bytes.len() == 0 {
        Seq::<char>::empty()
    } else {
        hex_lower(bytes.drop_last()) + seq![
            hex_digit(bytes.last() as int / 16),
            hex_digit(bytes.last() as int % 16),
        ]
    }
}

/// `hex::encode`: every byte as two lowercase hexadecimal digits, high half
/// first (its table `0123456789abcdef`).
#[verifier::external_body]
pub(crate) fn hex_encode(data: &[u8]) -> (r: String)
    ensures
        r@ == hex_lower(data@),
{
    hex::encode(data)
}

/// `rand::fill` on 32 bytes: bytes from the thread-local generator. Nothing
/// is promised of their values.
#[verifier::external_body]
pub(crate) fn random_bytes_32() -> (r: [u8; 32]) {
    let mut bytes = [0u8; 32];
    rand::fill(&mut bytes);
    bytes
}

/// `rand::fill` on 16 bytes: bytes from the thread-local generator.
#[verifier::external_body]
pub(crate) fn random_bytes_16() -> (r: [u8; 16]) {
    let mut bytes = [0u8; 16];
    rand::fill(&mut bytes);
    bytes
}

/// `argon2`: whether `password` matches the PHC string `stored`, by
/// `PasswordHash::new` and `Argon2::default().verify_password`.
pub uninterp spec fn argon2_matches(password: Seq<u8>, stored: Seq<char>) -> bool;

/// `Argon2::verify_password` on the parsed `stored` hash: true when the
/// stored string parses and the password matches it; a string that does not
/// parse matches nothing.
#[verifier::external_body]
pub(crate) fn argon2_verify(password: &[u8], stored: &str) -> (r: bool)
    ensures
        r == argon2_matches(password@, stored@),
{
    match PasswordHash::new(stored) {
        Ok(parsed) => argon2::Argon2::default().verify_password(password, &parsed).is_ok(),
        Err(_) => false,
    }
}

/// `Argon2::default().hash_password` with the salt made of `salt` by
/// `SaltString::encode_b64`: the PHC string of the hash, or `None` when the
/// salt or the hashing fails. The PHC string holds the algorithm, the
/// parameters and the salt, from which `verify_password` recomputes the
/// same output, so the password matches its own hash; which string it is
/// depends on the salt and is not stated. Sixteen salt bytes encode to a
/// valid salt, and with the default parameters the hashing refuses only a
/// password longer than `u32::MAX` bytes (`argon2::MAX_PWD_LEN`), so any
/// shorter one is hashed.
#[verifier::external_body]
pub(crate) fn argon2_hash(password: &[u8], salt: &[u8; 16]) -> (r: Option<String>)
    ensures
        r matches Some(h) ==> argon2_matches(password@, h@),
        password@.len() <= u32::MAX ==> r is Some,
{
    let Ok(salt) = SaltString::encode_b64(salt) else {
        return None;
    };
    match argon2::Argon2::default().hash_password(password, &salt) {
        Ok(hash) => Some(hash.to_string()),
        Err(_) => None,
    }
}

/// The bytes a base32 (RFC 4648, no padding) secret decodes to.
pub uninterp spec fn base32_secret(encoded: Seq<char>) -> Option<Seq<u8>>;

/// `totp_rs::Secret::Encoded(..).to_bytes()`: the decoded secret, or `None`
/// when the text is not base32.
#[verifier::external_body]
pub(crate) fn totp_secret_bytes(encoded: &str) -> (r: Option<Vec<u8>>)
    ensures
        r matches Some(v) ==> base32_secret(encoded@) == Some(v@),
        r is None ==> base32_secret(encoded@) is None,
{
    totp_rs::Secret::Encoded(encoded.to_owned()).to_bytes().ok()
}

/// What a TOTP generator is made of; its hash function is always SHA-1.
pub struct TotpParams {
    pub digits: usize,
    pub skew: u8,
    pub step: u64,
    pub secret: Vec<u8>,
    pub issuer: String,
    pub account: String,
}

/// The checks `TOTP::new` makes: 6 to 8 digits (`assert_digits`), a secret
/// of at least 16 bytes (`assert_secret_length`), and no `:` in the issuer
/// or the account name.
pub open spec fn totp_params_valid(p: TotpParams) -> bool {
    &&& 6 <= p.digits <= 8
    &&& p.secret@.len() >= 16
    &&& !p.issuer@.contains(':')
    &&& !p.account@.contains(':')
}

/// `TOTP::new(Algorithm::SHA1, ..)` on the parameters, with the issuer
/// given: whether it builds a generator rather than refusing.
#[verifier::external_body]
pub(crate) fn totp_valid(p: &TotpParams) -> (r: bool)
    ensures
        r == totp_params_valid(*p),
{
    totp_rs::TOTP::new(
        totp_rs::Algorithm::SHA1,
        p.digits,
        p.skew,
        p.step,
        p.secret.clone(),
        Some(p.issuer.clone()),
        p.account.clone(),
    ).is_ok()
}

/// The code `TOTP::generate` gives for a SHA-1 generator of `digits`
/// digits over `secret` at any time of time step `counter`: the HMAC-SHA-1
/// of the counter, dynamically truncated (RFC 6238).
pub uninterp spec fn totp_code(secret: Seq<u8>, digits: usize, counter: u64) -> Seq<char>;

/// Whether `TOTP::check(code, time)` of a SHA-1 generator of `digits`
/// digits over `secret`, 30-second steps and one step of skew, accepts
/// `code` at `time` (seconds since the epoch).
pub uninterp spec fn totp_checks(secret: Seq<u8>, digits: usize, code: Seq<char>, time: u64) -> bool;

/// `TOTP::check(code, time)` of the SHA-1 generator made of `p`, named. It
/// accepts `code` when it equals, byte for byte, `generate` at one of the
/// time steps from the one of `time` less the skew to that one plus the
/// skew; `generate` writes the truncated value below `10^digits` with
/// `digits` digits, leading zeros kept, so an accepted code is `digits`
/// ASCII digits and the code of one step. The step is 30 seconds and the
/// skew one step, as this library always builds it: `check` divides by the
/// step, takes the skew from the step number (so `time` must be at least
/// one step) and multiplies the step number back (so `time` must leave room
/// for one more step). The generator is the one `TOTP::new` builds of valid
/// parameters (`new_unchecked` makes the same value without the checks).
#[verifier::external_body]
pub(crate) fn totp_check_at(p: &TotpParams, code: &str, time: u64) -> (r: bool)
    requires
        totp_params_valid(*p),
        p.step == 30,
        p.skew == 1,
        30 <= time <= u64::MAX - 30,
    ensures
        r == totp_checks(p.secret@, p.digits, code@, time),
        r ==> exists|c: u64| code@ == #[trigger] totp_code(p.secret@, p.digits, c),
        r ==> code@.len() == p.digits,
        r ==> forall|i: int| 0 <= i < code@.len() ==> '0' <= #[trigger] code@[i] <= '9',
{
    let totp = totp_rs::TOTP::new_unchecked(
        totp_rs::Algorithm::SHA1,
        p.digits,
        p.skew,
        p.step,
        p.secret.clone(),
        Some(p.issuer.clone()),
        p.account.clone(),
    );
    totp.check(code, time)
}

/// The system clock in whole seconds since the epoch (`SystemTime::now`
/// since `UNIX_EPOCH`), `None` when the clock is before the epoch. Which
/// second it reads is the clock's, so nothing is stated of it.
#[verifier::external_body]
pub(crate) fn unix_time() -> (r: Option<u64>) {
    let since = std::time::SystemTime::now().duration_since(std::time::UNIX_EPOCH);
    since.ok().map(|d| d.as_secs())
}

/// The `otpauth://` address that `TOTP::get_url` writes for the SHA-1
/// generator of these digits, step, secret bytes, issuer and account name
/// (the skew does not enter it).
pub uninterp spec fn otpauth_url(
    digits: usize,
    step: u64,
    secret: Seq<u8>,
    issuer: Seq<char>,
    account: Seq<char>,
) -> Seq<char>;

/// `TOTP::get_url` of the SHA-1 generator made of `p`: the address for an
/// authenticator app, named; it is a function of the parameters alone.
#[verifier::external_body]
pub(crate) fn totp_url(p: &TotpParams) -> (r: String)
    requires
        totp_params_valid(*p),
    ensures
        r@ == otpauth_url(p.digits, p.step, p.secret@, p.issuer@, p.account@),
{
    let totp = totp_rs::TOTP::new_unchecked(
        totp_rs::Algorithm::SHA1,
        p.digits,
        p.skew,
        p.step,
        p.secret.clone(),
        Some(p.issuer.clone()),
        p.account.clone(),
    );
    totp.get_url()
}

/// `totp_rs::Secret::generate_secret`, base32 encoded: a fresh random
/// secret of 20 bytes, as text. `to_encoded` writes the bytes in base32
/// (RFC 4648, no padding), which `Secret::Encoded(..).to_bytes()` decodes
/// back to the same 20 bytes; which bytes they are is chance.
#[verifier::external_body]
pub(crate) fn totp_generate_secret() -> (r: String)
    ensures
        base32_secret(r@) is Some,
        base32_secret(r@).unwrap().len() == 20,
{
    totp_rs::Secret::generate_secret().to_encoded().to_string()
}

/// The RFC 3339 text of the instant `unix_nanos` nanoseconds after the epoch,
/// in UTC, or `None` when `time` cannot represent or format it.
pub uninterp spec fn rfc3339_text(unix_nanos: int) -> Option<Seq<char>>;

/// `time::OffsetDateTime::from_unix_timestamp_nanos` formatted with
/// `well_known::Rfc3339`.
#[verifier::external_body]
pub(crate) fn format_rfc3339(unix_nanos: i128) -> (r: Option<String>)
    ensures
        r matches Some(s) ==> rfc3339_text(unix_nanos as int) == Some(s@),
        r is None ==> rfc3339_text(unix_nanos as int) is None,
{
    let Ok(at) = time::OffsetDateTime::from_unix_timestamp_nanos(unix_nanos) else {
        return None;
    };
    at.format(&time::format_description::well_known::Rfc3339).ok()
}

} // verus!
