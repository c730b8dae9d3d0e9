//! Signed tokens (JWT, HS256). The access token lives 15 minutes; each kind
//! of token has its own purpose, so an access token cannot be used as the
//! pending token of the second factor, nor the other way round.
use vstd::prelude::*;

use crate::config::Secret;
use crate::text::str_eq;

verus! {

pub const ACCESS_TTL_SECS: i64 = 15 * 60;
pub const PENDING_2FA_TTL_SECS: i64 = 5 * 60;

#[derive(Debug)]
pub struct Claims {
    /// the user's id, its 128 bits
    pub sub: u128,
    pub role: String,
    pub purpose: String,
    pub exp: i64,
}

pub open spec fn access_purpose() -> Seq<char> {
    "access"@
}

pub open spec fn pending_purpose() -> Seq<char> {
    "2fa"@
}

/// Claims for `sub` of a token made at `now` (seconds since the epoch) that
/// lives `ttl_secs`.
pub fn claims(sub: u128, role: &str, purpose: &str, now: i64, ttl_secs: i64) -> (r: Claims)
    requires
        i64::MIN <= now + ttl_secs <= i64::MAX,
    ensures
        r.sub == sub,
        r.role@ == role@,
        r.purpose@ == purpose@,
        r.exp == now + ttl_secs,
{
    Claims { sub, role: role.to_owned(), purpose: purpose.to_owned(), exp: now + ttl_secs }
}

/// Claims of an access token.
pub fn access_claims(sub: u128, role: &str, now: i64) -> (r: Claims)
    requires
        now <= i64::MAX - ACCESS_TTL_SECS,
    ensures
        r.sub == sub,
        r.role@ == role@,
        r.purpose@ == access_purpose(),
        r.exp == now + ACCESS_TTL_SECS,
{
    claims(sub, role, "access", now, ACCESS_TTL_SECS)
}

/// Claims of the token between the password and the code of the second
/// factor: it carries no role.
pub fn pending_2fa_claims(sub: u128, now: i64) -> (r: Claims)
    requires
        now <= i64::MAX - PENDING_2FA_TTL_SECS,
    ensures
        r.sub == sub,
        r.role@ == ""@,
        r.purpose@ == pending_purpose(),
        r.exp == now + PENDING_2FA_TTL_SECS,
{
    claims(sub, "", "2fa", now, PENDING_2FA_TTL_SECS)
}

/// Claims of a token whose signature and time were checked, kept only when
/// the token is of the purpose asked for.
pub fn accept(claims: Claims, purpose: &str) -> (r: Option<Claims>)
    ensures
        claims.purpose@ == purpose@ ==> r == Some(claims),
        claims.purpose@ != purpose@ ==> r is None,
{
    if str_eq(claims.purpose.as_str(), purpose) {
        Some(claims)
    } else {
        None
    }
}

/// How long after its `exp` a token is still taken, for clocks that differ
/// a little (the default leeway of `jsonwebtoken::Validation`).
pub const LEEWAY_SECS: i64 = 60;

/// What a token's claims are, as a tuple of plain values: the id's bits,
/// the role, the purpose and the expiry.
pub open spec fn parts(c: Claims) -> (u128, Seq<char>, Seq<char>, int) {
    (c.sub, c.role@, c.purpose@, c.exp as int)
}

/// The bytes a secret signs with.
pub open spec fn key_bytes(secret: Secret) -> Seq<u8> {
    vstd::utf8::encode_utf8(secret@)
}

/// The claims `jsonwebtoken::decode` reads from `token` when its HS256
/// signature under `secret` checks out, its `exp` is a non-negative integer
/// (a required claim; whether it is past is not checked here), and its
/// payload holds `sub` (an id), `role`, `purpose` (strings) and `exp` (an
/// `i64`); `None` otherwise.
pub uninterp spec fn jwt_hs256_claims(secret: Seq<u8>, token: Seq<char>) -> Option<
    (u128, Seq<char>, Seq<char>, int),
>;

/// `jsonwebtoken::decode` into a `serde_json::Value` with the default
/// validation (HS256, `exp` required) but the expiry not compared with the
/// clock, then the four claims read from the value.
#[verifier::external_body]
fn jwt_decode(secret: &[u8], token: &str) -> (r: Option<(u128, String, String, i64)>)
    ensures
        jwt_hs256_claims(secret@, token@) == match r {
            Some(c) => Some((c.0, c.1@, c.2@, c.3 as int)),
            None => None,
        },
{
    let mut validation = jsonwebtoken::Validation::default();
    validation.validate_exp = false;
    let key = jsonwebtoken::DecodingKey::from_secret(secret);
    let data = jsonwebtoken::decode::<serde_json::Value>(token, &key, &validation).ok()?;
    let sub = serde_json::from_value::<uuid::Uuid>(data.claims["sub"].clone()).ok()?;
    let role = data.claims["role"].as_str()?.to_owned();
    let purpose = data.claims["purpose"].as_str()?.to_owned();
    let exp = data.claims["exp"].as_i64()?;
    Some((sub.as_u128(), role, purpose, exp))
}

/// `jsonwebtoken::encode` with the default header (HS256) of the claims
/// `sub` (the hyphenated id), `role`, `purpose` and `exp`. Signing with HMAC
/// a map of strings and an integer cannot fail, so the empty default is
/// never given. `decode` with the same secret checks the signature it
/// wrote and reads the same claims back, provided `exp` is not negative
/// (a negative one does not read as the required `exp`: `numeric_type`
/// takes only unsigned and non-negative numbers, and the token is refused).
#[verifier::external_body]
fn jwt_encode(secret: &[u8], sub: u128, role: &str, purpose: &str, exp: i64) -> (r: String)
    ensures
        exp >= 0 ==> jwt_hs256_claims(secret@, r@) == Some((sub, role@, purpose@, exp as int)),
        exp < 0 ==> jwt_hs256_claims(secret@, r@) is None,
{
    let claims = std::collections::BTreeMap::from([
        ("sub", serde_json::Value::from(uuid::Uuid::from_u128(sub).to_string())),
        ("role", serde_json::Value::from(role)),
        ("purpose", serde_json::Value::from(purpose)),
        ("exp", serde_json::Value::from(exp)),
    ]);
    let key = jsonwebtoken::EncodingKey::from_secret(secret);
    jsonwebtoken::encode(&jsonwebtoken::Header::default(), &claims, &key).unwrap_or_default()
}

/// `time::OffsetDateTime::now_utc().unix_timestamp()`: the clock in seconds
/// since the epoch. Which second it is is the clock's; it is a date that
/// `time` represents, whose years lie within -999 999 to 999 999, so it is
/// well below 10^14 seconds either side of the epoch.
#[verifier::external_body]
fn now_secs() -> (r: i64)
    ensures
        -100_000_000_000_000 < r < 100_000_000_000_000,
{
    time::OffsetDateTime::now_utc().unix_timestamp()
}

/// The claims a token carries when checked at `now` for `purpose`: signed
/// with `secret`, not expired beyond the leeway, and of that purpose.
pub open spec fn checked_claims(secret: Seq<u8>, token: Seq<char>, purpose: Seq<char>, now: int) -> Option<
    (u128, Seq<char>, Seq<char>, int),
> {
    match jwt_hs256_claims(secret, token) {
        Some(c) => if c.3 + LEEWAY_SECS >= now && c.2 == purpose {
            Some(c)
        } else {
            None
        },
        None => None,
    }
}

/// The token of `claims`, signed with `secret`.
pub fn sign(secret: &Secret, claims: &Claims) -> (r: String)
    ensures
        claims.exp >= 0 ==> jwt_hs256_claims(key_bytes(*secret), r@) == Some(parts(*claims)),
        claims.exp < 0 ==> jwt_hs256_claims(key_bytes(*secret), r@) is None,
{
    jwt_encode(
        secret.as_bytes(),
        claims.sub,
        claims.role.as_str(),
        claims.purpose.as_str(),
        claims.exp,
    )
}

/// The claims of `token` checked at `now` (seconds since the epoch) for
/// `purpose`; `None`: forged, expired, or of another purpose.
pub fn verify_at(secret: &Secret, token: &str, purpose: &str, now: i64) -> (r: Option<Claims>)
    ensures
        match r {
            Some(c) => Some(parts(c)),
            None => None,
        } == checked_claims(key_bytes(*secret), token@, purpose@, now as int),
{
    let (sub, role, p, exp) = match jwt_decode(secret.as_bytes(), token) {
        Some(c) => c,
        None => return None,
    };
    if (exp as i128) + (LEEWAY_SECS as i128) < (now as i128) {
        return None;
    }
    accept(Claims { sub, role, purpose: p, exp }, purpose)
}

/// An access token for `sub` in `role`, made at `now`.
pub fn sign_access_at(secret: &Secret, sub: u128, role: &str, now: i64) -> (r: String)
    requires
        now <= i64::MAX - ACCESS_TTL_SECS,
    ensures
        now + ACCESS_TTL_SECS >= 0 ==> jwt_hs256_claims(key_bytes(*secret), r@) == Some(
            (sub, role@, access_purpose(), now + ACCESS_TTL_SECS),
        ),
        now + ACCESS_TTL_SECS < 0 ==> jwt_hs256_claims(key_bytes(*secret), r@) is None,
{
    let c = access_claims(sub, role, now);
    sign(secret, &c)
}

/// An access token for `sub` in `role`, made now.
pub fn sign_access(secret: &Secret, sub: u128, role: &str) -> (r: String)
    ensures
        jwt_hs256_claims(key_bytes(*secret), r@) matches Some(c) ==> c.0 == sub && c.1 == role@
            && c.2 == access_purpose(),
{
    sign_access_at(secret, sub, role, now_secs())
}

/// The claims of an access token, checked now.
pub fn verify_access(secret: &Secret, token: &str) -> (r: Option<Claims>)
    ensures
        r matches Some(c) ==> jwt_hs256_claims(key_bytes(*secret), token@) == Some(parts(c))
            && c.purpose@ == access_purpose(),
        jwt_hs256_claims(key_bytes(*secret), token@) is None ==> r is None,
        (jwt_hs256_claims(key_bytes(*secret), token@) matches Some(c) && c.2 != access_purpose()) ==> r is None,
{
    let now = now_secs();
    verify_at(secret, token, "access", now)
}

/// The token between the password and the code of the second factor, made
/// at `now`.
pub fn sign_pending_2fa_at(secret: &Secret, sub: u128, now: i64) -> (r: String)
    requires
        now <= i64::MAX - PENDING_2FA_TTL_SECS,
    ensures
        now + PENDING_2FA_TTL_SECS >= 0 ==> jwt_hs256_claims(key_bytes(*secret), r@) == Some(
            (sub, ""@, pending_purpose(), now + PENDING_2FA_TTL_SECS),
        ),
        now + PENDING_2FA_TTL_SECS < 0 ==> jwt_hs256_claims(key_bytes(*secret), r@) is None,
{
    let c = pending_2fa_claims(sub, now);
    sign(secret, &c)
}

/// The token between the password and the code of the second factor, made
/// now.
pub fn sign_pending_2fa(secret: &Secret, sub: u128) -> (r: String)
    ensures
        jwt_hs256_claims(key_bytes(*secret), r@) matches Some(c) ==> c.0 == sub && c.1 == ""@
            && c.2 == pending_purpose(),
{
    sign_pending_2fa_at(secret, sub, now_secs())
}

/// The claims of a pending token of the second factor, checked now.
pub fn verify_pending_2fa(secret: &Secret, token: &str) -> (r: Option<Claims>)
    ensures
        r matches Some(c) ==> jwt_hs256_claims(key_bytes(*secret), token@) == Some(parts(c))
            && c.purpose@ == pending_purpose(),
        jwt_hs256_claims(key_bytes(*secret), token@) is None ==> r is None,
        (jwt_hs256_claims(key_bytes(*secret), token@) matches Some(c) && c.2 != pending_purpose()) ==> r is None,
{
    let now = now_secs();
    verify_at(secret, token, "2fa", now)
}

} // verus!
