//! Login through an outside OAuth2 provider (authorization code). A provider
//! is plugged in by configuration, not by code.
use vstd::prelude::*;

use crate::config::{opt_chars, OauthProvider};
use crate::error::{ApiError, STATUS_UNAUTHORIZED, STATUS_UNPROCESSABLE};
use crate::text::{ascii_lower_seq, ascii_lowercase, chars_of, concat, string_of};
use crate::users::UserRecord;

verus! {

/// The key a provider is configured under: its name in small ASCII letters.
pub fn provider_key(name: &str) -> (r: String)
    ensures
        r@ == ascii_lower_seq(name@),
{
    let c = chars_of(name);
    let l = ascii_lowercase(c.as_slice());
    string_of(l.as_slice())
}

/// "Login through X is not configured".
pub fn not_configured(name: &str) -> (r: ApiError)
    ensures
        r.status == STATUS_UNPROCESSABLE,
        r.key@ == "error-oauth-not-configured"@,
        r.field is None,
        r.args@.len() == 1,
        r.args@[0].0@ == "provider"@,
        r.args@[0].1@ == name@,
{
    ApiError::validation("error-oauth-not-configured").arg("provider", name.to_owned())
}

/// "Login through X failed".
pub fn oauth_failed(name: &str) -> (r: ApiError)
    ensures
        r.status == STATUS_UNAUTHORIZED,
        r.key@ == "error-oauth-failed"@,
        r.field is None,
        r.args@.len() == 1,
        r.args@[0].0@ == "provider"@,
        r.args@[0].1@ == name@,
{
    ApiError::unauthorized("error-oauth-failed").arg("provider", name.to_owned())
}

/// The address the provider sends the user back to:
/// `<public_url>/api/auth/oauth/<provider>/callback`.
pub open spec fn callback_address(public_url: Seq<char>, provider: Seq<char>) -> Seq<char> {
    public_url + "/api/auth/oauth/"@ + provider + "/callback"@
}

/// The address the provider sends the user back to.
pub fn callback_uri(public_url: &str, provider: &str) -> (r: String)
    ensures
        r@ == callback_address(public_url@, provider@),
{
    let a = concat(chars_of(public_url).as_slice(), chars_of("/api/auth/oauth/").as_slice());
    let b = concat(a.as_slice(), chars_of(provider).as_slice());
    let c = concat(b.as_slice(), chars_of("/callback").as_slice());
    string_of(c.as_slice())
}

pub open spec fn pair_views(pairs: Seq<(&str, &str)>) -> Seq<(Seq<char>, Seq<char>)> {
    pairs.map_values(|p: (&str, &str)| (p.0@, p.1@))
}

/// The address `base` with the query pairs appended, form-encoded, as the
/// `url` crate (re-exported by reqwest) writes it; none when `base` does
/// not parse as a URL.
pub uninterp spec fn url_with_query(base: Seq<char>, pairs: Seq<(Seq<char>, Seq<char>)>) -> Option<
    Seq<char>,
>;

/// `reqwest::Url::parse`, then `query_pairs_mut().extend_pairs(..)` and
/// `to_string`: the result is named, not described.
#[verifier::external_body]
fn with_query(base: &str, pairs: &[(&str, &str)]) -> (r: Option<String>)
    ensures
        opt_chars(r) == url_with_query(base@, pair_views(pairs@)),
{
    let mut url = reqwest::Url::parse(base).ok()?;
    url.query_pairs_mut().extend_pairs(pairs.iter());
    Some(url.to_string())
}

/// The query of the consent page: code flow, our client, the way back, the
/// scope and the state that ties the answer to this browser.
pub open spec fn consent_pairs(
    client_id: Seq<char>,
    redirect_uri: Seq<char>,
    scope: Seq<char>,
    state: Seq<char>,
) -> Seq<(Seq<char>, Seq<char>)> {
    seq![
        ("response_type"@, "code"@),
        ("client_id"@, client_id),
        ("redirect_uri"@, redirect_uri),
        ("scope"@, scope),
        ("state"@, state),
    ]
}

/// The consent page of the provider. The consent address was checked to
/// parse when the configuration was read; should it not parse after all,
/// there is nowhere better to send the user, and it is given as it is.
pub fn authorize_url(cfg: &OauthProvider, redirect_uri: &str, state: &str) -> (r: String)
    ensures
        url_with_query(
            cfg.auth_url@,
            consent_pairs(cfg.client_id@, redirect_uri@, cfg.scope@, state@),
        ) matches Some(u) ==> r@ == u,
        url_with_query(
            cfg.auth_url@,
            consent_pairs(cfg.client_id@, redirect_uri@, cfg.scope@, state@),
        ) is None ==> r@ == cfg.auth_url@,
{
    let pairs: [(&str, &str); 5] = [
        ("response_type", "code"),
        ("client_id", cfg.client_id.as_str()),
        ("redirect_uri", redirect_uri),
        ("scope", cfg.scope.as_str()),
        ("state", state),
    ];
    assert(pair_views(pairs@) =~= consent_pairs(
        cfg.client_id@,
        redirect_uri@,
        cfg.scope@,
        state@,
    ));
    match with_query(cfg.auth_url.as_str(), &pairs) {
        Some(u) => u,
        None => cfg.auth_url.clone(),
    }
}

/// The string at `pointer` in the JSON document `json`, as serde_json finds
/// it; none when the text is not JSON, nothing is there, or it is not a
/// string.
pub uninterp spec fn json_string_at(json: Seq<char>, pointer: Seq<char>) -> Option<Seq<char>>;

/// The value at `pointer` in the JSON document `json` as text: a string as
/// it is, any other value as serde_json writes it; none when the text is
/// not JSON or nothing is there.
pub uninterp spec fn json_text_at(json: Seq<char>, pointer: Seq<char>) -> Option<Seq<char>>;

/// `serde_json::from_str` into a `Value`, then `Value::pointer` and
/// `Value::as_str`.
#[verifier::external_body]
fn string_at(json: &str, pointer: &str) -> (r: Option<String>)
    ensures
        opt_chars(r) == json_string_at(json@, pointer@),
{
    let value: serde_json::Value = serde_json::from_str(json).ok()?;
    value.pointer(pointer)?.as_str().map(|s| s.to_owned())
}

/// `serde_json::from_str` into a `Value`, then `Value::pointer`; a string is
/// taken as it is, another value through its `Display`.
#[verifier::external_body]
fn text_at(json: &str, pointer: &str) -> (r: Option<String>)
    ensures
        opt_chars(r) == json_text_at(json@, pointer@),
{
    let value: serde_json::Value = serde_json::from_str(json).ok()?;
    match value.pointer(pointer)? {
        serde_json::Value::String(s) => Some(s.clone()),
        other => Some(other.to_string()),
    }
}

/// The access token in the answer of the token endpoint; without one the
/// login failed.
pub fn access_token_of(provider: &str, token_answer: &str) -> (r: Result<String, ApiError>)
    ensures
        json_string_at(token_answer@, "/access_token"@) matches Some(t) ==> (r matches Ok(s) && s@
            == t),
        json_string_at(token_answer@, "/access_token"@) is None ==> (r matches Err(e) && e.status
            == STATUS_UNAUTHORIZED && e.key@ == "error-oauth-failed"@ && e.field is None
            && e.args@.len() == 1 && e.args@[0].0@ == "provider"@ && e.args@[0].1@ == provider@),
{
    match string_at(token_answer, "/access_token") {
        Some(t) => Ok(t),
        None => Err(oauth_failed(provider)),
    }
}

/// Who the profile answer says the user is: the id at the provider's id
/// pointer (required), and the address at its address pointer, if it has
/// one and a string is there.
pub fn profile_identity(cfg: &OauthProvider, profile: &str) -> (r: Result<
    (String, Option<String>),
    ApiError,
>)
    ensures
        json_text_at(profile@, cfg.id_pointer@) is None ==> (r matches Err(e) && e.status
            == STATUS_UNAUTHORIZED && e.key@ == "error-oauth-failed"@ && e.field is None
            && e.args@.len() == 1 && e.args@[0].0@ == "provider"@ && e.args@[0].1@ == cfg.name@),
        json_text_at(profile@, cfg.id_pointer@) matches Some(id) ==> (r matches Ok(p) && p.0@ == id
            && opt_chars(p.1) == match cfg.email_pointer {
            Some(ptr) => json_string_at(profile@, ptr@),
            None => None,
        }),
{
    let id = match text_at(profile, cfg.id_pointer.as_str()) {
        Some(id) => id,
        None => return Err(oauth_failed(cfg.name.as_str())),
    };
    let email = match &cfg.email_pointer {
        Some(ptr) => string_at(profile, ptr.as_str()),
        None => None,
    };
    Ok((id, email))
}

/// The address of an account made through a provider that does not vouch
/// for addresses: `<provider>.<id>@oauth.local`.
pub open spec fn synthetic_email(provider: Seq<char>, id: Seq<char>) -> Seq<char> {
    provider + "."@ + id + "@oauth.local"@
}

/// The address an account of the provider gets. Only a provider that checks
/// addresses (`trust_email`) may tie a login to an existing account by its
/// address; otherwise a foreign "unchecked" address would steal an account.
pub open spec fn provider_email(
    provider: Seq<char>,
    id: Seq<char>,
    trust_email: bool,
    email: Option<Seq<char>>,
) -> Seq<char> {
    match (trust_email, email) {
        (true, Some(e)) => ascii_lower_seq(e),
        _ => synthetic_email(provider, id),
    }
}

/// The address an account of the provider gets.
pub fn oauth_email(provider: &str, provider_user_id: &str, trust_email: bool, email: Option<&str>) -> (r: String)
    ensures
        r@ == provider_email(
            provider@,
            provider_user_id@,
            trust_email,
            match email {
                Some(e) => Some(e@),
                None => None,
            },
        ),
{
    if trust_email {
        if let Some(e) = email {
            let c = chars_of(e);
            let l = ascii_lowercase(c.as_slice());
            return string_of(l.as_slice());
        }
    }
    let p = chars_of(provider);
    let dot = chars_of(".");
    let id = chars_of(provider_user_id);
    let tail = chars_of("@oauth.local");
    let a = concat(p.as_slice(), dot.as_slice());
    let b = concat(a.as_slice(), id.as_slice());
    let c = concat(b.as_slice(), tail.as_slice());
    string_of(c.as_slice())
}

/// The user an identity of the provider is tied to: an identity whose user
/// is gone answers "unauthorized".
pub fn identity_user(found: Option<UserRecord>) -> (r: Result<UserRecord, ApiError>)
    ensures
        found matches Some(u) ==> r == Ok::<UserRecord, ApiError>(u),
        found is None ==> (r matches Err(e) && e.plain(STATUS_UNAUTHORIZED, "error-unauthorized"@)),
{
    super::require_user(found)
}

} // verus!
