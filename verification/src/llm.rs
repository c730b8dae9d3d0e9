//! Calling the neural network through an OpenAI-compatible API. The call is
//! the app's; the rules around it are here: no key, no calls; a daily cap of
//! tokens; only counters are stored.
use base64::Engine;
use vstd::prelude::*;

use crate::config::Secret;
use crate::text::{chars_of, concat, string_of};

verus! {

/// Daily cap of tokens for the whole service (UTC days).
pub const DAILY_TOKENS_CAP: i64 = 2_000_000;

/// Cap of the model's answer.
pub const MAX_TOKENS: u32 = 4000;

/// How many days counters of calls are kept.
pub const KEEP_CALLS_DAYS: i32 = 30;

/// Why a call did not happen. None of them is the user's or their file's
/// fault, so they do not spend an attempt of parsing.
#[derive(Debug)]
pub enum LlmError {
    /// no key is set: the network is off
    Disabled,
    /// the daily cap of tokens is spent
    Capped,
    /// the provider answered with a status other than 2xx
    Http(u16),
    /// no answer in time
    Timeout,
    /// the model was not reached, or its answer is unreadable
    Transport(String),
}

/// A picture for the model: the bytes as they are, and their type.
pub struct Image<'a> {
    pub bytes: &'a [u8],
    pub mime: &'a str,
}

/// Whether the network is on: it is when a key is set.
pub fn enabled(api_key: &Option<Secret>) -> (r: bool)
    ensures
        r == api_key is Some,
{
    api_key.is_some()
}

/// Whether a call may be made after `spent` tokens today.
pub fn check_cap(api_key: &Option<Secret>, spent: i64) -> (r: Result<(), LlmError>)
    ensures
        api_key is None ==> (r matches Err(e) && e is Disabled),
        api_key is Some && spent >= DAILY_TOKENS_CAP ==> (r matches Err(e) && e is Capped),
        api_key is Some && spent < DAILY_TOKENS_CAP ==> r is Ok,
{
    if api_key.is_none() {
        return Err(LlmError::Disabled);
    }
    if spent >= DAILY_TOKENS_CAP {
        return Err(LlmError::Capped);
    }
    Ok(())
}

/// `s` without the slashes at its end.
pub open spec fn trim_slashes(s: Seq<char>) -> Seq<char>
    decreases s.len(),
{
    if s.len() > 0 && s.last() == '/' {
        trim_slashes(s.drop_last())
    } else {
        s
    }
}

/// The address of the chat completions of a provider.
pub fn completions_url(base_url: &str) -> (r: String)
    ensures
        r@ == trim_slashes(base_url@) + "/chat/completions"@,
{
    let c = chars_of(base_url);
    let mut end: usize = c.len();
    assert(c@.take(end as int) =~= c@);
    while end > 0 && c[end - 1] == '/'
        invariant
            end <= c@.len(),
            trim_slashes(c@) == trim_slashes(c@.take(end as int)),
        decreases end,
    {
        assert(c@.take(end as int).drop_last() =~= c@.take(end - 1));
        end -= 1;
    }
    let base = crate::text::slice_chars(c.as_slice(), 0, end);
    assert(base@ =~= c@.take(end as int));
    let tail = chars_of("/chat/completions");
    let all = concat(base.as_slice(), tail.as_slice());
    string_of(all.as_slice())
}

/// The provider's answer is read only with a 2xx status; any other status
/// is an error that carries it.
pub fn provider_status(status: u16) -> (r: Result<(), LlmError>)
    ensures
        200 <= status < 300 ==> r is Ok,
        !(200 <= status < 300) ==> (r matches Err(LlmError::Http(s)) && s == status),
{
    if 200 <= status && status < 300 {
        Ok(())
    } else {
        Err(LlmError::Http(status))
    }
}

/// A count of tokens as the provider reports it, never below zero.
pub fn counted(tokens: i32) -> (r: i32)
    ensures
        r == if tokens < 0 {
            0
        } else {
            tokens
        },
{
    if tokens < 0 {
        0
    } else {
        tokens
    }
}

/// The text of the answer: the content of the first choice, or nothing.
pub fn first_choice(contents: Vec<String>) -> (r: String)
    ensures
        contents@.len() > 0 ==> r@ == contents@[0]@,
        contents@.len() == 0 ==> r@ == Seq::<char>::empty(),
{
    if contents.len() > 0 {
        contents[0].clone()
    } else {
        String::new()
    }
}

/// The standard base64 text of `bytes`.
pub uninterp spec fn base64_standard(bytes: Seq<u8>) -> Seq<char>;

/// `base64::engine::general_purpose::STANDARD.encode`.
#[verifier::external_body]
fn base64_encode(bytes: &[u8]) -> (r: String)
    ensures
        r@ == base64_standard(bytes@),
{
    base64::engine::general_purpose::STANDARD.encode(bytes)
}

/// A picture inlined as a `data:` address, so that no storage with public
/// links is needed.
pub fn data_url(image: &Image) -> (r: String)
    ensures
        r@ == "data:"@ + image.mime@ + ";base64,"@ + base64_standard(image.bytes@),
{
    let a = chars_of("data:");
    let m = chars_of(image.mime);
    let b = chars_of(";base64,");
    let encoded = base64_encode(image.bytes);
    let d = chars_of(encoded.as_str());
    let am = concat(a.as_slice(), m.as_slice());
    let amb = concat(am.as_slice(), b.as_slice());
    let all = concat(amb.as_slice(), d.as_slice());
    string_of(all.as_slice())
}

} // verus!
