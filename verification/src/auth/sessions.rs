//! Sessions of a user: a pair of tokens, rotation of the refresh token, the
//! list of active sessions and their revocation.
use vstd::prelude::*;
use vstd::string::StringSliceAdditionalSpecFns;

use super::hash_token;
use crate::crypto::sha256_of;
use crate::dates::{rfc3339, rfc3339_or_empty};
use crate::error::{ApiError, STATUS_UNAUTHORIZED};
use crate::text::{chars_of, concat, contains, contains_chars, string_of};

verus! {

pub const REFRESH_TTL_DAYS: i64 = 30;

pub struct Session {
    pub access_token: String,
    pub refresh_token: String,
}

/// Browsers, in the order they are recognised: Edge also calls itself
/// Chrome, and Chrome also calls itself Safari.
pub open spec fn browsers() -> Seq<(&'static str, &'static str)> {
    seq![("Firefox", "Firefox"), ("Edg", "Edge"), ("Chrome", "Chrome"), ("Safari", "Safari")]
}

/// Systems, in the order they are recognised.
pub open spec fn systems() -> Seq<(&'static str, &'static str)> {
    seq![
        ("Windows", "Windows"),
        ("Android", "Android"),
        ("iPhone", "iOS"),
        ("iPad", "iOS"),
        ("Mac OS", "macOS"),
        ("Linux", "Linux"),
    ]
}

/// The name of the first entry of `table`, from `k` on, whose needle the
/// user agent holds.
pub open spec fn first_named(ua: Seq<char>, table: Seq<(&'static str, &'static str)>, k: int) -> Option<
    Seq<char>,
>
    decreases table.len() - k,
{
    if k < 0 || k >= table.len() {
        None
    } else if contains(ua, table[k].0@) {
        Some(table[k].1@)
    } else {
        first_named(ua, table, k + 1)
    }
}

/// A short description of a client: "Chrome, macOS", one of the two when
/// only one is recognised, nothing when neither is.
pub open spec fn client_description(ua: Seq<char>) -> Option<Seq<char>> {
    match (first_named(ua, browsers(), 0), first_named(ua, systems(), 0)) {
        (Some(b), Some(o)) => Some(b + ", "@ + o),
        (Some(x), None) => Some(x),
        (None, Some(x)) => Some(x),
        (None, None) => None,
    }
}

fn pick(ua: &[char], table: &[(&'static str, &'static str)]) -> (r: Option<Vec<char>>)
    ensures
        r matches Some(v) ==> first_named(ua@, table@, 0) == Some(v@),
        r is None ==> first_named(ua@, table@, 0) is None,
{
    let mut k: usize = table.len();
    let mut found: Option<Vec<char>> = None;
    while k > 0
        invariant
            k <= table@.len(),
            found matches Some(v) ==> first_named(ua@, table@, k as int) == Some(v@),
            found is None ==> first_named(ua@, table@, k as int) is None,
        decreases k,
    {
        k -= 1;
        let (needle, name) = table[k];
        let n = chars_of(needle);
        if contains_chars(ua, n.as_slice()) {
            found = Some(chars_of(name));
        }
    }
    found
}

/// A short description of the client for the list of sessions. The raw
/// User-Agent is not stored: it says more than needed.
pub fn describe_client(user_agent: &str) -> (r: Option<String>)
    ensures
        r matches Some(s) ==> client_description(user_agent@) == Some(s@),
        r is None ==> client_description(user_agent@) is None,
{
    let browser_table: [(&'static str, &'static str); 4] = [
        ("Firefox", "Firefox"),
        ("Edg", "Edge"),
        ("Chrome", "Chrome"),
        ("Safari", "Safari"),
    ];
    let system_table: [(&'static str, &'static str); 6] = [
        ("Windows", "Windows"),
        ("Android", "Android"),
        ("iPhone", "iOS"),
        ("iPad", "iOS"),
        ("Mac OS", "macOS"),
        ("Linux", "Linux"),
    ];
    assert(browser_table@ =~= browsers());
    assert(system_table@ =~= systems());
    let ua = chars_of(user_agent);
    let browser = pick(ua.as_slice(), &browser_table);
    let os = pick(ua.as_slice(), &system_table);
    match (browser, os) {
        (Some(b), Some(o)) => {
            let sep = chars_of(", ");
            let bs = concat(b.as_slice(), sep.as_slice());
            let all = concat(bs.as_slice(), o.as_slice());
            Some(string_of(all.as_slice()))
        },
        (Some(one), None) => Some(string_of(one.as_slice())),
        (None, Some(one)) => Some(string_of(one.as_slice())),
        (None, None) => None,
    }
}

/// The client a rotated session keeps: the one of the new request if it
/// introduced itself, else the one the session had.
pub fn rotated_client(new_client: Option<&str>, old_client: Option<String>) -> (r: Option<String>)
    ensures
        new_client matches Some(c) ==> (r matches Some(s) && s@ == c@),
        new_client is None ==> r == old_client,
{
    match new_client {
        Some(c) => Some(c.to_owned()),
        None => old_client,
    }
}

/// A live refresh token of a user, as stored; times in nanoseconds since
/// the epoch.
pub struct SessionRow {
    pub session_id: uuid::Uuid,
    pub started_at: i128,
    /// when the live row was issued: when the session was last used
    pub created_at: i128,
    pub client: Option<String>,
    pub token_hash: Vec<u8>,
}

/// A session as the user sees it.
pub struct SessionInfo {
    pub id: uuid::Uuid,
    /// when the user logged in
    pub created_at: String,
    /// when the session was last used
    pub last_seen_at: String,
    /// "Chrome, macOS", if the client introduced itself
    pub client: Option<String>,
    /// this session is the one the request came from
    pub current: bool,
}

/// The session of `row` as the user sees it, given the hash of the token
/// the request carries.
pub open spec fn info_of(row: SessionRow, current_hash: Option<Seq<u8>>) -> (
    uuid::Uuid,
    Seq<char>,
    Seq<char>,
    Option<String>,
    bool,
) {
    (
        row.session_id,
        rfc3339_or_empty(row.started_at as int),
        rfc3339_or_empty(row.created_at as int),
        row.client,
        current_hash == Some(row.token_hash@),
    )
}

impl SessionInfo {
    pub open spec fn parts(self) -> (uuid::Uuid, Seq<char>, Seq<char>, Option<String>, bool) {
        (self.id, self.created_at@, self.last_seen_at@, self.client, self.current)
    }
}

fn same_bytes(a: &[u8], b: &[u8]) -> (r: bool)
    ensures
        r == (a@ == b@),
{
    if a.len() != b.len() {
        return false;
    }
    let mut i: usize = 0;
    while i < a.len()
        invariant
            a@.len() == b@.len(),
            i <= a@.len(),
            forall|j: int| 0 <= j < i ==> a@[j] == b@[j],
        decreases a@.len() - i,
    {
        if a[i] != b[i] {
            return false;
        }
        i += 1;
    }
    assert(a@ =~= b@);
    true
}

/// The active sessions of a user, in the order of the rows, each marked
/// `current` when its token is the one the request carries.
pub fn session_infos(rows: Vec<SessionRow>, current_raw: Option<&str>) -> (r: Vec<SessionInfo>)
    ensures
        r@.len() == rows@.len(),
        forall|k: int|
            0 <= k < r@.len() ==> #[trigger] r@[k].parts() == info_of(
                rows@[k],
                match current_raw {
                    Some(raw) => Some(sha256_of(raw.spec_bytes())),
                    None => None,
                },
            ),
{
    let ghost current_hash = match current_raw {
        Some(raw) => Some(sha256_of(raw.spec_bytes())),
        None => None,
    };
    let hash: Option<Vec<u8>> = match current_raw {
        Some(raw) => Some(hash_token(raw.as_bytes())),
        None => None,
    };
    let mut out: Vec<SessionInfo> = Vec::new();
    let mut rest = rows;
    let ghost all = rest@;
    assert(all.len() == rest.len());
    let mut i: usize = 0;
    while rest.len() > 0
        invariant
            i + rest@.len() == all.len(),
            all.len() <= usize::MAX,
            out@.len() == i,
            rest@ == all.skip(i as int),
            hash matches Some(h) ==> current_hash == Some(h@),
            hash is None ==> current_hash is None,
            forall|k: int| 0 <= k < i ==> #[trigger] out@[k].parts() == info_of(all[k], current_hash),
        decreases rest@.len(),
    {
        let row = rest.remove(0);
        assert(row == all[i as int]);
        assert(rest@ =~= all.skip(i + 1));
        let current = match &hash {
            Some(h) => same_bytes(h.as_slice(), row.token_hash.as_slice()),
            None => false,
        };
        out.push(
            SessionInfo {
                id: row.session_id,
                created_at: rfc3339(row.started_at),
                last_seen_at: rfc3339(row.created_at),
                client: row.client,
                current,
            },
        );
        i += 1;
    }
    out
}

/// The session of the token a request carries, when it is live and the
/// user's; otherwise "unauthorized" (nothing is revoked then).
pub fn current_session(found: Option<uuid::Uuid>) -> (r: Result<uuid::Uuid, ApiError>)
    ensures
        found matches Some(id) ==> r == Ok::<uuid::Uuid, ApiError>(id),
        found is None ==> (r matches Err(e) && e.plain(STATUS_UNAUTHORIZED, "error-unauthorized"@)),
{
    match found {
        Some(id) => Ok(id),
        None => Err(ApiError::unauthorized("error-unauthorized")),
    }
}

} // verus!
