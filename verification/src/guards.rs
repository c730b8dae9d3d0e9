//! Guards in front of the routes: who the request comes from, which origins
//! may call the routes that set cookies, and who may pass.
use vstd::prelude::*;

use crate::auth::jwt::Claims;
use crate::error::{ApiError, STATUS_FORBIDDEN, STATUS_UNAUTHORIZED};
use crate::text::{
    chars_of, slice_chars, split_chars, split_on, starts_with, starts_with_chars, str_eq,
    string_of, trim, trimmed,
};
use crate::users::{role_of, Role};

verus! {

/// Whether `x-forwarded-for` may be believed: only when our own proxy stands
/// in front and appends the address last.
pub open spec fn client_address(
    trust_proxy: bool,
    forwarded: Option<Seq<char>>,
    peer: Option<Seq<char>>,
) -> Seq<char> {
    match (trust_proxy, forwarded) {
        (true, Some(f)) => trim(split_on(f, ',').last()),
        _ => match peer {
            Some(p) => p,
            None => "unknown"@,
        },
    }
}

/// The address a request is counted under: with a trusted proxy, the last
/// address of `x-forwarded-for`; else the address of the connection; else
/// "unknown".
pub fn client_ip(trust_proxy: bool, forwarded: Option<&str>, peer: Option<String>) -> (r: String)
    ensures
        r@ == client_address(
            trust_proxy,
            match forwarded {
                Some(f) => Some(f@),
                None => None,
            },
            match peer {
                Some(p) => Some(p@),
                None => None,
            },
        ),
{
    if trust_proxy {
        if let Some(f) = forwarded {
            let c = chars_of(f);
            let pieces = split_chars(c.as_slice(), ',');
            proof {
                crate::text::lemma_split_on_nonempty(f@, ',');
            }
            let last = trimmed(pieces[pieces.len() - 1].as_slice());
            return string_of(last.as_slice());
        }
    }
    match peer {
        Some(p) => p,
        None => "unknown".to_owned(),
    }
}

/// How often stale counters are thrown away: once per this many requests.
pub const CLEANUP_EVERY: u32 = 1024;

/// Whether the request with this number is the one to throw stale counters
/// away.
pub fn cleanup_due(request_number: u32) -> (r: bool)
    ensures
        r == (request_number % CLEANUP_EVERY == 0),
{
    request_number % CLEANUP_EVERY == 0
}

/// `s` without the slashes at its end.
pub open spec fn without_trailing_slashes(s: Seq<char>) -> Seq<char>
    decreases s.len(),
{
    if s.len() > 0 && s.last() == '/' {
        without_trailing_slashes(s.drop_last())
    } else {
        s
    }
}

/// The origins that may call the routes which set cookies: the app's own
/// address without trailing slashes, then the CORS origins.
pub open spec fn origin_list(public_url: Seq<char>, cors_origins: Seq<Seq<char>>) -> Seq<Seq<char>> {
    seq![without_trailing_slashes(public_url)] + cors_origins
}

/// The origins that may call the routes which set cookies: the app's own
/// address without trailing slashes, and the CORS origins.
pub fn allowed_origins(public_url: &str, cors_origins: &Vec<String>) -> (r: Vec<String>)
    ensures
        string_views(r@) == origin_list(public_url@, string_views(cors_origins@)),
        r@.len() == cors_origins@.len() + 1,
        r@[0]@ == without_trailing_slashes(public_url@),
        forall|k: int| 0 <= k < cors_origins@.len() ==> #[trigger] r@[k + 1]@ == cors_origins@[k]@,
{
    let c = chars_of(public_url);
    let mut end: usize = c.len();
    assert(c@.take(end as int) =~= c@);
    while end > 0 && c[end - 1] == '/'
        invariant
            end <= c@.len(),
            without_trailing_slashes(c@) == without_trailing_slashes(c@.take(end as int)),
        decreases end,
    {
        assert(c@.take(end as int).drop_last() =~= c@.take(end - 1));
        end -= 1;
    }
    assert(c@.take(c@.len() as int) =~= c@);
    let base = slice_chars(c.as_slice(), 0, end);
    assert(base@ =~= c@.take(end as int));
    let mut out: Vec<String> = Vec::new();
    out.push(string_of(base.as_slice()));
    let mut i: usize = 0;
    while i < cors_origins.len()
        invariant
            i <= cors_origins@.len(),
            out@.len() == i + 1,
            out@[0]@ == without_trailing_slashes(public_url@),
            forall|k: int| 0 <= k < i ==> #[trigger] out@[k + 1]@ == cors_origins@[k]@,
        decreases cors_origins@.len() - i,
    {
        out.push(cors_origins[i].clone());
        i += 1;
    }
    assert forall|k: int| 0 <= k < out@.len() implies #[trigger] string_views(out@)[k]
        == origin_list(public_url@, string_views(cors_origins@))[k] by {
        if k > 0 {
            let j = k - 1;
            assert(out@[j + 1]@ == cors_origins@[j]@);
        }
    }
    assert(string_views(out@) =~= origin_list(public_url@, string_views(cors_origins@)));
    out
}

/// A request from a browser on a foreign site is refused; a request without
/// an `Origin` is not from a browser, and passes.
pub open spec fn origin_passes(allowed: Seq<Seq<char>>, origin: Option<Seq<char>>) -> bool {
    match origin {
        Some(o) => allowed.contains(o),
        None => true,
    }
}

pub open spec fn string_views(v: Seq<String>) -> Seq<Seq<char>> {
    v.map_values(|s: String| s@)
}

/// Whether a request with this `Origin` may pass.
pub fn origin_allowed(allowed: &Vec<String>, origin: Option<&str>) -> (r: bool)
    ensures
        r == origin_passes(
            string_views(allowed@),
            match origin {
                Some(o) => Some(o@),
                None => None,
            },
        ),
{
    let o = match origin {
        Some(o) => o,
        None => return true,
    };
    let ghost views = string_views(allowed@);
    let mut i: usize = 0;
    while i < allowed.len()
        invariant
            i <= allowed@.len(),
            views == string_views(allowed@),
            origin == Some(o),
            forall|k: int| 0 <= k < i ==> #[trigger] views[k] != o@,
        decreases allowed@.len() - i,
    {
        if str_eq(allowed[i].as_str(), o) {
            assert(views[i as int] == o@);
            assert(views.contains(o@));
            return true;
        }
        i += 1;
    }
    false
}

/// The token of an `Authorization: Bearer <token>` header.
pub open spec fn bearer_of(header: Option<Seq<char>>) -> Option<Seq<char>> {
    match header {
        Some(h) => if starts_with(h, "Bearer "@) {
            Some(h.skip(7))
        } else {
            None
        },
        None => None,
    }
}

/// The token of the `Authorization` header, or "unauthorized".
pub fn bearer_token(header: Option<&str>) -> (r: Result<String, ApiError>)
    ensures
        bearer_of(
            match header {
                Some(h) => Some(h@),
                None => None,
            },
        ) matches Some(t) ==> (r matches Ok(s) && s@ == t),
        bearer_of(
            match header {
                Some(h) => Some(h@),
                None => None,
            },
        ) is None ==> (r matches Err(e) && e.plain(STATUS_UNAUTHORIZED, "error-unauthorized"@)),
{
    let h = match header {
        Some(h) => h,
        None => return Err(ApiError::unauthorized("error-unauthorized")),
    };
    let c = chars_of(h);
    let prefix = chars_of("Bearer ");
    proof {
        reveal_strlit("Bearer ");
    }
    if !starts_with_chars(c.as_slice(), prefix.as_slice()) {
        return Err(ApiError::unauthorized("error-unauthorized"));
    }
    let t = slice_chars(c.as_slice(), 7, c.len());
    assert(t@ =~= h@.skip(7));
    Ok(string_of(t.as_slice()))
}

/// The verified access token of a request: who it is and in which role.
#[derive(Debug)]
pub struct CurrentUser {
    /// the user's id, its 128 bits
    pub id: u128,
    pub role: Role,
}

/// The user of a request, from the claims of its access token once the
/// signature and the purpose were checked; "unauthorized" without them.
pub fn current_user(claims: Option<Claims>) -> (r: Result<CurrentUser, ApiError>)
    ensures
        claims matches Some(c) ==> (r matches Ok(u) && u.id == c.sub && u.role == role_of(c.role@)),
        claims is None ==> (r matches Err(e) && e.plain(STATUS_UNAUTHORIZED, "error-unauthorized"@)),
{
    match claims {
        Some(c) => Ok(CurrentUser { id: c.sub, role: Role::parse(c.role.as_str()) }),
        None => Err(ApiError::unauthorized("error-unauthorized")),
    }
}

/// Only an administrator passes.
pub fn require_admin(user: &CurrentUser) -> (r: Result<(), ApiError>)
    ensures
        user.role == Role::Admin ==> r is Ok,
        user.role != Role::Admin ==> (r matches Err(e) && e.plain(STATUS_FORBIDDEN, "error-forbidden"@)),
{
    if user.role != Role::Admin {
        return Err(ApiError::forbidden());
    }
    Ok(())
}

} // verus!
