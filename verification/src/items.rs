//! The example business entity: records owned by a user. Every query is
//! limited by the owner in SQL; the rules of pages and of titles are here.
use vstd::prelude::*;

use crate::error::{ApiError, STATUS_UNPROCESSABLE};
use crate::text::{chars_of, string_of, trim, trimmed};
use crate::users::Role;

verus! {

pub struct Item {
    pub id: i64,
    pub title: String,
}

/// The page asked for: records after `cursor` (the `next_cursor` of the
/// previous page), `limit` of them.
pub struct ListParams {
    pub cursor: Option<i64>,
    pub limit: Option<i64>,
}

pub struct ItemsPage {
    pub items: Vec<Item>,
    /// there is more: pass this value as the cursor
    pub next_cursor: Option<i64>,
}

pub struct CreateItem {
    pub title: String,
}

pub const DEFAULT_PAGE: i64 = 20;
pub const MAX_PAGE: i64 = 100;

/// The size of a page: 20 by default, at least 1, at most 100.
pub open spec fn page_size(limit: Option<i64>) -> i64 {
    let l = match limit {
        Some(l) => l,
        None => DEFAULT_PAGE,
    };
    if l < 1 {
        1
    } else if l > MAX_PAGE {
        MAX_PAGE
    } else {
        l
    }
}

pub fn page_limit(limit: Option<i64>) -> (r: i64)
    ensures
        r == page_size(limit),
        1 <= r <= MAX_PAGE,
{
    let l = match limit {
        Some(l) => l,
        None => DEFAULT_PAGE,
    };
    if l < 1 {
        1
    } else if l > MAX_PAGE {
        MAX_PAGE
    } else {
        l
    }
}

/// Where a listing starts: after the cursor, or from the newest record.
pub fn start_cursor(cursor: Option<i64>) -> (r: i64)
    ensures
        r == match cursor {
            Some(c) => c,
            None => i64::MAX,
        },
{
    match cursor {
        Some(c) => c,
        None => i64::MAX,
    }
}

/// The page made of the records fetched, of which one more than `limit` is
/// asked for: that one only says whether a next page exists. The page keeps
/// the first `limit` records; the cursor of the next page is the id of the
/// last of them, and there is none when nothing more was fetched.
pub fn page_of(fetched: Vec<Item>, limit: i64) -> (r: ItemsPage)
    requires
        1 <= limit <= MAX_PAGE,
    ensures
        fetched@.len() > limit ==> r.items@ == fetched@.take(limit as int) && r.next_cursor == Some(
            fetched@[limit - 1].id,
        ),
        fetched@.len() <= limit ==> r.items@ == fetched@ && r.next_cursor is None,
{
    let mut items = fetched;
    let cap = limit as usize;
    if items.len() > cap {
        items.truncate(cap);
        assert(items@ =~= fetched@.take(limit as int));
        let last = items[items.len() - 1].id;
        ItemsPage { items, next_cursor: Some(last) }
    } else {
        ItemsPage { items, next_cursor: None }
    }
}

/// The title of a new record: trimmed, and not empty.
pub fn item_title(title: &str) -> (r: Result<String, ApiError>)
    ensures
        trim(title@).len() > 0 ==> (r matches Ok(t) && t@ == trim(title@)),
        trim(title@).len() == 0 ==> (r matches Err(e) && e.status == STATUS_UNPROCESSABLE && e.key@
            == "error-title-empty"@ && e.field == Some("title") && e.args@.len() == 0),
{
    let c = chars_of(title);
    let t = trimmed(c.as_slice());
    if t.len() == 0 {
        return Err(ApiError::validation("error-title-empty").field("title"));
    }
    Ok(string_of(t.as_slice()))
}

/// An administrator deletes any record (moderation); others only their own.
pub fn deletes_any(role: Role) -> (r: bool)
    ensures
        r == (role == Role::Admin),
{
    match role {
        Role::Admin => true,
        Role::User => false,
    }
}

/// Nothing was deleted: someone else's record looks like a missing one.
pub fn deleted_or_not_found(deleted: bool) -> (r: Result<(), ApiError>)
    ensures
        deleted ==> r is Ok,
        !deleted ==> (r matches Err(e) && e.plain(crate::error::STATUS_NOT_FOUND, "error-not-found"@)),
{
    if !deleted {
        return Err(ApiError::not_found());
    }
    Ok(())
}

} // verus!
