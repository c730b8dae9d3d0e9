//! The queue of estimates to parse. The queue lives in the table of
//! estimates; the loop that claims and runs them is the app's, the decisions
//! are here.
use vstd::prelude::*;

use super::is_photo;
use super::is_photo_ext;

verus! {

/// How many times parsing is tried before giving up.
pub const MAX_ATTEMPTS: i32 = 3;

/// After how many minutes "parsing" counts as stuck and is taken again.
pub const STALE_AFTER_MINUTES: i32 = 10;

/// After how many hours we give up for good.
pub const GIVE_UP_AFTER_HOURS: i32 = 24;

/// How many estimates one tick parses.
pub const BATCH: usize = 5;

/// What becomes of an estimate whose parsing failed through no fault of the
/// file (disk, database).
#[derive(PartialEq, Eq, Structural, Debug)]
pub enum AfterFailure {
    /// back to the queue: attempts are left
    Requeue,
    /// attempts are spent: failed, with the key given
    MarkFailed,
}

/// Attempts are left while fewer than `MAX_ATTEMPTS` were made.
pub fn after_failure(attempts: i32) -> (r: AfterFailure)
    ensures
        attempts >= MAX_ATTEMPTS ==> r == AfterFailure::MarkFailed,
        attempts < MAX_ATTEMPTS ==> r == AfterFailure::Requeue,
{
    if attempts >= MAX_ATTEMPTS {
        AfterFailure::MarkFailed
    } else {
        AfterFailure::Requeue
    }
}

/// Whether the tick claims another estimate after `done` of them, the last
/// of which had the extension `last_ext`: a photo is a call of a minute, so
/// one per tick, lest a pack of photos hold up every Excel estimate.
pub fn claim_another(done: usize, last_ext: Option<&str>) -> (r: bool)
    ensures
        r == (done < BATCH && match last_ext {
            Some(e) => !is_photo_ext(e@),
            None => true,
        }),
{
    if done >= BATCH {
        return false;
    }
    match last_ext {
        Some(e) => !is_photo(e),
        None => true,
    }
}

/// The attempts an estimate keeps when the provider, not the file, failed:
/// the attempt is given back, never below zero.
pub fn attempts_given_back(attempts: i32) -> (r: i32)
    ensures
        r == if attempts - 1 > 0 {
            attempts - 1
        } else {
            0
        },
{
    if attempts > 1 {
        attempts - 1
    } else {
        0
    }
}

} // verus!
