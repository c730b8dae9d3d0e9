//! Background jobs on Postgres: delivery of the outbox by SMTP and periodic
//! cleanup. The loop and the calls are the app's; the rules are here.
use vstd::prelude::*;

verus! {

pub const MAX_SEND_ATTEMPTS: i32 = 5;

/// Once an hour at a tick of five seconds.
pub const CLEANUP_EVERY_TICKS: u32 = 720;

/// How many days sent letters are kept.
pub const KEEP_SENT_DAYS: i32 = 30;

/// How many letters one pass takes.
pub const OUTBOX_BATCH: i64 = 20;

/// Whether cleanup runs at this tick.
pub fn cleanup_due(tick: u32) -> (r: bool)
    ensures
        r == (tick % CLEANUP_EVERY_TICKS == 0),
{
    tick % CLEANUP_EVERY_TICKS == 0
}

/// The next tick: the counter wraps around.
pub fn next_tick(tick: u32) -> (r: u32)
    ensures
        r == (if tick == u32::MAX {
            0
        } else {
            tick + 1
        }),
{
    if tick == u32::MAX {
        0
    } else {
        tick + 1
    }
}

/// What becomes of a letter after one try.
#[derive(PartialEq, Eq, Structural, Debug)]
pub enum Delivery {
    /// sent: marked so
    Sent,
    /// the send failed: one more attempt counted, it will be retried
    Retry,
    /// the address does not parse: repeats will not mend it, all attempts
    /// are burnt at once
    Drop,
}

/// Whether a letter can be addressed to `recipient`: it parses as a mailbox.
/// A letter whose recipient does not is dropped without a try.
pub fn recipient_ok(recipient: &str) -> (r: bool)
    ensures
        r == crate::config::mailbox_parses(recipient@),
{
    crate::config::mailbox_valid(recipient)
}

/// The outcome of one letter: a bad address is dropped, otherwise the send
/// decides.
pub fn delivery(address_ok: bool, sent: bool) -> (r: Delivery)
    ensures
        !address_ok ==> r == Delivery::Drop,
        address_ok && sent ==> r == Delivery::Sent,
        address_ok && !sent ==> r == Delivery::Retry,
{
    if !address_ok {
        Delivery::Drop
    } else if sent {
        Delivery::Sent
    } else {
        Delivery::Retry
    }
}

/// A letter that spent its attempts and is no longer taken.
pub struct FailedEmail {
    pub id: i64,
    pub recipient: String,
    pub subject: String,
    pub attempts: i32,
}

} // verus!
