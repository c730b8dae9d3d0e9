//! Operator commands: what sometimes has to be done by hand on the server.
use vstd::prelude::*;

use crate::text::{chars_of, str_eq};

verus! {

/// A command of the operator's tool.
pub enum Command {
    /// check that the configuration reads and is valid
    ConfigCheck,
    /// give a user the role of administrator
    PromoteAdmin(String),
    /// letters that stopped being sent
    OutboxListFailed,
    /// put a letter back into the queue (its id, as typed)
    OutboxRetry(String),
    /// anything else: print the usage
    Usage,
}

/// The command of the operator's arguments.
pub fn parse_command(args: &Vec<String>) -> (r: Command)
    ensures
        args@.len() == 2 && args@[0]@ == "config"@ && args@[1]@ == "check"@ ==> r is ConfigCheck,
        args@.len() == 2 && args@[0]@ == "promote-admin"@ ==> (r matches Command::PromoteAdmin(e) && e@
            == args@[1]@),
        args@.len() == 2 && args@[0]@ == "outbox"@ && args@[1]@ == "list-failed"@ ==> r is OutboxListFailed,
        args@.len() == 3 && args@[0]@ == "outbox"@ && args@[1]@ == "retry"@ ==> (r matches Command::OutboxRetry(
            id,
        ) && id@ == args@[2]@),
        r is ConfigCheck ==> args@.len() == 2 && args@[0]@ == "config"@ && args@[1]@ == "check"@,
        r is PromoteAdmin ==> args@.len() == 2 && args@[0]@ == "promote-admin"@,
        r is OutboxListFailed ==> args@.len() == 2 && args@[0]@ == "outbox"@ && args@[1]@
            == "list-failed"@,
        r is OutboxRetry ==> args@.len() == 3 && args@[0]@ == "outbox"@ && args@[1]@ == "retry"@,
        r is Usage ==> !(args@.len() == 2 && args@[0]@ == "config"@ && args@[1]@ == "check"@) && !(
        args@.len() == 2 && args@[0]@ == "promote-admin"@) && !(args@.len() == 2 && args@[0]@
            == "outbox"@ && args@[1]@ == "list-failed"@) && !(args@.len() == 3 && args@[0]@
            == "outbox"@ && args@[1]@ == "retry"@),
{
    proof {
        reveal_strlit("config");
        reveal_strlit("promote-admin");
        reveal_strlit("outbox");
        assert("config"@[0] == 'c' && "outbox"@[0] == 'o' && "promote-admin"@[0] == 'p');
        assert("config"@ != "outbox"@ && "config"@ != "promote-admin"@ && "outbox"@
            != "promote-admin"@);
    }
    if args.len() == 2 {
        if str_eq(args[0].as_str(), "config") && str_eq(args[1].as_str(), "check") {
            return Command::ConfigCheck;
        }
        if str_eq(args[0].as_str(), "promote-admin") {
            return Command::PromoteAdmin(args[1].clone());
        }
        if str_eq(args[0].as_str(), "outbox") && str_eq(args[1].as_str(), "list-failed") {
            return Command::OutboxListFailed;
        }
    }
    if args.len() == 3 {
        if str_eq(args[0].as_str(), "outbox") && str_eq(args[1].as_str(), "retry") {
            return Command::OutboxRetry(args[2].clone());
        }
    }
    Command::Usage
}

/// The value of a run of decimal digits.
pub open spec fn digits_value(s: Seq<char>) -> int
    decreases s.len(),
{
    if s.len() == 0 {
        0
    } else {
        digits_value(s.drop_last()) * 10 + (s.last() as int - '0' as int)
    }
}

/// `s` is one or more ASCII digits.
pub open spec fn all_digits(s: Seq<char>) -> bool {
    s.len() > 0 && forall|i: int| 0 <= i < s.len() ==> '0' <= #[trigger] s[i] <= '9'
}

/// The number `s` writes the way `i64`'s `FromStr` reads it: an optional
/// `+` or `-`, then one or more ASCII digits, nothing else, and a value
/// that fits in an `i64`.
pub open spec fn i64_text(s: Seq<char>) -> Option<int> {
    let negative = s.len() > 0 && s[0] == '-';
    let signed = s.len() > 0 && (s[0] == '-' || s[0] == '+');
    let rest = if signed {
        s.skip(1)
    } else {
        s
    };
    let v = if negative {
        -digits_value(rest)
    } else {
        digits_value(rest)
    };
    if all_digits(rest) && i64::MIN <= v <= i64::MAX {
        Some(v)
    } else {
        None
    }
}

/// The id of a letter as the operator typed it; `None` when it is not a
/// number that fits in an `i64`.
pub fn letter_id(text: &str) -> (r: Option<i64>)
    ensures
        match r {
            Some(v) => Some(v as int),
            None => None,
        } == i64_text(text@),
{
    let c = chars_of(text);
    let n = c.len();
    let negative = n > 0 && c[0] == '-';
    let signed = n > 0 && (c[0] == '-' || c[0] == '+');
    let start: usize = if signed { 1 } else { 0 };
    let ghost rest = if signed { c@.skip(1) } else { c@ };
    if start >= n {
        return None;
    }
    let big: u128 = 0x1_0000_0000_0000_0000;
    let mut acc: u128 = 0;
    let mut i: usize = start;
    while i < n
        invariant
            start <= i <= n,
            n == c@.len(),
            n > start,
            rest == c@.skip(start as int),
            c@ == text@,
            rest == (if c@.len() > 0 && (c@[0] == '-' || c@[0] == '+') {
                c@.skip(1)
            } else {
                c@
            }),
            big == 0x1_0000_0000_0000_0000u128,
            forall|j: int| start <= j < i ==> '0' <= #[trigger] c@[j] <= '9',
            acc as int == if digits_value(rest.take(i - start)) < big {
                digits_value(rest.take(i - start))
            } else {
                big as int
            },
        decreases n - i,
    {
        let d = c[i];
        if !('0' <= d && d <= '9') {
            proof {
                assert(rest[i - start] == d);
            }
            return None;
        }
        proof {
            assert(rest.take(i - start + 1).drop_last() =~= rest.take(i - start));
            assert(rest.take(i - start + 1).last() == d);
        }
        let next = acc * 10 + ((d as u32) - ('0' as u32)) as u128;
        acc = if next < big { next } else { big };
        i += 1;
    }
    proof {
        assert(rest.take(n - start) =~= rest);
        assert forall|j: int| 0 <= j < rest.len() implies '0' <= #[trigger] rest[j] <= '9' by {
            assert(rest[j] == c@[j + start]);
        }
    }
    if negative {
        if acc <= 0x8000_0000_0000_0000 {
            Some((0 - (acc as i128)) as i64)
        } else {
            None
        }
    } else if acc <= 0x7FFF_FFFF_FFFF_FFFF {
        Some(acc as i64)
    } else {
        None
    }
}

} // verus!
