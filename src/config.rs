//! Settings read from the store, with their defaults, and the retry policy for
//! the store connection at startup.

use vstd::prelude::*;
use vstd::string::*;

verus! {

pub open spec fn is_digit(c: char) -> bool {
    '0' <= c <= '9'
}

pub open spec fn all_digits(s: Seq<char>) -> bool {
    s.len() > 0 && forall|i: int| 0 <= i < s.len() ==> #[trigger] is_digit(s[i])
}

/// The value of a run of decimal digits.
pub open spec fn digits_value(s: Seq<char>) -> int
    decreases s.len(),
{
    if s.len() == 0 {
        0
    } else {
        digits_value(s.drop_last()) * 10 + (s.last() as int - '0' as int)
    }
}

/// The integer that decimal text with an optional `+` or `-` sign denotes.
pub open spec fn signed_decimal(s: Seq<char>) -> Option<int> {
    if s.len() > 0 && (s[0] == '-' || s[0] == '+') {
        if all_digits(s.drop_first()) {
            Some(if s[0] == '-' { -digits_value(s.drop_first()) } else { digits_value(s.drop_first()) })
        } else {
            None
        }
    } else if all_digits(s) {
        Some(digits_value(s))
    } else {
        None
    }
}

/// What `str::parse::<i64>` gives.
pub open spec fn i64_of(s: Seq<char>) -> Option<i64> {
    match signed_decimal(s) {
        Some(v) => if i64::MIN <= v <= i64::MAX {
            Some(v as i64)
        } else {
            None
        },
        None => None,
    }
}

/// What `str::parse::<u64>` gives: a `-` sign is refused.
pub open spec fn u64_of(s: Seq<char>) -> Option<u64> {
    match signed_decimal(s) {
        Some(v) => if s[0] != '-' && 0 <= v <= u64::MAX {
            Some(v as u64)
        } else {
            None
        },
        None => None,
    }
}

proof fn lemma_digits_value_grows(s: Seq<char>, i: int, j: int)
    requires
        0 <= i <= j <= s.len(),
        forall|k: int| 0 <= k < s.len() ==> #[trigger] is_digit(s[k]),
    ensures
        0 <= digits_value(s.subrange(0, i)) <= digits_value(s.subrange(0, j)),
    decreases j,
{
    if j > 0 {
        assert(s.subrange(0, j).drop_last() =~= s.subrange(0, j - 1));
        assert(is_digit(s[j - 1]));
        if i < j {
            lemma_digits_value_grows(s, i, j - 1);
        } else {
            lemma_digits_value_grows(s, j - 1, j - 1);
        }
    } else {
        assert(s.subrange(0, 0) =~= Seq::<char>::empty());
    }
}

/// The value of the text from `start` on, read as decimal digits, when it is
/// a non-empty run of digits whose value is at most `limit`.
fn digits_up_to(s: &str, start: usize, limit: u64) -> (r: Option<u64>)
    requires
        start <= s@.len(),
    ensures
        r is Some <==> all_digits(s@.subrange(start as int, s@.len() as int)) && digits_value(
            s@.subrange(start as int, s@.len() as int),
        ) <= limit,
        r matches Some(v) ==> v as int == digits_value(s@.subrange(start as int, s@.len() as int)),
{
    let n = s.unicode_len();
    let ghost d = s@.subrange(start as int, n as int);
    if start == n {
        return None;
    }
    let mut i: usize = start;
    while i < n
        invariant
            n == s@.len(),
            start <= i <= n,
            d == s@.subrange(start as int, n as int),
            forall|k: int| 0 <= k < i - start ==> #[trigger] is_digit(d[k]),
        decreases n - i,
    {
        let c = s.get_char(i);
        if !('0' <= c && c <= '9') {
            assert(!is_digit(d[i - start]));
            return None;
        }
        i = i + 1;
    }
    let mut acc: u64 = 0;
    let mut i: usize = start;
    proof {
        assert(d.subrange(0, 0) =~= Seq::<char>::empty());
    }
    while i < n
        invariant
            n == s@.len(),
            start <= i <= n,
            d == s@.subrange(start as int, n as int),
            forall|k: int| 0 <= k < d.len() ==> #[trigger] is_digit(d[k]),
            acc == digits_value(d.subrange(0, i - start)),
            acc <= limit,
        decreases n - i,
    {
        let c = s.get_char(i);
        proof {
            assert(c == d[i - start]);
            assert(is_digit(d[i - start]));
        }
        let digit = (c as u32 - '0' as u32) as u64;
        proof {
            assert(d.subrange(0, i - start + 1).drop_last() =~= d.subrange(0, i - start));
        }
        let next: u128 = acc as u128 * 10 + digit as u128;
        if next > limit as u128 {
            proof {
                lemma_digits_value_grows(d, i - start + 1, d.len() as int);
                assert(d.subrange(0, d.len() as int) =~= d);
            }
            return None;
        }
        acc = next as u64;
        i = i + 1;
    }
    proof {
        assert(d.subrange(0, n - start) =~= d);
    }
    Some(acc)
}

/// Reads an `i64` as `str::parse::<i64>` does: an optional sign followed by
/// decimal digits, with a value in range.
pub fn parse_i64(s: &str) -> (r: Option<i64>)
    ensures
        r == i64_of(s@),
{
    let n = s.unicode_len();
    if n == 0 {
        return None;
    }
    let c = s.get_char(0);
    let negative = c == '-';
    let start: usize = if c == '-' || c == '+' { 1 } else { 0 };
    proof {
        assert(s@.drop_first() =~= s@.subrange(1, n as int));
        assert(s@.subrange(0, n as int) =~= s@);
    }
    let limit: u64 = if negative { 0x8000_0000_0000_0000 } else { 0x7fff_ffff_ffff_ffff };
    let r = digits_up_to(s, start, limit);
    proof {
        let d = s@.subrange(start as int, n as int);
        if start == 1 {
            assert(d == s@.drop_first());
        } else {
            assert(d == s@);
        }
    }
    match r {
        Some(v) => if negative {
            if v == 0x8000_0000_0000_0000 {
                Some(i64::MIN)
            } else {
                Some(-(v as i64))
            }
        } else {
            Some(v as i64)
        },
        None => None,
    }
}

/// Reads a `u64` as `str::parse::<u64>` does: an optional `+` followed by
/// decimal digits, with a value in range.
pub fn parse_u64(s: &str) -> (r: Option<u64>)
    ensures
        r == u64_of(s@),
{
    let n = s.unicode_len();
    if n == 0 {
        return None;
    }
    let c = s.get_char(0);
    if c == '-' {
        return None;
    }
    let start: usize = if c == '+' { 1 } else { 0 };
    proof {
        assert(s@.drop_first() =~= s@.subrange(1, n as int));
        assert(s@.subrange(0, n as int) =~= s@);
    }
    let r = digits_up_to(s, start, u64::MAX);
    proof {
        let d = s@.subrange(start as int, n as int);
        if start == 1 {
            assert(d == s@.drop_first());
        } else {
            assert(d == s@);
        }
    }
    r
}

/// The retention window, in days, when the setting is missing or unreadable.
pub const DEFAULT_RETENTION_DAYS: i64 = 7;

/// Seconds between two retention sweeps.
pub const CLEANUP_INTERVAL_SECS: u64 = 3600;

/// The upstream timeout, in milliseconds, when the setting is missing or unreadable.
pub const DEFAULT_TIMEOUT_MS: u64 = 2000;

/// Attempts to connect to the store before startup gives up.
pub const MAX_CONNECT_ATTEMPTS: u32 = 3;

/// Seconds to wait between two connection attempts.
pub const CONNECT_BACKOFF_SECS: u64 = 1;

/// The retention window from the `log_retention_days` setting: its integer
/// value, or the default when it is missing or not an integer.
pub fn retention_days(setting: Option<&str>) -> (r: i64)
    ensures
        r == match setting {
            Some(s) => match i64_of(s@) {
                Some(v) => v,
                None => DEFAULT_RETENTION_DAYS,
            },
            None => DEFAULT_RETENTION_DAYS,
        },
{
    match setting {
        Some(s) => match parse_i64(s) {
            Some(v) => v,
            None => DEFAULT_RETENTION_DAYS,
        },
        None => DEFAULT_RETENTION_DAYS,
    }
}

/// The upstream timeout from the `upstream_timeout_ms` setting: its value, or
/// the default when it is missing or not a non-negative integer.
pub fn upstream_timeout_ms(setting: Option<&str>) -> (r: u64)
    ensures
        r == match setting {
            Some(s) => match u64_of(s@) {
                Some(v) => v,
                None => DEFAULT_TIMEOUT_MS,
            },
            None => DEFAULT_TIMEOUT_MS,
        },
{
    match setting {
        Some(s) => match parse_u64(s) {
            Some(v) => v,
            None => DEFAULT_TIMEOUT_MS,
        },
        None => DEFAULT_TIMEOUT_MS,
    }
}

/// A setting's value, or `default` when the store has none.
pub fn setting_or(setting: Option<String>, default: &str) -> (r: String)
    ensures
        r@ == match setting {
            Some(s) => s@,
            None => default@,
        },
{
    match setting {
        Some(s) => s,
        None => default.to_string(),
    }
}

/// What startup does after a connection attempt.
#[derive(Debug, Clone, Copy, PartialEq, Eq)]
pub enum ConnectStep {
    /// The store is connected.
    Connected,
    /// Wait this many seconds, then try again.
    RetryAfter(u64),
    /// Stop and report the last error.
    GiveUp,
}

/// The decision after attempt number `attempt` (counted from 1): a success
/// ends the loop; a failure is retried after a fixed wait until the attempts
/// are used up.
pub fn after_connect_attempt(attempt: u32, connected: bool) -> (r: ConnectStep)
    ensures
        r == if connected {
            ConnectStep::Connected
        } else if attempt < MAX_CONNECT_ATTEMPTS {
            ConnectStep::RetryAfter(CONNECT_BACKOFF_SECS)
        } else {
            ConnectStep::GiveUp
        },
{
    if connected {
        ConnectStep::Connected
    } else if attempt < MAX_CONNECT_ATTEMPTS {
        ConnectStep::RetryAfter(CONNECT_BACKOFF_SECS)
    } else {
        ConnectStep::GiveUp
    }
}

} // verus!
