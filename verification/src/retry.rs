//! The retry policy: which failures are retried, how long to wait before the
//! next attempt, and how a `Retry-After` header is read.
//!
//! Spans are nanoseconds (see `config`).

use vstd::prelude::*;
use vstd::arithmetic::power2::{lemma2_to64, lemma_pow2_strictly_increases, lemma_pow2_unfold, pow2};

use crate::config::{RetryConfig, MAX_DURATION_NANOS, NANOS_PER_SEC};
use crate::text::{chars_of, parse_u64, parse_u64_spec, string_of, trim, trim_chars};

verus! {

/// Whether an HTTP status is a success (`2xx`).
pub open spec fn is_success_status(status: u16) -> bool {
    200 <= status && status <= 299
}

/// Whether an HTTP status is worth retrying: too many requests (`429`) or a
/// server error (`5xx`).
pub open spec fn is_retryable_status(status: u16) -> bool {
    status == 429 || (500 <= status && status <= 599)
}

/// The smaller of two spans.
pub open spec fn min_nanos(a: u128, b: u128) -> u128 {
    if a <= b {
        a
    } else {
        b
    }
}

/// `2u32.saturating_pow(k)`.
pub open spec fn saturating_pow2_spec(k: u32) -> u32 {
    if k >= 32 {
        u32::MAX
    } else {
        pow2(k as nat) as u32
    }
}

/// `Duration::saturating_mul`: the product, or the largest span when the
/// product does not fit.
pub open spec fn saturating_mul_spec(d: u128, m: u32) -> u128 {
    if d * m > MAX_DURATION_NANOS {
        MAX_DURATION_NANOS
    } else {
        (d * m) as u128
    }
}

/// `Duration::saturating_add`.
pub open spec fn saturating_add_spec(a: u128, b: u128) -> u128 {
    if a + b > MAX_DURATION_NANOS {
        MAX_DURATION_NANOS
    } else {
        (a + b) as u128
    }
}

/// The doubling exponent of the `attempt`-th retry: `attempt - 1` (none for
/// attempt 0), cut to 32 bits as `as u32` cuts it.
pub open spec fn backoff_exponent(attempt: usize) -> u32 {
    ((if attempt == 0 {
        0
    } else {
        attempt - 1
    }) % 0x1_0000_0000) as u32
}

/// The wait before the `attempt`-th retry without jitter: the initial backoff
/// doubled once per earlier retry, capped by the largest backoff.
pub open spec fn backoff_spec(retry: RetryConfig, attempt: usize) -> u128 {
    min_nanos(
        saturating_mul_spec(retry.initial_backoff, saturating_pow2_spec(backoff_exponent(attempt))),
        retry.max_backoff,
    )
}

/// The wait with jitter, given the sub-second nanoseconds of the clock: a
/// quarter of the wait, at most, is added, and the sum is capped by the
/// largest backoff.
pub open spec fn jitter_spec(delay: u128, max_backoff: u128, subsec_nanos: u32) -> u128 {
    if delay == 0 {
        delay
    } else {
        let quarter = if delay / 4 > u64::MAX {
            u64::MAX as u128
        } else {
            delay / 4
        };
        if quarter == 0 {
            delay
        } else {
            let extra = ((subsec_nanos as u64) % (quarter as u64)) as u128;
            min_nanos(saturating_add_spec(delay, extra), max_backoff)
        }
    }
}

/// The wait before the `attempt`-th retry, given the wait that a `Retry-After`
/// header asks for (if any) and the sub-second nanoseconds of the clock.
pub open spec fn retry_delay_spec(
    retry: RetryConfig,
    attempt: usize,
    retry_after: Option<u128>,
    subsec_nanos: u32,
) -> u128 {
    if retry.respect_retry_after && retry_after is Some {
        min_nanos(retry_after->0, retry.max_backoff)
    } else if retry.jitter {
        jitter_spec(backoff_spec(retry, attempt), retry.max_backoff, subsec_nanos)
    } else {
        backoff_spec(retry, attempt)
    }
}

/// The wait that a `Retry-After` value asks for: its seconds when it is a
/// number, else the time left until the HTTP date that it names (given as
/// seconds since the Unix epoch in `http_date`), if that date is not past at
/// `now` (nanoseconds since the Unix epoch).
pub open spec fn retry_after_spec(value: Seq<char>, http_date: Option<u64>, now: u128) -> Option<
    u128,
> {
    match parse_u64_spec(trim(value)) {
        Some(secs) => Some((secs * NANOS_PER_SEC) as u128),
        None => match http_date {
            Some(secs) => if secs * NANOS_PER_SEC >= now {
                Some((secs * NANOS_PER_SEC - now) as u128)
            } else {
                None
            },
            None => None,
        },
    }
}

/// The seconds since the Unix epoch of the HTTP date that `value` writes, as
/// `httpdate::parse_http_date` reads it.
pub uninterp spec fn http_date_unix_secs(value: Seq<char>) -> Option<u64>;

/// `httpdate::parse_http_date`: the HTTP date in `value`, as seconds since
/// the Unix epoch. Claimed: the result is a function of `value` alone.
#[verifier::external_body]
fn parse_http_date_secs(value: &str) -> (r: Option<u64>)
    ensures
        r == http_date_unix_secs(value@),
{
    match httpdate::parse_http_date(value) {
        Ok(t) => match t.duration_since(std::time::UNIX_EPOCH) {
            Ok(d) => Some(d.as_secs()),
            Err(_) => None,
        },
        Err(_) => None,
    }
}

/// `SystemTime::now`, as nanoseconds since the Unix epoch (0 for a clock set
/// before the epoch). Nothing is claimed of the value: it is the time.
#[verifier::external_body]
fn now_unix_nanos() -> (r: u128) {
    match std::time::SystemTime::now().duration_since(std::time::UNIX_EPOCH) {
        Ok(d) => d.as_nanos(),
        Err(_) => 0,
    }
}

/// `SystemTime::now`, its nanoseconds within the current second (0 for a
/// clock set before the epoch). Claimed: below one billion, as
/// `Duration::subsec_nanos` documents.
#[verifier::external_body]
fn now_subsec_nanos() -> (r: u32)
    ensures
        r < 1_000_000_000,
{
    match std::time::SystemTime::now().duration_since(std::time::UNIX_EPOCH) {
        Ok(d) => d.subsec_nanos(),
        Err(_) => 0,
    }
}

/// `2u32.saturating_pow(k)`.
pub fn saturating_pow2(k: u32) -> (r: u32)
    ensures
        r == saturating_pow2_spec(k),
{
    if k >= 32 {
        return u32::MAX;
    }
    let mut r: u32 = 1;
    let mut i: u32 = 0;
    proof {
        lemma2_to64();
    }
    while i < k
        invariant
            i <= k < 32,
            r == pow2(i as nat),
            pow2(30) == 0x4000_0000,
        decreases k - i,
    {
        proof {
            lemma_pow2_unfold((i + 1) as nat);
            if i < 30 {
                lemma_pow2_strictly_increases(i as nat, 30);
            }
        }
        r = r * 2;
        i = i + 1;
    }
    r
}

/// `Duration::saturating_mul` on nanoseconds.
pub fn saturating_mul_nanos(d: u128, m: u32) -> (r: u128)
    requires
        d <= MAX_DURATION_NANOS,
    ensures
        r == saturating_mul_spec(d, m),
{
    if m == 0 {
        return 0;
    }
    let limit = MAX_DURATION_NANOS / (m as u128);
    if d > limit {
        assert(d * m > MAX_DURATION_NANOS) by (nonlinear_arith)
            requires
                d > limit,
                limit == MAX_DURATION_NANOS / (m as u128),
                m > 0,
        ;
        MAX_DURATION_NANOS
    } else {
        assert(d * m <= MAX_DURATION_NANOS) by (nonlinear_arith)
            requires
                d <= limit,
                limit == MAX_DURATION_NANOS / (m as u128),
                m > 0,
        ;
        d * (m as u128)
    }
}

/// `Duration::saturating_add` on nanoseconds.
pub fn saturating_add_nanos(a: u128, b: u128) -> (r: u128)
    requires
        a <= MAX_DURATION_NANOS,
        b <= MAX_DURATION_NANOS,
    ensures
        r == saturating_add_spec(a, b),
{
    if a + b > MAX_DURATION_NANOS {
        MAX_DURATION_NANOS
    } else {
        a + b
    }
}

/// The smaller of two spans.
pub fn min_u128(a: u128, b: u128) -> (r: u128)
    ensures
        r == min_nanos(a, b),
{
    if a <= b {
        a
    } else {
        b
    }
}

/// Adds jitter to `delay`, given the sub-second nanoseconds of the clock.
pub fn add_jitter_at(delay: u128, max_backoff: u128, subsec_nanos: u32) -> (r: u128)
    requires
        delay <= MAX_DURATION_NANOS,
    ensures
        r == jitter_spec(delay, max_backoff, subsec_nanos),
{
    if delay == 0 {
        return delay;
    }
    let q = delay / 4;
    let quarter: u128 = if q > u64::MAX as u128 {
        u64::MAX as u128
    } else {
        q
    };
    if quarter == 0 {
        return delay;
    }
    let extra = ((subsec_nanos as u64) % (quarter as u64)) as u128;
    min_u128(saturating_add_nanos(delay, extra), max_backoff)
}

/// Adds jitter to `delay`: an extra wait below a quarter of it, taken from
/// the clock, with the sum capped by `max_backoff`.
pub fn add_jitter(delay: u128, max_backoff: u128) -> (r: u128)
    requires
        delay <= MAX_DURATION_NANOS,
    ensures
        exists|n: u32| n < 1_000_000_000 && r == jitter_spec(delay, max_backoff, n),
{
    let n = now_subsec_nanos();
    add_jitter_at(delay, max_backoff, n)
}

impl RetryConfig {
    /// Whether a response with `status` is retried after `attempt` retries.
    pub fn should_retry(&self, status: u16, attempt: usize) -> (r: bool)
        ensures
            r == (attempt < self.max_retries && is_retryable_status(status)),
    {
        attempt < self.max_retries && (status == 429 || (500 <= status && status <= 599))
    }

    /// Whether a transport failure is retried after `attempt` retries;
    /// `timeout_or_connect` says whether it was a timeout or a failure to
    /// connect.
    pub fn should_retry_error(&self, timeout_or_connect: bool, attempt: usize) -> (r: bool)
        ensures
            r == (attempt < self.max_retries && timeout_or_connect),
    {
        attempt < self.max_retries && timeout_or_connect
    }

    /// The wait before the `attempt`-th retry without jitter.
    pub fn backoff(&self, attempt: usize) -> (r: u128)
        requires
            self.wf(),
        ensures
            r == backoff_spec(*self, attempt),
    {
        let below: usize = if attempt == 0 {
            0
        } else {
            attempt - 1
        };
        let exponent = ((below as u64) % 0x1_0000_0000u64) as u32;
        let multiplier = saturating_pow2(exponent);
        let delay = saturating_mul_nanos(self.initial_backoff, multiplier);
        min_u128(delay, self.max_backoff)
    }

    /// The wait before the `attempt`-th retry, given the wait that a
    /// `Retry-After` header asks for and the sub-second nanoseconds of the
    /// clock.
    pub fn retry_delay_at(&self, attempt: usize, retry_after: Option<u128>, subsec_nanos: u32) -> (r:
        u128)
        requires
            self.wf(),
        ensures
            r == retry_delay_spec(*self, attempt, retry_after, subsec_nanos),
    {
        if self.respect_retry_after {
            if let Some(wait) = retry_after {
                return min_u128(wait, self.max_backoff);
            }
        }
        let delay = self.backoff(attempt);
        if self.jitter {
            add_jitter_at(delay, self.max_backoff, subsec_nanos)
        } else {
            delay
        }
    }

    /// The wait before the `attempt`-th retry, given the wait that a
    /// `Retry-After` header asks for; jitter comes from the clock.
    pub fn retry_delay(&self, attempt: usize, retry_after: Option<u128>) -> (r: u128)
        requires
            self.wf(),
        ensures
            exists|n: u32|
                n < 1_000_000_000 && r == retry_delay_spec(*self, attempt, retry_after, n),
    {
        let n = now_subsec_nanos();
        self.retry_delay_at(attempt, retry_after, n)
    }
}

/// The wait that a `Retry-After` value asks for, given the HTTP date it names
/// (seconds since the Unix epoch) and the time `now` (nanoseconds since the
/// Unix epoch).
pub fn retry_after_delay_at(value: &str, http_date: Option<u64>, now: u128) -> (r: Option<u128>)
    ensures
        r == retry_after_spec(value@, http_date, now),
{
    let chars = chars_of(value);
    let trimmed = trim_chars(chars.as_slice());
    match parse_u64(trimmed.as_slice()) {
        Some(secs) => Some((secs as u128) * NANOS_PER_SEC),
        None => match http_date {
            Some(secs) => {
                let at = (secs as u128) * NANOS_PER_SEC;
                if at >= now {
                    Some(at - now)
                } else {
                    None
                }
            },
            None => None,
        },
    }
}

/// The wait that a `Retry-After` header value asks for: its seconds when it
/// is a number, else the time left until the HTTP date that it names, if
/// that date is still ahead.
pub fn retry_after_delay(value: &str) -> (r: Option<u128>)
    ensures
        exists|now: u128| r == retry_after_spec(value@, http_date_unix_secs(trim(value@)), now),
{
    let chars = chars_of(value);
    let trimmed_chars = trim_chars(chars.as_slice());
    let trimmed = string_of(trimmed_chars.as_slice());
    match parse_u64(trimmed_chars.as_slice()) {
        Some(secs) => {
            let r = Some((secs as u128) * NANOS_PER_SEC);
            assert(r == retry_after_spec(value@, http_date_unix_secs(trim(value@)), 0));
            r
        },
        None => {
            let http_date = parse_http_date_secs(trimmed.as_str());
            let now = now_unix_nanos();
            retry_after_delay_at(value, http_date, now)
        },
    }
}

/// Every wait that the policy chooses is at most its largest backoff.
pub proof fn lemma_retry_delay_bounded(
    retry: RetryConfig,
    attempt: usize,
    retry_after: Option<u128>,
    subsec_nanos: u32,
)
    requires
        retry.wf(),
    ensures
        retry_delay_spec(retry, attempt, retry_after, subsec_nanos) <= retry.max_backoff,
{
}

proof fn lemma_saturating_pow2_monotone(a: u32, b: u32)
    requires
        a <= b,
    ensures
        saturating_pow2_spec(a) <= saturating_pow2_spec(b),
{
    lemma2_to64();
    if b < 32 {
        if a < b {
            lemma_pow2_strictly_increases(a as nat, b as nat);
        }
        lemma_pow2_strictly_increases(b as nat, 32);
    } else if a < 32 {
        lemma_pow2_strictly_increases(a as nat, 32);
    }
}

/// Without jitter and `Retry-After`, the wait never shrinks from one retry to
/// a later one: for retries `a <= b` (below 2^32, where the doubling exponent
/// is exact), the wait before `a` is at most the wait before `b`.
pub proof fn lemma_backoff_monotone(retry: RetryConfig, a: usize, b: usize)
    requires
        retry.wf(),
        1 <= a <= b,
        b <= 0x1_0000_0000,
    ensures
        backoff_spec(retry, a) <= backoff_spec(retry, b),
{
    let ea = backoff_exponent(a);
    let eb = backoff_exponent(b);
    assert(ea == a - 1);
    assert(eb == b - 1);
    lemma_saturating_pow2_monotone(ea, eb);
    let ma = saturating_pow2_spec(ea);
    let mb = saturating_pow2_spec(eb);
    let d = retry.initial_backoff;
    assert(d * ma <= d * mb) by (nonlinear_arith)
        requires
            ma <= mb,
    ;
}

/// The wait without jitter: the initial backoff doubled once per earlier
/// retry, while that fits below the largest backoff.
pub proof fn lemma_backoff_doubles(retry: RetryConfig, attempt: usize)
    requires
        retry.wf(),
        1 <= attempt <= 32,
        retry.initial_backoff * pow2((attempt - 1) as nat) <= retry.max_backoff,
    ensures
        backoff_spec(retry, attempt) == retry.initial_backoff * pow2((attempt - 1) as nat),
{
    lemma2_to64();
    let e = (attempt - 1) as nat;
    assert(backoff_exponent(attempt) == e);
    if e < 32 {
        lemma_pow2_strictly_increases(e, 32);
    }
}

} // verus!
