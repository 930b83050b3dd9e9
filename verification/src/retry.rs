//! Retrying an operation that fails because its authentication expired.
//!
//! An operation that fails with a 401 or "unauthorized" error is retried
//! after the authentication is recovered, with exponential backoff, up to a
//! limit; any other error is returned as it is.
use vstd::prelude::*;

use crate::jobs::power;
use crate::text::{chars_contain, chars_of, has_substring, lowercase, owned, push_chars, push_dec, to_lowercase};

verus! {

/// Whether an error text, already lowercased, reports an authentication
/// failure.
pub open spec fn auth_failure_text(lowered: Seq<char>) -> bool {
    has_substring(lowered, "401"@) || has_substring(lowered, "unauthorized"@)
}

/// Whether the lowercased error text `lowered` reports an authentication
/// failure.
pub fn is_auth_failure_lowered(lowered: &str) -> (r: bool)
    ensures
        r == auth_failure_text(lowered@),
{
    let v = chars_of(lowered);
    let code = chars_of("401");
    let word = chars_of("unauthorized");
    chars_contain(&v, &code) || chars_contain(&v, &word)
}

/// Whether the error text `err` reports an authentication failure, in any
/// letter case.
pub fn is_auth_failure(err: &str) -> (r: bool)
    ensures
        r == auth_failure_text(lowercase(err@)),
{
    let lowered = to_lowercase(err);
    is_auth_failure_lowered(lowered.as_str())
}

/// What to do after an attempt of the operation failed.
#[derive(Debug)]
pub enum RetryStep {
    /// Not an authentication failure: return this error unchanged.
    Fail(String),
    /// Authentication failures exhausted the retries: return this error.
    GiveUp(String),
    /// Recover the authentication, wait `delay_ms`, and try again with
    /// `retries` recoveries counted.
    Recover { retries: u32, delay_ms: u64 },
}

/// The error returned once authentication failures exhausted the retries.
pub open spec fn give_up_message(operation: Seq<char>, max_retries: u32, err: Seq<char>) -> Seq<char> {
    operation + ": auth error after "@ + crate::text::dec_text(max_retries as nat) + " retries: "@
        + err
}

/// The wait before the retry that follows recovery number `retries + 1`:
/// the base doubled `retries` times.
pub open spec fn backoff_delay(backoff_base_ms: u64, retries: u32) -> int {
    backoff_base_ms * power(2, retries as nat)
}

/// Whether `r` is the right step after a failed attempt: when the error
/// was no authentication failure, fail with it unchanged; when it was and
/// `retries` recoveries were already made, give up at the limit, and
/// otherwise recover and wait the doubled backoff.
pub open spec fn is_retry_step(
    r: RetryStep,
    auth_failure: bool,
    operation: Seq<char>,
    err: Seq<char>,
    retries: u32,
    max_retries: u32,
    backoff_base_ms: u64,
) -> bool {
    match r {
        RetryStep::Fail(e) => !auth_failure && e@ == err,
        RetryStep::GiveUp(e) => auth_failure && retries >= max_retries && e@ == give_up_message(
            operation,
            max_retries,
            err,
        ),
        RetryStep::Recover { retries: n, delay_ms: d } => auth_failure && retries < max_retries
            && n == retries + 1 && d == backoff_delay(backoff_base_ms, retries),
    }
}

/// Decides what follows a failed attempt whose error was (or was not) an
/// authentication failure.
pub fn decide_retry(
    auth_failure: bool,
    operation_name: &str,
    err: &str,
    retries: u32,
    max_retries: u32,
    backoff_base_ms: u64,
) -> (r: RetryStep)
    requires
        auth_failure && retries < max_retries ==> backoff_delay(backoff_base_ms, retries) <= u64::MAX,
    ensures
        is_retry_step(r, auth_failure, operation_name@, err@, retries, max_retries, backoff_base_ms),
{
    if !auth_failure {
        return RetryStep::Fail(owned(err));
    }
    if retries >= max_retries {
        let mut msg = owned(operation_name);
        push_chars(&mut msg, &chars_of(": auth error after "));
        push_dec(&mut msg, max_retries as u64);
        push_chars(&mut msg, &chars_of(" retries: "));
        push_chars(&mut msg, &chars_of(err));
        return RetryStep::GiveUp(msg);
    }
    if backoff_base_ms == 0 {
        assert(backoff_delay(0, retries) == 0) by (nonlinear_arith)
            requires
                backoff_delay(0, retries) == 0 * power(2, retries as nat),
        ;
        return RetryStep::Recover { retries: retries + 1, delay_ms: 0 };
    }
    let mut factor: u64 = 1;
    let mut i: u32 = 0;
    while i < retries
        invariant
            backoff_base_ms >= 1,
            i <= retries,
            factor == power(2, i as nat),
            backoff_delay(backoff_base_ms, retries) <= u64::MAX,
        decreases retries - i,
    {
        proof {
            lemma_power_of_two_grows(i as nat + 1, retries as nat);
        }
        assert(power(2, (i + 1) as nat) == 2 * power(2, i as nat));
        proof {
            lemma_bound_factor(backoff_base_ms as int, power(2, (i + 1) as nat), power(2, retries as nat));
        }
        factor = factor * 2;
        i += 1;
    }
    proof {
        lemma_bound_factor(backoff_base_ms as int, factor as int, power(2, retries as nat));
    }
    RetryStep::Recover { retries: retries + 1, delay_ms: backoff_base_ms * factor }
}

proof fn lemma_power_of_two_grows(e1: nat, e2: nat)
    requires
        e1 <= e2,
    ensures
        1 <= power(2, e1) <= power(2, e2),
    decreases e2,
{
    if e2 > 0 {
        if e1 < e2 {
            lemma_power_of_two_grows(e1, (e2 - 1) as nat);
        } else {
            lemma_power_of_two_grows((e1 - 1) as nat, (e2 - 1) as nat);
        }
    }
}

proof fn lemma_bound_factor(b: int, f: int, g: int)
    requires
        b >= 1,
        0 <= f <= g,
        b * g <= u64::MAX,
    ensures
        f <= u64::MAX,
        b * f <= u64::MAX,
{
    assert(f <= b * f <= b * g) by (nonlinear_arith)
        requires
            b >= 1,
            0 <= f <= g,
    ;
}

/// Decides what follows a failed attempt of `operation_name` that returned
/// `err`, with `retries` recoveries already made.
pub fn retry_step(
    operation_name: &str,
    err: &str,
    retries: u32,
    max_retries: u32,
    backoff_base_ms: u64,
) -> (r: RetryStep)
    requires
        auth_failure_text(lowercase(err@)) && retries < max_retries ==> backoff_delay(
            backoff_base_ms,
            retries,
        ) <= u64::MAX,
    ensures
        is_retry_step(
            r,
            auth_failure_text(lowercase(err@)),
            operation_name@,
            err@,
            retries,
            max_retries,
            backoff_base_ms,
        ),
{
    let auth = is_auth_failure(err);
    decide_retry(auth, operation_name, err, retries, max_retries, backoff_base_ms)
}

/// Each recovery doubles the wait before the next attempt.
pub proof fn law_backoff_doubles(backoff_base_ms: u64, retries: u32)
    requires
        retries < u32::MAX,
    ensures
        backoff_delay(backoff_base_ms, (retries + 1) as u32) == 2 * backoff_delay(
            backoff_base_ms,
            retries,
        ),
{
    assert(power(2, (retries + 1) as nat) == 2 * power(2, retries as nat));
    assert(backoff_base_ms * (2 * power(2, retries as nat)) == 2 * (backoff_base_ms * power(
        2,
        retries as nat,
    ))) by (nonlinear_arith);
}

/// A recovery is only ever made below the retry limit, and each one counts
/// exactly one more: starting from none, at most `max_retries` recoveries
/// happen before an authentication failure gives up.
pub proof fn law_recoveries_bounded(
    r: RetryStep,
    auth_failure: bool,
    operation: Seq<char>,
    err: Seq<char>,
    retries: u32,
    max_retries: u32,
    backoff_base_ms: u64,
)
    requires
        is_retry_step(r, auth_failure, operation, err, retries, max_retries, backoff_base_ms),
    ensures
        r matches RetryStep::Recover { retries: n, .. } ==> n == retries + 1 && n <= max_retries,
        r matches RetryStep::GiveUp(_) ==> retries >= max_retries,
{
}

} // verus!
