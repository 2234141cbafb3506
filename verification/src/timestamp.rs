//! Timestamps for the start-up log: seconds since the Unix epoch, in
//! decimal.

use vstd::prelude::*;
use vstd::string::StringExecFns;
use std::time::{Duration, SystemTime, SystemTimeError, UNIX_EPOCH};

verus! {

/// A reading of the system clock.
#[verifier::external_type_specification]
#[verifier::external_body]
pub struct ExSystemTime(SystemTime);

/// The error of a clock reading that lies before the reference point.
#[verifier::external_type_specification]
#[verifier::external_body]
pub struct ExSystemTimeError(SystemTimeError);

/// The decimal digit `d`, for `0 <= d < 10`.
pub open spec fn digit_char(d: int) -> char {
    "0123456789"@[d]
}

/// The decimal notation of `n`: no sign, no leading zero, `"0"` for zero.
pub open spec fn decimal_digits(n: nat) -> Seq<char>
    decreases n,
{
    if n < 10 {
        seq![digit_char(n as int)]
    } else {
        decimal_digits(n / 10).push(digit_char((n % 10) as int))
    }
}

/// Calls `SystemTime::now`. The reading depends on the clock, so nothing
/// is claimed about it.
#[verifier::external_body]
fn system_now() -> SystemTime {
    SystemTime::now()
}

/// Calls `SystemTime::duration_since` with `UNIX_EPOCH`. Nothing is
/// claimed about the outcome.
#[verifier::external_body]
fn since_unix_epoch(now: &SystemTime) -> Result<Duration, SystemTimeError> {
    now.duration_since(UNIX_EPOCH)
}

/// Calls `Duration::as_secs`. Nothing is claimed about the number.
#[verifier::external_body]
fn whole_seconds(elapsed: &Duration) -> u64 {
    elapsed.as_secs()
}

/// The text of one decimal digit.
fn digit_text(d: u64) -> (text: &'static str)
    requires
        d < 10,
    ensures
        text@ == seq![digit_char(d as int)],
{
    proof {
        reveal_strlit("0123456789");
        reveal_strlit("0");
        reveal_strlit("1");
        reveal_strlit("2");
        reveal_strlit("3");
        reveal_strlit("4");
        reveal_strlit("5");
        reveal_strlit("6");
        reveal_strlit("7");
        reveal_strlit("8");
        reveal_strlit("9");
    }
    let text = if d == 0 {
        "0"
    } else if d == 1 {
        "1"
    } else if d == 2 {
        "2"
    } else if d == 3 {
        "3"
    } else if d == 4 {
        "4"
    } else if d == 5 {
        "5"
    } else if d == 6 {
        "6"
    } else if d == 7 {
        "7"
    } else if d == 8 {
        "8"
    } else {
        "9"
    };
    assert(text@ =~= seq![digit_char(d as int)]);
    text
}

/// Appends the decimal notation of `n` to `out`.
pub fn push_decimal(out: &mut String, n: u64)
    ensures
        final(out)@ == old(out)@ + decimal_digits(n as nat),
    decreases n,
{
    if n >= 10 {
        push_decimal(out, n / 10);
    }
    out.append(digit_text(n % 10));
    proof {
        if n >= 10 {
            assert(old(out)@ + decimal_digits((n / 10) as nat) + seq![digit_char((n % 10) as int)]
                =~= old(out)@ + decimal_digits((n / 10) as nat).push(digit_char((n % 10) as int)));
        }
    }
}

/// The decimal notation of `secs`.
pub fn format_seconds(secs: u64) -> (text: String)
    ensures
        text@ == decimal_digits(secs as nat),
{
    let mut text = String::new();
    push_decimal(&mut text, secs);
    assert(Seq::<char>::empty() + decimal_digits(secs as nat) =~= decimal_digits(secs as nat));
    text
}

/// The seconds reported for a clock reading: the whole seconds elapsed
/// since the Unix epoch, or zero where the clock stands before the epoch
/// and no elapsed time can be had.
pub open spec fn reading_or_zero(elapsed: Option<u64>) -> u64 {
    match elapsed {
        Some(secs) => secs,
        None => 0,
    }
}

/// The seconds to report for a clock reading. `elapsed` is `None` where
/// the clock stands before the Unix epoch.
pub fn seconds_or_zero(elapsed: Option<u64>) -> (secs: u64)
    ensures
        secs == reading_or_zero(elapsed),
{
    match elapsed {
        Some(secs) => secs,
        None => 0,
    }
}

/// Whole seconds between the Unix epoch and now; zero where the clock
/// stands before the epoch.
///
/// The number comes from the system clock, so nothing is promised of it;
/// what is made of a reading is stated by [`seconds_or_zero`].
pub fn unix_seconds() -> u64 {
    let now = system_now();
    let elapsed = match since_unix_epoch(&now) {
        Ok(elapsed) => Some(whole_seconds(&elapsed)),
        Err(_) => None,
    };
    seconds_or_zero(elapsed)
}

/// A timestamp for log lines: the current Unix time in whole seconds,
/// written in decimal.
pub fn chrono_lite() -> (stamp: String)
    ensures
        exists|secs: u64| stamp@ == decimal_digits(secs as nat),
{
    let secs = unix_seconds();
    format_seconds(secs)
}

/// The number that a digit stands for.
pub open spec fn digit_value(c: char) -> int {
    c as int - '0' as int
}

/// The number written by a sequence of decimal digits.
pub open spec fn decimal_value(digits: Seq<char>) -> int
    decreases digits.len(),
{
    if digits.len() == 0 {
        0
    } else {
        10 * decimal_value(digits.drop_last()) + digit_value(digits.last())
    }
}

/// Reading the decimal notation of a number gives the number back, so
/// different numbers are written differently.
pub proof fn lemma_decimal_round_trip(n: nat)
    ensures
        decimal_value(decimal_digits(n)) == n,
    decreases n,
{
    reveal_strlit("0123456789");
    if n < 10 {
        let digits = decimal_digits(n);
        assert(digits.drop_last().len() == 0);
        assert(decimal_value(digits.drop_last()) == 0);
        assert(digit_value(digits.last()) == n);
    } else {
        lemma_decimal_round_trip(n / 10);
        let digits = decimal_digits(n);
        assert(digits.drop_last() =~= decimal_digits(n / 10));
        assert(digits.last() == digit_char((n % 10) as int));
        assert(digit_value(digits.last()) == n % 10);
    }
}

/// Decimal notation has at least one digit, and only digits.
pub proof fn lemma_decimal_is_digits(n: nat)
    ensures
        decimal_digits(n).len() >= 1,
        forall|i: int|
            0 <= i < decimal_digits(n).len() ==> '0' <= #[trigger] decimal_digits(n)[i] <= '9',
        n > 0 ==> decimal_digits(n)[0] != '0',
    decreases n,
{
    reveal_strlit("0123456789");
    if n >= 10 {
        lemma_decimal_is_digits(n / 10);
    }
}

} // verus!
