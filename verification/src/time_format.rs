//! The timestamp format of the metadata sidecar: an RFC 3339 date and
//! time string, `YYYY-MM-DDTHH:MM:SS`, an optional fraction of a
//! second, and an offset (`Z` or `+HH:MM`/`-HH:MM`). The date must be a
//! real calendar date, leap years included. The current time itself can
//! only come from outside; everything the library decides about a
//! timestamp is its shape.

use vstd::prelude::*;

verus! {

/// A decimal digit.
pub open spec fn is_digit(c: char) -> bool {
    48 <= (c as u32) && (c as u32) <= 57
}

/// The numeric value of a decimal digit.
pub open spec fn digit_val(c: char) -> int {
    (c as u32) - 48
}

/// The value of the two digits at `i` and `i + 1`.
pub open spec fn two_digit_val(s: Seq<char>, i: int) -> int {
    10 * digit_val(s[i]) + digit_val(s[i + 1])
}

/// The value of the four year digits at the start of the timestamp.
pub open spec fn year_val(s: Seq<char>) -> int {
    1000 * digit_val(s[0]) + 100 * digit_val(s[1]) + 10 * digit_val(s[2]) + digit_val(s[3])
}

/// The Gregorian leap-year rule.
pub open spec fn is_leap_year(y: int) -> bool {
    y % 4 == 0 && (y % 100 != 0 || y % 400 == 0)
}

/// How many days the given month of the given year has.
pub open spec fn days_in_month(y: int, m: int) -> int {
    if m == 2 {
        if is_leap_year(y) {
            29
        } else {
            28
        }
    } else if m == 4 || m == 6 || m == 9 || m == 11 {
        30
    } else {
        31
    }
}

/// `YYYY-MM-DD` at the start of the timestamp, naming a real calendar
/// date.
pub open spec fn date_ok(s: Seq<char>) -> bool {
    is_digit(s[0]) && is_digit(s[1]) && is_digit(s[2]) && is_digit(s[3]) && s[4] == '-'
        && is_digit(s[5]) && is_digit(s[6]) && s[7] == '-' && is_digit(s[8]) && is_digit(s[9])
        && 1 <= two_digit_val(s, 5) && two_digit_val(s, 5) <= 12 && 1 <= two_digit_val(s, 8)
        && two_digit_val(s, 8) <= days_in_month(year_val(s), two_digit_val(s, 5))
}

/// `THH:MM:SS` at positions 10 to 18, with the separator `T` in either
/// case. A second of 60 is allowed, as a leap second.
pub open spec fn clock_ok(s: Seq<char>) -> bool {
    (s[10] == 'T' || s[10] == 't') && is_digit(s[11]) && is_digit(s[12]) && s[13] == ':' && is_digit(s[14])
        && is_digit(s[15]) && s[16] == ':' && is_digit(s[17]) && is_digit(s[18])
        && two_digit_val(s, 11) <= 23 && two_digit_val(s, 14) <= 59 && two_digit_val(s, 17) <= 60
}

/// An offset that closes the timestamp at position `i`: either `Z`, or
/// a sign with `HH:MM`.
pub open spec fn offset_at(s: Seq<char>, i: int) -> bool {
    (i == s.len() - 1 && (s[i] == 'Z' || s[i] == 'z')) || (i == s.len() - 6 && (s[i] == '+' || s[i]
        == '-') && is_digit(s[i + 1]) && is_digit(s[i + 2]) && s[i + 3] == ':' && is_digit(
        s[i + 4],
    ) && is_digit(s[i + 5]) && two_digit_val(s, i + 1) <= 23 && two_digit_val(s, i + 4) <= 59)
}

/// From position `i` on: zero or more fraction digits, then the offset.
pub open spec fn digits_then_offset(s: Seq<char>, i: int) -> bool
    decreases s.len() - i when 0 <= i <= s.len()
{
    offset_at(s, i) || (i < s.len() && is_digit(s[i]) && digits_then_offset(s, i + 1))
}

/// The whole timestamp shape: date, `T`, clock, an optional `.` with at
/// least one fraction digit, and the closing offset.
pub open spec fn is_rfc3339_time(s: Seq<char>) -> bool {
    s.len() >= 20 && date_ok(s) && clock_ok(s) && (offset_at(s, 19) || (s[19] == '.' && s.len()
        > 20 && is_digit(s[20]) && digits_then_offset(s, 21)))
}

/// Scanning over a run of digits does not change whether a fraction
/// tail with offset follows.
proof fn lemma_digits_skip(s: Seq<char>, i: int, j: int)
    requires
        0 <= i <= j <= s.len(),
        forall|k: int| i <= k < j ==> is_digit(#[trigger] s[k]),
    ensures
        digits_then_offset(s, i) == digits_then_offset(s, j),
    decreases j - i,
{
    if i < j {
        assert(is_digit(s[i]));
        assert(!offset_at(s, i));
        lemma_digits_skip(s, i + 1, j);
    }
}

/// Whether `c` is a decimal digit.
fn check_digit(c: char) -> (b: bool)
    ensures
        b == is_digit(c),
{
    let u = c as u32;
    48 <= u && u <= 57
}

/// The value of the two digits at `i` and `i + 1`.
fn two_digit(s: &str, i: usize) -> (v: u32)
    requires
        i + 2 <= s@.len(),
        s@.len() <= usize::MAX,
        is_digit(s@[i as int]),
        is_digit(s@[i as int + 1]),
    ensures
        v == two_digit_val(s@, i as int),
{
    let a = s.get_char(i) as u32 - 48;
    let b = s.get_char(i + 1) as u32 - 48;
    10 * a + b
}

/// Whether an offset closes the timestamp at position `i`.
fn check_offset(s: &str, i: usize) -> (b: bool)
    ensures
        b == offset_at(s@, i as int),
{
    let n = s.unicode_len();
    if i >= n {
        return false;
    }
    let c = s.get_char(i);
    if c == 'Z' || c == 'z' {
        return i == n - 1;
    }
    if (c == '+' || c == '-') && n - i == 6 {
        if check_digit(s.get_char(i + 1)) && check_digit(s.get_char(i + 2)) && s.get_char(i + 3)
            == ':' && check_digit(s.get_char(i + 4)) && check_digit(s.get_char(i + 5)) {
            two_digit(s, i + 1) <= 23 && two_digit(s, i + 4) <= 59
        } else {
            false
        }
    } else {
        false
    }
}

/// Decides whether `s` has the metadata timestamp shape.
pub fn check_rfc3339_time(s: &str) -> (b: bool)
    ensures
        b == is_rfc3339_time(s@),
{
    let n = s.unicode_len();
    if n < 20 {
        return false;
    }
    if !(check_digit(s.get_char(0)) && check_digit(s.get_char(1)) && check_digit(s.get_char(2))
        && check_digit(s.get_char(3)) && s.get_char(4) == '-' && check_digit(s.get_char(5))
        && check_digit(s.get_char(6)) && s.get_char(7) == '-' && check_digit(s.get_char(8))
        && check_digit(s.get_char(9))) {
        return false;
    }
    let month = two_digit(s, 5);
    if month < 1 || month > 12 {
        return false;
    }
    let year = 1000 * (s.get_char(0) as u32 - 48) + 100 * (s.get_char(1) as u32 - 48) + 10 * (
    s.get_char(2) as u32 - 48) + (s.get_char(3) as u32 - 48);
    let max_day: u32 = if month == 2 {
        if year % 4 == 0 && (year % 100 != 0 || year % 400 == 0) {
            29
        } else {
            28
        }
    } else if month == 4 || month == 6 || month == 9 || month == 11 {
        30
    } else {
        31
    };
    let day = two_digit(s, 8);
    if day < 1 || day > max_day {
        return false;
    }
    if !((s.get_char(10) == 'T' || s.get_char(10) == 't') && check_digit(s.get_char(11))
        && check_digit(s.get_char(12))
        && s.get_char(13) == ':' && check_digit(s.get_char(14)) && check_digit(s.get_char(15))
        && s.get_char(16) == ':' && check_digit(s.get_char(17)) && check_digit(s.get_char(18))) {
        return false;
    }
    if !(two_digit(s, 11) <= 23 && two_digit(s, 14) <= 59 && two_digit(s, 17) <= 60) {
        return false;
    }
    let c19 = s.get_char(19);
    if c19 != '.' {
        return check_offset(s, 19);
    }
    if n <= 20 || !check_digit(s.get_char(20)) {
        return false;
    }
    let mut i: usize = 21;
    while i < n
        invariant
            21 <= i <= n,
            n == s@.len(),
            forall|k: int| 21 <= k < i ==> is_digit(#[trigger] s@[k]),
        ensures
            21 <= i <= n,
            n == s@.len(),
            forall|k: int| 21 <= k < i ==> is_digit(#[trigger] s@[k]),
            i == n || !is_digit(s@[i as int]),
        decreases n - i,
    {
        if !check_digit(s.get_char(i)) {
            break;
        }
        i += 1;
    }
    let tail = check_offset(s, i);
    proof {
        lemma_digits_skip(s@, 21, i as int);
        if i < n {
            assert(!is_digit(s@[i as int]));
            assert(digits_then_offset(s@, i as int) == offset_at(s@, i as int));
        } else {
            assert(!offset_at(s@, i as int));
        }
    }
    tail
}

/// Relies on `std::time::SystemTime::now`,
/// `chrono::DateTime::from_timestamp` and `chrono::DateTime::to_rfc3339`:
/// the current time rendered as text, or nothing when the clock lies
/// before the Unix epoch or beyond chrono's range. None of these calls
/// can panic; nothing is assumed of the rendering's shape — the caller
/// checks it.
#[verifier::external_body]
fn system_time_rfc3339() -> (r: Option<String>) {
    let dt = match std::time::SystemTime::now().duration_since(std::time::UNIX_EPOCH) {
        Ok(d) => chrono::DateTime::from_timestamp(d.as_secs() as i64, d.subsec_nanos()),
        Err(_) => None,
    };
    match dt {
        Some(t) => Some(t.to_rfc3339()),
        None => None,
    }
}

/// The current time in the sidecar's own format. The rendered clock is
/// held to `check_rfc3339_time` rather than trusted: a clock that
/// cannot be converted, or whose rendering falls outside the
/// four-digit-year sidecar shape (a host year before 0 or after 9999),
/// is recorded as the Unix epoch instead, so the descriptor's time is
/// always well-formed.
pub(crate) fn now_rfc3339() -> (r: String)
    ensures
        is_rfc3339_time(r@),
{
    let candidate = match system_time_rfc3339() {
        Some(s) => s,
        None => String::new(),
    };
    if check_rfc3339_time(candidate.as_str()) {
        candidate
    } else {
        let fallback = String::from_str("1970-01-01T00:00:00Z");
        proof {
            reveal_strlit("1970-01-01T00:00:00Z");
            assert(offset_at(fallback@, 19));
            assert(is_rfc3339_time(fallback@));
        }
        fallback
    }
}

} // verus!
