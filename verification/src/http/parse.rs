//! Parsing rules for gateway REST responses.
use vstd::prelude::*;

use crate::common::datetime::{chrono_naive_date_parse, parse_naive_date, LocalDateTime};
use crate::common::decimal::{decimal_spec, digit_char, u64_to_decimal};
use crate::common::parse::{taiwan_naive_to_unix_nanos, taiwan_unix_nanos_spec, TimeError};
use crate::common::text::{concat3, push_char};

verus! {

/// A text with every `/` replaced by `-`.
pub open spec fn slashes_to_dashes(s: Seq<char>) -> Seq<char> {
    s.map_values(|c: char| if c == '/' { '-' } else { c })
}

/// Replaces every `/` of a date text by `-`, so that `2026/06/17` reads as
/// `2026-06-17`.
pub fn normalize_date_separators(s: &str) -> (r: String)
    ensures
        r@ == slashes_to_dashes(s@),
{
    let n = s.unicode_len();
    let mut out = String::new();
    let mut i: usize = 0;
    while i < n
        invariant
            n == s@.len(),
            i <= n,
            out@ == slashes_to_dashes(s@.take(i as int)),
        decreases n - i,
    {
        let c = s.get_char(i);
        if c == '/' {
            push_char(&mut out, '-');
        } else {
            push_char(&mut out, c);
        }
        assert(s@.take(i + 1) == s@.take(i as int).push(c));
        assert(slashes_to_dashes(s@.take(i + 1)) =~= slashes_to_dashes(s@.take(i as int)).push(
            if c == '/' { '-' } else { c },
        ));
        i = i + 1;
    }
    assert(s@.take(n as int) =~= s@);
    out
}

/// The date format of contract dates.
pub open spec fn date_format() -> Seq<char> {
    "%Y-%m-%d"@
}

/// The UNIX nanoseconds of midnight, Taiwan time (UTC+8), of a date text
/// written `YYYY/MM/DD` or `YYYY-MM-DD`.
pub open spec fn date_nanos_spec(date: Seq<char>) -> Result<u64, TimeError> {
    match chrono_naive_date_parse(slashes_to_dashes(date), date_format()) {
        Some(secs) => taiwan_unix_nanos_spec(LocalDateTime { secs, nanos: 0 }),
        None => Err(TimeError::InvalidFormat),
    }
}

/// Parses a contract date (`2026/06/17` or `2026-06-17`) to the UNIX
/// nanoseconds of its midnight in Taiwan time.
pub fn parse_date_to_nanos(date: &str) -> (r: Result<u64, TimeError>)
    ensures
        r == date_nanos_spec(date@),
{
    let normalized = normalize_date_separators(date);
    let fmt = "%Y-%m-%d";
    assert(fmt@ == date_format());
    match parse_naive_date(normalized.as_str(), fmt) {
        Some(secs) => taiwan_naive_to_unix_nanos(LocalDateTime { secs, nanos: 0 }),
        None => Err(TimeError::InvalidFormat),
    }
}

/// The UNIX nanoseconds of a gateway time in epoch milliseconds, or
/// `Overflow` when the count of nanoseconds does not fit a `u64`.
pub open spec fn millis_nanos_spec(ms: u64) -> Result<u64, TimeError> {
    if ms * 1_000_000 > u64::MAX {
        Err(TimeError::Overflow)
    } else {
        Ok((ms * 1_000_000) as u64)
    }
}

/// Converts a REST time in epoch milliseconds (snapshots, historical ticks
/// and bars) to UNIX nanoseconds.
pub fn epoch_millis_to_nanos(ms: u64) -> (r: Result<u64, TimeError>)
    ensures
        r == millis_nanos_spec(ms),
{
    if ms > 18_446_744_073_709u64 {
        Err(TimeError::Overflow)
    } else {
        Ok(ms * 1_000_000)
    }
}

/// The trade identifier of a historical tick: `{code}-{epoch millis}`.
pub open spec fn rest_trade_id_spec(code: Seq<char>, ts: u64) -> Seq<char> {
    code + "-"@ + decimal_spec(ts as nat)
}

/// Builds the trade identifier of a historical tick.
pub fn rest_trade_id(code: &str, ts: u64) -> (r: String)
    ensures
        r@ == rest_trade_id_spec(code@, ts),
{
    let digits = u64_to_decimal(ts);
    concat3(code, "-", digits.as_str())
}

/// Whether parallel arrays all have the length of the first.
pub fn parallel_lengths_match(lens: &[usize]) -> (r: bool)
    ensures
        r == (forall|i: int| 0 <= i < lens@.len() ==> #[trigger] lens@[i] == lens@[0]),
{
    let n = lens.len();
    if n == 0 {
        return true;
    }
    let first = lens[0];
    let mut i: usize = 1;
    while i < n
        invariant
            n == lens@.len(),
            1 <= i <= n,
            first == lens@[0],
            forall|j: int| 0 <= j < i ==> lens@[j] == first,
        decreases n - i,
    {
        if lens[i] != first {
            return false;
        }
        i = i + 1;
    }
    true
}

/// A contract date reads the same whether written with `/` or `-`
/// separators: replacing slashes again changes nothing.
pub proof fn lemma_date_separators_interchangeable(date: Seq<char>)
    ensures
        slashes_to_dashes(slashes_to_dashes(date)) == slashes_to_dashes(date),
        date_nanos_spec(slashes_to_dashes(date)) == date_nanos_spec(date),
{
    assert(slashes_to_dashes(slashes_to_dashes(date)) =~= slashes_to_dashes(date));
}

/// Replacing separators keeps the length, leaves no `/`, turns each `/`
/// into `-` and keeps every other character where it was.
pub proof fn lemma_separator_replacement(s: Seq<char>)
    ensures
        slashes_to_dashes(s).len() == s.len(),
        forall|i: int| 0 <= i < s.len() ==> slashes_to_dashes(s)[i] != '/',
        forall|i: int| 0 <= i < s.len() && s[i] == '/' ==> slashes_to_dashes(s)[i] == '-',
        forall|i: int| 0 <= i < s.len() && s[i] != '/' ==> slashes_to_dashes(s)[i] == s[i],
{
}

/// An epoch time in milliseconds is a million times as many nanoseconds;
/// it is refused exactly when that count does not fit a `u64`, and a later
/// time never converts to an earlier one.
pub proof fn lemma_millis_scale(ms: u64, later: u64)
    ensures
        millis_nanos_spec(ms) matches Ok(n) ==> n == ms * 1_000_000,
        (millis_nanos_spec(ms) is Ok) <==> ms * 1_000_000 <= 18_446_744_073_709_551_615,
        millis_nanos_spec(ms) is Err ==> millis_nanos_spec(ms) == Err::<u64, TimeError>(TimeError::Overflow),
        ms <= later && millis_nanos_spec(later) is Ok ==> (millis_nanos_spec(ms) matches Ok(a)
            && millis_nanos_spec(later) matches Ok(b) && a <= b),
{
}

/// The number that a text of decimal digits denotes.
pub open spec fn decimal_value(s: Seq<char>) -> int
    decreases s.len(),
{
    if s.len() == 0 {
        0
    } else {
        decimal_value(s.drop_last()) * 10 + (s.last() as int - '0' as int)
    }
}

proof fn lemma_digit_value(d: nat)
    requires
        d < 10,
    ensures
        digit_char(d) as int - '0' as int == d,
        '0' <= digit_char(d) <= '9',
{
}

/// The decimal text of a number consists of digits, starts with a non-zero
/// digit unless it is `0`, and denotes that number.
pub proof fn lemma_decimal_text_denotes(n: nat)
    ensures
        decimal_value(decimal_spec(n)) == n,
        decimal_spec(n).len() > 0,
        forall|i: int| 0 <= i < decimal_spec(n).len() ==> '0' <= #[trigger] decimal_spec(n)[i] <= '9',
        n > 0 ==> decimal_spec(n)[0] != '0',
    decreases n,
{
    lemma_digit_value(n % 10);
    if n >= 10 {
        lemma_decimal_text_denotes(n / 10);
        let prev = decimal_spec(n / 10);
        assert(decimal_spec(n).drop_last() =~= prev);
        assert(decimal_spec(n).last() == digit_char(n % 10));
        assert(n == (n / 10) * 10 + n % 10) by (nonlinear_arith);
        assert(decimal_value(decimal_spec(n)) == decimal_value(prev) * 10
            + (digit_char(n % 10) as int - '0' as int));
        assert forall|i: int| 0 <= i < decimal_spec(n).len() implies '0' <= #[trigger] decimal_spec(n)[i] <= '9' by {
            if i < prev.len() {
                assert(decimal_spec(n)[i] == prev[i]);
            }
        }
    } else {
        lemma_digit_value(n);
        assert(decimal_spec(n).drop_last() =~= Seq::<char>::empty());
        assert(decimal_value(Seq::<char>::empty()) == 0);
        assert(decimal_spec(n).last() == digit_char(n));
    }
}

/// A historical trade identifier is the contract code, `-`, and the decimal
/// text of the epoch time, which reads back as that time.
pub proof fn lemma_rest_trade_id_shape(code: Seq<char>, ts: u64)
    ensures
        rest_trade_id_spec(code, ts).subrange(0, code.len() as int) == code,
        rest_trade_id_spec(code, ts)[code.len() as int] == '-',
        decimal_value(rest_trade_id_spec(code, ts).skip(code.len() as int + 1)) == ts,
{
    reveal_strlit("-");
    lemma_decimal_text_denotes(ts as nat);
    let t = rest_trade_id_spec(code, ts);
    assert(t.subrange(0, code.len() as int) =~= code);
    assert(t.skip(code.len() as int + 1) =~= decimal_spec(ts as nat));
}

} // verus!
