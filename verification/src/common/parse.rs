//! Shared parsing rules of the adapter.
use vstd::prelude::*;

use super::consts::SINOPAC;
use super::datetime::LocalDateTime;
use super::enums::SinopacAction;
use super::text::{concat3, str_equals};

verus! {

/// Nanoseconds in one second.
pub const NANOS_PER_SECOND: i128 = 1_000_000_000i128;

/// Seconds by which Taiwan time (UTC+8) runs ahead of UTC.
pub const TAIWAN_UTC_OFFSET_SECS: i128 = 28_800i128;

/// Why a Taiwan wall-clock time has no UNIX timestamp in nanoseconds.
#[derive(Clone, Copy, Debug, PartialEq, Eq, Structural)]
pub enum TimeError {
    /// The text did not match the expected date or time format.
    InvalidFormat,
    /// The instant lies before 1970-01-01 00:00:00 UTC.
    BeforeEpoch,
    /// The instant lies past the range of the nanosecond count: the largest
    /// `i64` for a wall-clock time, the largest `u64` for an epoch time.
    Overflow,
}

/// The UTC nanoseconds since the UNIX epoch of a Taiwan (UTC+8) wall-clock time.
pub open spec fn taiwan_instant_nanos(local: LocalDateTime) -> int {
    local.secs * 1_000_000_000 + local.nanos - 28_800 * 1_000_000_000
}

/// The UNIX timestamp in nanoseconds of a Taiwan wall-clock time, or why
/// there is none.
pub open spec fn taiwan_unix_nanos_spec(local: LocalDateTime) -> Result<u64, TimeError> {
    let n = taiwan_instant_nanos(local);
    if n < 0 {
        Err(TimeError::BeforeEpoch)
    } else if n > i64::MAX {
        Err(TimeError::Overflow)
    } else {
        Ok(n as u64)
    }
}

/// Converts a Taiwan local time (UTC+8) to UNIX nanoseconds.
///
/// Instants before the epoch and instants past the `i64` nanosecond range are
/// errors.
pub fn taiwan_naive_to_unix_nanos(dt: LocalDateTime) -> (r: Result<u64, TimeError>)
    ensures
        r == taiwan_unix_nanos_spec(dt),
{
    let n: i128 = (dt.secs as i128) * NANOS_PER_SECOND + (dt.nanos as i128)
        - TAIWAN_UTC_OFFSET_SECS * NANOS_PER_SECOND;
    if n < 0 {
        Err(TimeError::BeforeEpoch)
    } else if n > (i64::MAX as i128) {
        Err(TimeError::Overflow)
    } else {
        Ok(n as u64)
    }
}

/// The action named by a gateway action string.
pub open spec fn order_side_spec(action: Seq<char>) -> Option<SinopacAction> {
    if action == "Buy"@ {
        Some(SinopacAction::Buy)
    } else if action == "Sell"@ {
        Some(SinopacAction::Sell)
    } else {
        None
    }
}

/// Maps a gateway action string (`Buy` or `Sell`) to the order side it names;
/// any other string is refused.
pub fn parse_order_side(action: &str) -> (r: Option<SinopacAction>)
    ensures
        r == order_side_spec(action@),
{
    if str_equals(action, "Buy") {
        Some(SinopacAction::Buy)
    } else if str_equals(action, "Sell") {
        Some(SinopacAction::Sell)
    } else {
        None
    }
}

/// The instrument identifier text of a contract code: `{code}.SINOPAC`.
pub open spec fn instrument_id_spec(code: Seq<char>) -> Seq<char> {
    code + "."@ + SINOPAC@
}

/// Builds the instrument identifier text of a contract code, e.g. `2330` gives
/// `2330.SINOPAC`.
pub fn instrument_id_text(code: &str) -> (r: String)
    ensures
        r@ == instrument_id_spec(code@),
{
    concat3(code, ".", SINOPAC)
}

/// A Taiwan wall-clock time runs eight hours ahead of UTC: a converted time
/// plus eight hours of nanoseconds is the wall clock's own count of
/// nanoseconds since 1970-01-01 00:00:00; it is refused as before the epoch
/// exactly when that count is below eight hours, and as overflowing exactly
/// when the converted count would pass the largest `i64`.
pub proof fn lemma_taiwan_clock_offset(local: LocalDateTime)
    ensures
        taiwan_unix_nanos_spec(local) matches Ok(n)
            ==> n + 28_800_000_000_000 == local.secs * 1_000_000_000 + local.nanos,
        (taiwan_unix_nanos_spec(local) == Err::<u64, TimeError>(TimeError::BeforeEpoch))
            <==> local.secs * 1_000_000_000 + local.nanos < 28_800_000_000_000,
        (taiwan_unix_nanos_spec(local) == Err::<u64, TimeError>(TimeError::Overflow))
            <==> local.secs * 1_000_000_000 + local.nanos - 28_800_000_000_000 > 9_223_372_036_854_775_807,
        taiwan_unix_nanos_spec(local) is Ok || taiwan_unix_nanos_spec(local)
            == Err::<u64, TimeError>(TimeError::BeforeEpoch) || taiwan_unix_nanos_spec(local)
            == Err::<u64, TimeError>(TimeError::Overflow),
{
}

/// `Buy` and `Sell` name the two sides; no other text names one.
pub proof fn lemma_order_side_names(action: Seq<char>)
    ensures
        action == "Buy"@ ==> order_side_spec(action) == Some(SinopacAction::Buy),
        action == "Sell"@ ==> order_side_spec(action) == Some(SinopacAction::Sell),
        action != "Buy"@ && action != "Sell"@ ==> order_side_spec(action) is None,
{
    reveal_strlit("Buy");
    reveal_strlit("Sell");
    assert("Buy"@.len() != "Sell"@.len());
}

/// An instrument identifier is the contract code followed by `.SINOPAC`:
/// it starts with the code, ends with the venue, and is eight characters
/// longer than the code.
pub proof fn lemma_instrument_id_shape(code: Seq<char>)
    ensures
        instrument_id_spec(code).len() == code.len() + 8,
        instrument_id_spec(code).subrange(0, code.len() as int) == code,
        instrument_id_spec(code).skip(code.len() as int) == ".SINOPAC"@,
{
    reveal_strlit(".");
    reveal_strlit("SINOPAC");
    reveal_strlit(".SINOPAC");
    assert(instrument_id_spec(code).subrange(0, code.len() as int) =~= code);
    assert(instrument_id_spec(code).skip(code.len() as int) =~= ".SINOPAC"@);
}

} // verus!
