//! Parsing rules for WebSocket market data.
use vstd::prelude::*;

use crate::common::datetime::{chrono_naive_datetime_parse, parse_naive_datetime};
use crate::common::parse::{taiwan_naive_to_unix_nanos, taiwan_unix_nanos_spec, TimeError};
use crate::common::text::concat3;

verus! {

/// The timestamp format with fractional seconds.
pub open spec fn fractional_format() -> Seq<char> {
    "%Y-%m-%d %H:%M:%S%.f"@
}

/// The timestamp format without fractional seconds.
pub open spec fn whole_second_format() -> Seq<char> {
    "%Y-%m-%d %H:%M:%S"@
}

/// The UNIX nanoseconds of a Taiwan-time timestamp text: read with the
/// fractional format, else with the whole-second format, then shifted from
/// UTC+8.
pub open spec fn taiwan_timestamp_spec(ts: Seq<char>) -> Result<u64, TimeError> {
    match chrono_naive_datetime_parse(ts, fractional_format()) {
        Some(dt) => taiwan_unix_nanos_spec(dt),
        None => match chrono_naive_datetime_parse(ts, whole_second_format()) {
            Some(dt) => taiwan_unix_nanos_spec(dt),
            None => Err(TimeError::InvalidFormat),
        },
    }
}

/// Parses a Taiwan local-time timestamp (`YYYY-MM-DD HH:MM:SS[.ffffff]`,
/// UTC+8) to UNIX nanoseconds.
pub fn parse_taiwan_timestamp(ts: &str) -> (r: Result<u64, TimeError>)
    ensures
        r == taiwan_timestamp_spec(ts@),
{
    let fractional = "%Y-%m-%d %H:%M:%S%.f";
    let whole = "%Y-%m-%d %H:%M:%S";
    assert(fractional@ == fractional_format());
    assert(whole@ == whole_second_format());
    match parse_naive_datetime(ts, fractional) {
        Some(dt) => taiwan_naive_to_unix_nanos(dt),
        None => match parse_naive_datetime(ts, whole) {
            Some(dt) => taiwan_naive_to_unix_nanos(dt),
            None => Err(TimeError::InvalidFormat),
        },
    }
}

/// The trade identifier of a streamed tick: `{code}-{timestamp}`.
pub open spec fn ws_trade_id_spec(code: Seq<char>, timestamp: Seq<char>) -> Seq<char> {
    code + "-"@ + timestamp
}

/// Builds the trade identifier of a streamed tick from its contract code and
/// its timestamp text.
pub fn ws_trade_id(code: &str, timestamp: &str) -> (r: String)
    ensures
        r@ == ws_trade_id_spec(code@, timestamp@),
{
    concat3(code, "-", timestamp)
}

/// A streamed trade identifier is the contract code, `-`, and the
/// timestamp text as it was sent.
pub proof fn lemma_ws_trade_id_shape(code: Seq<char>, timestamp: Seq<char>)
    ensures
        ws_trade_id_spec(code, timestamp).len() == code.len() + 1 + timestamp.len(),
        ws_trade_id_spec(code, timestamp).subrange(0, code.len() as int) == code,
        ws_trade_id_spec(code, timestamp)[code.len() as int] == '-',
        ws_trade_id_spec(code, timestamp).skip(code.len() as int + 1) == timestamp,
{
    reveal_strlit("-");
    let t = ws_trade_id_spec(code, timestamp);
    assert(t.subrange(0, code.len() as int) =~= code);
    assert(t.skip(code.len() as int + 1) =~= timestamp);
}

/// A timestamp that reads with fractional seconds is taken that way; one
/// that reads with neither format is refused as `InvalidFormat`, and any
/// other refusal comes from the instant's range.
pub proof fn lemma_taiwan_timestamp_formats(ts: Seq<char>)
    ensures
        chrono_naive_datetime_parse(ts, "%Y-%m-%d %H:%M:%S%.f"@) matches Some(dt)
            ==> taiwan_timestamp_spec(ts) == taiwan_unix_nanos_spec(dt),
        chrono_naive_datetime_parse(ts, "%Y-%m-%d %H:%M:%S%.f"@) is None
            && chrono_naive_datetime_parse(ts, "%Y-%m-%d %H:%M:%S"@) is None
            ==> taiwan_timestamp_spec(ts) == Err::<u64, TimeError>(TimeError::InvalidFormat),
        taiwan_timestamp_spec(ts) == Err::<u64, TimeError>(TimeError::InvalidFormat)
            ==> chrono_naive_datetime_parse(ts, "%Y-%m-%d %H:%M:%S%.f"@) is None
                && chrono_naive_datetime_parse(ts, "%Y-%m-%d %H:%M:%S"@) is None,
{
}

} // verus!
