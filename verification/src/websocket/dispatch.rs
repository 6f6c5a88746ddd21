//! What a streamed market data message is turned into.
//!
//! A tick becomes a trade; a bid/ask snapshot becomes the outputs selected by
//! its contract's emit flags, in the order quote, depth snapshot, delta batch.
//! Either is dropped when its contract has no known instrument or its
//! timestamp does not read; these checks come in that order.
use vstd::prelude::*;

use crate::common::parse::TimeError;
use super::emit::{emits_deltas, emits_depth, emits_quote, emits_spec, BIDASK_EMIT_DELTAS, BIDASK_EMIT_DEPTH, BIDASK_EMIT_QUOTE};
use super::parse::{parse_taiwan_timestamp, taiwan_timestamp_spec};

verus! {

/// A market data object built from a streamed message.
#[derive(Clone, Copy, Debug, PartialEq, Eq, Structural)]
pub enum MarketOutput {
    /// A trade tick.
    Trade,
    /// A top-of-book quote.
    Quote,
    /// A ten-level depth snapshot.
    Depth10,
    /// A clear-and-add delta batch.
    Deltas,
}

/// Why a streamed market data message yields nothing.
#[derive(Clone, Copy, Debug, PartialEq, Eq, Structural)]
pub enum SkipReason {
    /// No instrument is known for the contract code.
    UnknownInstrument,
    /// The message timestamp does not read.
    BadTimestamp(TimeError),
    /// The contract's emit flags select no output.
    NothingSelected,
}

/// What to do with a streamed market data message.
#[derive(Clone, Debug)]
pub enum MarketPlan {
    /// Build these outputs, in order, with this event time (UNIX nanoseconds).
    Emit {
        /// The event time.
        ts_event: u64,
        /// The outputs to build, in order.
        outputs: Vec<MarketOutput>,
    },
    /// Build nothing.
    Skip(SkipReason),
}

/// The plan as plain values: the event time and the outputs, or the reason
/// nothing is built.
pub open spec fn plan_view(p: MarketPlan) -> Result<(u64, Seq<MarketOutput>), SkipReason> {
    match p {
        MarketPlan::Emit { ts_event, outputs } => Ok((ts_event, outputs@)),
        MarketPlan::Skip(reason) => Err(reason),
    }
}

/// The outputs that emit flags select, in the order quote, depth, deltas.
pub open spec fn bidask_outputs_spec(flags: u8) -> Seq<MarketOutput> {
    (if emits_spec(flags, BIDASK_EMIT_QUOTE) { seq![MarketOutput::Quote] } else { Seq::empty() })
        + (if emits_spec(flags, BIDASK_EMIT_DEPTH) { seq![MarketOutput::Depth10] } else { Seq::empty() })
        + (if emits_spec(flags, BIDASK_EMIT_DELTAS) { seq![MarketOutput::Deltas] } else { Seq::empty() })
}

/// The plan for a message with the given outputs: refused for an unknown
/// instrument, then for an unreadable timestamp, then when nothing is selected.
pub open spec fn market_plan_spec(
    instrument_known: bool,
    timestamp: Seq<char>,
    outputs: Seq<MarketOutput>,
) -> Result<(u64, Seq<MarketOutput>), SkipReason> {
    if !instrument_known {
        Err(SkipReason::UnknownInstrument)
    } else {
        match taiwan_timestamp_spec(timestamp) {
            Err(e) => Err(SkipReason::BadTimestamp(e)),
            Ok(ts) => if outputs.len() == 0 {
                Err(SkipReason::NothingSelected)
            } else {
                Ok((ts, outputs))
            },
        }
    }
}

fn plan_outputs(instrument_known: bool, timestamp: &str, outputs: Vec<MarketOutput>) -> (r: MarketPlan)
    ensures
        plan_view(r) == market_plan_spec(instrument_known, timestamp@, outputs@),
{
    if !instrument_known {
        return MarketPlan::Skip(SkipReason::UnknownInstrument);
    }
    match parse_taiwan_timestamp(timestamp) {
        Err(e) => MarketPlan::Skip(SkipReason::BadTimestamp(e)),
        Ok(ts_event) => if outputs.len() == 0 {
            MarketPlan::Skip(SkipReason::NothingSelected)
        } else {
            MarketPlan::Emit { ts_event, outputs }
        },
    }
}

/// Plans a streamed tick: one trade at the tick's time, if its instrument
/// is known and its timestamp reads.
pub fn plan_tick(instrument_known: bool, timestamp: &str) -> (r: MarketPlan)
    ensures
        plan_view(r) == market_plan_spec(instrument_known, timestamp@, seq![MarketOutput::Trade]),
{
    let mut outputs: Vec<MarketOutput> = Vec::new();
    outputs.push(MarketOutput::Trade);
    assert(outputs@ =~= seq![MarketOutput::Trade]);
    plan_outputs(instrument_known, timestamp, outputs)
}

/// Plans a streamed bid/ask snapshot: the outputs its emit flags select, at
/// the snapshot's time, if its instrument is known and its timestamp reads.
pub fn plan_bidask(instrument_known: bool, timestamp: &str, flags: u8) -> (r: MarketPlan)
    ensures
        plan_view(r) == market_plan_spec(instrument_known, timestamp@, bidask_outputs_spec(flags)),
{
    let mut outputs: Vec<MarketOutput> = Vec::new();
    let ghost quote_part: Seq<MarketOutput> =
        if emits_spec(flags, BIDASK_EMIT_QUOTE) { seq![MarketOutput::Quote] } else { Seq::empty() };
    let ghost depth_part: Seq<MarketOutput> =
        if emits_spec(flags, BIDASK_EMIT_DEPTH) { seq![MarketOutput::Depth10] } else { Seq::empty() };
    let ghost deltas_part: Seq<MarketOutput> =
        if emits_spec(flags, BIDASK_EMIT_DELTAS) { seq![MarketOutput::Deltas] } else { Seq::empty() };
    if emits_quote(flags) {
        outputs.push(MarketOutput::Quote);
    }
    assert(outputs@ =~= quote_part);
    if emits_depth(flags) {
        outputs.push(MarketOutput::Depth10);
    }
    assert(outputs@ =~= quote_part + depth_part);
    if emits_deltas(flags) {
        outputs.push(MarketOutput::Deltas);
    }
    assert(outputs@ =~= quote_part + depth_part + deltas_part);
    plan_outputs(instrument_known, timestamp, outputs)
}

/// A bid/ask snapshot of a known instrument with a readable timestamp builds
/// exactly the outputs its flags select, and is skipped for zero flags.
pub proof fn lemma_bidask_plan_follows_flags(flags: u8, timestamp: Seq<char>)
    requires
        taiwan_timestamp_spec(timestamp) is Ok,
    ensures
        (flags & 7u8 == 0u8) ==> market_plan_spec(true, timestamp, bidask_outputs_spec(flags))
            == Err::<(u64, Seq<MarketOutput>), SkipReason>(SkipReason::NothingSelected),
        (flags & 7u8 != 0u8) ==> (market_plan_spec(true, timestamp, bidask_outputs_spec(flags))
            matches Ok((_, outs)) && outs == bidask_outputs_spec(flags)),
        bidask_outputs_spec(flags).contains(MarketOutput::Quote) == emits_spec(flags, BIDASK_EMIT_QUOTE),
        bidask_outputs_spec(flags).contains(MarketOutput::Depth10) == emits_spec(flags, BIDASK_EMIT_DEPTH),
        bidask_outputs_spec(flags).contains(MarketOutput::Deltas) == emits_spec(flags, BIDASK_EMIT_DELTAS),
        !bidask_outputs_spec(flags).contains(MarketOutput::Trade),
{
    assert((flags & 7u8 == 0u8) == (flags & 1u8 == 0u8 && flags & 2u8 == 0u8 && flags & 4u8 == 0u8))
        by (bit_vector);
    let q: Seq<MarketOutput> =
        if emits_spec(flags, BIDASK_EMIT_QUOTE) { seq![MarketOutput::Quote] } else { Seq::empty() };
    let d: Seq<MarketOutput> =
        if emits_spec(flags, BIDASK_EMIT_DEPTH) { seq![MarketOutput::Depth10] } else { Seq::empty() };
    let l: Seq<MarketOutput> =
        if emits_spec(flags, BIDASK_EMIT_DELTAS) { seq![MarketOutput::Deltas] } else { Seq::empty() };
    let all = bidask_outputs_spec(flags);
    assert(all == q + d + l);
    assert forall|o: MarketOutput| all.contains(o) <==> (q.contains(o) || d.contains(o) || l.contains(o)) by {
        if all.contains(o) {
            let i = choose|i: int| 0 <= i < all.len() && all[i] == o;
            if i < q.len() {
                assert(q[i] == o);
            } else if i < q.len() + d.len() {
                assert(d[i - q.len()] == o);
            } else {
                assert(l[i - q.len() - d.len()] == o);
            }
        }
        if q.contains(o) {
            assert(all[0] == o);
        }
        if d.contains(o) {
            assert(all[q.len() as int] == o);
        }
        if l.contains(o) {
            assert(all[(q.len() + d.len()) as int] == o);
        }
    }
    assert(q.contains(MarketOutput::Quote) == emits_spec(flags, BIDASK_EMIT_QUOTE)) by {
        if emits_spec(flags, BIDASK_EMIT_QUOTE) { assert(q[0] == MarketOutput::Quote); }
    }
    assert(d.contains(MarketOutput::Depth10) == emits_spec(flags, BIDASK_EMIT_DEPTH)) by {
        if emits_spec(flags, BIDASK_EMIT_DEPTH) { assert(d[0] == MarketOutput::Depth10); }
    }
    assert(l.contains(MarketOutput::Deltas) == emits_spec(flags, BIDASK_EMIT_DELTAS)) by {
        if emits_spec(flags, BIDASK_EMIT_DELTAS) { assert(l[0] == MarketOutput::Deltas); }
    }
}

/// A message for an unknown instrument is skipped as such whatever its
/// timestamp and outputs; for a known one, an unreadable timestamp is
/// skipped with its reason; otherwise the outputs are built as given, in
/// order, at the timestamp's time, unless there are none. A tick always
/// builds exactly one trade.
pub proof fn lemma_market_plan_meaning(
    instrument_known: bool,
    timestamp: Seq<char>,
    outputs: Seq<MarketOutput>,
)
    ensures
        !instrument_known ==> market_plan_spec(instrument_known, timestamp, outputs)
            == Err::<(u64, Seq<MarketOutput>), SkipReason>(SkipReason::UnknownInstrument),
        instrument_known ==> (taiwan_timestamp_spec(timestamp) matches Err(e)
            ==> market_plan_spec(instrument_known, timestamp, outputs)
                == Err::<(u64, Seq<MarketOutput>), SkipReason>(SkipReason::BadTimestamp(e))),
        instrument_known && outputs.len() > 0 ==> (taiwan_timestamp_spec(timestamp) matches Ok(t)
            ==> market_plan_spec(instrument_known, timestamp, outputs)
                == Ok::<(u64, Seq<MarketOutput>), SkipReason>((t, outputs))),
        market_plan_spec(instrument_known, timestamp, outputs) matches Ok((_, outs)) ==> outs == outputs,
        market_plan_spec(instrument_known, timestamp, seq![MarketOutput::Trade]) matches Ok((_, outs))
            ==> outs.len() == 1 && outs[0] == MarketOutput::Trade,
        instrument_known && taiwan_timestamp_spec(timestamp) is Ok
            ==> market_plan_spec(instrument_known, timestamp, seq![MarketOutput::Trade]) is Ok,
{
}

} // verus!
