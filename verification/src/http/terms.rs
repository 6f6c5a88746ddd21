//! The terms of TAIFEX futures and options instruments, derived from the
//! non-price fields of gateway contracts.
use vstd::prelude::*;

use crate::common::instrument::{
    futures_multiplier, futures_multiplier_spec, option_right_spec, options_multiplier,
    options_multiplier_spec, parse_option_right, resolve_multiplier, resolve_multiplier_spec,
    resolve_underlying, underlying_is_index, underlying_spec, OptionRight,
};
use crate::common::parse::{instrument_id_spec, instrument_id_text, TimeError};
use crate::common::tick_size::{futures_tick_for_contract, futures_tick_spec, options_tick_size, options_tick_spec, TickSize};
use super::parse::{date_nanos_spec, parse_date_to_nanos};

verus! {

/// The non-price fields of a gateway futures or options contract that its
/// instrument terms depend on.
#[derive(Clone, Debug)]
pub struct DerivativeContractFields {
    /// The contract code.
    pub code: String,
    /// The product category (root symbol).
    pub category: String,
    /// The underlying kind (`I` index, `S` stock, `E` ETF, `C` commodity).
    pub underlying_kind: String,
    /// The underlying code; empty when the gateway did not send one.
    pub underlying_code: String,
    /// The delivery date.
    pub delivery_date: String,
    /// The contract update date.
    pub update_date: String,
    /// The reference price rounded down to whole TWD (see the tick schedules).
    pub reference_level: i64,
    /// The gateway multiplier; zero when the gateway did not send one.
    pub multiplier: i64,
}

/// The terms of a futures or options instrument.
#[derive(Clone, Debug)]
pub struct DerivativeTerms {
    /// The instrument identifier text.
    pub instrument_id: String,
    /// The tick size and price precision.
    pub tick: TickSize,
    /// The contract multiplier.
    pub multiplier: u64,
    /// The underlying symbol.
    pub underlying: String,
    /// Whether the underlying is an index (asset class index, else equity).
    pub is_index: bool,
    /// The expiration, UNIX nanoseconds.
    pub expiration_ns: u64,
    /// The activation, UNIX nanoseconds.
    pub activation_ns: u64,
}

/// The activation time of a contract: its update date, or the event time
/// when the update date does not parse.
pub open spec fn activation_spec(update_date: Seq<char>, ts_event: u64) -> u64 {
    match date_nanos_spec(update_date) {
        Ok(n) => n,
        Err(_) => ts_event,
    }
}

/// Whether terms are those of a contract, given its tick, its multiplier
/// table entry and its expiration.
pub open spec fn derivative_terms_match(
    t: DerivativeTerms,
    c: DerivativeContractFields,
    tick: TickSize,
    tabled: Option<u64>,
    expiration: u64,
    ts_event: u64,
) -> bool {
    &&& t.instrument_id@ == instrument_id_spec(c.code@)
    &&& t.tick == tick
    &&& t.multiplier == resolve_multiplier_spec(c.multiplier, tabled)
    &&& t.underlying@ == underlying_spec(c.underlying_code@, c.category@)
    &&& t.is_index == (c.underlying_kind@ == "I"@)
    &&& t.expiration_ns == expiration
    &&& t.activation_ns == activation_spec(c.update_date@, ts_event)
}

fn derivative_terms(
    c: &DerivativeContractFields,
    tick: TickSize,
    tabled: Option<u64>,
    ts_event: u64,
) -> (r: Result<DerivativeTerms, TimeError>)
    ensures
        match (r, date_nanos_spec(c.delivery_date@)) {
            (Ok(t), Ok(e)) => derivative_terms_match(t, *c, tick, tabled, e, ts_event),
            (Err(e), Err(se)) => e == se,
            _ => false,
        },
{
    let expiration_ns = match parse_date_to_nanos(c.delivery_date.as_str()) {
        Ok(n) => n,
        Err(e) => return Err(e),
    };
    let activation_ns = match parse_date_to_nanos(c.update_date.as_str()) {
        Ok(n) => n,
        Err(_) => ts_event,
    };
    Ok(DerivativeTerms {
        instrument_id: instrument_id_text(c.code.as_str()),
        tick,
        multiplier: resolve_multiplier(c.multiplier, tabled),
        underlying: resolve_underlying(c.underlying_code.as_str(), c.category.as_str()),
        is_index: underlying_is_index(c.underlying_kind.as_str()),
        expiration_ns,
        activation_ns,
    })
}

/// Derives the terms of a futures instrument: the tick by underlying kind,
/// the gateway multiplier or else the root table, the underlying code or else
/// the root, the delivery date as expiration (which must parse) and the
/// update date as activation (falling back to the event time).
pub fn futures_contract_terms(c: &DerivativeContractFields, ts_event: u64) -> (r: Result<DerivativeTerms, TimeError>)
    ensures
        r is Ok <==> date_nanos_spec(c.delivery_date@) is Ok,
        match (r, date_nanos_spec(c.delivery_date@)) {
            (Ok(t), Ok(e)) => derivative_terms_match(
                t,
                *c,
                futures_tick_spec(c.underlying_kind@, c.category@, c.reference_level),
                futures_multiplier_spec(c.category@),
                e,
                ts_event,
            ),
            (Err(e), Err(se)) => e == se,
            _ => false,
        },
{
    let tick = futures_tick_for_contract(c.underlying_kind.as_str(), c.category.as_str(), c.reference_level);
    let tabled = futures_multiplier(c.category.as_str());
    derivative_terms(c, tick, tabled, ts_event)
}

/// Why an options contract has no instrument terms.
#[derive(Clone, Copy, Debug, PartialEq, Eq, Structural)]
pub enum OptionTermsError {
    /// The option right is neither `C` nor `P`.
    UnknownOptionRight,
    /// The delivery date does not give an expiration.
    Expiration(TimeError),
}

/// Derives the terms of an options instrument and its right: the premium
/// tick from the reference price, the gateway multiplier or else the root
/// table, and the right from `C`/`P`; an unknown right is refused before the
/// dates are read.
pub fn options_contract_terms(
    c: &DerivativeContractFields,
    option_right: &str,
    ts_event: u64,
) -> (r: Result<(DerivativeTerms, OptionRight), OptionTermsError>)
    ensures
        (r is Ok) <==> ((option_right@ == "C"@ || option_right@ == "P"@)
            && date_nanos_spec(c.delivery_date@) is Ok),
        r matches Ok((_, right)) ==> (right == OptionRight::Call <==> option_right@ == "C"@),
        match option_right_spec(option_right@) {
            None => r == Err::<(DerivativeTerms, OptionRight), OptionTermsError>(OptionTermsError::UnknownOptionRight),
            Some(right) => match (r, date_nanos_spec(c.delivery_date@)) {
                (Ok((t, rr)), Ok(e)) => rr == right && derivative_terms_match(
                    t,
                    *c,
                    options_tick_spec(c.reference_level),
                    options_multiplier_spec(c.category@),
                    e,
                    ts_event,
                ),
                (Err(OptionTermsError::Expiration(e)), Err(se)) => e == se,
                _ => false,
            },
        },
{
    let tick = options_tick_size(c.reference_level);
    let tabled = options_multiplier(c.category.as_str());
    let right = match parse_option_right(option_right) {
        Some(r) => r,
        None => return Err(OptionTermsError::UnknownOptionRight),
    };
    match derivative_terms(c, tick, tabled, ts_event) {
        Ok(t) => Ok((t, right)),
        Err(e) => Err(OptionTermsError::Expiration(e)),
    }
}

/// The terms of a contract: its identifier is its code followed by
/// `.SINOPAC`; a positive reported multiplier is kept as it is; a non-empty
/// underlying code is kept, an empty one gives way to the root; the asset
/// class is an index exactly for underlying kind `I`; the expiration is the
/// delivery date; and the activation is the update date, or the event time
/// when the update date does not read.
pub proof fn lemma_derivative_terms_meaning(
    t: DerivativeTerms,
    c: DerivativeContractFields,
    tick: TickSize,
    tabled: Option<u64>,
    expiration: u64,
    ts_event: u64,
)
    requires
        derivative_terms_match(t, c, tick, tabled, expiration, ts_event),
    ensures
        t.instrument_id@ == c.code@ + ".SINOPAC"@,
        c.multiplier > 0 ==> t.multiplier == c.multiplier,
        c.multiplier <= 0 && tabled is None ==> t.multiplier == 2000,
        c.underlying_code@.len() > 0 ==> t.underlying@ == c.underlying_code@,
        c.underlying_code@.len() == 0 ==> t.underlying@ == c.category@,
        t.is_index <==> c.underlying_kind@ == "I"@,
        t.expiration_ns == expiration,
        date_nanos_spec(c.update_date@) is Err ==> t.activation_ns == ts_event,
        date_nanos_spec(c.update_date@) matches Ok(n) ==> t.activation_ns == n,
        t.tick == tick,
{
    reveal_strlit(".");
    reveal_strlit("SINOPAC");
    reveal_strlit(".SINOPAC");
    assert("."@ + "SINOPAC"@ =~= ".SINOPAC"@);
    assert(c.code@ + "."@ + "SINOPAC"@ =~= c.code@ + ".SINOPAC"@);
}

} // verus!
