//! Contract terms that the instrument parsers derive from gateway fields.
use vstd::prelude::*;

use super::text::str_equals;

verus! {

/// The multiplier of a futures or options root that the gateway did not
/// report and that is not tabled.
pub const DEFAULT_CONTRACT_MULTIPLIER: u64 = 2000u64;

/// The documented TAIFEX futures multipliers (TWD per index point) by root.
pub open spec fn futures_multiplier_spec(root: Seq<char>) -> Option<u64> {
    if root == "TXF"@ {
        Some(200u64)
    } else if root == "MXF"@ {
        Some(50u64)
    } else if root == "XIF"@ {
        Some(100u64)
    } else if root == "ZEF"@ {
        Some(500u64)
    } else if root == "ZFF"@ {
        Some(250u64)
    } else {
        None
    }
}

/// The documented TAIFEX options multipliers by root.
pub open spec fn options_multiplier_spec(root: Seq<char>) -> Option<u64> {
    if root == "TXO"@ {
        Some(50u64)
    } else {
        None
    }
}

/// The multiplier of a contract: the gateway's when it reports a positive
/// one, else the tabled one of its root, else the default.
pub open spec fn resolve_multiplier_spec(reported: i64, tabled: Option<u64>) -> u64 {
    if reported > 0 {
        reported as u64
    } else {
        match tabled {
            Some(m) => m,
            None => DEFAULT_CONTRACT_MULTIPLIER,
        }
    }
}

/// Looks up the multiplier of a futures root.
pub fn futures_multiplier(root: &str) -> (r: Option<u64>)
    ensures
        r == futures_multiplier_spec(root@),
{
    if str_equals(root, "TXF") {
        Some(200)
    } else if str_equals(root, "MXF") {
        Some(50)
    } else if str_equals(root, "XIF") {
        Some(100)
    } else if str_equals(root, "ZEF") {
        Some(500)
    } else if str_equals(root, "ZFF") {
        Some(250)
    } else {
        None
    }
}

/// Looks up the multiplier of an options root.
pub fn options_multiplier(root: &str) -> (r: Option<u64>)
    ensures
        r == options_multiplier_spec(root@),
{
    if str_equals(root, "TXO") {
        Some(50)
    } else {
        None
    }
}

/// Chooses a contract's multiplier: the gateway-reported one takes priority,
/// a zero or negative report falls back to the root table and then to
/// [`DEFAULT_CONTRACT_MULTIPLIER`].
pub fn resolve_multiplier(reported: i64, tabled: Option<u64>) -> (r: u64)
    ensures
        r == resolve_multiplier_spec(reported, tabled),
        reported > 0 ==> r == reported,
        r > 0 || tabled == Some(0u64),
{
    if reported > 0 {
        reported as u64
    } else {
        match tabled {
            Some(m) => m,
            None => DEFAULT_CONTRACT_MULTIPLIER,
        }
    }
}

/// A positive gateway-reported multiplier is used as it is, whatever the
/// root table holds (a tabled root, or none); only a report of zero or less
/// falls back, to the root's tabled multiplier when there is one and to
/// 2000 otherwise.
pub proof fn lemma_reported_multiplier_takes_priority(reported: i64, tabled: Option<u64>)
    ensures
        reported > 0 ==> resolve_multiplier_spec(reported, tabled) == reported,
        reported <= 0 ==> (tabled matches Some(m) ==> resolve_multiplier_spec(reported, tabled) == m),
        reported <= 0 && tabled is None ==> resolve_multiplier_spec(reported, tabled) == 2000,
        forall|other: Option<u64>| reported > 0
            ==> resolve_multiplier_spec(reported, tabled) == resolve_multiplier_spec(reported, other),
{
}

/// The underlying of a contract: its reported underlying code, or its root
/// symbol when the code is empty.
pub open spec fn underlying_spec(underlying_code: Seq<char>, root: Seq<char>) -> Seq<char> {
    if underlying_code.len() == 0 {
        root
    } else {
        underlying_code
    }
}

/// Chooses a contract's underlying symbol.
pub fn resolve_underlying(underlying_code: &str, root: &str) -> (r: String)
    ensures
        r@ == underlying_spec(underlying_code@, root@),
{
    if underlying_code.is_empty() {
        String::from_str(root)
    } else {
        String::from_str(underlying_code)
    }
}

/// Whether an underlying kind names an index (asset class index, else equity).
pub fn underlying_is_index(underlying_kind: &str) -> (r: bool)
    ensures
        r == (underlying_kind@ == "I"@),
{
    str_equals(underlying_kind, "I")
}

/// The right of an option contract.
#[derive(Clone, Copy, Debug, PartialEq, Eq, Structural)]
pub enum OptionRight {
    /// A call.
    Call,
    /// A put.
    Put,
}

/// The option right named by a gateway `option_right` field.
pub open spec fn option_right_spec(right: Seq<char>) -> Option<OptionRight> {
    if right == "C"@ {
        Some(OptionRight::Call)
    } else if right == "P"@ {
        Some(OptionRight::Put)
    } else {
        None
    }
}

/// Parses an option right: `C` is a call, `P` a put; anything else is refused.
pub fn parse_option_right(right: &str) -> (r: Option<OptionRight>)
    ensures
        r == option_right_spec(right@),
{
    if str_equals(right, "C") {
        Some(OptionRight::Call)
    } else if str_equals(right, "P") {
        Some(OptionRight::Put)
    } else {
        None
    }
}

/// Which side of a trade was the aggressor.
#[derive(Clone, Copy, Debug, PartialEq, Eq, Structural)]
pub enum TickAggressor {
    /// The buyer lifted the offer.
    Buyer,
    /// The seller hit the bid.
    Seller,
    /// Unknown or no aggressor.
    NoAggressor,
}

/// The aggressor named by a gateway tick type: 1 buyer, 2 seller, anything
/// else (or none) no aggressor.
pub open spec fn aggressor_spec(tick_type: Option<i32>) -> TickAggressor {
    match tick_type {
        Some(1i32) => TickAggressor::Buyer,
        Some(2i32) => TickAggressor::Seller,
        _ => TickAggressor::NoAggressor,
    }
}

/// Maps a gateway tick type to the trade aggressor.
pub fn aggressor_from_tick_type(tick_type: Option<i32>) -> (r: TickAggressor)
    ensures
        r == aggressor_spec(tick_type),
{
    match tick_type {
        Some(1) => TickAggressor::Buyer,
        Some(2) => TickAggressor::Seller,
        _ => TickAggressor::NoAggressor,
    }
}

/// The documented multiplier tables: TXF 200, MXF 50, XIF 100, ZEF 500 and
/// ZFF 250 TWD per point for futures, TXO 50 for options; every other root
/// is untabled.
pub proof fn lemma_multiplier_tables(root: Seq<char>)
    ensures
        root == "TXF"@ ==> futures_multiplier_spec(root) == Some(200u64),
        root == "MXF"@ ==> futures_multiplier_spec(root) == Some(50u64),
        root == "XIF"@ ==> futures_multiplier_spec(root) == Some(100u64),
        root == "ZEF"@ ==> futures_multiplier_spec(root) == Some(500u64),
        root == "ZFF"@ ==> futures_multiplier_spec(root) == Some(250u64),
        root != "TXF"@ && root != "MXF"@ && root != "XIF"@ && root != "ZEF"@ && root != "ZFF"@
            ==> futures_multiplier_spec(root) is None,
        root == "TXO"@ ==> options_multiplier_spec(root) == Some(50u64),
        root != "TXO"@ ==> options_multiplier_spec(root) is None,
{
    reveal_strlit("TXF");
    reveal_strlit("MXF");
    reveal_strlit("XIF");
    reveal_strlit("ZEF");
    reveal_strlit("ZFF");
    assert("MXF"@[0] != "TXF"@[0]);
    assert("XIF"@[0] != "TXF"@[0] && "XIF"@[0] != "MXF"@[0]);
    assert("ZEF"@[0] != "TXF"@[0] && "ZEF"@[0] != "MXF"@[0] && "ZEF"@[0] != "XIF"@[0]);
    assert("ZFF"@[0] != "TXF"@[0] && "ZFF"@[0] != "MXF"@[0] && "ZFF"@[0] != "XIF"@[0]
        && "ZFF"@[1] != "ZEF"@[1]);
}

/// A contract's underlying is its reported underlying code whenever that
/// code is non-empty, and its root symbol only when the code is empty.
pub proof fn lemma_underlying_prefers_reported_code(underlying_code: Seq<char>, root: Seq<char>)
    ensures
        underlying_code.len() > 0 ==> underlying_spec(underlying_code, root) == underlying_code,
        underlying_code.len() == 0 ==> underlying_spec(underlying_code, root) == root,
{
}

/// `C` names a call and `P` a put, and no other text names a right; tick
/// type 1 names the buyer and 2 the seller as aggressor, and any other tick
/// type (or none) names no aggressor.
pub proof fn lemma_right_and_aggressor_names(right: Seq<char>, tick_type: Option<i32>)
    ensures
        right == "C"@ ==> option_right_spec(right) == Some(OptionRight::Call),
        right == "P"@ ==> option_right_spec(right) == Some(OptionRight::Put),
        right != "C"@ && right != "P"@ ==> option_right_spec(right) is None,
        tick_type == Some(1i32) ==> aggressor_spec(tick_type) == TickAggressor::Buyer,
        tick_type == Some(2i32) ==> aggressor_spec(tick_type) == TickAggressor::Seller,
        tick_type != Some(1i32) && tick_type != Some(2i32)
            ==> aggressor_spec(tick_type) == TickAggressor::NoAggressor,
{
    reveal_strlit("C");
    reveal_strlit("P");
    assert("C"@[0] != "P"@[0]);
}

} // verus!
