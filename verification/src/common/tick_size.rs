//! Tick size schedules of TWSE and TAIFEX instruments.
//!
//! A reference price enters these schedules as its whole part: every tier
//! boundary is a whole number of TWD, so `price < boundary` holds exactly when
//! `floor(price) < boundary`. A price with no value (NaN) enters as `i64::MIN`,
//! in the lowest tier.
use vstd::prelude::*;

use super::text::str_equals;

verus! {

/// A tick size written as `units * 10^-precision`, together with the price
/// precision (number of decimals) of the instrument's price grid.
#[derive(Clone, Copy, Debug, PartialEq, Eq, Structural)]
pub struct TickSize {
    /// The tick size in units of `10^-precision`.
    pub units: u32,
    /// The price precision in decimals.
    pub precision: u8,
}

impl TickSize {
    /// The tick size in hundredths of a price unit (meaningful for precisions up to 2).
    pub open spec fn hundredths(self) -> int {
        if self.precision == 0 {
            self.units * 100
        } else if self.precision == 1 {
            self.units * 10
        } else {
            self.units as int
        }
    }
}

/// The common-stock price grid of TWSE:
/// below 10: 0.01; below 50: 0.05; below 100: 0.10; below 500: 0.50;
/// below 1000: 1.0 (precision 1); otherwise 5.0 (precision 1).
pub open spec fn twse_stock_tick_spec(reference: i64) -> TickSize {
    if reference < 10 {
        TickSize { units: 1, precision: 2 }
    } else if reference < 50 {
        TickSize { units: 5, precision: 2 }
    } else if reference < 100 {
        TickSize { units: 10, precision: 2 }
    } else if reference < 500 {
        TickSize { units: 50, precision: 2 }
    } else if reference < 1000 {
        TickSize { units: 10, precision: 1 }
    } else {
        TickSize { units: 50, precision: 1 }
    }
}

/// The ETF price grid of TWSE: below 50: 0.01; otherwise 0.05 (precision 2).
pub open spec fn twse_etf_tick_spec(reference: i64) -> TickSize {
    if reference < 50 {
        TickSize { units: 1, precision: 2 }
    } else {
        TickSize { units: 5, precision: 2 }
    }
}

/// The TAIFEX options premium grid: below 10: 0.1 (precision 1); otherwise 1.0 (precision 0).
pub open spec fn options_tick_spec(reference: i64) -> TickSize {
    if reference < 10 {
        TickSize { units: 1, precision: 1 }
    } else {
        TickSize { units: 1, precision: 0 }
    }
}

/// The TAIFEX index and sector-index futures table by root symbol.
pub open spec fn index_futures_tick_spec(root: Seq<char>) -> Option<TickSize> {
    if root == "TXF"@ || root == "MXF"@ || root == "T5F"@ || root == "XIF"@ {
        Some(TickSize { units: 1, precision: 0 })
    } else if root == "ZEF"@ {
        Some(TickSize { units: 5, precision: 2 })
    } else if root == "ZFF"@ {
        Some(TickSize { units: 2, precision: 1 })
    } else {
        None
    }
}

/// The fallback tick of a futures contract whose grid is not tabled: 1.0 (precision 0).
pub open spec fn default_futures_tick() -> TickSize {
    TickSize { units: 1, precision: 0 }
}

/// The futures grid chosen from a contract's underlying kind: index roots by
/// table (unknown roots fall back), common-stock underlyings by the stock grid,
/// ETF underlyings by the ETF grid, and every other kind falls back.
pub open spec fn futures_tick_spec(underlying_kind: Seq<char>, root: Seq<char>, reference: i64) -> TickSize {
    if underlying_kind == "I"@ {
        match index_futures_tick_spec(root) {
            Some(t) => t,
            None => default_futures_tick(),
        }
    } else if underlying_kind == "S"@ {
        twse_stock_tick_spec(reference)
    } else if underlying_kind == "E"@ {
        twse_etf_tick_spec(reference)
    } else {
        default_futures_tick()
    }
}

/// Returns the TWSE tick size and price precision for a stock reference price.
pub fn twse_stock_tick_size(reference: i64) -> (r: TickSize)
    ensures
        r == twse_stock_tick_spec(reference),
{
    if reference < 10 {
        TickSize { units: 1, precision: 2 }
    } else if reference < 50 {
        TickSize { units: 5, precision: 2 }
    } else if reference < 100 {
        TickSize { units: 10, precision: 2 }
    } else if reference < 500 {
        TickSize { units: 50, precision: 2 }
    } else if reference < 1000 {
        TickSize { units: 10, precision: 1 }
    } else {
        TickSize { units: 50, precision: 1 }
    }
}

/// Returns the TWSE tick size and price precision for an ETF reference price.
pub fn twse_etf_tick_size(reference: i64) -> (r: TickSize)
    ensures
        r == twse_etf_tick_spec(reference),
        r.precision == 2,
        r.hundredths() == (if reference < 50 { 1int } else { 5int }),
{
    if reference < 50 {
        TickSize { units: 1, precision: 2 }
    } else {
        TickSize { units: 5, precision: 2 }
    }
}

/// Returns the tick size and precision for a TAIFEX index or sector futures
/// root, or `None` for a root that is not tabled.
pub fn index_futures_tick_size(root: &str) -> (r: Option<TickSize>)
    ensures
        r == index_futures_tick_spec(root@),
{
    if str_equals(root, "TXF") || str_equals(root, "MXF") || str_equals(root, "T5F")
        || str_equals(root, "XIF") {
        Some(TickSize { units: 1, precision: 0 })
    } else if str_equals(root, "ZEF") {
        Some(TickSize { units: 5, precision: 2 })
    } else if str_equals(root, "ZFF") {
        Some(TickSize { units: 2, precision: 1 })
    } else {
        None
    }
}

/// Returns the tick size and precision of a TAIFEX single-stock or
/// ETF-underlying equity future: the same grid as the underlying common stock.
pub fn single_stock_futures_tick_size(reference: i64) -> (r: TickSize)
    ensures
        r == twse_stock_tick_spec(reference),
{
    twse_stock_tick_size(reference)
}

/// Returns the tick size and precision for TAIFEX options, using the
/// reference price as a proxy for the premium level.
pub fn options_tick_size(reference: i64) -> (r: TickSize)
    ensures
        r == options_tick_spec(reference),
{
    if reference < 10 {
        TickSize { units: 1, precision: 1 }
    } else {
        TickSize { units: 1, precision: 0 }
    }
}

/// Selects the tick size and precision of a futures contract from its
/// underlying kind (`I` index, `S` common stock, `E` ETF), its root symbol and
/// its reference price.
pub fn futures_tick_for_contract(underlying_kind: &str, root: &str, reference: i64) -> (r: TickSize)
    ensures
        r == futures_tick_spec(underlying_kind@, root@, reference),
{
    if str_equals(underlying_kind, "I") {
        match index_futures_tick_size(root) {
            Some(t) => t,
            None => TickSize { units: 1, precision: 0 },
        }
    } else if str_equals(underlying_kind, "S") {
        single_stock_futures_tick_size(reference)
    } else if str_equals(underlying_kind, "E") {
        twse_etf_tick_size(reference)
    } else {
        TickSize { units: 1, precision: 0 }
    }
}

/// The grid of a listed stock: ETFs and beneficiary certificates (category
/// `00`) use the ETF grid, every other category the common-stock grid.
pub open spec fn stock_tick_spec(category: Seq<char>, reference: i64) -> TickSize {
    if category == "00"@ {
        twse_etf_tick_spec(reference)
    } else {
        twse_stock_tick_spec(reference)
    }
}

/// Selects the tick size and precision of a listed stock from its category
/// and reference price.
pub fn stock_tick_for_contract(category: &str, reference: i64) -> (r: TickSize)
    ensures
        r == stock_tick_spec(category@, reference),
{
    if str_equals(category, "00") {
        twse_etf_tick_size(reference)
    } else {
        twse_stock_tick_size(reference)
    }
}

/// The stock grid never shrinks as the reference price rises.
pub proof fn lemma_twse_stock_tick_monotonic(low: i64, high: i64)
    requires
        low <= high,
    ensures
        twse_stock_tick_spec(low).hundredths() <= twse_stock_tick_spec(high).hundredths(),
{
}

/// The ETF grid never shrinks as the reference price rises.
pub proof fn lemma_twse_etf_tick_monotonic(low: i64, high: i64)
    requires
        low <= high,
    ensures
        twse_etf_tick_spec(low).hundredths() <= twse_etf_tick_spec(high).hundredths(),
{
}

/// The options grid never shrinks as the reference premium rises.
pub proof fn lemma_options_tick_monotonic(low: i64, high: i64)
    requires
        low <= high,
    ensures
        options_tick_spec(low).hundredths() <= options_tick_spec(high).hundredths(),
{
}

/// At every reference price the ETF tick is at most the common-stock tick,
/// and strictly finer from 10 TWD up.
pub proof fn lemma_etf_tick_not_coarser_than_stock(reference: i64)
    ensures
        twse_etf_tick_spec(reference).hundredths() <= twse_stock_tick_spec(reference).hundredths(),
        reference >= 10 ==> twse_etf_tick_spec(reference).hundredths()
            < twse_stock_tick_spec(reference).hundredths(),
{
}

/// Every grid has a positive tick that is a whole number of units at its own
/// precision, with a precision of at most two decimals; the stock grid quotes
/// at two decimals below 500 TWD and at one decimal from 500 up.
pub proof fn lemma_tick_grids_well_formed(reference: i64, underlying_kind: Seq<char>, root: Seq<char>)
    ensures
        twse_stock_tick_spec(reference).units > 0,
        twse_stock_tick_spec(reference).precision <= 2,
        twse_stock_tick_spec(reference).precision == (if reference < 500 { 2u8 } else { 1u8 }),
        twse_etf_tick_spec(reference).units > 0,
        twse_etf_tick_spec(reference).precision == 2,
        options_tick_spec(reference).units > 0,
        options_tick_spec(reference).precision <= 1,
        futures_tick_spec(underlying_kind, root, reference).units > 0,
        futures_tick_spec(underlying_kind, root, reference).precision <= 2,
{
}

/// The ETF grid has exactly two tiers, split at 50 TWD: 0.01 below 50 and
/// 0.05 from 50 up, with no further tier at any
/// higher price; both quote at two decimals.
pub proof fn lemma_etf_grid_two_tiers(low: i64, high: i64)
    ensures
        low < 50 ==> twse_etf_tick_spec(low).hundredths() == 1,
        high >= 50 ==> twse_etf_tick_spec(high).hundredths() == 5,
        twse_etf_tick_spec(low).precision == 2,
        low >= 50 && high >= 50 ==> twse_etf_tick_spec(low) == twse_etf_tick_spec(high),
        low < 50 && high < 50 ==> twse_etf_tick_spec(low) == twse_etf_tick_spec(high),
        low < 50 && high >= 50 ==> twse_etf_tick_spec(high).hundredths() == 5 * twse_etf_tick_spec(low).hundredths(),
{
}

/// The common-stock grid by price tier, in hundredths of a TWD: 1 below
/// 10, 5 below 50, 10 below 100, 50 below 500, 100 below 1000 and 500 from
/// 1000 up; two decimals below 500 and one decimal from 500 up.
pub proof fn lemma_stock_grid_tiers(reference: i64)
    ensures
        reference < 10 ==> twse_stock_tick_spec(reference).hundredths() == 1,
        10 <= reference < 50 ==> twse_stock_tick_spec(reference).hundredths() == 5,
        50 <= reference < 100 ==> twse_stock_tick_spec(reference).hundredths() == 10,
        100 <= reference < 500 ==> twse_stock_tick_spec(reference).hundredths() == 50,
        500 <= reference < 1000 ==> twse_stock_tick_spec(reference).hundredths() == 100,
        reference >= 1000 ==> twse_stock_tick_spec(reference).hundredths() == 500,
        twse_stock_tick_spec(reference).precision == (if reference < 500 { 2u8 } else { 1u8 }),
{
}

/// The options premium grid: 0.1 at one decimal below 10, and 1.0 at no
/// decimals from 10 up.
pub proof fn lemma_options_grid_tiers(reference: i64)
    ensures
        reference < 10 ==> options_tick_spec(reference).hundredths() == 10
            && options_tick_spec(reference).precision == 1,
        reference >= 10 ==> options_tick_spec(reference).hundredths() == 100
            && options_tick_spec(reference).precision == 0,
{
}

/// The futures grid follows the underlying: a common-stock underlying takes
/// the stock grid and an ETF underlying the ETF grid, both by the reference
/// price; an index underlying takes its root's tabled tick, or 1.0 for an
/// untabled root; any other underlying takes 1.0. Index roots TXF, MXF, T5F
/// and XIF tick at 1.0, ZEF at 0.05 and ZFF at 0.2.
pub proof fn lemma_futures_grid_by_underlying(underlying_kind: Seq<char>, root: Seq<char>, reference: i64)
    ensures
        underlying_kind == "S"@ ==> futures_tick_spec(underlying_kind, root, reference)
            == twse_stock_tick_spec(reference),
        underlying_kind == "E"@ ==> futures_tick_spec(underlying_kind, root, reference)
            == twse_etf_tick_spec(reference),
        underlying_kind == "I"@ && index_futures_tick_spec(root) is None
            ==> futures_tick_spec(underlying_kind, root, reference).hundredths() == 100
                && futures_tick_spec(underlying_kind, root, reference).precision == 0,
        underlying_kind == "I"@ ==> (index_futures_tick_spec(root) matches Some(t)
            ==> futures_tick_spec(underlying_kind, root, reference) == t),
        underlying_kind != "I"@ && underlying_kind != "S"@ && underlying_kind != "E"@
            ==> futures_tick_spec(underlying_kind, root, reference).hundredths() == 100
                && futures_tick_spec(underlying_kind, root, reference).precision == 0,
        (root == "TXF"@ || root == "MXF"@ || root == "T5F"@ || root == "XIF"@)
            ==> (index_futures_tick_spec(root) matches Some(t) && t.hundredths() == 100 && t.precision == 0),
        root == "ZEF"@ ==> (index_futures_tick_spec(root) matches Some(t) && t.hundredths() == 5 && t.precision == 2),
        root == "ZFF"@ ==> (index_futures_tick_spec(root) matches Some(t) && t.hundredths() == 20 && t.precision == 1),
        root != "TXF"@ && root != "MXF"@ && root != "T5F"@ && root != "XIF"@ && root != "ZEF"@
            && root != "ZFF"@ ==> index_futures_tick_spec(root) is None,
{
    reveal_strlit("I");
    reveal_strlit("S");
    reveal_strlit("E");
    assert("S"@[0] != "I"@[0]);
    assert("E"@[0] != "I"@[0]);
    assert("E"@[0] != "S"@[0]);
    reveal_strlit("TXF");
    reveal_strlit("MXF");
    reveal_strlit("T5F");
    reveal_strlit("XIF");
    reveal_strlit("ZEF");
    reveal_strlit("ZFF");
    assert("ZEF"@[0] != "TXF"@[0] && "ZEF"@[0] != "MXF"@[0] && "ZEF"@[0] != "T5F"@[0]
        && "ZEF"@[0] != "XIF"@[0]);
    assert("ZFF"@[0] != "TXF"@[0] && "ZFF"@[0] != "MXF"@[0] && "ZFF"@[0] != "T5F"@[0]
        && "ZFF"@[0] != "XIF"@[0] && "ZFF"@[1] != "ZEF"@[1]);
}

/// A listed stock of category `00` (ETFs and beneficiary certificates) takes
/// the ETF grid, and every other category the common-stock grid.
pub proof fn lemma_stock_grid_by_category(category: Seq<char>, reference: i64)
    ensures
        category == "00"@ ==> stock_tick_spec(category, reference) == twse_etf_tick_spec(reference),
        category != "00"@ ==> stock_tick_spec(category, reference) == twse_stock_tick_spec(reference),
{
}

} // verus!
