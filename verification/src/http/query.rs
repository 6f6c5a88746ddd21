//! Query parameters of the gateway REST endpoints.
use vstd::prelude::*;

verus! {

/// Query parameters for the snapshots endpoint.
#[derive(Clone, Debug)]
pub struct SnapshotsQuery {
    /// The comma-separated contract codes.
    pub codes: String,
    /// The optional market type filter.
    pub market: Option<String>,
}

/// Query parameters for the ticks endpoint.
#[derive(Clone, Debug)]
pub struct TicksQuery {
    /// The contract code.
    pub code: String,
    /// The query date.
    pub date: String,
    /// The optional market type filter.
    pub market: Option<String>,
}

/// Query parameters for the kbars endpoint.
#[derive(Clone, Debug)]
pub struct KBarsQuery {
    /// The contract code.
    pub code: String,
    /// The start date of the query range.
    pub start: String,
    /// The end date of the query range.
    pub end: String,
    /// The optional market type filter.
    pub market: Option<String>,
}

/// Query parameters for the positions endpoint.
#[derive(Clone, Debug)]
pub struct PositionsQuery {
    /// The optional market type filter.
    pub market: Option<String>,
}

} // verus!
