//! SinoPac venue-specific enumerations.
use vstd::prelude::*;

use super::text::str_equals;

verus! {

/// A trading action (buy or sell).
#[derive(Clone, Copy, Debug, PartialEq, Eq, Hash, Structural)]
pub enum SinopacAction {
    /// Buy action.
    Buy,
    /// Sell action.
    Sell,
}

/// A price type for order submission.
#[allow(clippy::upper_case_acronyms)]
#[derive(Clone, Copy, Debug, PartialEq, Eq, Hash, Structural)]
pub enum SinopacPriceType {
    /// Limit price.
    LMT,
    /// Market price.
    MKT,
    /// Market price with protection.
    MKP,
}

/// An order duration (time in force).
#[allow(clippy::upper_case_acronyms)]
#[derive(Clone, Copy, Debug, PartialEq, Eq, Hash, Structural)]
pub enum SinopacOrderType {
    /// Rest of day.
    ROD,
    /// Immediate or cancel.
    IOC,
    /// Fill or kill.
    FOK,
}

/// A stock order credit condition.
#[derive(Clone, Copy, Debug, PartialEq, Eq, Hash, Structural)]
pub enum SinopacOrderCond {
    /// Cash order.
    Cash,
    /// Margin trading.
    MarginTrading,
    /// Short selling.
    ShortSelling,
}

/// A stock lot size type.
#[derive(Clone, Copy, Debug, PartialEq, Eq, Hash, Structural)]
pub enum SinopacOrderLot {
    /// Common lot (1000 shares).
    Common,
    /// After-hours odd lot.
    Odd,
    /// Intraday odd lot.
    IntradayOdd,
    /// Fixing session lot.
    Fixing,
}

/// A futures/options open-close type (`octype`).
#[derive(Clone, Copy, Debug, PartialEq, Eq, Hash, Structural)]
pub enum SinopacOCType {
    /// The gateway decides from the net position.
    Auto,
    /// Opens a new position.
    New,
    /// Covers (closes) an existing position.
    Cover,
    /// Day-trade open-close.
    DayTrade,
}

impl Default for SinopacOCType {
    /// The default open-close type leaves the decision to the gateway.
    fn default() -> (r: Self)
        ensures
            r == SinopacOCType::Auto,
    {
        SinopacOCType::Auto
    }
}

/// A quote subscription type.
#[derive(Clone, Copy, Debug, PartialEq, Eq, Hash, Structural)]
pub enum SinopacQuoteType {
    /// Tick-by-tick quotes.
    Tick,
    /// Bid/ask quotes.
    BidAsk,
}

/// A market type for endpoint routing.
#[derive(Clone, Copy, Debug, PartialEq, Eq, Hash, Structural)]
pub enum SinopacMarket {
    /// Stock market.
    Stock,
    /// Futures market.
    Futures,
    /// Options market.
    Options,
}

/// An exchange code for Taiwan markets.
#[allow(clippy::upper_case_acronyms)]
#[derive(Clone, Copy, Debug, PartialEq, Eq, Hash, Structural)]
pub enum SinopacExchange {
    /// Taiwan Stock Exchange.
    TSE,
    /// Taipei Exchange (over the counter).
    OTC,
}

/// Order update event types from the gateway WebSocket.
#[derive(Clone, Copy, Debug, PartialEq, Eq, Hash, Structural)]
pub enum SinopacOrderEvent {
    /// Stock order state update.
    StockOrder,
    /// Stock deal (fill).
    StockDeal,
    /// Futures order state update.
    FuturesOrder,
    /// Futures deal (fill).
    FuturesDeal,
}

/// The wire name of an order event kind, as the gateway sends it in the `event` field.
pub open spec fn order_event_name(e: SinopacOrderEvent) -> Seq<char> {
    match e {
        SinopacOrderEvent::StockOrder => "OrderState.StockOrder"@,
        SinopacOrderEvent::StockDeal => "OrderState.StockDeal"@,
        SinopacOrderEvent::FuturesOrder => "OrderState.FuturesOrder"@,
        SinopacOrderEvent::FuturesDeal => "OrderState.FuturesDeal"@,
    }
}

/// The order event kind named by a gateway `event` field, if any.
pub open spec fn order_event_from_name_spec(name: Seq<char>) -> Option<SinopacOrderEvent> {
    if name == "OrderState.StockOrder"@ {
        Some(SinopacOrderEvent::StockOrder)
    } else if name == "OrderState.StockDeal"@ {
        Some(SinopacOrderEvent::StockDeal)
    } else if name == "OrderState.FuturesOrder"@ {
        Some(SinopacOrderEvent::FuturesOrder)
    } else if name == "OrderState.FuturesDeal"@ {
        Some(SinopacOrderEvent::FuturesDeal)
    } else {
        None
    }
}

impl SinopacOrderEvent {
    /// The wire name of the event kind.
    pub fn event_name(&self) -> (r: &'static str)
        ensures
            r@ == order_event_name(*self),
    {
        match self {
            SinopacOrderEvent::StockOrder => "OrderState.StockOrder",
            SinopacOrderEvent::StockDeal => "OrderState.StockDeal",
            SinopacOrderEvent::FuturesOrder => "OrderState.FuturesOrder",
            SinopacOrderEvent::FuturesDeal => "OrderState.FuturesDeal",
        }
    }

    /// The event kind named by a gateway `event` field; unknown names are refused.
    pub fn from_event_name(name: &str) -> (r: Option<SinopacOrderEvent>)
        ensures
            r == order_event_from_name_spec(name@),
    {
        if str_equals(name, "OrderState.StockOrder") {
            Some(SinopacOrderEvent::StockOrder)
        } else if str_equals(name, "OrderState.StockDeal") {
            Some(SinopacOrderEvent::StockDeal)
        } else if str_equals(name, "OrderState.FuturesOrder") {
            Some(SinopacOrderEvent::FuturesOrder)
        } else if str_equals(name, "OrderState.FuturesDeal") {
            Some(SinopacOrderEvent::FuturesDeal)
        } else {
            None
        }
    }
}

/// Reading back the wire name of an order event kind gives that kind.
pub proof fn lemma_order_event_name_round_trip(e: SinopacOrderEvent)
    ensures
        order_event_from_name_spec(order_event_name(e)) == Some(e),
{
    reveal_strlit("OrderState.StockOrder");
    reveal_strlit("OrderState.StockDeal");
    reveal_strlit("OrderState.FuturesOrder");
    reveal_strlit("OrderState.FuturesDeal");
    assert("OrderState.StockOrder"@.len() == 21);
    assert("OrderState.StockDeal"@.len() == 20);
    assert("OrderState.FuturesOrder"@.len() == 23);
    assert("OrderState.FuturesDeal"@.len() == 22);
}

/// Reading an event name gives a kind only for that kind's own wire name:
/// each name read back is the name of the kind it gives, so no two kinds
/// share a name and no other text names a kind.
pub proof fn lemma_order_event_from_name_inverts(name: Seq<char>)
    ensures
        order_event_from_name_spec(name) matches Some(e) ==> order_event_name(e) == name,
        (forall|e: SinopacOrderEvent| order_event_name(e) != name) ==> order_event_from_name_spec(name) is None,
{
    if order_event_from_name_spec(name) is None {
    } else {
        let e = order_event_from_name_spec(name)->Some_0;
        assert(order_event_name(e) == name);
    }
    if forall|e: SinopacOrderEvent| order_event_name(e) != name {
        assert(order_event_name(SinopacOrderEvent::StockOrder) != name);
        assert(order_event_name(SinopacOrderEvent::StockDeal) != name);
        assert(order_event_name(SinopacOrderEvent::FuturesOrder) != name);
        assert(order_event_name(SinopacOrderEvent::FuturesDeal) != name);
    }
}

} // verus!
