//! The records of the two streams and the tick that carries either of them.
//!
//! Prices and amounts are held as the bit patterns of IEEE 754 binary32
//! numbers: the merge carries them through and never reads them.

use vstd::prelude::*;

verus! {

/// One row of the quote stream, as the stream holds it.
#[derive(Debug)]
pub struct QuoteRow {
    pub exchange: String,
    pub symbol: String,
    /// Exchange time, in microseconds since the epoch.
    pub timestamp: i64,
    /// Local receipt time, in microseconds since the epoch.
    pub local_timestamp: i64,
    pub ask_amount_bits: u32,
    pub ask_price_bits: u32,
    pub bid_price_bits: u32,
    pub bid_amount_bits: u32,
}

/// One row of the trade stream, as the stream holds it.
#[derive(Debug)]
pub struct TradeRow {
    pub exchange: String,
    pub symbol: String,
    /// Exchange time, in microseconds since the epoch.
    pub timestamp: i64,
    /// Local receipt time, in microseconds since the epoch.
    pub local_timestamp: i64,
    pub id: u32,
    pub side: String,
    pub price_bits: u32,
    pub amount_bits: u32,
}

/// A quote as the merge emits it. Its `timestamp` is the local receipt time
/// of the row it was made from.
#[derive(Debug, Clone)]
pub struct Quote {
    pub symbol: String,
    pub timestamp: i64,
    pub ask_amount_bits: u32,
    pub ask_price_bits: u32,
    pub bid_price_bits: u32,
    pub bid_amount_bits: u32,
}

/// A trade as the merge emits it. Its `timestamp` is the local receipt time
/// of the row it was made from.
#[derive(Debug, Clone)]
pub struct Trade {
    pub symbol: String,
    pub timestamp: i64,
    pub id: u32,
    pub side: String,
    pub price_bits: u32,
    pub amount_bits: u32,
}

/// A tick of the merged stream: a trade or a quote.
#[derive(Debug)]
pub enum Ticks {
    Trade(Trade),
    Quote(Quote),
}

/// The stream that a record comes from.
#[derive(Clone, Copy, Debug, PartialEq, Eq, Structural)]
pub enum Source {
    Quote,
    Trade,
}

/// What a `QuoteRow` holds.
pub struct QuoteRowView {
    pub exchange: Seq<char>,
    pub symbol: Seq<char>,
    pub timestamp: i64,
    pub local_timestamp: i64,
    pub ask_amount_bits: u32,
    pub ask_price_bits: u32,
    pub bid_price_bits: u32,
    pub bid_amount_bits: u32,
}

/// What a `TradeRow` holds.
pub struct TradeRowView {
    pub exchange: Seq<char>,
    pub symbol: Seq<char>,
    pub timestamp: i64,
    pub local_timestamp: i64,
    pub id: u32,
    pub side: Seq<char>,
    pub price_bits: u32,
    pub amount_bits: u32,
}

/// What a `Quote` holds.
pub struct QuoteView {
    pub symbol: Seq<char>,
    pub timestamp: i64,
    pub ask_amount_bits: u32,
    pub ask_price_bits: u32,
    pub bid_price_bits: u32,
    pub bid_amount_bits: u32,
}

/// What a `Trade` holds.
pub struct TradeView {
    pub symbol: Seq<char>,
    pub timestamp: i64,
    pub id: u32,
    pub side: Seq<char>,
    pub price_bits: u32,
    pub amount_bits: u32,
}

/// What a tick holds.
pub enum TickView {
    Trade(TradeView),
    Quote(QuoteView),
}

impl View for QuoteRow {
    type V = QuoteRowView;

    open spec fn view(&self) -> QuoteRowView {
        QuoteRowView {
            exchange: self.exchange@,
            symbol: self.symbol@,
            timestamp: self.timestamp,
            local_timestamp: self.local_timestamp,
            ask_amount_bits: self.ask_amount_bits,
            ask_price_bits: self.ask_price_bits,
            bid_price_bits: self.bid_price_bits,
            bid_amount_bits: self.bid_amount_bits,
        }
    }
}

impl View for TradeRow {
    type V = TradeRowView;

    open spec fn view(&self) -> TradeRowView {
        TradeRowView {
            exchange: self.exchange@,
            symbol: self.symbol@,
            timestamp: self.timestamp,
            local_timestamp: self.local_timestamp,
            id: self.id,
            side: self.side@,
            price_bits: self.price_bits,
            amount_bits: self.amount_bits,
        }
    }
}

impl View for Quote {
    type V = QuoteView;

    open spec fn view(&self) -> QuoteView {
        QuoteView {
            symbol: self.symbol@,
            timestamp: self.timestamp,
            ask_amount_bits: self.ask_amount_bits,
            ask_price_bits: self.ask_price_bits,
            bid_price_bits: self.bid_price_bits,
            bid_amount_bits: self.bid_amount_bits,
        }
    }
}

impl View for Trade {
    type V = TradeView;

    open spec fn view(&self) -> TradeView {
        TradeView {
            symbol: self.symbol@,
            timestamp: self.timestamp,
            id: self.id,
            side: self.side@,
            price_bits: self.price_bits,
            amount_bits: self.amount_bits,
        }
    }
}

impl View for Ticks {
    type V = TickView;

    open spec fn view(&self) -> TickView {
        match self {
            Ticks::Trade(trade) => TickView::Trade(trade@),
            Ticks::Quote(quote) => TickView::Quote(quote@),
        }
    }
}

/// What a borrowed record holds, where there is one.
pub open spec fn viewed<Record: View>(record: Option<&Record>) -> Option<Record::V> {
    match record {
        Some(record) => Some(record@),
        None => None,
    }
}

impl QuoteRowView {
    /// The quote that the merge makes of this row: the exchange and the
    /// exchange time are left behind, the local receipt time becomes the
    /// quote's timestamp.
    pub open spec fn quote(self) -> QuoteView {
        QuoteView {
            symbol: self.symbol,
            timestamp: self.local_timestamp,
            ask_amount_bits: self.ask_amount_bits,
            ask_price_bits: self.ask_price_bits,
            bid_price_bits: self.bid_price_bits,
            bid_amount_bits: self.bid_amount_bits,
        }
    }
}

impl TradeRowView {
    /// The trade that the merge makes of this row: the exchange and the
    /// exchange time are left behind, the local receipt time becomes the
    /// trade's timestamp.
    pub open spec fn trade(self) -> TradeView {
        TradeView {
            symbol: self.symbol,
            timestamp: self.local_timestamp,
            id: self.id,
            side: self.side,
            price_bits: self.price_bits,
            amount_bits: self.amount_bits,
        }
    }
}

impl TickView {
    /// The stream that the tick comes from.
    pub open spec fn source(self) -> Source {
        match self {
            TickView::Trade(_) => Source::Trade,
            TickView::Quote(_) => Source::Quote,
        }
    }

    /// The time by which the tick is ordered.
    pub open spec fn timestamp(self) -> i64 {
        match self {
            TickView::Trade(trade) => trade.timestamp,
            TickView::Quote(quote) => quote.timestamp,
        }
    }
}

impl Default for Quote {
    /// The quote without a symbol, at the epoch, with all prices and amounts
    /// at positive zero.
    fn default() -> (quote: Quote)
        ensures
            quote@ == (QuoteView {
                symbol: Seq::empty(),
                timestamp: 0,
                ask_amount_bits: 0,
                ask_price_bits: 0,
                bid_price_bits: 0,
                bid_amount_bits: 0,
            }),
    {
        Quote {
            symbol: String::new(),
            timestamp: 0,
            ask_amount_bits: 0,
            ask_price_bits: 0,
            bid_price_bits: 0,
            bid_amount_bits: 0,
        }
    }
}

impl Quote {
    /// Makes the quote of a row of the quote stream.
    pub fn from_row(row: &QuoteRow) -> (quote: Quote)
        ensures
            quote@ == row@.quote(),
    {
        Quote {
            symbol: row.symbol.clone(),
            timestamp: row.local_timestamp,
            ask_amount_bits: row.ask_amount_bits,
            ask_price_bits: row.ask_price_bits,
            bid_price_bits: row.bid_price_bits,
            bid_amount_bits: row.bid_amount_bits,
        }
    }
}

impl Trade {
    /// Makes the trade of a row of the trade stream.
    pub fn from_row(row: &TradeRow) -> (trade: Trade)
        ensures
            trade@ == row@.trade(),
    {
        Trade {
            symbol: row.symbol.clone(),
            timestamp: row.local_timestamp,
            id: row.id,
            side: row.side.clone(),
            price_bits: row.price_bits,
            amount_bits: row.amount_bits,
        }
    }
}

impl Ticks {
    /// The stream that the tick comes from.
    pub fn source(&self) -> (source: Source)
        ensures
            source == self@.source(),
    {
        match self {
            Ticks::Trade(_) => Source::Trade,
            Ticks::Quote(_) => Source::Quote,
        }
    }

    /// The time by which the tick is ordered: the local receipt time of its
    /// row, in microseconds since the epoch.
    pub fn timestamp(&self) -> (timestamp: i64)
        ensures
            timestamp == self@.timestamp(),
    {
        match self {
            Ticks::Trade(trade) => trade.timestamp,
            Ticks::Quote(quote) => quote.timestamp,
        }
    }
}

} // verus!
