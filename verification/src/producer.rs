//! The producer of the merged stream.
//!
//! A `Producer` holds, for each of the two streams, the one record that has
//! been read and not yet emitted. It does no reading itself. Its caller owns
//! the two streams and drives it: `next_source` names the stream whose record
//! is due, the caller reads the row that follows in that stream, and
//! `next_tick` emits the due record and puts the new row in its place.

use vstd::prelude::*;
use crate::tick::{
    viewed, Quote, QuoteRow, QuoteRowView, QuoteView, Source, TickView, Ticks, Trade, TradeRow,
    TradeRowView, TradeView,
};

verus! {

/// What the caller has read for the producer: the next row of one stream, or
/// `None` where that stream has come to its end.
#[derive(Debug)]
pub enum Refill<'a> {
    Quote(Option<&'a QuoteRow>),
    Trade(Option<&'a TradeRow>),
}

/// What a `Refill` holds.
pub enum RefillView {
    Quote(Option<QuoteRowView>),
    Trade(Option<TradeRowView>),
}

impl<'a> View for Refill<'a> {
    type V = RefillView;

    open spec fn view(&self) -> RefillView {
        match self {
            Refill::Quote(row) => RefillView::Quote(viewed(*row)),
            Refill::Trade(row) => RefillView::Trade(viewed(*row)),
        }
    }
}

impl RefillView {
    /// The stream that was read.
    pub open spec fn source(self) -> Source {
        match self {
            RefillView::Quote(_) => Source::Quote,
            RefillView::Trade(_) => Source::Trade,
        }
    }

    /// Whether the row that was read, if one was, is not earlier than `time`.
    pub open spec fn not_before(self, time: i64) -> bool {
        match self {
            RefillView::Quote(Some(row)) => time <= row.local_timestamp,
            RefillView::Trade(Some(row)) => time <= row.local_timestamp,
            _ => true,
        }
    }

    /// Whether a row was read, and not the end of the stream.
    pub open spec fn has_row(self) -> bool {
        match self {
            RefillView::Quote(row) => row is Some,
            RefillView::Trade(row) => row is Some,
        }
    }
}

/// The merged stream's producer.
pub struct Producer {
    events_cache: Vec<Ticks>,
    has_tick_data: bool,
    next_quote_tick: Option<Quote>,
    next_trade_tick: Option<Trade>,
    quotes_counter: u64,
    trades_counter: u64,
}

/// What a `Producer` holds.
pub struct ProducerView {
    /// The quote that is read and not yet emitted; `None` once the quote
    /// stream has come to its end.
    pub quote: Option<QuoteView>,
    /// The trade that is read and not yet emitted; `None` once the trade
    /// stream has come to its end.
    pub trade: Option<TradeView>,
    /// The rows of the quote stream taken in so far.
    pub quotes_counter: nat,
    /// The rows of the trade stream taken in so far.
    pub trades_counter: nat,
    /// The ticks that were put aside with `push`, oldest first.
    pub events_cache: Seq<TickView>,
}

impl ProducerView {
    /// A producer that holds nothing and has taken nothing in.
    pub open spec fn idle() -> ProducerView {
        ProducerView {
            quote: None,
            trade: None,
            quotes_counter: 0,
            trades_counter: 0,
            events_cache: Seq::empty(),
        }
    }

    /// Whether a record is still to be emitted.
    pub open spec fn has_tick_data(self) -> bool {
        self.quote is Some || self.trade is Some
    }

    /// The stream whose record is emitted next: the one with a record where
    /// the other has none, else the one whose record is earlier, and the
    /// quote stream where both are of the same time. `None` where neither
    /// has a record.
    pub open spec fn next_source(self) -> Option<Source> {
        match (self.quote, self.trade) {
            (None, None) => None,
            (Some(_), None) => Some(Source::Quote),
            (None, Some(_)) => Some(Source::Trade),
            (Some(quote), Some(trade)) => if quote.timestamp <= trade.timestamp {
                Some(Source::Quote)
            } else {
                Some(Source::Trade)
            },
        }
    }

    /// The tick that is emitted next.
    pub open spec fn next(self) -> Option<TickView> {
        match self.next_source() {
            None => None,
            Some(Source::Quote) => Some(TickView::Quote(self.quote->0)),
            Some(Source::Trade) => Some(TickView::Trade(self.trade->0)),
        }
    }

    /// The producer once `row` has been read from the quote stream.
    pub open spec fn with_quote(self, row: Option<QuoteRowView>) -> ProducerView {
        match row {
            Some(row) => ProducerView {
                quote: Some(row.quote()),
                quotes_counter: self.quotes_counter + 1,
                ..self
            },
            None => ProducerView { quote: None, ..self },
        }
    }

    /// The producer once `row` has been read from the trade stream.
    pub open spec fn with_trade(self, row: Option<TradeRowView>) -> ProducerView {
        match row {
            Some(row) => ProducerView {
                trade: Some(row.trade()),
                trades_counter: self.trades_counter + 1,
                ..self
            },
            None => ProducerView { trade: None, ..self },
        }
    }

    /// Whether `refill` may be handed to `next_tick`: it was read from the
    /// stream whose record is due, and the count of that stream's rows has
    /// room for one more. Once nothing is left to emit, any refill may be
    /// handed in, and is ignored.
    pub open spec fn accepts(self, refill: RefillView) -> bool {
        match self.next_source() {
            None => true,
            Some(Source::Quote) => refill is Quote && (refill.has_row() ==> self.quotes_counter
                < u64::MAX),
            Some(Source::Trade) => refill is Trade && (refill.has_row() ==> self.trades_counter
                < u64::MAX),
        }
    }

    /// The producer after it has emitted its next tick and taken `refill` in
    /// the place of the record emitted.
    pub open spec fn after(self, refill: RefillView) -> ProducerView {
        match (self.next_source(), refill) {
            (Some(Source::Quote), RefillView::Quote(row)) => self.with_quote(row),
            (Some(Source::Trade), RefillView::Trade(row)) => self.with_trade(row),
            _ => self,
        }
    }
}

impl View for Producer {
    type V = ProducerView;

    closed spec fn view(&self) -> ProducerView {
        ProducerView {
            quote: match self.next_quote_tick {
                Some(quote) => Some(quote@),
                None => None,
            },
            trade: match self.next_trade_tick {
                Some(trade) => Some(trade@),
                None => None,
            },
            quotes_counter: self.quotes_counter as nat,
            trades_counter: self.trades_counter as nat,
            events_cache: self.events_cache@.map_values(|tick: Ticks| tick@),
        }
    }
}

impl Default for Producer {
    /// A producer that holds nothing and has taken nothing in: the producer
    /// of two streams without rows.
    fn default() -> (producer: Producer)
        ensures
            producer@ == ProducerView::idle(),
    {
        let producer = Producer {
            events_cache: Vec::new(),
            has_tick_data: false,
            next_quote_tick: None,
            next_trade_tick: None,
            quotes_counter: 0,
            trades_counter: 0,
        };
        assert(producer@.events_cache =~= Seq::empty());
        producer
    }
}

impl Producer {
    /// The flag says whether a record is still to be emitted.
    #[verifier::type_invariant]
    spec fn flag_follows_slots(self) -> bool {
        self.has_tick_data == (self.next_quote_tick is Some || self.next_trade_tick is Some)
    }

    /// What `new` makes of the first row of each stream.
    pub open spec fn primed(
        first_trade: Option<TradeRowView>,
        first_quote: Option<QuoteRowView>,
    ) -> ProducerView {
        ProducerView::idle().with_quote(first_quote).with_trade(first_trade)
    }

    /// Makes a producer from the first row of each stream, `None` standing
    /// for a stream that has no row at all. Nothing has been emitted yet, and
    /// the rows handed in are the first to be emitted from their streams.
    pub fn new(first_trade: Option<&TradeRow>, first_quote: Option<&QuoteRow>) -> (producer:
        Producer)
        ensures
            producer@ == Producer::primed(viewed(first_trade), viewed(first_quote)),
    {
        let mut producer = Producer::default();
        producer.iterate_quote_tick(first_quote);
        producer.iterate_trade_tick(first_trade);
        producer
    }

    /// Whether a record is still to be emitted. Once this is `false` it
    /// stays so.
    pub fn has_tick_data(&self) -> (more: bool)
        ensures
            more == self@.has_tick_data(),
    {
        proof {
            use_type_invariant(self);
        }
        self.has_tick_data
    }

    /// The stream whose record `next_tick` emits next, which is the stream
    /// that the caller reads the refill from; `None` once both streams have
    /// come to their end.
    pub fn next_source(&self) -> (source: Option<Source>)
        ensures
            source == self@.next_source(),
    {
        proof {
            use_type_invariant(self);
        }
        if self.has_tick_data == false {
            return None;
        }
        match (&self.next_quote_tick, &self.next_trade_tick) {
            (_, None) => Some(Source::Quote),
            (None, _) => Some(Source::Trade),
            (Some(quote), Some(trade)) => {
                if quote.timestamp <= trade.timestamp {
                    Some(Source::Quote)
                } else {
                    Some(Source::Trade)
                }
            },
        }
    }

    /// Emits the next tick of the merged stream and takes `refill` in its
    /// place. The caller has read `refill` from the stream that `next_source`
    /// names: it is the row that follows the tick emitted in its own stream,
    /// or `None` at the end of that stream. Returns `None`, and changes
    /// nothing, once both streams have come to their end.
    pub fn next_tick(&mut self, refill: Refill) -> (tick: Option<Ticks>)
        requires
            old(self)@.accepts(refill@),
        ensures
            match tick {
                Some(tick) => old(self)@.next() == Some(tick@),
                None => old(self)@.next() is None,
            },
            final(self)@ == old(self)@.after(refill@),
    {
        match (self.next_source(), refill) {
            (Some(Source::Quote), Refill::Quote(row)) => {
                match self.iterate_quote_tick(row) {
                    Some(next_tick) => Some(Ticks::Quote(next_tick)),
                    None => None,
                }
            },
            (Some(Source::Trade), Refill::Trade(row)) => {
                match self.iterate_trade_tick(row) {
                    Some(next_tick) => Some(Ticks::Trade(next_tick)),
                    None => None,
                }
            },
            _ => None,
        }
    }

    /// Puts a tick aside, behind those put aside before.
    pub fn push(&mut self, value: Ticks)
        ensures
            final(self)@ == (ProducerView {
                events_cache: old(self)@.events_cache.push(value@),
                ..old(self)@
            }),
    {
        let mut current = Producer::default();
        core::mem::swap(self, &mut current);
        proof {
            use_type_invariant(&current);
        }
        let Producer {
            mut events_cache,
            has_tick_data,
            next_quote_tick,
            next_trade_tick,
            quotes_counter,
            trades_counter,
        } = current;
        events_cache.push(value);
        *self = Producer {
            events_cache,
            has_tick_data,
            next_quote_tick,
            next_trade_tick,
            quotes_counter,
            trades_counter,
        };
        assert(self@.events_cache =~= old(self)@.events_cache.push(value@));
    }

    /// The ticks that were put aside with `push`, oldest first.
    pub fn events_cache(&self) -> (cache: &Vec<Ticks>)
        ensures
            cache@.map_values(|tick: Ticks| tick@) == self@.events_cache,
    {
        &self.events_cache
    }

    /// The quote that is read and not yet emitted.
    pub fn next_quote_tick(&self) -> (slot: &Option<Quote>)
        ensures
            match slot {
                Some(quote) => self@.quote == Some(quote@),
                None => self@.quote is None,
            },
    {
        &self.next_quote_tick
    }

    /// The trade that is read and not yet emitted.
    pub fn next_trade_tick(&self) -> (slot: &Option<Trade>)
        ensures
            match slot {
                Some(trade) => self@.trade == Some(trade@),
                None => self@.trade is None,
            },
    {
        &self.next_trade_tick
    }

    /// The rows of the quote stream taken in so far.
    pub fn quotes_counter(&self) -> (count: u64)
        ensures
            count == self@.quotes_counter,
    {
        self.quotes_counter
    }

    /// The rows of the trade stream taken in so far.
    pub fn trades_counter(&self) -> (count: u64)
        ensures
            count == self@.trades_counter,
    {
        self.trades_counter
    }

    /// Takes in what was read from the quote stream, and hands out the quote
    /// that was held until now. A row is counted and becomes the quote held;
    /// at the end of the stream no quote is held any more, and where no trade
    /// is held either, nothing is left to emit.
    fn iterate_quote_tick(&mut self, row: Option<&QuoteRow>) -> (held: Option<Quote>)
        requires
            row is Some ==> old(self)@.quotes_counter < u64::MAX,
        ensures
            final(self)@ == old(self)@.with_quote(viewed(row)),
            match held {
                Some(quote) => old(self)@.quote == Some(quote@),
                None => old(self)@.quote is None,
            },
    {
        // The flag and the slots change together: the producer is taken
        // apart and put back in one piece.
        let mut current = Producer::default();
        core::mem::swap(self, &mut current);
        let Producer {
            events_cache,
            has_tick_data: _,
            next_quote_tick,
            next_trade_tick,
            quotes_counter,
            trades_counter,
        } = current;
        *self = match row {
            Some(row) => Producer {
                events_cache,
                has_tick_data: true,
                next_quote_tick: Some(Quote::from_row(row)),
                next_trade_tick,
                quotes_counter: quotes_counter + 1,
                trades_counter,
            },
            None => Producer {
                events_cache,
                has_tick_data: next_trade_tick.is_some(),
                next_quote_tick: None,
                next_trade_tick,
                quotes_counter,
                trades_counter,
            },
        };
        next_quote_tick
    }

    /// Takes in what was read from the trade stream, and hands out the trade
    /// that was held until now. A row is counted and becomes the trade held;
    /// at the end of the stream no trade is held any more, and where no quote
    /// is held either, nothing is left to emit.
    fn iterate_trade_tick(&mut self, row: Option<&TradeRow>) -> (held: Option<Trade>)
        requires
            row is Some ==> old(self)@.trades_counter < u64::MAX,
        ensures
            final(self)@ == old(self)@.with_trade(viewed(row)),
            match held {
                Some(trade) => old(self)@.trade == Some(trade@),
                None => old(self)@.trade is None,
            },
    {
        // The flag and the slots change together: the producer is taken
        // apart and put back in one piece.
        let mut current = Producer::default();
        core::mem::swap(self, &mut current);
        let Producer {
            events_cache,
            has_tick_data: _,
            next_quote_tick,
            next_trade_tick,
            quotes_counter,
            trades_counter,
        } = current;
        *self = match row {
            Some(row) => Producer {
                events_cache,
                has_tick_data: true,
                next_quote_tick,
                next_trade_tick: Some(Trade::from_row(row)),
                quotes_counter,
                trades_counter: trades_counter + 1,
            },
            None => Producer {
                events_cache,
                has_tick_data: next_quote_tick.is_some(),
                next_quote_tick,
                next_trade_tick: None,
                quotes_counter,
                trades_counter,
            },
        };
        next_trade_tick
    }
}

} // verus!
