//! The merged stream as a mathematical sequence, and what a producer still
//! has to emit, stated over it.

use vstd::prelude::*;
use crate::producer::{Producer, ProducerView, Refill, RefillView};
use crate::tick::{
    QuoteRow, QuoteRowView, QuoteView, Source, TickView, Ticks, TradeRow, TradeRowView, TradeView,
};

verus! {

/// Whether the first quote goes before the first trade: there is a quote,
/// and either there is no trade or the quote is not later than the trade.
pub open spec fn quote_leads(quotes: Seq<QuoteView>, trades: Seq<TradeView>) -> bool {
    quotes.len() > 0 && (trades.len() == 0 || quotes[0].timestamp <= trades[0].timestamp)
}

/// The merge of a sequence of quotes and a sequence of trades: at each step
/// the earlier of the two first records, the quote where both are of the
/// same time.
pub open spec fn merged(quotes: Seq<QuoteView>, trades: Seq<TradeView>) -> Seq<TickView>
    decreases quotes.len() + trades.len(),
{
    if quotes.len() == 0 && trades.len() == 0 {
        Seq::empty()
    } else if quote_leads(quotes, trades) {
        seq![TickView::Quote(quotes[0])] + merged(quotes.drop_first(), trades)
    } else {
        seq![TickView::Trade(trades[0])] + merged(quotes, trades.drop_first())
    }
}

/// The quotes made of the rows of a quote stream, in the order of the rows.
pub open spec fn quotes_of(rows: Seq<QuoteRowView>) -> Seq<QuoteView> {
    rows.map_values(|row: QuoteRowView| row.quote())
}

/// The trades made of the rows of a trade stream, in the order of the rows.
pub open spec fn trades_of(rows: Seq<TradeRowView>) -> Seq<TradeView> {
    rows.map_values(|row: TradeRowView| row.trade())
}

/// The ticks emitted for a quote stream and a trade stream, from the first
/// to the last.
pub open spec fn emitted(quote_rows: Seq<QuoteRowView>, trade_rows: Seq<TradeRowView>) -> Seq<
    TickView,
> {
    merged(quotes_of(quote_rows), trades_of(trade_rows))
}

/// The quotes among a sequence of ticks, in their order.
pub open spec fn quotes_in(ticks: Seq<TickView>) -> Seq<QuoteView>
    decreases ticks.len(),
{
    if ticks.len() == 0 {
        Seq::empty()
    } else {
        match ticks[0] {
            TickView::Quote(quote) => seq![quote] + quotes_in(ticks.drop_first()),
            TickView::Trade(_) => quotes_in(ticks.drop_first()),
        }
    }
}

/// The trades among a sequence of ticks, in their order.
pub open spec fn trades_in(ticks: Seq<TickView>) -> Seq<TradeView>
    decreases ticks.len(),
{
    if ticks.len() == 0 {
        Seq::empty()
    } else {
        match ticks[0] {
            TickView::Trade(trade) => seq![trade] + trades_in(ticks.drop_first()),
            TickView::Quote(_) => trades_in(ticks.drop_first()),
        }
    }
}

/// The row that a stream gives when it is read: its first, or `None` at its
/// end.
pub open spec fn read<Row>(rows: Seq<Row>) -> Option<Row> {
    if rows.len() > 0 {
        Some(rows[0])
    } else {
        None
    }
}

/// The rows that are left in a stream after it was read once.
pub open spec fn unread<Row>(rows: Seq<Row>) -> Seq<Row> {
    if rows.len() > 0 {
        rows.drop_first()
    } else {
        rows
    }
}

/// The record of a lookahead slot as a sequence of one, or of none.
pub open spec fn held<Record>(slot: Option<Record>) -> Seq<Record> {
    match slot {
        Some(record) => seq![record],
        None => Seq::empty(),
    }
}

/// Whether a producer and the unread rows of its two streams fit together:
/// a slot is empty only where its stream has no row left.
pub open spec fn in_step(
    producer: ProducerView,
    quote_rows: Seq<QuoteRowView>,
    trade_rows: Seq<TradeRowView>,
) -> bool {
    &&& producer.quote is None ==> quote_rows.len() == 0
    &&& producer.trade is None ==> trade_rows.len() == 0
}

/// The ticks that a producer has yet to emit, given the unread rows of its
/// two streams: the merge of what it holds and what the streams still hold.
pub open spec fn pending(
    producer: ProducerView,
    quote_rows: Seq<QuoteRowView>,
    trade_rows: Seq<TradeRowView>,
) -> Seq<TickView> {
    merged(
        held(producer.quote) + quotes_of(quote_rows),
        held(producer.trade) + trades_of(trade_rows),
    )
}

/// A merge has as many ticks as there are quotes and trades.
pub proof fn lemma_merged_len(quotes: Seq<QuoteView>, trades: Seq<TradeView>)
    ensures
        merged(quotes, trades).len() == quotes.len() + trades.len(),
    decreases quotes.len() + trades.len(),
{
    if quotes.len() == 0 && trades.len() == 0 {
    } else if quote_leads(quotes, trades) {
        lemma_merged_len(quotes.drop_first(), trades);
    } else {
        lemma_merged_len(quotes, trades.drop_first());
    }
}

/// A freshly made producer has the whole merged stream yet to emit.
pub proof fn lemma_pending_at_start(
    quote_rows: Seq<QuoteRowView>,
    trade_rows: Seq<TradeRowView>,
)
    ensures
        in_step(
            Producer::primed(read(trade_rows), read(quote_rows)),
            unread(quote_rows),
            unread(trade_rows),
        ),
        pending(
            Producer::primed(read(trade_rows), read(quote_rows)),
            unread(quote_rows),
            unread(trade_rows),
        ) == emitted(quote_rows, trade_rows),
{
    let producer = Producer::primed(read(trade_rows), read(quote_rows));
    assert(held(producer.quote) + quotes_of(unread(quote_rows)) =~= quotes_of(quote_rows));
    assert(held(producer.trade) + trades_of(unread(trade_rows)) =~= trades_of(trade_rows));
}

/// One call of `next_tick` emits the first of the ticks that were pending and
/// leaves the others pending, in their order, where the refill is what the
/// stream of the emitted tick gives when it is read.
pub proof fn lemma_pending_step(
    producer: ProducerView,
    quote_rows: Seq<QuoteRowView>,
    trade_rows: Seq<TradeRowView>,
)
    requires
        in_step(producer, quote_rows, trade_rows),
    ensures
        match producer.next_source() {
            None => pending(producer, quote_rows, trade_rows) == Seq::<TickView>::empty(),
            Some(Source::Quote) => {
                let then = producer.after(RefillView::Quote(read(quote_rows)));
                &&& in_step(then, unread(quote_rows), trade_rows)
                &&& pending(producer, quote_rows, trade_rows) == seq![producer.next()->0] + pending(
                    then,
                    unread(quote_rows),
                    trade_rows,
                )
            },
            Some(Source::Trade) => {
                let then = producer.after(RefillView::Trade(read(trade_rows)));
                &&& in_step(then, quote_rows, unread(trade_rows))
                &&& pending(producer, quote_rows, trade_rows) == seq![producer.next()->0] + pending(
                    then,
                    quote_rows,
                    unread(trade_rows),
                )
            },
        },
{
    let quotes = held(producer.quote) + quotes_of(quote_rows);
    let trades = held(producer.trade) + trades_of(trade_rows);
    match producer.next_source() {
        None => {
            assert(quotes.len() == 0 && trades.len() == 0);
        },
        Some(Source::Quote) => {
            let then = producer.after(RefillView::Quote(read(quote_rows)));
            assert(quote_leads(quotes, trades));
            assert(quotes.drop_first() =~= held(then.quote) + quotes_of(unread(quote_rows)));
            assert(then.trade == producer.trade);
        },
        Some(Source::Trade) => {
            let then = producer.after(RefillView::Trade(read(trade_rows)));
            assert(!quote_leads(quotes, trades));
            assert(trades.drop_first() =~= held(then.trade) + trades_of(unread(trade_rows)));
            assert(then.quote == producer.quote);
        },
    }
}

/// What a slice of quote rows holds.
pub open spec fn quote_rows_view(rows: Seq<QuoteRow>) -> Seq<QuoteRowView> {
    rows.map_values(|row: QuoteRow| row@)
}

/// What a slice of trade rows holds.
pub open spec fn trade_rows_view(rows: Seq<TradeRow>) -> Seq<TradeRowView> {
    rows.map_values(|row: TradeRow| row@)
}

/// What a vector of ticks holds.
pub open spec fn ticks_view(ticks: Seq<Ticks>) -> Seq<TickView> {
    ticks.map_values(|tick: Ticks| tick@)
}

/// Merges two streams that are held in memory: drives a producer over the
/// rows of both until nothing is left, and returns the ticks in the order in
/// which it emitted them.
pub fn merge(quotes: &[QuoteRow], trades: &[TradeRow]) -> (ticks: Vec<Ticks>)
    ensures
        ticks_view(ticks@) == emitted(quote_rows_view(quotes@), trade_rows_view(trades@)),
{
    let ghost quote_rows = quote_rows_view(quotes@);
    let ghost trade_rows = trade_rows_view(trades@);
    let mut quotes_read: usize = 0;
    let mut trades_read: usize = 0;
    let first_quote = if quotes.len() > 0 {
        quotes_read = 1;
        Some(&quotes[0])
    } else {
        None
    };
    let first_trade = if trades.len() > 0 {
        trades_read = 1;
        Some(&trades[0])
    } else {
        None
    };
    let mut producer = Producer::new(first_trade, first_quote);
    let mut ticks: Vec<Ticks> = Vec::new();
    proof {
        lemma_pending_at_start(quote_rows, trade_rows);
        assert(quote_rows.skip(quotes_read as int) =~= unread(quote_rows));
        assert(trade_rows.skip(trades_read as int) =~= unread(trade_rows));
        assert(ticks_view(ticks@) =~= Seq::empty());
    }
    loop
        invariant
            quote_rows == quote_rows_view(quotes@),
            trade_rows == trade_rows_view(trades@),
            quotes_read <= quotes.len(),
            trades_read <= trades.len(),
            producer@.quotes_counter == quotes_read,
            producer@.trades_counter == trades_read,
            in_step(
                producer@,
                quote_rows.skip(quotes_read as int),
                trade_rows.skip(trades_read as int),
            ),
            ticks_view(ticks@) + pending(
                producer@,
                quote_rows.skip(quotes_read as int),
                trade_rows.skip(trades_read as int),
            ) == emitted(quote_rows, trade_rows),
        ensures
            ticks_view(ticks@) == emitted(quote_rows, trade_rows),
        decreases
            pending(
                producer@,
                quote_rows.skip(quotes_read as int),
                trade_rows.skip(trades_read as int),
            ).len(),
    {
        let ghost before = producer@;
        let ghost quotes_left = quote_rows.skip(quotes_read as int);
        let ghost trades_left = trade_rows.skip(trades_read as int);
        let ghost emitted_before = ticks_view(ticks@);
        proof {
            lemma_pending_step(before, quotes_left, trades_left);
        }
        match producer.next_source() {
            None => {
                break ;
            },
            Some(Source::Quote) => {
                let row = if quotes_read < quotes.len() {
                    quotes_read = quotes_read + 1;
                    Some(&quotes[quotes_read - 1])
                } else {
                    None
                };
                proof {
                    assert(quote_rows.skip(quotes_read as int) =~= unread(quotes_left));
                    assert(Refill::Quote(row)@ == RefillView::Quote(read(quotes_left)));
                }
                match producer.next_tick(Refill::Quote(row)) {
                    Some(tick) => {
                        ticks.push(tick);
                        proof {
                            assert(ticks_view(ticks@) =~= emitted_before + seq![tick@]);
                        }
                    },
                    None => {},
                }
            },
            Some(Source::Trade) => {
                let row = if trades_read < trades.len() {
                    trades_read = trades_read + 1;
                    Some(&trades[trades_read - 1])
                } else {
                    None
                };
                proof {
                    assert(trade_rows.skip(trades_read as int) =~= unread(trades_left));
                    assert(Refill::Trade(row)@ == RefillView::Trade(read(trades_left)));
                }
                match producer.next_tick(Refill::Trade(row)) {
                    Some(tick) => {
                        ticks.push(tick);
                        proof {
                            assert(ticks_view(ticks@) =~= emitted_before + seq![tick@]);
                        }
                    },
                    None => {},
                }
            },
        }
    }
    ticks
}

} // verus!
