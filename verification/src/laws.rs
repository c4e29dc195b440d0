//! What holds of every merged stream and of every producer.

use vstd::prelude::*;
use crate::merge::{
    emitted, merged, quote_leads, quotes_in, quotes_of, trades_in, trades_of, lemma_merged_len,
};
use crate::producer::{ProducerView, RefillView};
use crate::tick::{QuoteRowView, QuoteView, Source, TickView, TradeRowView, TradeView};

verus! {

/// Whether the rows of a quote stream are in ascending order of local
/// receipt time.
pub open spec fn quote_rows_ascend(rows: Seq<QuoteRowView>) -> bool {
    forall|i: int, j: int|
        0 <= i <= j < rows.len() ==> rows[i].local_timestamp <= rows[j].local_timestamp
}

/// Whether the rows of a trade stream are in ascending order of local
/// receipt time.
pub open spec fn trade_rows_ascend(rows: Seq<TradeRowView>) -> bool {
    forall|i: int, j: int|
        0 <= i <= j < rows.len() ==> rows[i].local_timestamp <= rows[j].local_timestamp
}

/// Whether quotes are in ascending order of time.
pub open spec fn quotes_ascend(quotes: Seq<QuoteView>) -> bool {
    forall|i: int, j: int| 0 <= i <= j < quotes.len() ==> quotes[i].timestamp <= quotes[j].timestamp
}

/// Whether trades are in ascending order of time.
pub open spec fn trades_ascend(trades: Seq<TradeView>) -> bool {
    forall|i: int, j: int| 0 <= i <= j < trades.len() ==> trades[i].timestamp <= trades[j].timestamp
}

/// Whether ticks are in ascending order of time.
pub open spec fn ticks_ascend(ticks: Seq<TickView>) -> bool {
    forall|i: int, j: int|
        0 <= i <= j < ticks.len() ==> ticks[i].timestamp() <= ticks[j].timestamp()
}

/// Whether, among ticks of the same time, no trade stands before a quote.
pub open spec fn quotes_lead_at_ties(ticks: Seq<TickView>) -> bool {
    forall|i: int, j: int|
        0 <= i < ticks.len() && 0 <= j < ticks.len() && ticks[i] is Quote && ticks[j] is Trade
            && ticks[i].timestamp() == ticks[j].timestamp() ==> i < j
}

/// The producer after a run of calls of `next_tick`, one for each refill.
pub open spec fn after_all(producer: ProducerView, refills: Seq<RefillView>) -> ProducerView
    decreases refills.len(),
{
    if refills.len() == 0 {
        producer
    } else {
        after_all(producer.after(refills[0]), refills.drop_first())
    }
}

/// No tick of a merge is earlier than a time that none of the quotes and
/// none of the trades is earlier than.
pub proof fn lemma_merged_not_before(quotes: Seq<QuoteView>, trades: Seq<TradeView>, low: i64)
    requires
        forall|i: int| 0 <= i < quotes.len() ==> low <= quotes[i].timestamp,
        forall|i: int| 0 <= i < trades.len() ==> low <= trades[i].timestamp,
    ensures
        forall|k: int|
            0 <= k < merged(quotes, trades).len() ==> low <= merged(quotes, trades)[k].timestamp(),
    decreases quotes.len() + trades.len(),
{
    let all = merged(quotes, trades);
    if quotes.len() == 0 && trades.len() == 0 {
    } else if quote_leads(quotes, trades) {
        let rest = quotes.drop_first();
        assert forall|i: int| 0 <= i < rest.len() implies low <= rest[i].timestamp by {
            assert(rest[i] == quotes[i + 1]);
        }
        lemma_merged_not_before(rest, trades, low);
        assert forall|k: int| 0 <= k < all.len() implies low <= all[k].timestamp() by {
            if k > 0 {
                assert(all[k] == merged(rest, trades)[k - 1]);
            }
        }
    } else {
        let rest = trades.drop_first();
        assert forall|i: int| 0 <= i < rest.len() implies low <= rest[i].timestamp by {
            assert(rest[i] == trades[i + 1]);
        }
        lemma_merged_not_before(quotes, rest, low);
        assert forall|k: int| 0 <= k < all.len() implies low <= all[k].timestamp() by {
            if k > 0 {
                assert(all[k] == merged(quotes, rest)[k - 1]);
            }
        }
    }
}

/// No quote of a merge is earlier than a time that none of the quotes merged
/// is earlier than.
pub proof fn lemma_merged_quotes_not_before(
    quotes: Seq<QuoteView>,
    trades: Seq<TradeView>,
    low: i64,
)
    requires
        forall|i: int| 0 <= i < quotes.len() ==> low <= quotes[i].timestamp,
    ensures
        forall|k: int|
            0 <= k < merged(quotes, trades).len() && merged(quotes, trades)[k] is Quote ==> low
                <= merged(quotes, trades)[k].timestamp(),
    decreases quotes.len() + trades.len(),
{
    let all = merged(quotes, trades);
    if quotes.len() == 0 && trades.len() == 0 {
    } else if quote_leads(quotes, trades) {
        let rest = quotes.drop_first();
        assert forall|i: int| 0 <= i < rest.len() implies low <= rest[i].timestamp by {
            assert(rest[i] == quotes[i + 1]);
        }
        lemma_merged_quotes_not_before(rest, trades, low);
        assert forall|k: int| 0 <= k < all.len() && all[k] is Quote implies low
            <= all[k].timestamp() by {
            if k > 0 {
                assert(all[k] == merged(rest, trades)[k - 1]);
            }
        }
    } else {
        let rest = trades.drop_first();
        lemma_merged_quotes_not_before(quotes, rest, low);
        assert forall|k: int| 0 <= k < all.len() && all[k] is Quote implies low
            <= all[k].timestamp() by {
            if k > 0 {
                assert(all[k] == merged(quotes, rest)[k - 1]);
            }
        }
    }
}

/// The merge of ascending quotes and ascending trades is ascending.
pub proof fn lemma_merged_ascends(quotes: Seq<QuoteView>, trades: Seq<TradeView>)
    requires
        quotes_ascend(quotes),
        trades_ascend(trades),
    ensures
        ticks_ascend(merged(quotes, trades)),
    decreases quotes.len() + trades.len(),
{
    if quotes.len() == 0 && trades.len() == 0 {
    } else if quote_leads(quotes, trades) {
        let rest = quotes.drop_first();
        assert(quotes_ascend(rest)) by {
            assert forall|i: int, j: int| 0 <= i <= j < rest.len() implies rest[i].timestamp
                <= rest[j].timestamp by {
                assert(rest[i] == quotes[i + 1] && rest[j] == quotes[j + 1]);
            }
        }
        lemma_merged_ascends(rest, trades);
        assert forall|i: int| 0 <= i < rest.len() implies quotes[0].timestamp
            <= rest[i].timestamp by {
            assert(rest[i] == quotes[i + 1]);
        }
        lemma_merged_not_before(rest, trades, quotes[0].timestamp);
    } else {
        let rest = trades.drop_first();
        assert(trades_ascend(rest)) by {
            assert forall|i: int, j: int| 0 <= i <= j < rest.len() implies rest[i].timestamp
                <= rest[j].timestamp by {
                assert(rest[i] == trades[i + 1] && rest[j] == trades[j + 1]);
            }
        }
        lemma_merged_ascends(quotes, rest);
        assert forall|i: int| 0 <= i < rest.len() implies trades[0].timestamp
            <= rest[i].timestamp by {
            assert(rest[i] == trades[i + 1]);
        }
        lemma_merged_not_before(quotes, rest, trades[0].timestamp);
    }
}

/// In the merge of ascending quotes and ascending trades, a trade that
/// stands before a quote is earlier than the quote.
pub proof fn lemma_merged_trade_before_quote_is_earlier(
    quotes: Seq<QuoteView>,
    trades: Seq<TradeView>,
)
    requires
        quotes_ascend(quotes),
        trades_ascend(trades),
    ensures
        forall|i: int, j: int|
            0 <= i < j < merged(quotes, trades).len() && merged(quotes, trades)[i] is Trade
                && merged(quotes, trades)[j] is Quote ==> merged(quotes, trades)[i].timestamp()
                < merged(quotes, trades)[j].timestamp(),
    decreases quotes.len() + trades.len(),
{
    let all = merged(quotes, trades);
    if quotes.len() == 0 && trades.len() == 0 {
    } else if quote_leads(quotes, trades) {
        let rest = quotes.drop_first();
        assert(quotes_ascend(rest)) by {
            assert forall|i: int, j: int| 0 <= i <= j < rest.len() implies rest[i].timestamp
                <= rest[j].timestamp by {
                assert(rest[i] == quotes[i + 1] && rest[j] == quotes[j + 1]);
            }
        }
        lemma_merged_trade_before_quote_is_earlier(rest, trades);
        let tail = merged(rest, trades);
        assert forall|i: int, j: int|
            0 <= i < j < all.len() && all[i] is Trade && all[j] is Quote implies all[i].timestamp()
            < all[j].timestamp() by {
            assert(all[i] == tail[i - 1] && all[j] == tail[j - 1]);
        }
    } else {
        let rest = trades.drop_first();
        assert(trades_ascend(rest)) by {
            assert forall|i: int, j: int| 0 <= i <= j < rest.len() implies rest[i].timestamp
                <= rest[j].timestamp by {
                assert(rest[i] == trades[i + 1] && rest[j] == trades[j + 1]);
            }
        }
        lemma_merged_trade_before_quote_is_earlier(quotes, rest);
        let tail = merged(quotes, rest);
        if quotes.len() > 0 {
            assert forall|i: int| 0 <= i < quotes.len() implies quotes[0].timestamp <= (
            #[trigger] quotes[i]).timestamp by {}
            lemma_merged_quotes_not_before(quotes, rest, quotes[0].timestamp);
        } else {
            assert(quotes =~= Seq::empty());
            lemma_no_quotes_in_merge_of_trades(rest);
        }
        assert(all[0] == TickView::Trade(trades[0]));
        assert forall|i: int, j: int|
            0 <= i < j < all.len() && all[i] is Trade && all[j] is Quote implies all[i].timestamp()
            < all[j].timestamp() by {
            assert(all[j] == tail[j - 1]);
            if i > 0 {
                assert(all[i] == tail[i - 1]);
            }
        }
    }
}

/// With no quotes to merge, no tick of the merge is a quote.
pub proof fn lemma_no_quotes_in_merge_of_trades(trades: Seq<TradeView>)
    ensures
        forall|k: int|
            0 <= k < merged(Seq::empty(), trades).len() ==> merged(Seq::empty(), trades)[k]
                is Trade,
    decreases trades.len(),
{
    if trades.len() > 0 {
        lemma_no_quotes_in_merge_of_trades(trades.drop_first());
    }
}

/// The quotes among the ticks of a merge are the quotes merged, and the
/// trades among them the trades merged, each in their own order.
pub proof fn lemma_merged_keeps_each_stream(quotes: Seq<QuoteView>, trades: Seq<TradeView>)
    ensures
        quotes_in(merged(quotes, trades)) == quotes,
        trades_in(merged(quotes, trades)) == trades,
    decreases quotes.len() + trades.len(),
{
    let all = merged(quotes, trades);
    if quotes.len() == 0 && trades.len() == 0 {
        assert(quotes_in(all) =~= quotes);
        assert(trades_in(all) =~= trades);
    } else if quote_leads(quotes, trades) {
        lemma_merged_keeps_each_stream(quotes.drop_first(), trades);
        assert(all.drop_first() =~= merged(quotes.drop_first(), trades));
        assert(quotes_in(all) =~= quotes);
    } else {
        lemma_merged_keeps_each_stream(quotes, trades.drop_first());
        assert(all.drop_first() =~= merged(quotes, trades.drop_first()));
        assert(trades_in(all) =~= trades);
    }
}

/// Where the rows of each stream are in ascending order of local receipt
/// time, so are the ticks emitted: each tick is at most as late as every tick
/// after it, and so as the tick that follows it.
pub proof fn law_ordering(quote_rows: Seq<QuoteRowView>, trade_rows: Seq<TradeRowView>)
    requires
        quote_rows_ascend(quote_rows),
        trade_rows_ascend(trade_rows),
    ensures
        ticks_ascend(emitted(quote_rows, trade_rows)),
        forall|i: int|
            0 <= i && i + 1 < emitted(quote_rows, trade_rows).len() ==> (#[trigger] emitted(
                quote_rows,
                trade_rows,
            )[i]).timestamp() <= emitted(quote_rows, trade_rows)[i + 1].timestamp(),
{
    lemma_merged_ascends(quotes_of(quote_rows), trades_of(trade_rows));
}

/// The quotes among the ticks emitted are the quotes of the rows of the
/// quote stream, one for each row and in the order of the rows, and likewise
/// the trades: no record is dropped, doubled or moved within its stream.
pub proof fn law_completeness(quote_rows: Seq<QuoteRowView>, trade_rows: Seq<TradeRowView>)
    ensures
        quotes_in(emitted(quote_rows, trade_rows)) == quotes_of(quote_rows),
        trades_in(emitted(quote_rows, trade_rows)) == trades_of(trade_rows),
        quotes_in(emitted(quote_rows, trade_rows)).len() == quote_rows.len(),
        trades_in(emitted(quote_rows, trade_rows)).len() == trade_rows.len(),
        emitted(quote_rows, trade_rows).len() == quote_rows.len() + trade_rows.len(),
{
    lemma_merged_keeps_each_stream(quotes_of(quote_rows), trades_of(trade_rows));
    lemma_merged_len(quotes_of(quote_rows), trades_of(trade_rows));
}

/// A producer that holds a quote and a trade of the same time emits the
/// quote, and still holds the trade afterwards.
pub proof fn law_quote_wins_tie(producer: ProducerView, refill: RefillView)
    requires
        producer.quote is Some,
        producer.trade is Some,
        producer.quote->0.timestamp == producer.trade->0.timestamp,
    ensures
        producer.next_source() == Some(Source::Quote),
        producer.next() == Some(TickView::Quote(producer.quote->0)),
        producer.after(refill).trade == producer.trade,
{
}

/// Where the rows of each stream are in ascending order of local receipt
/// time, every quote is emitted before every trade of the same time.
pub proof fn law_quotes_lead_at_ties(
    quote_rows: Seq<QuoteRowView>,
    trade_rows: Seq<TradeRowView>,
)
    requires
        quote_rows_ascend(quote_rows),
        trade_rows_ascend(trade_rows),
    ensures
        quotes_lead_at_ties(emitted(quote_rows, trade_rows)),
{
    lemma_merged_trade_before_quote_is_earlier(quotes_of(quote_rows), trades_of(trade_rows));
}

/// The lookahead never falls behind. Where the row taken in is not earlier
/// than the tick emitted in the same call, as in a stream in ascending order,
/// no record held after the call is earlier than that tick, and neither is
/// the tick emitted by the call that follows.
pub proof fn law_lookahead_not_before_emitted(producer: ProducerView, refill: RefillView)
    requires
        producer.next() is Some,
        Some(refill.source()) == producer.next_source(),
        refill.not_before(producer.next()->0.timestamp()),
    ensures
        producer.after(refill).quote matches Some(quote) ==> producer.next()->0.timestamp()
            <= quote.timestamp,
        producer.after(refill).trade matches Some(trade) ==> producer.next()->0.timestamp()
            <= trade.timestamp,
        producer.after(refill).next() matches Some(tick) ==> producer.next()->0.timestamp()
            <= tick.timestamp(),
{
}

/// A stream that has come to its end is left alone: the producer does not
/// name it as the stream to read, and holds no record of it after any call.
pub proof fn law_ended_stream_stays_ended(producer: ProducerView, refill: RefillView)
    ensures
        producer.quote is None ==> producer.next_source() != Some(Source::Quote)
            && producer.after(refill).quote is None,
        producer.trade is None ==> producer.next_source() != Some(Source::Trade)
            && producer.after(refill).trade is None,
{
}

/// A producer that has nothing to emit stays as it is whatever refill it is
/// handed, so that it has nothing to emit after any number of further calls.
pub proof fn law_termination_is_final(producer: ProducerView, refills: Seq<RefillView>)
    requires
        producer.next() is None,
    ensures
        !producer.has_tick_data(),
        after_all(producer, refills) == producer,
        after_all(producer, refills).next() is None,
    decreases refills.len(),
{
    if refills.len() > 0 {
        law_termination_is_final(producer.after(refills[0]), refills.drop_first());
    }
}

/// Where one stream has no row, the ticks emitted are the records of the
/// other stream, all of them and in their order.
pub proof fn law_exhaustion_asymmetry(
    quote_rows: Seq<QuoteRowView>,
    trade_rows: Seq<TradeRowView>,
)
    ensures
        trade_rows.len() == 0 ==> emitted(quote_rows, trade_rows) == quotes_of(
            quote_rows,
        ).map_values(|quote: QuoteView| TickView::Quote(quote)),
        quote_rows.len() == 0 ==> emitted(quote_rows, trade_rows) == trades_of(
            trade_rows,
        ).map_values(|trade: TradeView| TickView::Trade(trade)),
{
    if trade_rows.len() == 0 {
        lemma_merge_of_quotes_alone(quotes_of(quote_rows));
        assert(trades_of(trade_rows) =~= Seq::empty());
    }
    if quote_rows.len() == 0 {
        lemma_merge_of_trades_alone(trades_of(trade_rows));
        assert(quotes_of(quote_rows) =~= Seq::empty());
    }
}

/// The merge of quotes with no trades is the quotes, in their order.
pub proof fn lemma_merge_of_quotes_alone(quotes: Seq<QuoteView>)
    ensures
        merged(quotes, Seq::empty()) == quotes.map_values(|quote: QuoteView| TickView::Quote(quote)),
    decreases quotes.len(),
{
    if quotes.len() > 0 {
        lemma_merge_of_quotes_alone(quotes.drop_first());
    }
    assert(merged(quotes, Seq::empty()) =~= quotes.map_values(
        |quote: QuoteView| TickView::Quote(quote),
    ));
}

/// The merge of trades with no quotes is the trades, in their order.
pub proof fn lemma_merge_of_trades_alone(trades: Seq<TradeView>)
    ensures
        merged(Seq::empty(), trades) == trades.map_values(|trade: TradeView| TickView::Trade(trade)),
    decreases trades.len(),
{
    if trades.len() > 0 {
        lemma_merge_of_trades_alone(trades.drop_first());
    }
    assert(merged(Seq::empty(), trades) =~= trades.map_values(
        |trade: TradeView| TickView::Trade(trade),
    ));
}

} // verus!
