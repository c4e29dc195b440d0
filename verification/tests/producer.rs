use tick_merge::producer::{Producer, Refill};
use tick_merge::tick::{Quote, QuoteRow, Source, Ticks, Trade, TradeRow};

fn quote_row(local_timestamp: i64) -> QuoteRow {
    QuoteRow {
        exchange: String::from("binance-futures"),
        symbol: String::from("BTCUSDT"),
        timestamp: local_timestamp - 135_336,
        local_timestamp,
        ask_amount_bits: 4.55f32.to_bits(),
        ask_price_bits: 9593.61f32.to_bits(),
        bid_price_bits: 9593.31f32.to_bits(),
        bid_amount_bits: 8.171f32.to_bits(),
    }
}

fn trade_row(local_timestamp: i64) -> TradeRow {
    TradeRow {
        exchange: String::from("binance-futures"),
        symbol: String::from("BTCUSDT"),
        timestamp: local_timestamp - 1_276_191,
        local_timestamp,
        id: 41_370_304,
        side: String::from("buy"),
        price_bits: 10175.48f32.to_bits(),
        amount_bits: 0.018f32.to_bits(),
    }
}

fn quote_rows(times: &[i64]) -> Vec<QuoteRow> {
    times.iter().map(|time| quote_row(*time)).collect()
}

fn trade_rows(times: &[i64]) -> Vec<TradeRow> {
    times.iter().map(|time| trade_row(*time)).collect()
}

/// Drives a producer over two streams as a reader of files would: one row
/// ahead in each stream, and a new row only for the stream just emitted from.
fn drive(quotes: &[QuoteRow], trades: &[TradeRow]) -> (Vec<Ticks>, Producer) {
    let mut quotes = quotes.iter();
    let mut trades = trades.iter();
    let first_quote = quotes.next();
    let first_trade = trades.next();
    let mut producer = Producer::new(first_trade, first_quote);
    let mut ticks = Vec::new();
    loop {
        let refill = match producer.next_source() {
            None => break,
            Some(Source::Quote) => Refill::Quote(quotes.next()),
            Some(Source::Trade) => Refill::Trade(trades.next()),
        };
        match producer.next_tick(refill) {
            Some(tick) => ticks.push(tick),
            None => panic!("a producer with a source that is due emitted nothing"),
        }
    }
    assert!(quotes.next().is_none());
    assert!(trades.next().is_none());
    (ticks, producer)
}

fn labels(ticks: &[Ticks]) -> Vec<(Source, i64)> {
    ticks.iter().map(|tick| (tick.source(), tick.timestamp())).collect()
}

#[test]
fn quotes_and_trades_are_merged_in_time_order_and_the_quote_wins_the_tie() {
    let quotes = quote_rows(&[100, 300]);
    let trades = trade_rows(&[200, 300]);
    let (ticks, _) = drive(&quotes, &trades);
    assert_eq!(
        labels(&ticks),
        vec![
            (Source::Quote, 100),
            (Source::Trade, 200),
            (Source::Quote, 300),
            (Source::Trade, 300),
        ]
    );
    assert!(matches!(ticks[0], Ticks::Quote(_)));
    assert!(matches!(ticks[1], Ticks::Trade(_)));
    assert!(matches!(ticks[2], Ticks::Quote(_)));
    assert!(matches!(ticks[3], Ticks::Trade(_)));
}

#[test]
fn an_empty_trade_stream_leaves_the_quotes_in_their_order_and_then_none() {
    let quotes = quote_rows(&[10, 20, 30]);
    let mut rest = quotes.iter();
    let mut producer = Producer::new(None, rest.next());
    let mut seen = Vec::new();
    for _ in 0..3 {
        assert_eq!(producer.next_source(), Some(Source::Quote));
        let tick = producer.next_tick(Refill::Quote(rest.next())).unwrap();
        seen.push((tick.source(), tick.timestamp()));
    }
    assert_eq!(seen, vec![(Source::Quote, 10), (Source::Quote, 20), (Source::Quote, 30)]);
    assert_eq!(producer.next_source(), None);
    assert!(producer.next_tick(Refill::Quote(None)).is_none());
    assert!(producer.next_tick(Refill::Trade(None)).is_none());
}

#[test]
fn an_empty_quote_stream_leaves_the_trades_in_their_order_and_then_none() {
    let trades = trade_rows(&[10, 20, 30]);
    let (ticks, mut producer) = drive(&[], &trades);
    assert_eq!(
        labels(&ticks),
        vec![(Source::Trade, 10), (Source::Trade, 20), (Source::Trade, 30)]
    );
    assert!(producer.next_tick(Refill::Trade(None)).is_none());
}

#[test]
fn two_empty_streams_give_nothing() {
    let mut producer = Producer::new(None, None);
    assert!(!producer.has_tick_data());
    assert_eq!(producer.next_source(), None);
    assert!(producer.next_tick(Refill::Quote(None)).is_none());
    assert!(producer.next_tick(Refill::Trade(None)).is_none());
    assert!(!producer.has_tick_data());
    assert_eq!(producer.quotes_counter(), 0);
    assert_eq!(producer.trades_counter(), 0);
    assert!(producer.next_quote_tick().is_none());
    assert!(producer.next_trade_tick().is_none());
}

#[test]
fn the_default_producer_is_that_of_two_empty_streams() {
    let mut producer = Producer::default();
    assert!(!producer.has_tick_data());
    assert_eq!(producer.next_source(), None);
    assert!(producer.next_tick(Refill::Quote(None)).is_none());
    assert_eq!(producer.quotes_counter(), 0);
    assert_eq!(producer.trades_counter(), 0);
    assert!(producer.events_cache().is_empty());
}

#[test]
fn a_quote_and_a_trade_of_the_same_time_come_out_quote_first() {
    let quote = quote_row(1_582_156_799_997_336);
    let trade = trade_row(1_582_156_799_997_336);
    let mut producer = Producer::new(Some(&trade), Some(&quote));
    assert_eq!(producer.next_source(), Some(Source::Quote));
    let first = producer.next_tick(Refill::Quote(None)).unwrap();
    assert!(matches!(first, Ticks::Quote(_)));
    assert!(producer.next_trade_tick().is_some());
    assert_eq!(producer.next_source(), Some(Source::Trade));
    let second = producer.next_tick(Refill::Trade(None)).unwrap();
    assert!(matches!(second, Ticks::Trade(_)));
    assert_eq!(first.timestamp(), second.timestamp());
}

#[test]
fn a_trade_that_is_earlier_by_one_microsecond_comes_out_first() {
    let quote = quote_row(501);
    let trade = trade_row(500);
    let mut producer = Producer::new(Some(&trade), Some(&quote));
    assert_eq!(producer.next_source(), Some(Source::Trade));
    let first = producer.next_tick(Refill::Trade(None)).unwrap();
    assert_eq!((first.source(), first.timestamp()), (Source::Trade, 500));
    let second = producer.next_tick(Refill::Quote(None)).unwrap();
    assert_eq!((second.source(), second.timestamp()), (Source::Quote, 501));
}

#[test]
fn several_records_of_one_time_come_out_quotes_first_each_stream_in_order() {
    let mut quotes = quote_rows(&[7, 7, 7]);
    quotes[0].symbol = String::from("Q0");
    quotes[1].symbol = String::from("Q1");
    quotes[2].symbol = String::from("Q2");
    let mut trades = trade_rows(&[7, 7]);
    trades[0].id = 1;
    trades[1].id = 2;
    let (ticks, _) = drive(&quotes, &trades);
    let seen: Vec<String> = ticks
        .iter()
        .map(|tick| match tick {
            Ticks::Quote(quote) => quote.symbol.clone(),
            Ticks::Trade(trade) => format!("T{}", trade.id),
        })
        .collect();
    assert_eq!(seen, vec!["Q0", "Q1", "Q2", "T1", "T2"]);
}

#[test]
fn once_nothing_is_left_every_further_call_gives_none() {
    let quotes = quote_rows(&[1]);
    let trades = trade_rows(&[2]);
    let (ticks, mut producer) = drive(&quotes, &trades);
    assert_eq!(ticks.len(), 2);
    let late_quote = quote_row(3);
    let late_trade = trade_row(4);
    for _ in 0..5 {
        assert!(producer.next_tick(Refill::Quote(None)).is_none());
        assert!(producer.next_tick(Refill::Trade(None)).is_none());
        assert!(producer.next_tick(Refill::Quote(Some(&late_quote))).is_none());
        assert!(producer.next_tick(Refill::Trade(Some(&late_trade))).is_none());
        assert!(!producer.has_tick_data());
        assert_eq!(producer.next_source(), None);
        assert_eq!(producer.quotes_counter(), 1);
        assert_eq!(producer.trades_counter(), 1);
    }
}

#[test]
fn the_flag_is_up_while_a_record_is_held() {
    let quotes = quote_rows(&[1, 3]);
    let trades = trade_rows(&[2]);
    let mut producer = Producer::new(Some(&trades[0]), Some(&quotes[0]));
    assert!(producer.has_tick_data());
    producer.next_tick(Refill::Quote(Some(&quotes[1]))).unwrap();
    assert!(producer.has_tick_data());
    producer.next_tick(Refill::Trade(None)).unwrap();
    assert!(producer.has_tick_data());
    assert!(producer.next_trade_tick().is_none());
    producer.next_tick(Refill::Quote(None)).unwrap();
    assert!(!producer.has_tick_data());
    assert!(producer.next_quote_tick().is_none());
}

#[test]
fn one_stream_alone_raises_the_flag() {
    let quote = quote_row(1);
    let trade = trade_row(1);
    assert!(Producer::new(None, Some(&quote)).has_tick_data());
    assert!(Producer::new(Some(&trade), None).has_tick_data());
    assert_eq!(Producer::new(None, Some(&quote)).next_source(), Some(Source::Quote));
    assert_eq!(Producer::new(Some(&trade), None).next_source(), Some(Source::Trade));
}

#[test]
fn each_slot_holds_the_record_that_is_read_and_not_yet_emitted() {
    let quotes = quote_rows(&[10, 30]);
    let trades = trade_rows(&[20, 40]);
    let mut producer = Producer::new(Some(&trades[0]), Some(&quotes[0]));
    assert_eq!(producer.next_quote_tick().as_ref().unwrap().timestamp, 10);
    assert_eq!(producer.next_trade_tick().as_ref().unwrap().timestamp, 20);
    producer.next_tick(Refill::Quote(Some(&quotes[1]))).unwrap();
    assert_eq!(producer.next_quote_tick().as_ref().unwrap().timestamp, 30);
    assert_eq!(producer.next_trade_tick().as_ref().unwrap().timestamp, 20);
    producer.next_tick(Refill::Trade(Some(&trades[1]))).unwrap();
    assert_eq!(producer.next_quote_tick().as_ref().unwrap().timestamp, 30);
    assert_eq!(producer.next_trade_tick().as_ref().unwrap().timestamp, 40);
}

#[test]
fn the_counters_count_the_rows_taken_in() {
    let quotes = quote_rows(&[1, 2, 3, 4]);
    let trades = trade_rows(&[2, 5]);
    let mut producer = Producer::new(Some(&trades[0]), Some(&quotes[0]));
    assert_eq!((producer.quotes_counter(), producer.trades_counter()), (1, 1));
    producer.next_tick(Refill::Quote(Some(&quotes[1]))).unwrap();
    assert_eq!((producer.quotes_counter(), producer.trades_counter()), (2, 1));
    producer.next_tick(Refill::Quote(Some(&quotes[2]))).unwrap();
    assert_eq!((producer.quotes_counter(), producer.trades_counter()), (3, 1));
    producer.next_tick(Refill::Trade(Some(&trades[1]))).unwrap();
    assert_eq!((producer.quotes_counter(), producer.trades_counter()), (3, 2));
    let (_, done) = drive(&quotes, &trades);
    assert_eq!((done.quotes_counter(), done.trades_counter()), (4, 2));
}

#[test]
fn the_end_of_a_stream_is_not_counted() {
    let quote = quote_row(1);
    let mut producer = Producer::new(None, Some(&quote));
    assert_eq!((producer.quotes_counter(), producer.trades_counter()), (1, 0));
    producer.next_tick(Refill::Quote(None)).unwrap();
    assert_eq!((producer.quotes_counter(), producer.trades_counter()), (1, 0));
}

#[test]
fn ticks_are_ordered_by_local_receipt_time_not_by_exchange_time() {
    let mut quote = quote_row(200);
    quote.timestamp = 1;
    let mut trade = trade_row(100);
    trade.timestamp = 999;
    let mut producer = Producer::new(Some(&trade), Some(&quote));
    let first = producer.next_tick(Refill::Trade(None)).unwrap();
    assert_eq!((first.source(), first.timestamp()), (Source::Trade, 100));
    let second = producer.next_tick(Refill::Quote(None)).unwrap();
    assert_eq!((second.source(), second.timestamp()), (Source::Quote, 200));
}

#[test]
fn a_quote_carries_what_its_row_held() {
    let row = QuoteRow {
        exchange: String::from("binance-futures"),
        symbol: String::from("BTCUSDT"),
        timestamp: 1_582_156_799_862_000,
        local_timestamp: 1_582_156_799_997_336,
        ask_amount_bits: 4.55f32.to_bits(),
        ask_price_bits: 9593.61f32.to_bits(),
        bid_price_bits: 9593.31f32.to_bits(),
        bid_amount_bits: 8.171f32.to_bits(),
    };
    let quote = Quote::from_row(&row);
    assert_eq!(quote.symbol, "BTCUSDT");
    assert_eq!(quote.timestamp, 1_582_156_799_997_336);
    assert_eq!(f32::from_bits(quote.ask_amount_bits), 4.55f32);
    assert_eq!(f32::from_bits(quote.ask_price_bits), 9593.61f32);
    assert_eq!(f32::from_bits(quote.bid_price_bits), 9593.31f32);
    assert_eq!(f32::from_bits(quote.bid_amount_bits), 8.171f32);
    assert_eq!(row.symbol, "BTCUSDT");

    let mut producer = Producer::new(None, Some(&row));
    match producer.next_tick(Refill::Quote(None)) {
        Some(Ticks::Quote(emitted)) => {
            assert_eq!(emitted.symbol, "BTCUSDT");
            assert_eq!(emitted.timestamp, 1_582_156_799_997_336);
            assert_eq!(emitted.ask_amount_bits, 4.55f32.to_bits());
            assert_eq!(emitted.ask_price_bits, 9593.61f32.to_bits());
            assert_eq!(emitted.bid_price_bits, 9593.31f32.to_bits());
            assert_eq!(emitted.bid_amount_bits, 8.171f32.to_bits());
        }
        other => panic!("expected a quote, got {:?}", other),
    }
}

#[test]
fn a_trade_carries_what_its_row_held() {
    let row = TradeRow {
        exchange: String::from("binance-futures"),
        symbol: String::from("BTCUSDT"),
        timestamp: 1_582_070_402_288_000,
        local_timestamp: 1_582_070_403_564_191,
        id: 41_370_304,
        side: String::from("buy"),
        price_bits: 10175.48f32.to_bits(),
        amount_bits: 0.018f32.to_bits(),
    };
    let trade = Trade::from_row(&row);
    assert_eq!(trade.symbol, "BTCUSDT");
    assert_eq!(trade.timestamp, 1_582_070_403_564_191);
    assert_eq!(trade.id, 41_370_304);
    assert_eq!(trade.side, "buy");
    assert_eq!(f32::from_bits(trade.price_bits), 10175.48f32);
    assert_eq!(f32::from_bits(trade.amount_bits), 0.018f32);

    let mut producer = Producer::new(Some(&row), None);
    match producer.next_tick(Refill::Trade(None)) {
        Some(Ticks::Trade(emitted)) => {
            assert_eq!(emitted.symbol, "BTCUSDT");
            assert_eq!(emitted.timestamp, 1_582_070_403_564_191);
            assert_eq!(emitted.id, 41_370_304);
            assert_eq!(emitted.side, "buy");
            assert_eq!(emitted.price_bits, 10175.48f32.to_bits());
            assert_eq!(emitted.amount_bits, 0.018f32.to_bits());
        }
        other => panic!("expected a trade, got {:?}", other),
    }
}

#[test]
fn a_not_a_number_price_is_carried_bit_for_bit() {
    let mut row = quote_row(5);
    row.ask_price_bits = 0x7fc0_1234;
    row.bid_price_bits = (-0.0f32).to_bits();
    let quote = Quote::from_row(&row);
    assert_eq!(quote.ask_price_bits, 0x7fc0_1234);
    assert!(f32::from_bits(quote.ask_price_bits).is_nan());
    assert_eq!(quote.bid_price_bits, 0x8000_0000);
}

#[test]
fn the_default_quote_is_empty_and_at_zero() {
    let quote = Quote::default();
    assert_eq!(quote.symbol, "");
    assert_eq!(quote.timestamp, 0);
    assert_eq!(f32::from_bits(quote.ask_amount_bits), 0.0f32);
    assert_eq!(f32::from_bits(quote.ask_price_bits), 0.0f32);
    assert_eq!(f32::from_bits(quote.bid_price_bits), 0.0f32);
    assert_eq!(f32::from_bits(quote.bid_amount_bits), 0.0f32);
}

#[test]
fn a_tick_names_its_stream_and_its_time() {
    let quote = Ticks::Quote(Quote::from_row(&quote_row(11)));
    let trade = Ticks::Trade(Trade::from_row(&trade_row(12)));
    assert_eq!(quote.source(), Source::Quote);
    assert_eq!(quote.timestamp(), 11);
    assert_eq!(trade.source(), Source::Trade);
    assert_eq!(trade.timestamp(), 12);
    assert_ne!(Source::Quote, Source::Trade);
}

#[test]
fn records_can_be_copied_and_printed() {
    let quote = Quote::from_row(&quote_row(11));
    let copy = quote.clone();
    assert_eq!(copy.symbol, quote.symbol);
    assert_eq!(copy.timestamp, quote.timestamp);
    let trade = Trade::from_row(&trade_row(12));
    let copy = trade.clone();
    assert_eq!(copy.id, trade.id);
    assert_eq!(copy.side, trade.side);
    assert!(format!("{:?}", Ticks::Trade(trade)).starts_with("Trade(Trade {"));
    assert!(format!("{:?}", Ticks::Quote(quote)).starts_with("Quote(Quote {"));
    assert!(format!("{:?}", Refill::Quote(None)).starts_with("Quote(None"));
}

#[test]
fn streams_out_of_order_give_ticks_out_of_order() {
    let quotes = quote_rows(&[300, 100]);
    let trades = trade_rows(&[200]);
    let (ticks, _) = drive(&quotes, &trades);
    assert_eq!(
        labels(&ticks),
        vec![(Source::Trade, 200), (Source::Quote, 300), (Source::Quote, 100)]
    );
}

#[test]
fn negative_and_extreme_times_are_ordered_as_numbers() {
    let quotes = quote_rows(&[i64::MIN, -5, i64::MAX]);
    let trades = trade_rows(&[-6, 0, i64::MAX]);
    let (ticks, _) = drive(&quotes, &trades);
    assert_eq!(
        labels(&ticks),
        vec![
            (Source::Quote, i64::MIN),
            (Source::Trade, -6),
            (Source::Quote, -5),
            (Source::Trade, 0),
            (Source::Quote, i64::MAX),
            (Source::Trade, i64::MAX),
        ]
    );
}

#[test]
fn ticks_put_aside_are_kept_in_their_order() {
    let mut producer = Producer::new(None, None);
    assert!(producer.events_cache().is_empty());
    producer.push(Ticks::Quote(Quote::from_row(&quote_row(9))));
    producer.push(Ticks::Trade(Trade::from_row(&trade_row(3))));
    producer.push(Ticks::Quote(Quote::from_row(&quote_row(4))));
    assert_eq!(
        labels(producer.events_cache()),
        vec![(Source::Quote, 9), (Source::Trade, 3), (Source::Quote, 4)]
    );
    assert!(!producer.has_tick_data());
    assert_eq!(producer.next_source(), None);
}

#[test]
fn putting_a_tick_aside_leaves_the_merge_as_it_was() {
    let quotes = quote_rows(&[1, 2]);
    let trades = trade_rows(&[1]);
    let mut producer = Producer::new(Some(&trades[0]), Some(&quotes[0]));
    let first = producer.next_tick(Refill::Quote(Some(&quotes[1]))).unwrap();
    producer.push(first);
    assert_eq!(producer.events_cache().len(), 1);
    assert!(producer.has_tick_data());
    assert_eq!((producer.quotes_counter(), producer.trades_counter()), (2, 1));
    let second = producer.next_tick(Refill::Trade(None)).unwrap();
    assert_eq!((second.source(), second.timestamp()), (Source::Trade, 1));
    let third = producer.next_tick(Refill::Quote(None)).unwrap();
    assert_eq!((third.source(), third.timestamp()), (Source::Quote, 2));
    assert_eq!(producer.events_cache().len(), 1);
}
