use michromer::codec::parse_response;
use michromer::data::{BidAsk, Fill, Level, Order, OrderDirection, OrderResponse, OrderType,
    QuoteResponse};
use michromer::encode::encode;
use michromer::error::Error;
use michromer::time::Instant;

#[test]
fn test_encode_order() {
    let o = Order {
        account: "tstacc".to_string(),
        venue: "testven".to_string(),
        stock: "BOOK".to_string(),
        price: 1000,
        qty: 5000,
        direction: OrderDirection::Buy,
        order_type: OrderType::ImmediateOrCancel,
    };
    let res = encode(&o).unwrap();
    assert!(res.len() > 0);
}

#[test]
fn test_encode_level_field_names() {
    let l = Level {
        ok: true,
        instance_id: 998,
        account: "tacc".to_string(),
        instructions: Vec::new(),
        tickers: vec![],
        venues: vec![],
    };
    let res_string = encode(&l).unwrap();
    assert!(res_string.contains("instanceId"));
}

#[test]
fn test_bid_ask_encode_field_name() {
    let ba = BidAsk {
        price: 1009,
        qty: 100,
        is_buy: true,
    };
    let res_string = encode(&ba).unwrap();
    assert!(res_string.contains("isBuy"));
}

#[test]
fn test_quote_response_fieled_name() {
    let qr = QuoteResponse {
        ok: true,
        symbol: "BOOK".to_string(),
        venue: "MYEX".to_string(),
        bid: Some(101),
        ask: Some(105),
        bid_size: 50,
        ask_size: 1,
        bid_depth: 9,
        ask_depth: 9,
        last: Some(102),
        last_size: Some(3),
        last_trade: Some(Instant::parse("2015-12-04T09:02:16.680986205Z").unwrap()),
        quote_time: Some(Instant::parse("2015-12-04T09:02:16.680986205Z").unwrap()),
    };
    let res_string = encode(&qr).unwrap();
    assert!(res_string.contains("bidSize"));
    assert!(res_string.contains("askSize"));
    assert!(res_string.contains("bidDepth"));
    assert!(res_string.contains("askDepth"));
    assert!(res_string.contains("lastSize"));
    assert!(res_string.contains("lastTrade"));
    assert!(res_string.contains("quoteTime"));
}

#[test]
fn test_order_response_field_name() {
    let or = OrderResponse {
        ok: true,
        direction: None,
        symbol: "BOOK".to_string(),
        venue: "MYEX".to_string(),
        original_qty: 10,
        qty: 9,
        price: 1045,
        order_type: OrderType::Limit,
        id: 99803,
        account: "MYACC".to_string(),
        ts: Instant::parse("2015-12-04T09:02:16.680986205Z").unwrap(),
        fills: vec![],
        total_filled: 1,
        open: true,
    };
    let res_string = encode(&or).unwrap();
    println!("{:?}", res_string);
    assert!(res_string.contains("originalQty"));
    assert!(res_string.contains("orderType"));
    assert!(res_string.contains("totalFilled"));
}

#[test]
fn test_decode_date_time() {
    let dt_one = Instant::parse("2015-12-04T09:02:16.680986205Z").unwrap();
    println!("dt = {:?}", dt_one);
    let dt_two = Instant::parse("2015-07-05T22:16:18+00:00").unwrap();
    println!("dt = {:?}", dt_two);
}

#[test]
fn test_decode_order_response() {
    let o_json = "{\"account\": \"testacc\", \"price\": 26382757, \"id\": 2138, \"open\": \
                  false, \"venue\": \"TESTEX\", \"orderType\": \"limit\", \"qty\": 0, \
                  \"direction\": \"buy\", \"fills\": [{\"qty\": 5000, \"ts\": \
                  \"2016-06-02T16:20:53.024563Z\", \"price\": 26382747}], \"totalFilled\": \
                  5000, \"originalQty\": 5000, \"symbol\": \"FOOBAR\", \"ts\": \
                  \"2016-06-02T16:20:53.024542Z\", \"ok\": true}";

    let o: OrderResponse = parse_response(o_json).unwrap();
    assert!(o.ok);
}

#[test]
fn test_order_round_trip_every_field() {
    let o = Order {
        account: "rtacc".to_string(),
        venue: "RTEX".to_string(),
        stock: "CYCLE".to_string(),
        price: 4250,
        qty: 77,
        direction: OrderDirection::Sell,
        order_type: OrderType::FillOrKill,
    };
    let text = encode(&o).unwrap();
    let back: Order = parse_response(&text).unwrap();
    assert_eq!(back.account, o.account);
    assert_eq!(back.venue, o.venue);
    assert_eq!(back.stock, o.stock);
    assert_eq!(back.price, o.price);
    assert_eq!(back.qty, o.qty);
    assert_eq!(back.direction, o.direction);
    assert_eq!(back.order_type, o.order_type);
}

#[test]
fn test_order_round_trip_all_enum_tokens() {
    for (direction, order_type) in [
        (OrderDirection::Buy, OrderType::Limit),
        (OrderDirection::Sell, OrderType::Market),
        (OrderDirection::Buy, OrderType::FillOrKill),
        (OrderDirection::Sell, OrderType::ImmediateOrCancel),
    ] {
        let o = Order {
            account: "a".to_string(),
            venue: "v".to_string(),
            stock: "s".to_string(),
            price: 1,
            qty: 2,
            direction,
            order_type,
        };
        let text = encode(&o).unwrap();
        let back: Order = parse_response(&text).unwrap();
        assert_eq!(back.direction, o.direction);
        assert_eq!(back.order_type, o.order_type);
    }
}

#[test]
fn test_enum_rejection_names_direction_token() {
    let o_json = "{\"account\": \"a\", \"venue\": \"v\", \"stock\": \"s\", \"price\": 1, \
                  \"qty\": 2, \"direction\": \"hold\", \"orderType\": \"limit\"}";
    let r: Result<Order, Error> = parse_response(o_json);
    match r {
        Err(Error::Decode(m)) => {
            assert!(m.contains("hold"));
            assert!(m.contains("buy"));
            assert!(m.contains("sell"));
        }
        other => panic!("expected a decode error, got {:?}", other),
    }
}

#[test]
fn test_enum_rejection_names_order_type_token() {
    let o_json = "{\"account\": \"a\", \"venue\": \"v\", \"stock\": \"s\", \"price\": 1, \
                  \"qty\": 2, \"direction\": \"buy\", \"orderType\": \"stop\"}";
    let r: Result<Order, Error> = parse_response(o_json);
    match r {
        Err(Error::Decode(m)) => {
            assert!(m.contains("stop"));
            assert!(m.contains("limit"));
            assert!(m.contains("market"));
            assert!(m.contains("fill-or-kill"));
            assert!(m.contains("immediate-or-cancel"));
        }
        other => panic!("expected a decode error, got {:?}", other),
    }
}

#[test]
fn test_timestamp_utc_instants() {
    let dt_one = Instant::parse("2015-12-04T09:02:16.680986205Z").unwrap();
    assert_eq!(dt_one.secs, 1449219736);
    assert_eq!(dt_one.nanos, 680986205);
    let dt_two = Instant::parse("2015-07-05T22:16:18+00:00").unwrap();
    assert_eq!(dt_two.secs, 1436134578);
    assert_eq!(dt_two.nanos, 0);
}

#[test]
fn test_timestamp_offset_denotes_same_instant() {
    let with_offset = Instant::parse("2015-07-06T00:16:18+02:00").unwrap();
    let utc = Instant::parse("2015-07-05T22:16:18Z").unwrap();
    assert_eq!(with_offset, utc);
}

#[test]
fn test_timestamp_print_parse_round_trip() {
    let i = Instant { secs: 1449219736, nanos: 680986205 };
    let text = i.to_text().unwrap();
    assert_eq!(Instant::parse(&text).unwrap(), i);
    let epoch = Instant { secs: 0, nanos: 0 };
    assert_eq!(epoch.to_text().unwrap(), "1970-01-01T00:00:00Z");
}

#[test]
fn test_absent_timestamp_decodes_to_absent() {
    let q_json = "{\"ok\": true, \"symbol\": \"BOOK\", \"venue\": \"MYEX\", \"bid\": null, \
                  \"ask\": 105, \"bidSize\": 50, \"askSize\": 1, \"bidDepth\": 9, \
                  \"askDepth\": 9, \"last\": 102, \"lastSize\": 3}";
    let q: QuoteResponse = parse_response(q_json).unwrap();
    assert_eq!(q.last_trade, None);
    assert_eq!(q.quote_time, None);
    assert_eq!(q.bid, None);
    assert_eq!(q.ask, Some(105));
}

#[test]
fn test_malformed_body_fails_with_decode_error() {
    let cases = ["{}", "not json at all", "[1, 2, 3]", "{\"ok\": \"yes\"}"];
    for c in cases {
        assert!(matches!(parse_response::<Level>(c), Err(Error::Decode(_))));
        assert!(matches!(parse_response::<OrderResponse>(c), Err(Error::Decode(_))));
        assert!(matches!(parse_response::<QuoteResponse>(c), Err(Error::Decode(_))));
        assert!(matches!(parse_response::<Order>(c), Err(Error::Decode(_))));
    }
}

#[test]
fn test_negative_number_fails_with_decode_error() {
    let o_json = "{\"account\": \"a\", \"venue\": \"v\", \"stock\": \"s\", \"price\": -4, \
                  \"qty\": 2, \"direction\": \"buy\", \"orderType\": \"limit\"}";
    assert!(matches!(parse_response::<Order>(o_json), Err(Error::Decode(_))));
}

#[test]
fn test_fractional_number_fails_with_decode_error() {
    let o_json = "{\"account\": \"a\", \"venue\": \"v\", \"stock\": \"s\", \"price\": 1.5, \
                  \"qty\": 2, \"direction\": \"buy\", \"orderType\": \"limit\"}";
    assert!(matches!(parse_response::<Order>(o_json), Err(Error::Decode(_))));
}

#[test]
fn test_unknown_fields_are_ignored() {
    let o_json = "{\"account\": \"a\", \"venue\": \"v\", \"stock\": \"s\", \"price\": 7, \
                  \"qty\": 2, \"direction\": \"buy\", \"orderType\": \"limit\", \
                  \"surprise\": [1, 2, {\"deep\": null}]}";
    let o: Order = parse_response(o_json).unwrap();
    assert_eq!(o.price, 7);
}

#[test]
fn test_decode_level_body() {
    let l_json = "{\"ok\": true, \"instanceId\": 42, \"account\": \"ACC123\", \
                  \"instructions\": {\"first\": \"read this\", \"second\": \"then this\"}, \
                  \"tickers\": [\"FOO\", \"BAR\"], \"venues\": [\"EX1\"]}";
    let l: Level = parse_response(l_json).unwrap();
    assert!(l.ok);
    assert_eq!(l.instance_id, 42);
    assert_eq!(l.account, "ACC123");
    assert_eq!(l.instructions.len(), 2);
    assert_eq!(l.instructions[0].0, "first");
    assert_eq!(l.instructions[0].1, "read this");
    assert_eq!(l.tickers, vec!["FOO".to_string(), "BAR".to_string()]);
    assert_eq!(l.venues, vec!["EX1".to_string()]);
}

#[test]
fn test_encode_error_for_unprintable_timestamp() {
    let f = Fill { price: 1, qty: 1, ts: Instant { secs: i64::MAX, nanos: 0 } };
    assert!(matches!(encode(&f), Err(Error::Encode(_))));
    let e = encode(&f).unwrap_err();
    assert!(e.description().len() > 0);
}

#[test]
fn test_encode_error_for_duplicate_instruction_names() {
    let l = Level {
        ok: true,
        instance_id: 1,
        account: "a".to_string(),
        instructions: vec![
            ("go".to_string(), "left".to_string()),
            ("go".to_string(), "right".to_string()),
        ],
        tickers: vec![],
        venues: vec![],
    };
    assert!(matches!(encode(&l), Err(Error::Encode(_))));
}

#[test]
fn test_encoded_order_wire_document() {
    let o = Order {
        account: "A1".to_string(),
        venue: "V1".to_string(),
        stock: "S1".to_string(),
        price: 90,
        qty: 3,
        direction: OrderDirection::Buy,
        order_type: OrderType::Market,
    };
    let text = encode(&o).unwrap();
    assert_eq!(
        text,
        "{\"account\":\"A1\",\"venue\":\"V1\",\"stock\":\"S1\",\"price\":90,\"qty\":3,\
         \"direction\":\"buy\",\"orderType\":\"market\"}"
    );
}
