use crypto_feed::adapter::{Exchange, ExchangeAdapter, Keepalive};
use crypto_feed::bitfinex::{extract_symbol, EXCHANGE_NAME, MAX_SUBSCRIPTIONS_PER_CONNECTION};
use crypto_feed::frames::{classify, first_symbol, frame_kind_of, inspect, routing_of, FrameKind};
use crypto_feed::model::{ChannelRequest, ConfigurationError, MarketType, MessageType};
use crypto_feed::normalizer::normalize;

#[test]
fn bitfinex_constants() {
    assert_eq!(EXCHANGE_NAME, "bitfinex");
    assert_eq!(MAX_SUBSCRIPTIONS_PER_CONNECTION, 30);
}

#[test]
fn extract_symbol_reads_first_item() {
    let frame = r#"[{"channel":"trades","symbol":"tBTCUSD"},[1,2,3]]"#;
    assert_eq!(extract_symbol(frame), Some("tBTCUSD".to_string()));
}

#[test]
fn extract_symbol_gives_none_without_symbol() {
    assert_eq!(extract_symbol("[]"), None);
    assert_eq!(extract_symbol(r#"[{"channel":"trades"}]"#), None);
    assert_eq!(extract_symbol(r#"[{"symbol":5}]"#), None);
    assert_eq!(extract_symbol(r#"["symbol"]"#), None);
    assert_eq!(extract_symbol(r#"{"symbol":"tBTCUSD"}"#), None);
    assert_eq!(extract_symbol("not json"), None);
}

#[test]
fn first_symbol_of_parsed_items() {
    let items: Vec<serde_json::Value> =
        serde_json::from_str(r#"[{"symbol":"tETHUSD"},{"symbol":"other"}]"#).unwrap();
    assert_eq!(first_symbol(&items), Some("tETHUSD".to_string()));
    assert_eq!(first_symbol(&Vec::new()), None);
}

#[test]
fn inspect_tells_data_control_and_malformed_apart() {
    match inspect(r#"[{"symbol":"tBTCUSD"},[]]"#, MessageType::Trade) {
        FrameKind::Data { msg_type, symbol } => {
            assert_eq!(msg_type, MessageType::Trade);
            assert_eq!(symbol, "tBTCUSD");
        }
        other => panic!("{:?}", other),
    }
    assert!(matches!(
        inspect(r#"{"event":"info","version":2}"#, MessageType::Trade),
        FrameKind::Control
    ));
    assert!(matches!(inspect("2", MessageType::Trade), FrameKind::Control));
    assert!(matches!(inspect("not json", MessageType::Trade), FrameKind::Malformed));
    assert!(matches!(inspect("", MessageType::Trade), FrameKind::Malformed));
    assert!(matches!(
        inspect(r#"[{"channel":"trades"}]"#, MessageType::Trade),
        FrameKind::Malformed
    ));
    assert!(matches!(inspect("[]", MessageType::Trade), FrameKind::Malformed));
}

#[test]
fn frame_kind_from_findings() {
    assert!(matches!(
        frame_kind_of(Some(Some("X".to_string())), true, MessageType::BBO),
        FrameKind::Data { msg_type: MessageType::BBO, .. }
    ));
    assert!(matches!(frame_kind_of(Some(None), true, MessageType::BBO), FrameKind::Malformed));
    assert!(matches!(frame_kind_of(None, true, MessageType::BBO), FrameKind::Control));
    assert!(matches!(frame_kind_of(None, false, MessageType::BBO), FrameKind::Malformed));
}

#[test]
fn classify_gives_routing_for_data_only() {
    assert_eq!(
        classify(r#"[{"symbol":"tBTCUSD"}]"#, MessageType::L2Event),
        Some((MessageType::L2Event, "tBTCUSD".to_string()))
    );
    assert_eq!(classify(r#"{"event":"pong"}"#, MessageType::L2Event), None);
    assert_eq!(classify("garbage", MessageType::L2Event), None);
    assert_eq!(routing_of(FrameKind::Control), None);
    assert_eq!(routing_of(FrameKind::Malformed), None);
    assert_eq!(
        routing_of(FrameKind::Data { msg_type: MessageType::Trade, symbol: "S".to_string() }),
        Some((MessageType::Trade, "S".to_string()))
    );
}

#[test]
fn normalize_keeps_frame_and_stamps_time() {
    let raw = r#"[{"symbol":"tBTCUSD"},[1]]"#.to_string();
    let e = normalize(
        "bitfinex",
        MarketType::Spot,
        MessageType::Trade,
        "tBTCUSD".to_string(),
        raw.clone(),
        1_600_000_000_123,
    );
    assert_eq!(e.exchange, "bitfinex");
    assert_eq!(e.market_type, MarketType::Spot);
    assert_eq!(e.msg_type, MessageType::Trade);
    assert_eq!(e.symbol, "tBTCUSD");
    assert_eq!(e.received_at, 1_600_000_000_123);
    assert_eq!(e.raw, raw);
}

fn request(m: MessageType, s: &str) -> ChannelRequest {
    ChannelRequest::new(m, s.to_string())
}

#[test]
fn adapter_channel_names() {
    assert_eq!(Exchange::MxcSpot.channel(MessageType::Trade), Some("symbol"));
    assert_eq!(Exchange::MxcSpot.channel(MessageType::L2Event), Some("symbol"));
    assert_eq!(Exchange::MxcSpot.channel(MessageType::L2Snapshot), Some("symbol"));
    assert_eq!(Exchange::MxcSpot.channel(MessageType::Ticker), None);
    assert_eq!(Exchange::MxcSwap.channel(MessageType::Trade), Some("deal"));
    assert_eq!(Exchange::MxcSwap.channel(MessageType::Ticker), Some("ticker"));
    assert_eq!(Exchange::MxcSwap.channel(MessageType::L2Event), Some("depth"));
    assert_eq!(Exchange::MxcSwap.channel(MessageType::L2Snapshot), Some("depth.full"));
    assert_eq!(Exchange::MxcSwap.channel(MessageType::L3Event), None);
    assert_eq!(Exchange::MxcSwap.channel(MessageType::BBO), None);
    assert_eq!(Exchange::MxcSwap.channel(MessageType::Other), None);
    assert_eq!(Exchange::MxcSpot.name(), "MXC");
}

#[test]
fn adapter_commands_for_both_families() {
    let spot = ExchangeAdapter::new(Exchange::MxcSpot, 30, None);
    let swap = ExchangeAdapter::new(Exchange::MxcSwap, 30, None);
    let reqs = vec![request(MessageType::Trade, "BTC_USDT"), request(MessageType::L2Event, "ETH_USDT")];
    assert_eq!(
        spot.to_subscribe_command(&reqs).unwrap(),
        vec![
            r#"42["sub.symbol",{"symbol":"BTC_USDT"}]"#.to_string(),
            r#"42["sub.symbol",{"symbol":"ETH_USDT"}]"#.to_string(),
        ]
    );
    assert_eq!(
        spot.to_unsubscribe_command(&reqs).unwrap(),
        vec![
            r#"42["unsub.symbol",{"symbol":"BTC_USDT"}]"#.to_string(),
            r#"42["unsub.symbol",{"symbol":"ETH_USDT"}]"#.to_string(),
        ]
    );
    assert_eq!(
        swap.to_subscribe_command(&reqs).unwrap(),
        vec![
            r#"{"method":"sub.deal","param":{"symbol":"BTC_USDT"}}"#.to_string(),
            r#"{"method":"sub.depth","param":{"symbol":"ETH_USDT"}}"#.to_string(),
        ]
    );
    assert_eq!(
        swap.to_unsubscribe_command(&reqs).unwrap(),
        vec![
            r#"{"method":"unsub.deal","param":{"symbol":"BTC_USDT"}}"#.to_string(),
            r#"{"method":"unsub.depth","param":{"symbol":"ETH_USDT"}}"#.to_string(),
        ]
    );
}

#[test]
fn adapter_refuses_unsupported_channel() {
    let spot = ExchangeAdapter::new(Exchange::MxcSpot, 30, None);
    let reqs = vec![request(MessageType::Trade, "BTC_USDT"), request(MessageType::Ticker, "BTC_USDT")];
    assert_eq!(
        spot.to_subscribe_command(&reqs).unwrap_err(),
        ConfigurationError::UnsupportedChannel
    );
    assert_eq!(
        Exchange::MxcSwap.to_commands(&vec![request(MessageType::Other, "X")], false).unwrap_err(),
        ConfigurationError::UnsupportedChannel
    );
    assert!(spot.to_subscribe_command(&Vec::new()).unwrap().is_empty());
}

#[test]
fn adapter_limit_keepalive_and_classify() {
    let quiet = ExchangeAdapter::new(Exchange::MxcSwap, 30, None);
    assert_eq!(quiet.channel_limit(), 30);
    assert_eq!(quiet.keepalive(), None);
    let pinging = ExchangeAdapter::new(
        Exchange::MxcSwap,
        7,
        Some(Keepalive { interval_ms: 5000, payload: r#"{"method":"ping"}"#.to_string() }),
    );
    assert_eq!(pinging.channel_limit(), 7);
    assert_eq!(pinging.keepalive(), Some((5000, r#"{"method":"ping"}"#.to_string())));
    let copy = pinging.duplicate();
    assert_eq!(copy.exchange, Exchange::MxcSwap);
    assert_eq!(copy.limit, 7);
    assert_eq!(copy.keepalive(), pinging.keepalive());
    assert_eq!(
        pinging.classify(r#"[{"symbol":"BTC_USDT"}]"#, MessageType::Trade),
        Some((MessageType::Trade, "BTC_USDT".to_string()))
    );
    assert_eq!(pinging.classify(r#"{"channel":"pong"}"#, MessageType::Trade), None);
}

#[test]
fn market_type_names_are_snake_case() {
    assert_eq!(MarketType::Unknown.name(), "unknown");
    assert_eq!(MarketType::Spot.name(), "spot");
    assert_eq!(MarketType::LinearFuture.name(), "linear_future");
    assert_eq!(MarketType::InverseFuture.name(), "inverse_future");
    assert_eq!(MarketType::LinearSwap.name(), "linear_swap");
    assert_eq!(MarketType::InverseSwap.name(), "inverse_swap");
    assert_eq!(MarketType::AmericanOption.name(), "american_option");
    assert_eq!(MarketType::EuropeanOption.name(), "european_option");
    assert_eq!(MarketType::QuantoFuture.name(), "quanto_future");
    assert_eq!(MarketType::QuantoSwap.name(), "quanto_swap");
    assert_eq!(MarketType::Move.name(), "move");
    assert_eq!(MarketType::BVOL.name(), "bvol");
}
