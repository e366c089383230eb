use crypto_feed::common_traits::OrderBookSnapshot;
use crypto_feed::mxc::{
    find_colon, split_channel, spot_channel_to_command, spot_command_text, spot_serialize_command,
    swap_channel_to_command, swap_command_text, swap_serialize_command, to_raw_channel,
    to_raw_channels, MXCSpotWSClient, MXCSwapWSClient, EXCHANGE_NAME, SOCKETIO_PREFIX,
};

#[test]
fn test_spot_channel_to_command() {
    let channel = "symbol:BTC_USDT";

    let subscribe_command = spot_channel_to_command(channel, true);
    assert_eq!(
        r#"42["sub.symbol",{"symbol":"BTC_USDT"}]"#.to_string(),
        subscribe_command
    );

    let unsubscribe_command = spot_channel_to_command(channel, false);
    assert_eq!(
        r#"42["unsub.symbol",{"symbol":"BTC_USDT"}]"#.to_string(),
        unsubscribe_command
    );
}

#[test]
fn test_swap_channel_to_command() {
    let channel = "deal:BTC_USDT";

    let subscribe_command = swap_channel_to_command(channel, true);
    assert_eq!(
        r#"{"method":"sub.deal","param":{"symbol":"BTC_USDT"}}"#.to_string(),
        subscribe_command
    );

    let unsubscribe_command = swap_channel_to_command(channel, false);
    assert_eq!(
        r#"{"method":"unsub.deal","param":{"symbol":"BTC_USDT"}}"#.to_string(),
        unsubscribe_command
    );
}

#[test]
fn constants_are_the_exchange_values() {
    assert_eq!(EXCHANGE_NAME, "MXC");
    assert_eq!(SOCKETIO_PREFIX, "42");
}

#[test]
fn find_colon_gives_first_colon_or_length() {
    assert_eq!(find_colon("a:b:c", 0), 1);
    assert_eq!(find_colon("a:b:c", 2), 3);
    assert_eq!(find_colon("a:b:c", 4), 5);
    assert_eq!(find_colon("abc", 0), 3);
    assert_eq!(find_colon("", 0), 0);
}

#[test]
fn split_channel_takes_first_two_fields() {
    assert_eq!(split_channel("deal:BTC_USDT"), ("deal", "BTC_USDT"));
    assert_eq!(split_channel("a:b:c"), ("a", "b"));
    assert_eq!(split_channel(":"), ("", ""));
    assert_eq!(split_channel("depth.full:ETH_USDT"), ("depth.full", "ETH_USDT"));
}

#[test]
fn split_channel_counts_characters_not_bytes() {
    assert_eq!(split_channel("é:ü"), ("é", "ü"));
}

#[test]
fn command_text_from_parts() {
    assert_eq!(
        spot_command_text("symbol", "ETH_USDT", true),
        r#"42["sub.symbol",{"symbol":"ETH_USDT"}]"#
    );
    assert_eq!(
        swap_command_text("depth.full", "ETH_USDT", false),
        r#"{"method":"unsub.depth.full","param":{"symbol":"ETH_USDT"}}"#
    );
}

#[test]
fn raw_channel_joins_with_colon() {
    assert_eq!(to_raw_channel("deal", "BTC_USDT"), "deal:BTC_USDT");
    let pairs = vec!["BTC_USDT".to_string(), "ETH_USDT".to_string()];
    assert_eq!(
        to_raw_channels("deal", &pairs),
        vec!["deal:BTC_USDT".to_string(), "deal:ETH_USDT".to_string()]
    );
}

#[test]
fn serialize_keeps_order_and_count() {
    let channels = vec!["symbol:BTC_USDT".to_string(), "symbol:ETH_USDT".to_string()];
    assert_eq!(
        spot_serialize_command(&channels, true),
        vec![
            r#"42["sub.symbol",{"symbol":"BTC_USDT"}]"#.to_string(),
            r#"42["sub.symbol",{"symbol":"ETH_USDT"}]"#.to_string(),
        ]
    );
    assert_eq!(
        swap_serialize_command(&channels, false),
        vec![
            r#"{"method":"unsub.symbol","param":{"symbol":"BTC_USDT"}}"#.to_string(),
            r#"{"method":"unsub.symbol","param":{"symbol":"ETH_USDT"}}"#.to_string(),
        ]
    );
    let none: Vec<String> = Vec::new();
    assert!(spot_serialize_command(&none, true).is_empty());
}

#[test]
fn verb_substitution_turns_subscribe_into_unsubscribe() {
    let sub = spot_channel_to_command("symbol:BTC_USDT", true);
    let unsub = spot_channel_to_command("symbol:BTC_USDT", false);
    assert_eq!(&sub[4..7], "sub");
    assert_eq!(format!("{}unsub{}", &sub[..4], &sub[7..]), unsub);

    let sub = swap_channel_to_command("deal:BTC_USDT", true);
    let unsub = swap_channel_to_command("deal:BTC_USDT", false);
    assert_eq!(&sub[11..14], "sub");
    assert_eq!(format!("{}unsub{}", &sub[..11], &sub[14..]), unsub);
}

#[test]
fn spot_client_queues_commands_in_order() {
    let mut client = MXCSpotWSClient::new();
    assert!(client.outbox.is_empty());
    assert_eq!(client.url(), "wss://wbs.mxc.com/socket.io/?EIO=3&transport=websocket");
    client.subscribe(&["symbol:BTC_USDT".to_string()]);
    client.unsubscribe(&["symbol:ETH_USDT".to_string()]);
    let commands = client.take_commands();
    assert_eq!(
        commands,
        vec![
            r#"42["sub.symbol",{"symbol":"BTC_USDT"}]"#.to_string(),
            r#"42["unsub.symbol",{"symbol":"ETH_USDT"}]"#.to_string(),
        ]
    );
    assert!(client.outbox.is_empty());
}

#[test]
fn swap_client_queues_commands_in_order() {
    let mut client = MXCSwapWSClient::new();
    assert_eq!(client.url(), "wss://contract.mxc.com/ws");
    client.subscribe(&["deal:BTC_USDT".to_string()]);
    client.unsubscribe(&["deal:BTC_USDT".to_string()]);
    assert_eq!(
        client.take_commands(),
        vec![
            r#"{"method":"sub.deal","param":{"symbol":"BTC_USDT"}}"#.to_string(),
            r#"{"method":"unsub.deal","param":{"symbol":"BTC_USDT"}}"#.to_string(),
        ]
    );
}

#[test]
fn orderbook_snapshot_channels() {
    let pairs = vec!["BTC_USDT".to_string(), "ETH_USDT".to_string()];
    let mut spot = MXCSpotWSClient::new();
    spot.subscribe_orderbook_snapshot(&pairs);
    assert_eq!(
        spot.outbox,
        vec![
            r#"42["sub.symbol",{"symbol":"BTC_USDT"}]"#.to_string(),
            r#"42["sub.symbol",{"symbol":"ETH_USDT"}]"#.to_string(),
        ]
    );
    let mut swap = MXCSwapWSClient::new();
    swap.subscribe_orderbook_snapshot(&pairs);
    assert_eq!(
        swap.outbox,
        vec![
            r#"{"method":"sub.depth.full","param":{"symbol":"BTC_USDT"}}"#.to_string(),
            r#"{"method":"sub.depth.full","param":{"symbol":"ETH_USDT"}}"#.to_string(),
        ]
    );
}
