use crypto_feed::model::{ChannelRequest, ConfigurationError, ConnectionGroup, MessageType};
use crypto_feed::planner::plan;

fn requests(n: usize) -> Vec<ChannelRequest> {
    (0..n)
        .map(|i| ChannelRequest::new(MessageType::Trade, format!("SYM{}", i)))
        .collect()
}

fn sizes(groups: &[ConnectionGroup]) -> Vec<usize> {
    groups.iter().map(|g| g.requests.len()).collect()
}

fn symbols(groups: &[ConnectionGroup]) -> Vec<String> {
    groups
        .iter()
        .flat_map(|g| g.requests.iter().map(|r| r.symbol.clone()))
        .collect()
}

#[test]
fn sixty_five_symbols_limit_thirty() {
    let input = requests(65);
    let groups = plan(&input, 30).unwrap();
    assert_eq!(sizes(&groups), vec![30, 30, 5]);
    let expected: Vec<String> = input.iter().map(|r| r.symbol.clone()).collect();
    assert_eq!(symbols(&groups), expected);
}

#[test]
fn zero_limit_is_refused() {
    assert_eq!(plan(&requests(3), 0).unwrap_err(), ConfigurationError::ZeroChannelLimit);
    assert_eq!(plan(&requests(0), 0).unwrap_err(), ConfigurationError::ZeroChannelLimit);
}

#[test]
fn no_requests_no_groups() {
    assert!(plan(&requests(0), 30).unwrap().is_empty());
}

#[test]
fn exact_multiple_has_no_short_group() {
    assert_eq!(sizes(&plan(&requests(60), 30).unwrap()), vec![30, 30]);
    assert_eq!(sizes(&plan(&requests(30), 30).unwrap()), vec![30]);
}

#[test]
fn fewer_than_limit_is_one_group() {
    assert_eq!(sizes(&plan(&requests(7), 30).unwrap()), vec![7]);
    assert_eq!(sizes(&plan(&requests(1), usize::MAX).unwrap()), vec![1]);
}

#[test]
fn limit_one_gives_one_group_each() {
    let groups = plan(&requests(4), 1).unwrap();
    assert_eq!(sizes(&groups), vec![1, 1, 1, 1]);
    assert_eq!(symbols(&groups), vec!["SYM0", "SYM1", "SYM2", "SYM3"]);
}

#[test]
fn plan_keeps_message_kinds() {
    let input = vec![
        ChannelRequest::new(MessageType::Trade, "A".to_string()),
        ChannelRequest::new(MessageType::L2Event, "A".to_string()),
        ChannelRequest::new(MessageType::Ticker, "B".to_string()),
    ];
    let groups = plan(&input, 2).unwrap();
    assert_eq!(sizes(&groups), vec![2, 1]);
    assert_eq!(groups[0].requests[0].message_type, MessageType::Trade);
    assert_eq!(groups[0].requests[1].message_type, MessageType::L2Event);
    assert_eq!(groups[1].requests[0].message_type, MessageType::Ticker);
    assert_eq!(groups[1].requests[0].symbol, "B");
}

#[test]
fn plan_is_deterministic() {
    let input = requests(65);
    let a = plan(&input, 30).unwrap();
    let b = plan(&input, 30).unwrap();
    assert_eq!(symbols(&a), symbols(&b));
    assert_eq!(sizes(&a), sizes(&b));
}

#[test]
fn duplicates_hold_the_same_requests() {
    let r = ChannelRequest::new(MessageType::BBO, "BTC_USDT".to_string());
    let c = r.duplicate();
    assert_eq!(c.message_type, MessageType::BBO);
    assert_eq!(c.symbol, "BTC_USDT");
    let g = ConnectionGroup { requests: requests(3) };
    let d = g.duplicate();
    assert_eq!(symbols(&[d]), vec!["SYM0", "SYM1", "SYM2"]);
}
