use bigdecimal::{BigDecimal, FromPrimitive};
use price_feed::data::{TokenPrice, UnixTime};
use price_feed::hub::Delivery;
use price_feed::persistence::{PriceRepositoryImpl, TokenPriceModel};
use price_feed::scraper::Token;
use price_feed::web::{
    get_prices_handler, listen_address, prices_response, probe_payload, to_token_price,
    window_start, QueryFailed, StreamAction, StreamEvent, StreamSession, WINDOW_SECS,
};

fn record(symbol: &str, secs: u64, nanos: u32, price: &str) -> TokenPriceModel {
    TokenPriceModel {
        id: None,
        created_at: UnixTime { secs, nanos },
        symbol: symbol.to_string(),
        price: price.parse().unwrap(),
    }
}

fn sample(timestamp: u64) -> TokenPrice {
    TokenPrice { symbol: Token::Bitcoin, timestamp, price: "1".to_string() }
}

fn listening() -> StreamSession {
    let mut session = StreamSession::new();
    assert!(matches!(session.step(StreamEvent::Upgraded), StreamAction::SendProbe));
    assert!(matches!(session.step(StreamEvent::ProbeSent(true)), StreamAction::Subscribe));
    session
}

#[test]
fn window_is_fifteen_minutes() {
    assert_eq!(WINDOW_SECS, 60 * 15);
    assert_eq!(window_start(1_700_000_000), 1_699_999_100);
    assert_eq!(window_start(900), 0);
    assert_eq!(window_start(899), -1);
    assert_eq!(window_start(0), -900);
    assert_eq!(window_start(-1), -901);
    assert_eq!(window_start(i64::MAX), i64::MAX - 900);
}

#[test]
fn window_start_stops_at_the_earliest_second() {
    assert_eq!(window_start(i64::MIN), i64::MIN);
    assert_eq!(window_start(i64::MIN + 899), i64::MIN);
    assert_eq!(window_start(i64::MIN + 900), i64::MIN);
    assert_eq!(window_start(i64::MIN + 901), i64::MIN + 1);
}

#[test]
fn listen_address_joins_host_and_port() {
    assert_eq!(listen_address("127.0.0.1", 0), "127.0.0.1:0");
    assert_eq!(listen_address("0.0.0.0", 8080), "0.0.0.0:8080");
    assert_eq!(listen_address("localhost", 9), "localhost:9");
    assert_eq!(listen_address("localhost", 10), "localhost:10");
    assert_eq!(listen_address("localhost", 65535), "localhost:65535");
    assert_eq!(listen_address("::1", 100_000), "::1:100000");
    assert_eq!(listen_address("", 1_234_567_890), ":1234567890");
    assert_eq!(listen_address("h", u32::MAX), "h:4294967295");
}

#[test]
fn stored_record_maps_to_the_transport_form() {
    let model = TokenPriceModel {
        id: Some(5),
        created_at: UnixTime { secs: 1_700_000_000, nanos: 999_999_999 },
        symbol: "bitcoin".to_string(),
        price: BigDecimal::from_f64(100.0).unwrap(),
    };
    let transport = to_token_price(&model);
    assert_eq!(transport.symbol, Token::Bitcoin);
    assert_eq!(transport.timestamp, 1_700_000_000);
    assert_eq!(transport.price, model.price.to_string());
    assert_eq!(transport.price, "100");

    let exact = to_token_price(&record("anything", 0, 0, "-0.0001230"));
    assert_eq!(exact.symbol, Token::Bitcoin);
    assert_eq!(exact.timestamp, 0);
    assert_eq!(exact.price, "-0.0001230");
}

#[test]
fn failed_query_is_answered_with_an_empty_list() {
    assert!(prices_response(Err(QueryFailed)).is_empty());
    assert!(prices_response(Ok(vec![])).is_empty());
}

#[test]
fn answer_keeps_the_order_of_the_records() {
    let models = vec![
        record("bitcoin", 30, 0, "3.0"),
        record("bitcoin", 10, 0, "1.0"),
        record("bitcoin", 20, 0, "2.0"),
    ];
    let samples = prices_response(Ok(models));
    let seen: Vec<(u64, String)> =
        samples.iter().map(|sample| (sample.timestamp, sample.price.clone())).collect();
    assert_eq!(
        seen,
        vec![(30, "3.0".to_string()), (10, "1.0".to_string()), (20, "2.0".to_string())]
    );
    assert!(samples.iter().all(|sample| sample.symbol == Token::Bitcoin));
}

#[test]
fn read_endpoint_returns_the_trailing_window() {
    let now: i64 = 1_700_000_000;
    let start = (now - 900) as u64;
    let mut repository = PriceRepositoryImpl::new();
    repository.save_price(record("bitcoin", start - 1, 0, "1")).unwrap();
    repository.save_price(record("bitcoin", start, 0, "2")).unwrap();
    repository.save_price(record("bitcoin", start, 1, "3")).unwrap();
    repository.save_price(record("ethereum", start + 5, 0, "4")).unwrap();
    repository.save_price(record("bitcoin", start + 450, 0, "5")).unwrap();
    repository.save_price(record("bitcoin", now as u64, 0, "6")).unwrap();
    repository.flush();
    repository.save_price(record("bitcoin", now as u64, 0, "7")).unwrap();

    let prices: Vec<String> =
        get_prices_handler(&repository, now).into_iter().map(|sample| sample.price).collect();
    assert_eq!(prices, vec!["3", "5", "6"]);
    let again: Vec<String> =
        get_prices_handler(&repository, now).into_iter().map(|sample| sample.price).collect();
    assert_eq!(again, prices);

    let later: Vec<String> =
        get_prices_handler(&repository, now + 900).into_iter().map(|sample| sample.price).collect();
    assert!(later.is_empty());
    let just_before: Vec<String> =
        get_prices_handler(&repository, now + 899).into_iter().map(|sample| sample.price).collect();
    assert_eq!(just_before, vec!["6"]);
    assert_eq!(get_prices_handler(&repository, 0).len(), 5);
    assert_eq!(get_prices_handler(&repository, i64::MIN).len(), 5);
    assert!(get_prices_handler(&PriceRepositoryImpl::new(), now).is_empty());
}

#[test]
fn probe_carries_three_bytes() {
    assert_eq!(probe_payload(), vec![1, 2, 3]);
}

#[test]
fn connection_probes_then_forwards_every_sample() {
    let mut session = StreamSession::new();
    assert!(!session.is_closed());
    assert!(matches!(session.step(StreamEvent::Upgraded), StreamAction::SendProbe));
    assert!(matches!(session.step(StreamEvent::Upgraded), StreamAction::Wait));
    assert!(matches!(session.step(StreamEvent::ProbeSent(true)), StreamAction::Subscribe));
    for t in 1..=5u64 {
        match session.step(StreamEvent::Received(Delivery::Sample(sample(t)))) {
            StreamAction::SendText(forwarded) => {
                assert_eq!(forwarded.timestamp, t);
                assert_eq!(forwarded.price, "1");
            }
            other => panic!("expected a frame, got {:?}", other),
        }
        assert!(matches!(session.step(StreamEvent::FrameSent(true)), StreamAction::Receive));
    }
    assert!(matches!(session.step(StreamEvent::Received(Delivery::Empty)), StreamAction::Receive));
    assert!(!session.is_closed());
}

#[test]
fn failed_probe_does_not_end_the_connection() {
    let mut session = StreamSession::new();
    session.step(StreamEvent::Upgraded);
    assert!(matches!(session.step(StreamEvent::ProbeSent(false)), StreamAction::Subscribe));
    assert!(matches!(
        session.step(StreamEvent::Received(Delivery::Sample(sample(1)))),
        StreamAction::SendText(_)
    ));
}

#[test]
fn failed_frame_ends_only_that_connection() {
    let mut broken = listening();
    let mut healthy = listening();
    broken.step(StreamEvent::Received(Delivery::Sample(sample(1))));
    healthy.step(StreamEvent::Received(Delivery::Sample(sample(1))));
    assert!(matches!(broken.step(StreamEvent::FrameSent(false)), StreamAction::Finish));
    assert!(broken.is_closed());
    assert!(matches!(healthy.step(StreamEvent::FrameSent(true)), StreamAction::Receive));
    assert!(!healthy.is_closed());
    assert!(matches!(
        broken.step(StreamEvent::Received(Delivery::Sample(sample(2)))),
        StreamAction::Finish
    ));
}

#[test]
fn closed_hub_ends_the_connection() {
    let mut session = listening();
    assert!(matches!(session.step(StreamEvent::Received(Delivery::Closed)), StreamAction::Finish));
    assert!(session.is_closed());
}

#[test]
fn gap_does_not_end_the_connection() {
    let mut session = listening();
    assert!(matches!(session.step(StreamEvent::Received(Delivery::Lagged)), StreamAction::Receive));
    assert!(!session.is_closed());
    assert!(matches!(
        session.step(StreamEvent::Received(Delivery::Sample(sample(4)))),
        StreamAction::SendText(_)
    ));
}

#[test]
fn shutdown_closes_a_listening_connection_at_once() {
    let mut session = listening();
    assert!(matches!(session.step(StreamEvent::Cancelled), StreamAction::CloseSocket));
    assert!(!session.is_closed());
    assert!(matches!(
        session.step(StreamEvent::Received(Delivery::Sample(sample(1)))),
        StreamAction::Wait
    ));
    assert!(matches!(session.step(StreamEvent::SocketClosed(false)), StreamAction::Finish));
    assert!(session.is_closed());
    assert!(matches!(session.step(StreamEvent::Cancelled), StreamAction::Finish));
}

#[test]
fn shutdown_during_a_send_closes_after_the_answer() {
    let mut session = listening();
    session.step(StreamEvent::Received(Delivery::Sample(sample(1))));
    assert!(matches!(session.step(StreamEvent::Cancelled), StreamAction::Wait));
    assert!(matches!(session.step(StreamEvent::FrameSent(true)), StreamAction::CloseSocket));
    assert!(matches!(session.step(StreamEvent::SocketClosed(true)), StreamAction::Finish));
    assert!(session.is_closed());

    let mut failing = listening();
    failing.step(StreamEvent::Received(Delivery::Sample(sample(1))));
    failing.step(StreamEvent::Cancelled);
    assert!(matches!(failing.step(StreamEvent::FrameSent(false)), StreamAction::Finish));
    assert!(failing.is_closed());
}

#[test]
fn shutdown_before_the_probe_closes_without_subscribing() {
    let mut fresh = StreamSession::new();
    assert!(matches!(fresh.step(StreamEvent::Cancelled), StreamAction::CloseSocket));
    assert!(matches!(fresh.step(StreamEvent::SocketClosed(true)), StreamAction::Finish));

    let mut probing = StreamSession::new();
    probing.step(StreamEvent::Upgraded);
    assert!(matches!(probing.step(StreamEvent::Cancelled), StreamAction::Wait));
    assert!(matches!(probing.step(StreamEvent::ProbeSent(true)), StreamAction::CloseSocket));
    assert!(matches!(probing.step(StreamEvent::SocketClosed(true)), StreamAction::Finish));
    assert!(probing.is_closed());
}
