use bigdecimal::BigDecimal;
use price_feed::data::UnixTime;
use price_feed::persistence::{
    PriceRepositoryActor, PriceRepositoryImpl, QueueClosed, TokenPriceModel, WorkerAction,
    WorkerEvent, QUEUE_CAPACITY,
};

fn record(symbol: &str, secs: u64, nanos: u32, price: &str) -> TokenPriceModel {
    TokenPriceModel {
        id: None,
        created_at: UnixTime { secs, nanos },
        symbol: symbol.to_string(),
        price: price.parse().unwrap(),
    }
}

fn bitcoin(secs: u64) -> TokenPriceModel {
    record("bitcoin", secs, 0, "100.0")
}

fn seconds(found: &[TokenPriceModel]) -> Vec<u64> {
    found.iter().map(|record| record.created_at.secs).collect()
}

#[test]
fn queue_holds_one_hundred_records() {
    assert_eq!(QUEUE_CAPACITY, 100);
}

#[test]
fn records_are_stored_in_the_order_in_which_they_were_saved() {
    let mut repository = PriceRepositoryImpl::new();
    for secs in [30u64, 10, 20, 10, 50] {
        assert_eq!(repository.save_price(bitcoin(secs)), Ok(()));
    }
    assert_eq!(repository.queued(), 5);
    assert_eq!(repository.stored(), 0);
    assert!(repository.get_prices("bitcoin", 0).is_empty());

    assert!(repository.commit_next());
    assert_eq!(seconds(&repository.get_prices("bitcoin", 0)), vec![30]);
    assert_eq!(repository.flush(), 4);
    assert_eq!(repository.queued(), 0);
    assert_eq!(seconds(&repository.get_prices("bitcoin", 0)), vec![30, 10, 20, 10, 50]);
    assert!(!repository.commit_next());
    assert_eq!(repository.flush(), 0);
}

#[test]
fn full_queue_makes_the_caller_wait_for_the_writer() {
    let mut repository = PriceRepositoryImpl::new();
    for secs in 1..=100u64 {
        assert_eq!(repository.save_price(bitcoin(secs)), Ok(()));
    }
    assert_eq!(repository.queued(), 100);
    assert_eq!(repository.stored(), 0);

    assert_eq!(repository.save_price(bitcoin(101)), Ok(()));
    assert_eq!(repository.queued(), 100);
    assert_eq!(repository.stored(), 1);
    assert_eq!(seconds(&repository.get_prices("bitcoin", 0)), vec![1]);

    assert_eq!(repository.save_price(bitcoin(102)), Ok(()));
    assert_eq!(repository.queued(), 100);
    assert_eq!(seconds(&repository.get_prices("bitcoin", 0)), vec![1, 2]);

    assert_eq!(repository.flush(), 100);
    let all = seconds(&repository.get_prices("bitcoin", 0));
    assert_eq!(all, (1..=102u64).collect::<Vec<u64>>());
}

#[test]
fn shutdown_loses_what_is_queued_and_closes_the_queue() {
    let mut repository = PriceRepositoryImpl::new();
    for secs in 1..=3u64 {
        repository.save_price(bitcoin(secs)).unwrap();
    }
    assert!(repository.commit_next());
    assert_eq!(repository.shutdown(), 2);
    assert_eq!(repository.queued(), 0);
    assert_eq!(repository.stored(), 1);
    assert_eq!(seconds(&repository.get_prices("bitcoin", 0)), vec![1]);

    assert_eq!(repository.save_price(bitcoin(4)), Err(QueueClosed));
    assert_eq!(repository.queued(), 0);
    assert!(!repository.commit_next());
    assert_eq!(repository.flush(), 0);
    assert_eq!(repository.shutdown(), 0);
    assert_eq!(repository.stored(), 1);
}

#[test]
fn query_selects_by_exact_symbol_and_strictly_later_time() {
    let mut repository = PriceRepositoryImpl::new();
    repository.save_price(record("bitcoin", 999, 999_999_999, "1")).unwrap();
    repository.save_price(record("bitcoin", 1000, 0, "2")).unwrap();
    repository.save_price(record("bitcoin", 1000, 1, "3")).unwrap();
    repository.save_price(record("ethereum", 1001, 0, "4")).unwrap();
    repository.save_price(record("Bitcoin", 1001, 0, "5")).unwrap();
    repository.save_price(record("bitcoin ", 1001, 0, "6")).unwrap();
    repository.save_price(record("bitcoin", 1001, 0, "7")).unwrap();
    repository.save_price(record("", 2000, 0, "8")).unwrap();
    assert_eq!(repository.flush(), 8);

    let found = repository.get_prices("bitcoin", 1000);
    let prices: Vec<String> = found.iter().map(|record| record.price.to_string()).collect();
    assert_eq!(prices, vec!["3", "7"]);
    assert!(found.iter().all(|record| record.symbol == "bitcoin" && record.id.is_none()));

    assert_eq!(repository.get_prices("bitcoin", 999).len(), 4);
    assert_eq!(repository.get_prices("bitcoin", 998).len(), 4);
    assert_eq!(repository.get_prices("bitcoin", 1001).len(), 0);
    assert_eq!(repository.get_prices("bitcoin", 0).len(), 4);
    assert_eq!(repository.get_prices("bitcoin", -1).len(), 4);
    assert_eq!(repository.get_prices("bitcoin", i64::MIN).len(), 4);
    assert_eq!(repository.get_prices("bitcoin", i64::MAX).len(), 0);
    assert_eq!(repository.get_prices("ethereum", 0).len(), 1);
    assert_eq!(repository.get_prices("", 0).len(), 1);
    assert_eq!(repository.get_prices("dogecoin", 0).len(), 0);
}

#[test]
fn record_at_the_epoch_is_later_than_any_negative_bound_only() {
    let mut repository = PriceRepositoryImpl::new();
    repository.save_price(record("bitcoin", 0, 0, "1")).unwrap();
    repository.save_price(record("bitcoin", 0, 1, "2")).unwrap();
    repository.save_price(record("bitcoin", u64::MAX, 0, "3")).unwrap();
    repository.flush();
    assert_eq!(repository.get_prices("bitcoin", -1).len(), 3);
    assert_eq!(repository.get_prices("bitcoin", 0).len(), 2);
    assert_eq!(repository.get_prices("bitcoin", 1).len(), 1);
    assert_eq!(repository.get_prices("bitcoin", i64::MAX).len(), 1);
}

#[test]
fn repeated_queries_return_the_same_records() {
    let mut repository = PriceRepositoryImpl::new();
    for secs in 1..=10u64 {
        repository.save_price(record("bitcoin", secs, 5, "9.99")).unwrap();
    }
    repository.flush();
    repository.save_price(bitcoin(11)).unwrap();

    let first = repository.get_prices("bitcoin", 4);
    let second = repository.get_prices("bitcoin", 4);
    let third = repository.get_prices("bitcoin", 4);
    assert_eq!(seconds(&first), vec![4, 5, 6, 7, 8, 9, 10]);
    assert_eq!(seconds(&first), seconds(&second));
    assert_eq!(seconds(&second), seconds(&third));
    for (a, b) in first.iter().zip(second.iter()) {
        assert_eq!(a.id, b.id);
        assert_eq!(a.symbol, b.symbol);
        assert_eq!(a.created_at, b.created_at);
        assert_eq!(a.price, b.price);
        assert_eq!(a.price.to_string(), b.price.to_string());
    }
    assert_eq!(repository.stored(), 10);
    assert_eq!(repository.queued(), 1);
}

#[test]
fn stored_price_keeps_its_digits() {
    let mut repository = PriceRepositoryImpl::new();
    repository.save_price(record("bitcoin", 1, 0, "12345.6700000000000727595761418342590332031250")).unwrap();
    repository.save_price(record("bitcoin", 2, 0, "100.00")).unwrap();
    repository.flush();
    let found = repository.get_prices("bitcoin", 0);
    assert_eq!(found[0].price.to_string(), "12345.6700000000000727595761418342590332031250");
    assert_eq!(found[1].price.to_string(), "100.00");
    assert_eq!(found[1].price, "100".parse::<BigDecimal>().unwrap());
}

#[test]
fn record_clone_is_field_for_field() {
    let source = TokenPriceModel {
        id: Some(42),
        created_at: UnixTime { secs: 7, nanos: 8 },
        symbol: "bitcoin".to_string(),
        price: "0.000100".parse().unwrap(),
    };
    let copy = source.clone();
    assert_eq!(copy.id, Some(42));
    assert_eq!(copy.created_at, UnixTime { secs: 7, nanos: 8 });
    assert_eq!(copy.symbol, "bitcoin");
    assert_eq!(copy.price.to_string(), "0.000100");
    assert_eq!(source.price.to_string(), "0.000100");
}

#[test]
fn writer_takes_one_record_at_a_time() {
    let mut actor = PriceRepositoryActor::new();
    assert!(actor.is_ready());
    match actor.step(WorkerEvent::Received(bitcoin(1))) {
        WorkerAction::Insert(record) => assert_eq!(record.created_at.secs, 1),
        other => panic!("expected an insert, got {:?}", other),
    }
    assert!(!actor.is_ready());
    match actor.step(WorkerEvent::Received(bitcoin(2))) {
        WorkerAction::Refuse(record) => assert_eq!(record.created_at.secs, 2),
        other => panic!("expected the record back, got {:?}", other),
    }
    assert!(matches!(actor.step(WorkerEvent::Inserted(true)), WorkerAction::Wait));
    assert!(actor.is_ready());
    assert!(matches!(actor.step(WorkerEvent::Inserted(true)), WorkerAction::Wait));
    assert!(matches!(actor.step(WorkerEvent::Received(bitcoin(2))), WorkerAction::Insert(_)));
}

#[test]
fn failed_write_drops_the_record_and_the_writer_goes_on() {
    let mut actor = PriceRepositoryActor::new();
    for secs in 1..=5u64 {
        assert!(matches!(actor.step(WorkerEvent::Received(bitcoin(secs))), WorkerAction::Insert(_)));
        assert!(matches!(actor.step(WorkerEvent::Inserted(false)), WorkerAction::Wait));
        assert!(actor.is_ready());
        assert!(!actor.is_stopped());
    }
}

#[test]
fn writer_stops_on_the_shutdown_signal() {
    let mut idle = PriceRepositoryActor::new();
    assert!(matches!(idle.step(WorkerEvent::Cancelled), WorkerAction::Stop));
    assert!(idle.is_stopped());
    assert!(matches!(idle.step(WorkerEvent::Received(bitcoin(1))), WorkerAction::Stop));
    assert!(matches!(idle.step(WorkerEvent::Inserted(true)), WorkerAction::Stop));
    assert!(idle.is_stopped());

    let mut busy = PriceRepositoryActor::new();
    assert!(matches!(busy.step(WorkerEvent::Received(bitcoin(1))), WorkerAction::Insert(_)));
    assert!(matches!(busy.step(WorkerEvent::Cancelled), WorkerAction::Wait));
    assert!(!busy.is_stopped());
    assert!(!busy.is_ready());
    assert!(matches!(busy.step(WorkerEvent::Inserted(true)), WorkerAction::Stop));
    assert!(busy.is_stopped());
}
