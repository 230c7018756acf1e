use redis_sink::decimal::u64_to_string;
use redis_sink::model::{
    BlockRecord, Event, EventContext, EventData, SinkError, StreamStrategy, TxInputRecord,
};
use redis_sink::producer::{plan_record, producer_loop};
use redis_sink::record::RedisRecord;
use redis_sink::route::route;

fn no_ctx() -> EventContext {
    EventContext {
        block_number: None,
        tx_hash: None,
        output_idx: None,
    }
}

fn block_event(number: u64) -> Event {
    Event {
        context: EventContext {
            block_number: Some(number),
            tx_hash: None,
            output_idx: None,
        },
        data: EventData::Block(BlockRecord {
            hash: "b".to_string(),
            number,
        }),
        fingerprint: None,
    }
}

fn input_event(tx_id: &str, index: u64) -> Event {
    Event {
        context: no_ctx(),
        data: EventData::TxInput(TxInputRecord {
            tx_id: tx_id.to_string(),
            index,
        }),
        fingerprint: None,
    }
}

#[test]
fn route_by_event_type_uses_lowercased_tag() {
    let e = block_event(1);
    assert_eq!(route(&e, StreamStrategy::ByEventType, "default"), "block");
    assert_eq!(route(&e, StreamStrategy::ByEventType, "something"), "block");
    let e2 = Event {
        context: no_ctx(),
        data: EventData::MoveInstantaneousRewardsCert {
            from_reserves: true,
            from_treasury: false,
        },
        fingerprint: None,
    };
    assert_eq!(
        route(&e2, StreamStrategy::ByEventType, "default"),
        "moveinstantaneousrewardscert"
    );
}

#[test]
fn route_single_stream_uses_default() {
    let e = block_event(1);
    assert_eq!(route(&e, StreamStrategy::SingleStream, "events"), "events");
    let e2 = input_event("abc", 0);
    assert_eq!(route(&e2, StreamStrategy::SingleStream, "events"), "events");
}

#[test]
fn route_is_deterministic() {
    let e = block_event(5);
    assert_eq!(
        route(&e, StreamStrategy::ByEventType, "d"),
        route(&e, StreamStrategy::ByEventType, "d")
    );
}

#[test]
fn decimal_rendering() {
    assert_eq!(u64_to_string(0), "0");
    assert_eq!(u64_to_string(10), "10");
    assert_eq!(u64_to_string(907), "907");
    assert_eq!(u64_to_string(u64::MAX), "18446744073709551615");
}

#[test]
fn record_key_is_computed_at_construction() {
    let r = RedisRecord::new(input_event("abc", 2));
    assert_eq!(r.key, "abc#2");
    let with_fp = Event {
        fingerprint: Some("fp".to_string()),
        ..input_event("abc", 2)
    };
    assert_eq!(RedisRecord::new(with_fp).key, "fp");
}

#[test]
fn plan_record_routes_and_keys() {
    let r = plan_record(input_event("abc", 2), StreamStrategy::ByEventType, "d");
    assert_eq!(r.stream, "txinput");
    assert_eq!(r.record.key, "abc#2");
    let r2 = plan_record(block_event(3), StreamStrategy::SingleStream, "d");
    assert_eq!(r2.stream, "d");
    assert_eq!(r2.record.key, "3");
}

#[test]
fn loop_appends_all_in_order_on_success() {
    let events = vec![block_event(1), input_event("abc", 2), block_event(3)];
    let outcomes = vec![Ok(()), Ok(()), Ok(())];
    let (requests, result) =
        producer_loop(events, outcomes, StreamStrategy::SingleStream, "events");
    assert!(result.is_ok());
    assert_eq!(requests.len(), 3);
    assert_eq!(requests[0].record.key, "1");
    assert_eq!(requests[1].record.key, "abc#2");
    assert_eq!(requests[2].record.key, "3");
    for r in &requests {
        assert_eq!(r.stream, "events");
    }
}

#[test]
fn loop_stops_at_first_failed_append() {
    let events = vec![block_event(1), block_event(2), block_event(3)];
    let outcomes = vec![
        Ok(()),
        Err(SinkError {
            message: "connection lost".to_string(),
        }),
        Ok(()),
    ];
    let (requests, result) = producer_loop(events, outcomes, StreamStrategy::ByEventType, "d");
    assert_eq!(requests.len(), 2);
    assert_eq!(requests[0].record.key, "1");
    assert_eq!(requests[1].record.key, "2");
    match result {
        Err(e) => assert_eq!(e.message, "connection lost"),
        Ok(()) => panic!("loop must surface the sink error"),
    }
}

#[test]
fn loop_with_no_events_succeeds() {
    let (requests, result) = producer_loop(
        Vec::new(),
        Vec::new(),
        StreamStrategy::SingleStream,
        "events",
    );
    assert!(requests.is_empty());
    assert!(result.is_ok());
}

#[test]
fn loop_failing_first_append_issues_one() {
    let events = vec![block_event(1), block_event(2)];
    let outcomes = vec![
        Err(SinkError {
            message: "rejected".to_string(),
        }),
        Ok(()),
    ];
    let (requests, result) = producer_loop(events, outcomes, StreamStrategy::ByEventType, "d");
    assert_eq!(requests.len(), 1);
    assert_eq!(requests[0].stream, "block");
    assert!(result.is_err());
}
