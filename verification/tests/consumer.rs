use kafka_consumer::consumer::{
    BaseConsumer, ClientConfig, CommitMode, Consumer, DriverCall, Rebalance,
};
use kafka_consumer::error::{
    DriverStatus, KafkaError, RESP_ERR_NO_ERROR, RESP_ERR_PARTITION_EOF,
};
use kafka_consumer::message::Message;
use kafka_consumer::topic_partition_list::{NativeEntry, TopicPartition, TopicPartitionList};

const TRANSPORT_FAILURE: i32 = -195;

fn consumer(track_rebalances: bool) -> BaseConsumer {
    let config = ClientConfig { track_rebalances };
    match BaseConsumer::from_config(&config, Ok(())) {
        Ok((consumer, call)) => {
            assert_eq!(call, DriverCall::SetConsumer);
            consumer
        }
        Err(e) => panic!("no consumer: {:?}", e),
    }
}

fn native(topic: &str, partition: i32, offset: i64) -> NativeEntry {
    NativeEntry { topic: topic.to_string(), partition, offset }
}

fn record(err: i32, offset: i64) -> Message {
    Message { record: 7, err, topic: "orders".to_string(), partition: 3, offset }
}

#[test]
fn from_config_on_an_established_session() {
    let c = consumer(true);
    assert!(!c.is_closed());
    assert!(c.tracks_rebalances());
    let c = consumer(false);
    assert!(!c.tracks_rebalances());
}

#[test]
fn from_config_on_a_failed_session() {
    let config = ClientConfig { track_rebalances: true };
    let r = BaseConsumer::from_config(&config, Err("no brokers".to_string()));
    match r {
        Err(e) => assert_eq!(e, KafkaError::ClientCreation("no brokers".to_string())),
        Ok(_) => panic!("a consumer without a session"),
    }
}

#[test]
fn subscribe_hands_the_topics_over_in_order() {
    let mut c = consumer(false);
    let call = c.subscribe(&vec!["orders", "^audit\\..*", "billing"]);
    assert_eq!(
        call,
        DriverCall::Subscribe(vec![
            native("orders", -1, -1001),
            native("^audit\\..*", -1, -1001),
            native("billing", -1, -1001),
        ])
    );
}

#[test]
fn subscribe_to_nothing() {
    let mut c = consumer(false);
    assert_eq!(c.subscribe(&vec![]), DriverCall::Subscribe(vec![]));
}

#[test]
fn subscribe_then_get_subscriptions() {
    let mut c = consumer(false);
    let topics = vec!["orders", "billing"];
    let handed = match c.subscribe(&topics) {
        DriverCall::Subscribe(list) => list,
        other => panic!("unexpected call {:?}", other),
    };
    assert_eq!(
        BaseConsumer::subscription_outcome(DriverStatus {
            code: RESP_ERR_NO_ERROR,
            diagnostic: "Success".to_string()
        }),
        Ok(())
    );
    assert_eq!(c.get_subscriptions(), DriverCall::Subscription);
    let seen = TopicPartitionList::from_native(&handed);
    assert_eq!(seen, TopicPartitionList::with_topics(&topics));
    assert_eq!(seen.len(), 2);
}

#[test]
fn subscription_rejected() {
    let r = BaseConsumer::subscription_outcome(DriverStatus {
        code: -186,
        diagnostic: "Local: Invalid argument or configuration".to_string(),
    });
    assert_eq!(
        r,
        Err(KafkaError::Subscription("Local: Invalid argument or configuration".to_string()))
    );
}

#[test]
fn subscription_accepted_whatever_the_text() {
    let r = BaseConsumer::subscription_outcome(DriverStatus {
        code: 0,
        diagnostic: "ignored".to_string(),
    });
    assert_eq!(r, Ok(()));
}

#[test]
fn unsubscribe_twice() {
    let mut c = consumer(false);
    assert_eq!(c.unsubscribe(), DriverCall::Unsubscribe);
    assert_eq!(c.unsubscribe(), DriverCall::Unsubscribe);
    assert!(!c.is_closed());
    assert_eq!(TopicPartitionList::from_native(&vec![]), TopicPartitionList::new());
}

#[test]
fn assign_then_get_subscriptions() {
    let mut c = consumer(true);
    let mut assignment = TopicPartitionList::new();
    assignment.add_partition_offset("orders", 0, 100);
    let call = c.assign(&assignment);
    assert_eq!(call, DriverCall::Assign(vec![native("orders", 0, 100)]));
    assert_eq!(c.get_subscriptions(), DriverCall::Subscription);
    let seen = TopicPartitionList::from_native(&vec![native("orders", 0, 100)]);
    assert_eq!(seen.len(), 1);
    assert_eq!(
        seen.get(0),
        Some(&TopicPartition {
            topic: "orders".to_string(),
            partition: Some(0),
            offset: Some(100)
        })
    );
    assert_eq!(seen.get(1), None);
    assert_eq!(seen, assignment);
}

#[test]
fn assign_keeps_order_and_marks_what_is_absent() {
    let mut c = consumer(true);
    let mut assignment = TopicPartitionList::new();
    assignment.add_partition("b", 2);
    assignment.add_topic("a");
    assignment.add_partition_offset("b", 1, 0);
    assert_eq!(
        c.assign(&assignment),
        DriverCall::Assign(vec![native("b", 2, -1001), native("a", -1, -1001), native("b", 1, 0)])
    );
}

#[test]
fn poll_with_no_data_is_no_message() {
    let mut c = consumer(false);
    let _ = c.subscribe(&vec!["orders"]);
    assert_eq!(c.poll(0), DriverCall::Poll(0));
    assert_eq!(c.poll_outcome(vec![], None), Ok(None));
    assert_eq!(c.take_rebalances(), vec![]);
}

#[test]
fn poll_carries_the_timeout() {
    let c = consumer(false);
    assert_eq!(c.poll(250), DriverCall::Poll(250));
    assert_eq!(c.poll(-1), DriverCall::Poll(-1));
}

#[test]
fn poll_hands_a_delivered_record_on() {
    let mut c = consumer(false);
    let m = record(RESP_ERR_NO_ERROR, 41);
    assert_eq!(c.poll_outcome(vec![], Some(m.clone())), Ok(Some(m)));
}

#[test]
fn poll_at_the_end_of_a_partition() {
    let mut c = consumer(false);
    let r = c.poll_outcome(vec![], Some(record(RESP_ERR_PARTITION_EOF, 41)));
    assert_eq!(r, Err(KafkaError::PartitionEof));
    assert_eq!(RESP_ERR_PARTITION_EOF, -191);
    match r {
        Err(e) => assert!(e.is_partition_eof()),
        Ok(_) => panic!("the end of a partition is no message"),
    }
}

#[test]
fn poll_with_another_error() {
    let mut c = consumer(false);
    let r = c.poll_outcome(vec![], Some(record(TRANSPORT_FAILURE, 41)));
    assert_eq!(r, Err(KafkaError::MessageConsumption(-195)));
    assert_ne!(r, Err(KafkaError::PartitionEof));
    assert!(!KafkaError::MessageConsumption(-195).is_partition_eof());
    let r = c.poll_outcome(vec![], Some(record(3, 0)));
    assert_eq!(r, Err(KafkaError::MessageConsumption(3)));
    let r = c.poll_outcome(vec![], Some(record(-190, 0)));
    assert_eq!(r, Err(KafkaError::MessageConsumption(-190)));
}

#[test]
fn commit_message_sets_the_flag() {
    let c = consumer(false);
    let m = record(0, 41);
    assert_eq!(
        c.commit_message(&m, CommitMode::Sync),
        DriverCall::CommitMessage { record: 7, async_flag: 0 }
    );
    assert_eq!(
        c.commit_message(&m, CommitMode::Async),
        DriverCall::CommitMessage { record: 7, async_flag: 1 }
    );
}

#[test]
fn sync_commit_on_an_unreachable_session_fails() {
    assert_eq!(
        BaseConsumer::commit_outcome(CommitMode::Sync, TRANSPORT_FAILURE),
        Err(KafkaError::MessageConsumption(-195))
    );
    assert_eq!(BaseConsumer::commit_outcome(CommitMode::Sync, 0), Ok(()));
}

#[test]
fn async_commit_is_not_observed() {
    assert_eq!(BaseConsumer::commit_outcome(CommitMode::Async, TRANSPORT_FAILURE), Ok(()));
    assert_eq!(BaseConsumer::commit_outcome(CommitMode::Async, 0), Ok(()));
}

#[test]
fn commit_offset_is_the_next_record() {
    assert_eq!(record(0, 41).commit_offset(), Some(42));
    assert_eq!(record(0, 0).commit_offset(), Some(1));
    assert_eq!(record(0, i64::MAX - 1).commit_offset(), Some(i64::MAX));
    assert_eq!(record(0, i64::MAX).commit_offset(), None);
}

#[test]
fn take_rebalances_drains_in_order() {
    let mut c = consumer(true);
    let mut assigned = TopicPartitionList::new();
    assigned.add_partition("orders", 0);
    c.record_rebalance(Rebalance::Assign(assigned.clone()));
    c.record_rebalance(Rebalance::Revoke);
    c.record_rebalance(Rebalance::Error("lost".to_string()));
    assert_eq!(
        c.take_rebalances(),
        vec![Rebalance::Assign(assigned), Rebalance::Revoke, Rebalance::Error("lost".to_string())]
    );
    assert_eq!(c.take_rebalances(), vec![]);
    c.record_rebalance(Rebalance::Revoke);
    assert_eq!(c.take_rebalances(), vec![Rebalance::Revoke]);
    assert_eq!(c.take_rebalances(), vec![]);
}

#[test]
fn take_rebalances_without_tracking() {
    let mut c = consumer(false);
    c.record_rebalance(Rebalance::Revoke);
    assert_eq!(c.take_rebalances(), vec![]);
}

#[test]
fn take_rebalances_with_nothing_observed() {
    let mut c = consumer(true);
    assert_eq!(c.take_rebalances(), vec![]);
}

#[test]
fn close_twice() {
    let mut c = consumer(true);
    c.record_rebalance(Rebalance::Revoke);
    assert_eq!(c.close(), Some(DriverCall::Close));
    assert!(c.is_closed());
    assert_eq!(c.close(), None);
    assert!(c.is_closed());
    assert_eq!(c.close(), None);
    assert_eq!(c.take_rebalances(), vec![Rebalance::Revoke]);
}

#[test]
fn rebalance_notice_of_an_assignment() {
    let r = Rebalance::from_notice(-175, &vec![native("orders", 0, -1001)], "assign".to_string());
    let mut expected = TopicPartitionList::new();
    expected.add_partition("orders", 0);
    assert_eq!(r, Rebalance::Assign(expected));
}

#[test]
fn rebalance_notice_of_a_revocation() {
    let r = Rebalance::from_notice(-174, &vec![native("orders", 0, -1001)], "revoke".to_string());
    assert_eq!(r, Rebalance::Revoke);
}

#[test]
fn rebalance_notice_of_a_failure() {
    let r = Rebalance::from_notice(-195, &vec![], "Local: Broker transport failure".to_string());
    assert_eq!(r, Rebalance::Error("Local: Broker transport failure".to_string()));
    let r = Rebalance::from_notice(0, &vec![], "Success".to_string());
    assert_eq!(r, Rebalance::Error("Success".to_string()));
}

#[test]
fn rebalance_answers() {
    let announced = vec![native("orders", 0, -1001), native("orders", 1, 5)];
    assert_eq!(Rebalance::answer(-175, announced.clone()), DriverCall::Assign(announced.clone()));
    assert_eq!(Rebalance::answer(-174, announced.clone()), DriverCall::Unassign);
    assert_eq!(Rebalance::answer(-195, announced.clone()), DriverCall::Unassign);
    assert_eq!(Rebalance::answer(0, announced), DriverCall::Unassign);
}

#[test]
fn base_consumer_lends_itself() {
    let mut c = consumer(true);
    c.record_rebalance(Rebalance::Revoke);
    assert!(c.get_base_consumer().tracks_rebalances());
    assert_eq!(c.get_base_consumer_mut().take_rebalances(), vec![Rebalance::Revoke]);
    assert_eq!(c.take_rebalances(), vec![]);
    assert_eq!(c.get_base_consumer_mut().close(), Some(DriverCall::Close));
    assert!(c.is_closed());
}

#[test]
fn many_teardowns_close_once() {
    let mut c = consumer(false);
    let mut sent = 0;
    for _ in 0..5 {
        if c.close().is_some() {
            sent += 1;
        }
    }
    assert_eq!(sent, 1);
}

#[test]
fn poll_notes_the_rebalances_it_observed() {
    let mut c = consumer(true);
    c.record_rebalance(Rebalance::Error("first".to_string()));
    let mut assigned = TopicPartitionList::new();
    assigned.add_partition("orders", 0);
    let observed = vec![Rebalance::Revoke, Rebalance::Assign(assigned.clone())];
    assert_eq!(c.poll_outcome(observed, None), Ok(None));
    let r = c.poll_outcome(vec![Rebalance::Revoke], Some(record(TRANSPORT_FAILURE, 0)));
    assert_eq!(r, Err(KafkaError::MessageConsumption(-195)));
    assert_eq!(
        c.take_rebalances(),
        vec![
            Rebalance::Error("first".to_string()),
            Rebalance::Revoke,
            Rebalance::Assign(assigned),
            Rebalance::Revoke,
        ]
    );
    assert_eq!(c.take_rebalances(), vec![]);
}

#[test]
fn poll_without_tracking_drops_the_rebalances() {
    let mut c = consumer(false);
    let m = record(RESP_ERR_NO_ERROR, 9);
    assert_eq!(c.poll_outcome(vec![Rebalance::Revoke], Some(m.clone())), Ok(Some(m)));
    assert_eq!(c.take_rebalances(), vec![]);
}
