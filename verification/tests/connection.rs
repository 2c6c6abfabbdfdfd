use std::time::Duration;

use lapin::types::{AMQPValue, FieldTable};
use unibus::connection::options::ConnectionOptions;
use unibus::connection::{
    Advance, ConnectEvent, ConnectStep, Connection, ConnectionBuilder, Failure, ItemNote,
};
use unibus::state::{ConnectionError, ConnectionState};
use unibus::topology::exchange::Exchange;
use unibus::topology::queue::Queue;
use unibus::topology::{Command, ExchangeKind, TopologyItem};

type Record = Connection<&'static str>;

fn fail(reason: &str) -> ConnectionState {
    ConnectionState::Fail(reason.to_string())
}

fn record(topology: Vec<TopologyItem>) -> Record {
    ConnectionBuilder::new("amqp://broker".to_string())
        .with_reconnect(Duration::from_millis(100))
        .with_topology(topology)
        .build()
}

fn done(answer: &Advance) -> (bool, bool) {
    match answer.step {
        ConnectStep::Done { success, start_retry } => (success, start_retry),
        ref other => panic!("unexpected step: {:?}", other),
    }
}

fn connect_plain(record: &mut Record, handle: &'static str) {
    assert!(matches!(record.advance(ConnectEvent::Start).step, ConnectStep::Dial));
    assert!(matches!(
        record.advance(ConnectEvent::Dialed(Ok(handle))).step,
        ConnectStep::RegisterHandler
    ));
    assert_eq!(done(&record.advance(ConnectEvent::HandlerRegistered)), (true, false));
}

#[test]
fn options_have_defaults() {
    let options = ConnectionOptions::new("amqp://h", "main");
    assert_eq!(options.uri, "amqp://h");
    assert_eq!(options.name, "main");
    assert_eq!(options.reconnect, Duration::from_secs(3));
    assert_eq!(options.locale, "en-US");
    assert_eq!(options.properties, FieldTable::default());
}

#[test]
fn options_take_what_is_set() {
    let mut table = FieldTable::default();
    table.insert("product".into(), AMQPValue::LongString("unibus".into()));
    let options = ConnectionOptions::new("amqp://h", "main")
        .with_reconnect(Duration::from_millis(250))
        .with_locale("de-DE")
        .with_props(table.clone());
    assert_eq!(options.uri, "amqp://h");
    assert_eq!(options.name, "main");
    assert_eq!(options.reconnect, Duration::from_millis(250));
    assert_eq!(options.locale, "de-DE");
    assert_eq!(options.properties, table);
}

#[test]
fn builder_has_defaults() {
    let record: Record = ConnectionBuilder::new("amqp://h".to_string()).build();
    assert_eq!(record.uri(), "amqp://h");
    assert_eq!(record.options().name, "");
    assert_eq!(record.options().reconnect, Duration::from_secs(2));
    assert_eq!(record.options().locale, "en-US");
    assert_eq!(record.options().properties, FieldTable::default());
    assert!(record.topology().is_empty());
    assert_eq!(record.state(), ConnectionState::Unknown);
    assert!(!record.retry_pending());
}

#[test]
fn builder_takes_what_is_set() {
    let mut table = FieldTable::default();
    table.insert("product".into(), AMQPValue::LongString("unibus".into()));
    let record: Record = ConnectionBuilder::new("amqp://h".to_string())
        .with_reconnect(Duration::from_millis(100))
        .with_props(table.clone())
        .with_locale("fr-FR".to_string())
        .with_connection_name("orders")
        .with_topology(vec![TopologyItem::Queue(Queue::new("q1"))])
        .build();
    assert_eq!(record.uri(), "amqp://h");
    assert_eq!(record.options().name, "orders");
    assert_eq!(record.options().reconnect, Duration::from_millis(100));
    assert_eq!(record.options().locale, "fr-FR");
    assert_eq!(record.options().properties, table);
    assert_eq!(record.topology().len(), 1);
}

#[test]
fn connects_without_topology() {
    let mut record = record(Vec::new());
    let observer = record.state_watcher();
    assert!(matches!(record.advance(ConnectEvent::Start).step, ConnectStep::Dial));
    assert!(matches!(
        record.advance(ConnectEvent::Dialed(Ok("c1"))).step,
        ConnectStep::RegisterHandler
    ));
    assert_eq!(record.state(), ConnectionState::Unknown);
    assert!(matches!(record.create_channel(), Err(ConnectionError::NotReady)));
    let answer = record.advance(ConnectEvent::HandlerRegistered);
    assert_eq!(done(&answer), (true, false));
    assert!(answer.changed);
    assert_eq!(record.state(), ConnectionState::Ready);
    assert_eq!(*observer.borrow(), ConnectionState::Ready);
    assert_eq!(record.create_channel(), Ok(&"c1"));
}

#[test]
fn failed_record_refuses_channels_as_not_ready() {
    let mut record = record(Vec::new());
    assert!(matches!(record.create_channel(), Err(ConnectionError::NotReady)));
    record.advance(ConnectEvent::Start);
    record.advance(ConnectEvent::Dialed(Err("connection refused".to_string())));
    assert_eq!(record.state(), fail("connection refused"));
    assert_eq!(record.create_channel(), Err(ConnectionError::NotReady));
}

#[test]
fn closed_record_refuses_channels_as_closed() {
    let mut record = record(Vec::new());
    connect_plain(&mut record, "c1");
    record.close();
    assert_eq!(record.create_channel(), Err(ConnectionError::Closed));
}

#[test]
fn transport_answer_becomes_the_callers_answer() {
    assert_eq!(Record::channel_outcome(Ok(5)), Ok(5));
    assert_eq!(
        Record::channel_outcome::<u8>(Err("channel limit".to_string())),
        Err(ConnectionError::Fail("channel limit".to_string()))
    );
}

#[test]
fn close_twice_succeeds_both_times() {
    let mut record = record(Vec::new());
    connect_plain(&mut record, "c1");
    let observer = record.state_watcher();
    let first = record.close();
    assert_eq!(first.handle, Some("c1"));
    assert!(first.changed);
    assert_eq!(record.state(), ConnectionState::Closed);
    let second = record.close();
    assert_eq!(second.handle, None);
    assert!(!second.changed);
    assert_eq!(record.state(), ConnectionState::Closed);
    assert_eq!(*observer.borrow(), ConnectionState::Closed);
}

#[test]
fn close_before_any_connection_hands_out_nothing() {
    let mut record = record(Vec::new());
    let answer = record.close();
    assert_eq!(answer.handle, None);
    assert!(answer.changed);
    assert_eq!(record.state(), ConnectionState::Closed);
}

#[test]
fn closed_record_starts_no_attempt() {
    let mut record = record(vec![TopologyItem::Queue(Queue::new("q1"))]);
    record.close();
    assert_eq!(done(&record.advance(ConnectEvent::Start)), (true, false));
    assert_eq!(done(&record.advance(ConnectEvent::RetryWake)), (true, false));
    assert!(matches!(
        record.advance(ConnectEvent::Dialed(Ok("late"))).step,
        ConnectStep::Unexpected
    ));
    assert_eq!(
        record.transport_failed("late error".to_string()),
        Failure { reconnect: false, changed: false }
    );
    assert_eq!(record.state(), ConnectionState::Closed);
}

#[test]
fn close_during_an_attempt_ends_the_attempt() {
    let mut record = record(vec![TopologyItem::Queue(Queue::new("q1"))]);
    record.advance(ConnectEvent::Start);
    record.advance(ConnectEvent::Dialed(Ok("c1")));
    let answer = record.close();
    assert_eq!(answer.handle, None);
    assert!(matches!(
        record.advance(ConnectEvent::ChannelOpened(Ok(()))).step,
        ConnectStep::Unexpected
    ));
    assert_eq!(record.state(), ConnectionState::Closed);
}

#[test]
fn ready_record_needs_no_attempt() {
    let mut record = record(Vec::new());
    connect_plain(&mut record, "c1");
    let answer = record.advance(ConnectEvent::Start);
    assert_eq!(done(&answer), (true, false));
    assert!(!answer.changed);
    assert_eq!(record.create_channel(), Ok(&"c1"));
}

#[test]
fn unreachable_broker_then_ready_declares_the_queue_once() {
    let mut record = record(vec![TopologyItem::Queue(Queue::new("q1"))]);
    let mut observer = record.state_watcher();
    let mut seen = vec![observer.borrow_and_update().clone()];
    let mut declared = Vec::new();

    assert!(matches!(record.advance(ConnectEvent::Start).step, ConnectStep::Dial));
    let answer = record.advance(ConnectEvent::Dialed(Err("unreachable (1)".to_string())));
    assert_eq!(done(&answer), (false, true));
    assert!(answer.changed);
    assert!(record.retry_pending());
    seen.push(observer.borrow_and_update().clone());

    assert!(matches!(record.advance(ConnectEvent::RetryWake).step, ConnectStep::Dial));
    let answer = record.advance(ConnectEvent::Dialed(Err("unreachable (2)".to_string())));
    assert_eq!(done(&answer), (false, false));
    assert!(answer.changed);
    seen.push(observer.borrow_and_update().clone());

    assert!(matches!(record.advance(ConnectEvent::RetryWake).step, ConnectStep::Dial));
    assert!(matches!(
        record.advance(ConnectEvent::Dialed(Ok("c1"))).step,
        ConnectStep::OpenChannel
    ));
    match record.advance(ConnectEvent::ChannelOpened(Ok(()))).step {
        ConnectStep::Run(Command::QueueDeclare { queue, .. }) => declared.push(queue),
        other => panic!("unexpected step: {:?}", other),
    }
    let answer = record.advance(ConnectEvent::CommandDone(Ok(())));
    assert!(matches!(answer.step, ConnectStep::RegisterHandler));
    assert_eq!(answer.settled, Some(ItemNote::Applied(0)));
    assert!(!observer.has_changed().unwrap());
    let answer = record.advance(ConnectEvent::HandlerRegistered);
    assert_eq!(done(&answer), (true, false));
    assert!(!record.retry_pending());
    seen.push(observer.borrow_and_update().clone());

    assert_eq!(
        seen,
        vec![
            ConnectionState::Unknown,
            fail("unreachable (1)"),
            fail("unreachable (2)"),
            ConnectionState::Ready,
        ]
    );
    assert_eq!(declared, vec!["q1".to_string()]);
    assert_eq!(record.create_channel(), Ok(&"c1"));
}

#[test]
fn repeated_failure_with_the_same_reason_notifies_once() {
    let mut record = record(Vec::new());
    let observer = record.state_watcher();
    record.advance(ConnectEvent::Start);
    assert!(record.advance(ConnectEvent::Dialed(Err("refused".to_string()))).changed);
    record.advance(ConnectEvent::RetryWake);
    let answer = record.advance(ConnectEvent::Dialed(Err("refused".to_string())));
    assert!(!answer.changed);
    assert_eq!(done(&answer), (false, false));
    assert_eq!(*observer.borrow(), fail("refused"));
}

#[test]
fn failed_topology_discards_the_connection() {
    let mut record = record(vec![
        TopologyItem::Queue(Queue::new("A")),
        TopologyItem::Exchange(Exchange::new("B", ExchangeKind::Direct).add_binding("src", |b| b)),
        TopologyItem::Queue(Queue::new("C")),
    ]);
    record.advance(ConnectEvent::Start);
    record.advance(ConnectEvent::Dialed(Ok("c1")));
    assert!(matches!(
        record.advance(ConnectEvent::ChannelOpened(Ok(()))).step,
        ConnectStep::Run(Command::QueueDeclare { .. })
    ));
    let answer = record.advance(ConnectEvent::CommandDone(Ok(())));
    assert!(matches!(answer.step, ConnectStep::Run(Command::ExchangeDeclare { .. })));
    assert_eq!(answer.settled, Some(ItemNote::Applied(0)));
    let answer = record.advance(ConnectEvent::CommandDone(Ok(())));
    assert!(matches!(answer.step, ConnectStep::Run(Command::ExchangeBind { .. })));
    assert_eq!(answer.settled, None);
    let answer = record.advance(ConnectEvent::CommandDone(Err("no exchange 'src'".to_string())));
    assert_eq!(done(&answer), (false, true));
    assert_eq!(answer.settled, Some(ItemNote::Failed(1)));
    assert!(answer.changed);
    assert_eq!(record.state(), fail("no exchange 'src'"));
    assert_eq!(record.create_channel(), Err(ConnectionError::NotReady));
    assert!(matches!(
        record.advance(ConnectEvent::CommandDone(Ok(()))).step,
        ConnectStep::Unexpected
    ));
    assert!(matches!(
        record.advance(ConnectEvent::HandlerRegistered).step,
        ConnectStep::Unexpected
    ));
}

#[test]
fn topology_is_applied_again_on_every_connection() {
    let mut record = record(vec![TopologyItem::Queue(Queue::new("q1"))]);
    for handle in ["c1", "c2"] {
        assert!(matches!(record.advance(ConnectEvent::Start).step, ConnectStep::Dial));
        record.advance(ConnectEvent::Dialed(Ok(handle)));
        assert!(matches!(
            record.advance(ConnectEvent::ChannelOpened(Ok(()))).step,
            ConnectStep::Run(Command::QueueDeclare { .. })
        ));
        assert!(matches!(
            record.advance(ConnectEvent::CommandDone(Ok(()))).step,
            ConnectStep::RegisterHandler
        ));
        record.advance(ConnectEvent::HandlerRegistered);
        assert_eq!(record.create_channel(), Ok(&handle));
        assert_eq!(
            record.transport_failed("reset".to_string()),
            Failure { reconnect: true, changed: true }
        );
    }
}

#[test]
fn failed_channel_fails_the_attempt() {
    let mut record = record(vec![TopologyItem::Queue(Queue::new("q1"))]);
    record.advance(ConnectEvent::Start);
    record.advance(ConnectEvent::Dialed(Ok("c1")));
    let answer = record.advance(ConnectEvent::ChannelOpened(Err("channel limit".to_string())));
    assert_eq!(done(&answer), (false, true));
    assert_eq!(answer.settled, None);
    assert_eq!(record.state(), fail("channel limit"));
}

#[test]
fn transport_error_drops_the_live_connection_and_asks_to_reconnect() {
    let mut record = record(Vec::new());
    connect_plain(&mut record, "c1");
    let observer = record.state_watcher();
    let answer = record.transport_failed("heartbeat missed".to_string());
    assert_eq!(answer, Failure { reconnect: true, changed: true });
    assert_eq!(record.state(), fail("heartbeat missed"));
    assert_eq!(*observer.borrow(), fail("heartbeat missed"));
    assert_eq!(record.create_channel(), Err(ConnectionError::NotReady));
}

#[test]
fn immediate_reconnect_that_fails_falls_back_to_one_retry_loop() {
    let mut record = record(Vec::new());
    connect_plain(&mut record, "c1");
    assert!(record.transport_failed("reset".to_string()).reconnect);
    assert!(matches!(record.advance(ConnectEvent::Start).step, ConnectStep::Dial));
    assert_eq!(
        done(&record.advance(ConnectEvent::Dialed(Err("refused".to_string())))),
        (false, true)
    );
    assert!(record.transport_failed("reset again".to_string()).reconnect);
    record.advance(ConnectEvent::Start);
    assert_eq!(
        done(&record.advance(ConnectEvent::Dialed(Err("refused".to_string())))),
        (false, false)
    );
    assert!(record.retry_pending());
}

#[test]
fn retry_loop_ends_when_it_finds_the_record_ready() {
    let mut record = record(Vec::new());
    record.advance(ConnectEvent::Start);
    assert_eq!(
        done(&record.advance(ConnectEvent::Dialed(Err("refused".to_string())))),
        (false, true)
    );
    connect_plain(&mut record, "c1");
    assert!(record.retry_pending());
    assert_eq!(done(&record.advance(ConnectEvent::RetryWake)), (true, false));
    assert!(!record.retry_pending());
}

#[test]
fn retry_loop_ends_when_it_finds_the_record_closed() {
    let mut record = record(Vec::new());
    record.advance(ConnectEvent::Start);
    record.advance(ConnectEvent::Dialed(Err("refused".to_string())));
    record.close();
    assert!(record.retry_pending());
    assert_eq!(done(&record.advance(ConnectEvent::RetryWake)), (true, false));
    assert!(!record.retry_pending());
    assert_eq!(record.state(), ConnectionState::Closed);
}

#[test]
fn transport_error_during_an_attempt_asks_for_no_second_one() {
    let mut record = record(Vec::new());
    record.advance(ConnectEvent::Start);
    let answer = record.transport_failed("stale".to_string());
    assert_eq!(answer, Failure { reconnect: false, changed: true });
    assert!(matches!(
        record.advance(ConnectEvent::Dialed(Ok("c1"))).step,
        ConnectStep::RegisterHandler
    ));
}

#[test]
fn events_out_of_turn_change_nothing() {
    let mut record = record(vec![TopologyItem::Queue(Queue::new("q1"))]);
    for event in [
        ConnectEvent::Dialed(Ok("c")),
        ConnectEvent::ChannelOpened(Ok(())),
        ConnectEvent::CommandDone(Ok(())),
        ConnectEvent::HandlerRegistered,
    ] {
        let answer = record.advance(event);
        assert!(matches!(answer.step, ConnectStep::Unexpected));
        assert!(!answer.changed);
        assert_eq!(answer.settled, None);
    }
    assert_eq!(record.state(), ConnectionState::Unknown);
    record.advance(ConnectEvent::Start);
    assert!(matches!(record.advance(ConnectEvent::Start).step, ConnectStep::Unexpected));
    assert!(matches!(record.advance(ConnectEvent::RetryWake).step, ConnectStep::Unexpected));
}

#[test]
fn live_connection_exists_exactly_while_ready() {
    let mut record = record(vec![TopologyItem::Queue(Queue::new("q1"))]);
    assert_eq!(record.live(), None);
    assert_eq!(record.candidate(), None);
    record.advance(ConnectEvent::Start);
    assert_eq!(record.candidate(), None);
    record.advance(ConnectEvent::Dialed(Ok("c1")));
    assert_eq!(record.live(), None);
    assert_eq!(record.candidate(), Some(&"c1"));
    record.advance(ConnectEvent::ChannelOpened(Ok(())));
    record.advance(ConnectEvent::CommandDone(Ok(())));
    assert_eq!(record.live(), None);
    assert_eq!(record.candidate(), Some(&"c1"));
    record.advance(ConnectEvent::HandlerRegistered);
    assert_eq!(record.live(), Some(&"c1"));
    assert_eq!(record.candidate(), None);
    record.transport_failed("reset".to_string());
    assert_eq!(record.live(), None);
    connect_again(&mut record, "c2");
    assert_eq!(record.live(), Some(&"c2"));
    record.close();
    assert_eq!(record.live(), None);
    assert_eq!(record.candidate(), None);
}

fn connect_again(record: &mut Record, handle: &'static str) {
    record.advance(ConnectEvent::Start);
    record.advance(ConnectEvent::Dialed(Ok(handle)));
    record.advance(ConnectEvent::ChannelOpened(Ok(())));
    record.advance(ConnectEvent::CommandDone(Ok(())));
    record.advance(ConnectEvent::HandlerRegistered);
}

#[test]
fn new_watcher_has_seen_the_current_state() {
    let mut record = record(Vec::new());
    let early = record.state_watcher();
    assert_eq!(*early.borrow(), ConnectionState::Unknown);
    assert!(!early.has_changed().unwrap());
    record.advance(ConnectEvent::Start);
    record.advance(ConnectEvent::Dialed(Err("refused".to_string())));
    let late = record.state_watcher();
    assert_eq!(*late.borrow(), fail("refused"));
    assert!(!late.has_changed().unwrap());
    assert!(early.has_changed().unwrap());
}
