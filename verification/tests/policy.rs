use port_redirector::client::client_read_step;
use port_redirector::client::ClientReadStep;
use port_redirector::client::ClientState;
use port_redirector::client::DeliveryStep;
use port_redirector::client::FlushStep;
use port_redirector::client::SocketRead;
use port_redirector::client::WriteStatus;
use port_redirector::client::CLIENT_PENDING_WRITE_CAPACITY;
use port_redirector::publish::backoff_delay_ms;
use port_redirector::publish::publish_step;
use port_redirector::publish::run_publish;
use port_redirector::publish::PublishAttempt;
use port_redirector::publish::PublishStep;
use port_redirector::publish::RelayStats;

fn fresh_stats() -> RelayStats {
    RelayStats { dropped_messages: 0, backpressure_events: 0 }
}

#[test]
fn backoff_delays_double_from_one() {
    let expected: [u64; 10] = [1, 2, 4, 8, 16, 32, 64, 128, 256, 512];
    for (retries, want) in expected.iter().enumerate() {
        assert_eq!(backoff_delay_ms(retries as u32), *want);
    }
}

#[test]
fn publish_steps_through_backoff_to_drop() {
    let mut att = PublishAttempt { retries: 0 };
    let mut stats = fresh_stats();

    // First failure: one backpressure event, first retry delayed 1 ms, logged.
    let s0 = publish_step(&mut att, &mut stats, false);
    assert_eq!(s0, PublishStep::Backoff { delay_ms: 1, log: true });
    assert_eq!(stats.backpressure_events, 1);
    assert_eq!(stats.dropped_messages, 0);

    // Nine more failures: doubled delays, a log line every third retry.
    let mut delays = vec![1u64];
    for i in 1..10u32 {
        match publish_step(&mut att, &mut stats, false) {
            PublishStep::Backoff { delay_ms, log } => {
                delays.push(delay_ms);
                assert_eq!(log, i % 3 == 0);
            }
            other => panic!("expected a backoff, got {:?}", other),
        }
    }
    assert_eq!(delays, vec![1, 2, 4, 8, 16, 32, 64, 128, 256, 512]);
    assert_eq!(delays.iter().sum::<u64>(), 1023);
    assert_eq!(stats.backpressure_events, 1);

    // The failure after the last allowed retry drops the frame, once.
    let s_last = publish_step(&mut att, &mut stats, false);
    assert_eq!(s_last, PublishStep::Dropped);
    assert_eq!(stats.dropped_messages, 1);
    assert_eq!(stats.backpressure_events, 1);
}

#[test]
fn publish_recovery_is_reported() {
    let mut att = PublishAttempt { retries: 0 };
    let mut stats = fresh_stats();
    assert_eq!(
        publish_step(&mut att, &mut stats, false),
        PublishStep::Backoff { delay_ms: 1, log: true }
    );
    assert_eq!(
        publish_step(&mut att, &mut stats, true),
        PublishStep::Sent { recovered: true }
    );
    assert_eq!(stats.dropped_messages, 0);
}

#[test]
fn saturated_publish_drops_exactly_one() {
    let mut stats = RelayStats { dropped_messages: 4, backpressure_events: 9 };
    let outcomes = vec![false; 11];
    let report = run_publish(&mut stats, &outcomes);
    assert!(!report.delivered);
    assert_eq!(report.retries, 10);
    assert_eq!(report.slept_ms, 1023);
    assert_eq!(stats.dropped_messages, 5);
    assert_eq!(stats.backpressure_events, 10);
}

#[test]
fn publish_after_congestion_clears_needs_no_retry() {
    let mut stats = fresh_stats();
    let outcomes = vec![true; 11];
    let report = run_publish(&mut stats, &outcomes);
    assert!(report.delivered);
    assert_eq!(report.retries, 0);
    assert_eq!(report.slept_ms, 0);
    assert_eq!(stats, fresh_stats());
}

#[test]
fn publish_delivered_after_three_retries() {
    let mut stats = fresh_stats();
    let mut outcomes = vec![false, false, false];
    outcomes.extend(vec![true; 8]);
    let report = run_publish(&mut stats, &outcomes);
    assert!(report.delivered);
    assert_eq!(report.retries, 3);
    assert_eq!(report.slept_ms, 1 + 2 + 4);
    assert_eq!(stats.backpressure_events, 1);
    assert_eq!(stats.dropped_messages, 0);
}

#[test]
fn slow_client_survives_ten_timeouts_not_eleven() {
    let mut st = ClientState::new();
    assert_eq!(
        st.buffer_frame(b"stuck".to_vec()),
        DeliveryStep::Buffered { warn: false }
    );

    for i in 1..=10u32 {
        let step = st.flush_front_step(WriteStatus::TimedOut);
        // A warning is logged on every fifth timeout, counting the first.
        assert_eq!(step, FlushStep::Yield { warn: i == 1 || i == 6 });
    }
    assert_eq!(st.slow_client_warnings, 10);

    let step = st.flush_front_step(WriteStatus::TimedOut);
    assert_eq!(step, FlushStep::Disconnect);
}

#[test]
fn flush_dequeues_in_order() {
    let mut st = ClientState::new();
    assert_eq!(
        st.buffer_frame(b"first".to_vec()),
        DeliveryStep::Buffered { warn: false }
    );
    assert_eq!(
        st.buffer_frame(b"second".to_vec()),
        DeliveryStep::Buffered { warn: false }
    );

    assert!(st.has_pending());
    assert_eq!(st.front_frame().as_slice(), b"first");
    assert_eq!(st.flush_front_step(WriteStatus::Written), FlushStep::Flushed);
    assert_eq!(st.front_frame().as_slice(), b"second");
    assert_eq!(st.flush_front_step(WriteStatus::Written), FlushStep::Flushed);
    assert!(!st.has_pending());
}

#[test]
fn flush_write_error_disconnects() {
    let mut st = ClientState::new();
    st.buffer_frame(b"x".to_vec());
    assert_eq!(st.flush_front_step(WriteStatus::Failed), FlushStep::Disconnect);
}

#[test]
fn idle_delivery_buffers_on_timeout_only() {
    let mut st = ClientState::new();
    assert_eq!(
        st.deliver_when_idle(b"a".to_vec(), WriteStatus::Written),
        DeliveryStep::Delivered
    );
    assert!(!st.has_pending());

    // The first write timeout is logged and counts against the cap.
    assert_eq!(
        st.deliver_when_idle(b"b".to_vec(), WriteStatus::TimedOut),
        DeliveryStep::Buffered { warn: true }
    );
    assert!(st.has_pending());
    assert_eq!(st.front_frame().as_slice(), b"b");
    assert_eq!(st.slow_client_warnings, 1);

    let mut failing = ClientState::new();
    assert_eq!(
        failing.deliver_when_idle(b"c".to_vec(), WriteStatus::Failed),
        DeliveryStep::Disconnect
    );
}

#[test]
fn immediate_write_timeouts_count_toward_eviction() {
    let mut st = ClientState::new();
    for i in 1..=10u32 {
        let step = st.deliver_when_idle(vec![i as u8], WriteStatus::TimedOut);
        assert_eq!(step, DeliveryStep::Buffered { warn: i == 1 || i == 6 });
        // Drain the queue so the next frame takes the immediate path again.
        assert_eq!(st.flush_front_step(WriteStatus::Written), FlushStep::Flushed);
    }
    assert_eq!(st.slow_client_warnings, 10);
    // The eleventh write timeout, wherever it occurs, evicts the client.
    assert_eq!(
        st.deliver_when_idle(b"last".to_vec(), WriteStatus::TimedOut),
        DeliveryStep::Disconnect
    );
}

#[test]
fn full_pending_queue_disconnects() {
    let mut st = ClientState::new();
    for i in 0..CLIENT_PENDING_WRITE_CAPACITY {
        assert_eq!(
            st.buffer_frame(vec![(i % 256) as u8]),
            DeliveryStep::Buffered { warn: false }
        );
    }
    assert_eq!(st.pending_writes.len(), CLIENT_PENDING_WRITE_CAPACITY);
    assert_eq!(st.buffer_frame(b"overflow".to_vec()), DeliveryStep::Disconnect);
    assert_eq!(st.pending_writes.len(), CLIENT_PENDING_WRITE_CAPACITY);
}

#[test]
fn client_reads_forward_or_disconnect() {
    assert_eq!(
        client_read_step(SocketRead::Bytes { len: 42 }),
        ClientReadStep::Forward { len: 42 }
    );
    assert_eq!(
        client_read_step(SocketRead::Bytes { len: 0 }),
        ClientReadStep::Disconnect
    );
    assert_eq!(client_read_step(SocketRead::Failed), ClientReadStep::Disconnect);
}
