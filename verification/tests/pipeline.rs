use feo_tracing::cobs::cobs_frame;
use feo_tracing::level::{Level, LevelFilter};
use feo_tracing::pipeline::{Pipeline, WorkerState};
use feo_tracing::protocol::{truncate, EventInfo, TraceData, TracePacket, MPSC_CHANNEL_BOUND};
use feo_tracing::wire::encode_packet;

fn framed(p: &TracePacket) -> Vec<u8> {
    let mut encoded = Vec::new();
    encode_packet(p, &mut encoded);
    cobs_frame(&encoded)
}

fn name_buffer(name: &str) -> ([u8; 256], usize) {
    let mut buf = [0u8; 256];
    let len = truncate(name, &mut buf);
    (buf, len)
}

#[test]
fn scenario_debug_session_in_call_order() {
    let mut p = Pipeline::new(LevelFilter::Debug);
    p.on_connect(true, 0);

    let id = p.new_span(Level::Debug, "A", EventInfo::new(), 100);
    assert_eq!(id, 1);
    p.event(Level::Debug, None, "ev", EventInfo::new(), 200);
    p.enter(1, 300);
    p.exit(1, 400);
    assert_eq!(p.queue_len(), 4);

    // each step is past the flush interval, so each packet is delivered
    p.worker_step(600, true);
    p.worker_step(1200, true);
    p.worker_step(1800, true);
    p.worker_step(2400, true);
    assert_eq!(p.queue_len(), 0);

    let (name, name_len) = name_buffer("A");
    let expected_span = TracePacket::now_with_data(
        100,
        TraceData::NewSpan { id: 1, name, name_len, info: EventInfo::new() },
    );
    let (ev_name, ev_name_len) = name_buffer("ev");
    let expected_event = TracePacket::now_with_data(
        200,
        TraceData::Event {
            parent_span: None,
            name: ev_name,
            name_len: ev_name_len,
            info: EventInfo::new(),
        },
    );
    let expected_enter = TracePacket::now_without_process(300, TraceData::Enter { span: 1 });
    let expected_exit = TracePacket::now_without_process(400, TraceData::Exit { span: 1 });

    let mut expected = framed(&expected_span);
    expected.extend_from_slice(&framed(&expected_event));
    expected.extend_from_slice(&framed(&expected_enter));
    expected.extend_from_slice(&framed(&expected_exit));
    assert_eq!(p.sink_bytes().as_slice(), expected.as_slice());
}

#[test]
fn scenario_no_collector_listening() {
    let mut p = Pipeline::new(LevelFilter::Debug);
    // the connect attempt fails; initialization itself has completed
    p.on_connect(false, 0);
    assert!(!p.is_enabled());
    assert_eq!(p.worker_state(), WorkerState::Disabled);

    // a later span still gets a valid, strictly greater id, but nothing
    // ever reaches the sink
    let id = p.new_span(Level::Error, "still-works", EventInfo::new(), 10);
    assert_eq!(id, 1);
    let id2 = p.new_span(Level::Error, "again", EventInfo::new(), 20);
    assert!(id2 > id);
    assert_eq!(p.queue_len(), 0);
    assert!(p.sink_bytes().is_empty());
}

#[test]
fn span_ids_strictly_increasing_and_nonzero() {
    let mut p = Pipeline::new(LevelFilter::Off);
    p.on_connect(true, 0);
    let mut last = 0u64;
    for i in 0..10u64 {
        // ids keep flowing even though every call is filtered out
        let id = p.new_span(Level::Error, "s", EventInfo::new(), i);
        assert_ne!(id, 0);
        assert!(id > last);
        last = id;
    }
    assert_eq!(p.queue_len(), 0);
}

#[test]
fn severity_filtering_admits_at_or_below_max() {
    let mut p = Pipeline::new(LevelFilter::Info);
    p.on_connect(true, 0);
    assert!(p.enabled(Level::Error));
    assert!(p.enabled(Level::Warn));
    assert!(p.enabled(Level::Info));
    assert!(!p.enabled(Level::Debug));
    assert!(!p.enabled(Level::Trace));
    assert_eq!(p.max_level_hint(), Some(LevelFilter::Info));

    p.new_span(Level::Debug, "filtered", EventInfo::new(), 1);
    p.event(Level::Trace, None, "filtered", EventInfo::new(), 2);
    assert_eq!(p.queue_len(), 0);

    p.new_span(Level::Info, "kept", EventInfo::new(), 3);
    p.event(Level::Error, None, "kept", EventInfo::new(), 4);
    assert_eq!(p.queue_len(), 2);
}

#[test]
fn transport_failure_disables_for_good() {
    let mut p = Pipeline::new(LevelFilter::Debug);
    p.on_connect(true, 0);
    p.enter(1, 10);
    assert_eq!(p.queue_len(), 1);

    // the flush is due and the socket write fails: permanent degrade
    p.worker_step(600, false);
    assert_eq!(p.worker_state(), WorkerState::Disabled);
    assert!(!p.is_enabled());
    assert!(p.sink_bytes().is_empty());

    // even if a transport later became reachable, nothing is ever sent
    let id = p.new_span(Level::Error, "late", EventInfo::new(), 20);
    assert_eq!(id, 1);
    p.enter(1, 30);
    p.exit(1, 40);
    assert_eq!(p.queue_len(), 0);
    assert!(p.sink_bytes().is_empty());
}

#[test]
fn backpressure_full_queue_frees_one_slot_per_drain() {
    let mut p = Pipeline::new(LevelFilter::Debug);
    p.on_connect(true, 0);
    for i in 0..MPSC_CHANNEL_BOUND {
        p.enter(1, i as u64);
    }
    assert_eq!(p.queue_len(), MPSC_CHANNEL_BOUND);
    // a producer must now wait; once the worker drains one slot, exactly
    // one more call fits
    p.worker_step(1, true);
    assert_eq!(p.queue_len(), MPSC_CHANNEL_BOUND - 1);
    p.enter(1, 600);
    assert_eq!(p.queue_len(), MPSC_CHANNEL_BOUND);
}

#[test]
fn flush_interval_bounds_delivery_delay() {
    let mut p = Pipeline::new(LevelFilter::Debug);
    p.on_connect(true, 0);
    p.enter(1, 10);
    p.worker_step(100, true);
    // within the interval: batched, nothing delivered yet
    assert!(p.sink_bytes().is_empty());
    assert!(p.batch_len() > 0);

    p.exit(1, 20);
    p.worker_step(601, true);
    // past the interval: everything buffered so far is delivered
    assert_eq!(p.batch_len(), 0);
    let mut expected = framed(&TracePacket::now_without_process(10, TraceData::Enter {
        span: 1,
    }));
    expected.extend_from_slice(&framed(&TracePacket::now_without_process(
        20,
        TraceData::Exit { span: 1 },
    )));
    assert_eq!(p.sink_bytes().as_slice(), expected.as_slice());
}

#[test]
fn event_carries_entered_span_as_parent() {
    let mut p = Pipeline::new(LevelFilter::Debug);
    p.on_connect(true, 0);
    p.event(Level::Info, Some(7), "with-parent", EventInfo::new(), 50);
    p.worker_step(600, true);

    let (name, name_len) = name_buffer("with-parent");
    let expected = framed(&TracePacket::now_with_data(
        50,
        TraceData::Event { parent_span: Some(7), name, name_len, info: EventInfo::new() },
    ));
    assert_eq!(p.sink_bytes().as_slice(), expected.as_slice());
}

#[test]
fn record_packet_reaches_sink() {
    let mut p = Pipeline::new(LevelFilter::Debug);
    p.on_connect(true, 0);
    p.record(3, 42);
    p.worker_step(600, true);
    let expected = framed(&TracePacket::now_with_data(42, TraceData::Record { span: 3 }));
    assert_eq!(p.sink_bytes().as_slice(), expected.as_slice());
}

#[test]
fn info_text_truncated_and_encoded() {
    let mut p = Pipeline::new(LevelFilter::Debug);
    p.on_connect(true, 0);
    let info = EventInfo::from_text("key=value");
    p.event(Level::Info, None, "ev", info, 5);
    p.worker_step(600, true);

    let (name, name_len) = name_buffer("ev");
    let expected = framed(&TracePacket::now_with_data(
        5,
        TraceData::Event {
            parent_span: None,
            name,
            name_len,
            info: EventInfo::from_text("key=value"),
        },
    ));
    assert_eq!(p.sink_bytes().as_slice(), expected.as_slice());
}

#[test]
fn interleaved_sends_and_drains_keep_call_order() {
    let mut p = Pipeline::new(LevelFilter::Trace);
    p.on_connect(true, 0);
    p.enter(1, 1);
    p.worker_step(10, true);
    p.enter(2, 2);
    p.enter(3, 3);
    p.worker_step(20, true);
    p.exit(3, 4);
    p.worker_step(30, true);
    p.worker_step(601, true);
    assert_eq!(p.queue_len(), 0);
    assert_eq!(p.batch_len(), 0);

    let mut expected = Vec::new();
    expected.extend_from_slice(&framed(&TracePacket::now_without_process(1, TraceData::Enter {
        span: 1,
    })));
    expected.extend_from_slice(&framed(&TracePacket::now_without_process(2, TraceData::Enter {
        span: 2,
    })));
    expected.extend_from_slice(&framed(&TracePacket::now_without_process(3, TraceData::Enter {
        span: 3,
    })));
    expected.extend_from_slice(&framed(&TracePacket::now_without_process(4, TraceData::Exit {
        span: 3,
    })));
    assert_eq!(p.sink_bytes().as_slice(), expected.as_slice());
}
