use telemetry::{
    clickhouse_events_url, frame_log_lines, Action, AppMetadata, AssistantKind, ClickhouseEvent,
    ClickhouseEventWrapper, FlushPolicy, ProcessSample, Sampler, SamplerStep, ScalaLspAdapter,
    Telemetry, TelemetrySettings,
};

fn metadata() -> AppMetadata {
    AppMetadata {
        app_version: Some("0.110.0".to_string()),
        os_name: "macOS".to_string(),
        os_version: Some("14.1.0".to_string()),
    }
}

fn pipeline(policy: FlushPolicy) -> Telemetry {
    Telemetry::new(
        metadata(),
        "aarch64".to_string(),
        Some("Stable".to_string()),
        None,
        policy,
    )
}

fn enabled() -> TelemetrySettings {
    TelemetrySettings { diagnostics: true, metrics: true }
}

fn disabled() -> TelemetrySettings {
    TelemetrySettings { diagnostics: true, metrics: false }
}

fn call_event(room: u64) -> ClickhouseEvent {
    ClickhouseEvent::Call {
        operation: "join room".to_string(),
        room_id: Some(room),
        channel_id: None,
    }
}

fn wrapped(signed_in: bool, room: u64) -> ClickhouseEventWrapper {
    ClickhouseEventWrapper { signed_in, event: call_event(room) }
}

#[test]
fn events_before_start_are_flushed_by_start() {
    let mut t = pipeline(FlushPolicy::release());
    for room in 0..5 {
        assert_eq!(t.report_clickhouse_event(call_event(room), enabled()), Action::Idle);
    }
    assert_eq!(t.queue_len(), 5);
    let action = t.start(Some("abc".to_string()), "s1".to_string());
    let expected: Vec<ClickhouseEventWrapper> = (0..5).map(|room| wrapped(false, room)).collect();
    assert_eq!(action, Action::Flush(expected));
    assert_eq!(t.queue_len(), 0);
    assert_eq!(t.installation_id(), Some("abc".to_string()));
}

#[test]
fn start_with_empty_queue_does_nothing() {
    let mut t = pipeline(FlushPolicy::release());
    assert_eq!(t.start(Some("abc".to_string()), "s1".to_string()), Action::Idle);
    assert_eq!(t.installation_id(), Some("abc".to_string()));
}

#[test]
fn ten_events_give_one_flush_in_order() {
    let mut t = pipeline(FlushPolicy::release());
    t.start(Some("abc".to_string()), "s1".to_string());
    let mut flushes = Vec::new();
    for room in 0..10 {
        match t.report_clickhouse_event(call_event(room), enabled()) {
            Action::Flush(batch) => flushes.push(batch),
            Action::ScheduleFlush { delay_ms, .. } => assert_eq!(delay_ms, 30_000),
            Action::Idle => panic!("an event with an installation id is never left idle"),
        }
    }
    let expected: Vec<ClickhouseEventWrapper> = (0..10).map(|room| wrapped(false, room)).collect();
    assert_eq!(flushes, vec![expected.clone()]);
    let body = t.request_body("token", flushes.pop().unwrap());
    assert_eq!(body.events, expected);
    assert_eq!(body.installation_id, Some("abc".to_string()));
    assert_eq!(body.session_id, Some("s1".to_string()));
    assert_eq!(body.token, "token");
    assert_eq!(body.architecture, "aarch64");
    assert_eq!(body.release_channel, Some("Stable".to_string()));
    assert_eq!(body.app_version, Some("0.110.0".to_string()));
    assert_eq!(body.os_name, "macOS");
    assert_eq!(body.os_version, Some("14.1.0".to_string()));
    assert_eq!(body.is_staff, None);
}

#[test]
fn lost_batch_leaves_pipeline_usable() {
    let mut t = pipeline(FlushPolicy::debug());
    t.start(Some("abc".to_string()), "s1".to_string());
    let batch = t.report_clickhouse_event(call_event(1), enabled());
    assert_eq!(batch, Action::Flush(vec![wrapped(false, 1)]));
    // The transport fails and the batch is dropped: nothing is requeued.
    drop(batch);
    assert_eq!(t.queue_len(), 0);
    assert_eq!(
        t.report_clickhouse_event(call_event(2), enabled()),
        Action::Flush(vec![wrapped(false, 2)])
    );
}

#[test]
fn failed_lookup_stops_sampler_for_good() {
    let mut s = Sampler::new();
    let sample = ProcessSample {
        memory_in_bytes: 1024,
        virtual_memory_in_bytes: 4096,
        cpu_usage_bits: 12.5f32.to_bits(),
        core_count: 8,
    };
    assert_eq!(
        s.tick(Some(sample), Some(enabled())),
        SamplerStep::Report {
            memory: ClickhouseEvent::Memory { memory_in_bytes: 1024, virtual_memory_in_bytes: 4096 },
            cpu: ClickhouseEvent::Cpu { usage_as_percentage_bits: 12.5f32.to_bits(), core_count: 8 },
            settings: enabled(),
        }
    );
    assert_eq!(s.tick(None, Some(enabled())), SamplerStep::Stop);
    assert!(s.is_stopped());
    for _ in 0..3 {
        assert_eq!(s.tick(Some(sample), Some(enabled())), SamplerStep::Stop);
    }
    assert!(s.is_stopped());
}

#[test]
fn missing_settings_stop_sampler() {
    let mut s = Sampler::new();
    let sample = ProcessSample {
        memory_in_bytes: 1,
        virtual_memory_in_bytes: 2,
        cpu_usage_bits: 0,
        core_count: 1,
    };
    assert_eq!(s.tick(Some(sample), None), SamplerStep::Stop);
    assert_eq!(s.tick(Some(sample), Some(enabled())), SamplerStep::Stop);
}

#[test]
fn unset_installation_only_accumulates() {
    let mut t = pipeline(FlushPolicy::debug());
    for room in 0..25 {
        assert_eq!(t.report_clickhouse_event(call_event(room), enabled()), Action::Idle);
        assert_eq!(t.queue_len(), room as usize + 1);
    }
}

#[test]
fn each_report_restarts_debounce() {
    let mut t = pipeline(FlushPolicy::release());
    t.start(Some("abc".to_string()), "s1".to_string());
    let first = match t.report_clickhouse_event(call_event(1), enabled()) {
        Action::ScheduleFlush { token, delay_ms } => {
            assert_eq!(delay_ms, 30_000);
            token
        }
        other => panic!("unexpected {:?}", other),
    };
    let second = match t.report_clickhouse_event(call_event(2), enabled()) {
        Action::ScheduleFlush { token, .. } => token,
        other => panic!("unexpected {:?}", other),
    };
    assert_ne!(first, second);
    assert_eq!(t.timer_fired(first), Action::Idle);
    assert_eq!(t.queue_len(), 2);
    assert_eq!(
        t.timer_fired(second),
        Action::Flush(vec![wrapped(false, 1), wrapped(false, 2)])
    );
    assert_eq!(t.timer_fired(second), Action::Idle);
}

#[test]
fn threshold_flush_overrides_pending_timer() {
    let mut t = pipeline(FlushPolicy { max_queue_len: 3, debounce_interval_ms: 500 });
    t.start(Some("abc".to_string()), "s1".to_string());
    let mut tokens = Vec::new();
    for room in 0..2 {
        match t.report_clickhouse_event(call_event(room), enabled()) {
            Action::ScheduleFlush { token, delay_ms } => {
                assert_eq!(delay_ms, 500);
                tokens.push(token);
            }
            other => panic!("unexpected {:?}", other),
        }
    }
    assert_eq!(
        t.report_clickhouse_event(call_event(2), enabled()),
        Action::Flush(vec![wrapped(false, 0), wrapped(false, 1), wrapped(false, 2)])
    );
    for token in tokens {
        assert_eq!(t.timer_fired(token), Action::Idle);
    }
}

#[test]
fn events_after_swap_go_to_next_batch() {
    let mut t = pipeline(FlushPolicy { max_queue_len: 2, debounce_interval_ms: 500 });
    t.start(Some("abc".to_string()), "s1".to_string());
    t.report_clickhouse_event(call_event(1), enabled());
    let batch = t.report_clickhouse_event(call_event(2), enabled());
    let later = t.report_clickhouse_event(call_event(3), enabled());
    assert_eq!(batch, Action::Flush(vec![wrapped(false, 1), wrapped(false, 2)]));
    assert!(matches!(later, Action::ScheduleFlush { .. }));
    assert_eq!(t.queue_len(), 1);
}

#[test]
fn disabled_consent_changes_nothing() {
    let mut t = pipeline(FlushPolicy::debug());
    t.start(Some("abc".to_string()), "s1".to_string());
    assert_eq!(t.report_clickhouse_event(call_event(1), disabled()), Action::Idle);
    assert_eq!(t.queue_len(), 0);
    t.set_authenticated_user_info(Some("user-1".to_string()), true, disabled());
    assert_eq!(t.metrics_id(), None);
    assert_eq!(t.is_staff(), None);
}

#[test]
fn signed_in_flag_follows_metrics_id() {
    let mut t = pipeline(FlushPolicy::release());
    t.report_clickhouse_event(call_event(1), enabled());
    t.set_authenticated_user_info(Some("user-1".to_string()), true, enabled());
    assert_eq!(t.metrics_id(), Some("user-1".to_string()));
    assert_eq!(t.is_staff(), Some(true));
    t.report_clickhouse_event(call_event(2), enabled());
    assert_eq!(t.start(None, "s2".to_string()), Action::Idle);
    assert_eq!(t.queue_len(), 2);
    let body = t.request_body("token", vec![]);
    assert_eq!(body.is_staff, Some(true));
    assert_eq!(body.installation_id, None);
    assert_eq!(body.session_id, Some("s2".to_string()));
    let action = t.start(Some("abc".to_string()), "s3".to_string());
    assert_eq!(action, Action::Flush(vec![wrapped(false, 1), wrapped(true, 2)]));
}

#[test]
fn metrics_id_is_never_cleared() {
    let mut t = pipeline(FlushPolicy::release());
    t.set_authenticated_user_info(Some("user-1".to_string()), true, enabled());
    t.set_authenticated_user_info(None, false, enabled());
    assert_eq!(t.metrics_id(), Some("user-1".to_string()));
    assert_eq!(t.is_staff(), Some(false));
    t.set_authenticated_user_info(Some("user-2".to_string()), false, enabled());
    assert_eq!(t.metrics_id(), Some("user-2".to_string()));
}

#[test]
fn start_without_installation_keeps_queue() {
    let mut t = pipeline(FlushPolicy::debug());
    t.report_clickhouse_event(call_event(1), enabled());
    assert_eq!(t.start(None, "s1".to_string()), Action::Idle);
    assert_eq!(t.queue_len(), 1);
    assert_eq!(t.installation_id(), None);
}

#[test]
fn new_pipeline_is_empty() {
    let t = Telemetry::new(metadata(), "x86_64".to_string(), None, Some("/tmp/log".to_string()), FlushPolicy::debug());
    assert_eq!(t.queue_len(), 0);
    assert_eq!(t.metrics_id(), None);
    assert_eq!(t.installation_id(), None);
    assert_eq!(t.is_staff(), None);
    assert_eq!(t.log_file_path(), Some("/tmp/log".to_string()));
    let body = t.request_body("k", vec![]);
    assert_eq!(body.release_channel, None);
    assert_eq!(body.architecture, "x86_64");
}

#[test]
fn policies_have_fixed_values() {
    assert_eq!(FlushPolicy::release(), FlushPolicy { max_queue_len: 10, debounce_interval_ms: 30_000 });
    assert_eq!(FlushPolicy::debug(), FlushPolicy { max_queue_len: 1, debounce_interval_ms: 1_000 });
}

#[test]
fn events_url_appends_path() {
    assert_eq!(clickhouse_events_url("https://zed.dev"), "https://zed.dev/api/events");
    assert_eq!(clickhouse_events_url(""), "/api/events");
}

#[test]
fn log_lines_are_newline_delimited() {
    let lines = vec![b"{\"a\":1}".to_vec(), b"{}".to_vec()];
    assert_eq!(frame_log_lines(&lines), b"{\"a\":1}\n{}\n".to_vec());
    assert_eq!(frame_log_lines(&vec![]), Vec::<u8>::new());
    assert_eq!(frame_log_lines(&vec![vec![]]), b"\n".to_vec());
}

#[test]
fn scala_adapter_names() {
    let adapter = ScalaLspAdapter;
    assert_eq!(adapter.name(), "metals");
    assert_eq!(adapter.short_name(), "metals");
}

#[test]
fn assistant_event_carries_kind() {
    let mut t = pipeline(FlushPolicy::debug());
    t.start(Some("abc".to_string()), "s1".to_string());
    let event = ClickhouseEvent::Assistant {
        conversation_id: None,
        kind: AssistantKind::Inline,
        model: "gpt-4".to_string(),
    };
    assert_eq!(
        t.report_clickhouse_event(event.clone(), enabled()),
        Action::Flush(vec![ClickhouseEventWrapper { signed_in: false, event }])
    );
}

#[test]
fn unknown_timer_token_is_ignored() {
    let mut t = pipeline(FlushPolicy::release());
    assert_eq!(t.timer_fired(0), Action::Idle);
    t.report_clickhouse_event(call_event(1), enabled());
    assert_eq!(t.timer_fired(0), Action::Idle);
    assert_eq!(t.queue_len(), 1);
}
