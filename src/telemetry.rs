use vstd::prelude::*;

use crate::event::{
    clone_opt_str, opt_str_view, AppMetadata, ClickhouseEvent, ClickhouseEventRequestBody,
    ClickhouseEventWrapper, TelemetrySettings,
};

verus! {

/// Queue length at which a flush is forced in release builds.
pub const MAX_QUEUE_LEN: usize = 10;

/// Debounce window, in milliseconds, in release builds.
pub const DEBOUNCE_INTERVAL_MS: u64 = 30_000;

/// Queue length at which a flush is forced in debug builds.
pub const DEBUG_MAX_QUEUE_LEN: usize = 1;

/// Debounce window, in milliseconds, in debug builds.
pub const DEBUG_DEBOUNCE_INTERVAL_MS: u64 = 1_000;

/// When the queue is drained: at `max_queue_len` queued events, or
/// `debounce_interval_ms` after the most recent event.
#[derive(Clone, Copy, Debug, PartialEq, Eq, Structural)]
pub struct FlushPolicy {
    pub max_queue_len: usize,
    pub debounce_interval_ms: u64,
}

impl FlushPolicy {
    pub fn release() -> (r: FlushPolicy)
        ensures
            r.max_queue_len == MAX_QUEUE_LEN,
            r.debounce_interval_ms == DEBOUNCE_INTERVAL_MS,
    {
        FlushPolicy { max_queue_len: MAX_QUEUE_LEN, debounce_interval_ms: DEBOUNCE_INTERVAL_MS }
    }

    pub fn debug() -> (r: FlushPolicy)
        ensures
            r.max_queue_len == DEBUG_MAX_QUEUE_LEN,
            r.debounce_interval_ms == DEBUG_DEBOUNCE_INTERVAL_MS,
    {
        FlushPolicy {
            max_queue_len: DEBUG_MAX_QUEUE_LEN,
            debounce_interval_ms: DEBUG_DEBOUNCE_INTERVAL_MS,
        }
    }
}

/// What the caller must do after a state change. The caller performs it
/// with the state lock released.
#[derive(Debug, PartialEq)]
pub enum Action {
    /// Nothing to do.
    Idle,
    /// Start a timer of `delay_ms`; when it fires, call `timer_fired(token)`.
    /// A timer scheduled earlier is superseded: its token no longer flushes.
    ScheduleFlush { token: u64, delay_ms: u64 },
    /// Log and ship this batch.
    Flush(Vec<ClickhouseEventWrapper>),
}

/// The mathematical form of an [`Action`].
pub enum ActionView {
    Idle,
    ScheduleFlush { token: u64, delay_ms: u64 },
    Flush(Seq<ClickhouseEventWrapper>),
}

impl View for Action {
    type V = ActionView;

    open spec fn view(&self) -> ActionView {
        match self {
            Action::Idle => ActionView::Idle,
            Action::ScheduleFlush { token, delay_ms } => ActionView::ScheduleFlush {
                token: *token,
                delay_ms: *delay_ms,
            },
            Action::Flush(batch) => ActionView::Flush(batch@),
        }
    }
}

/// The abstract state of the pipeline.
pub struct TelemetryView {
    pub metrics_id: Option<Seq<char>>,
    pub installation_id: Option<Seq<char>>,
    pub session_id: Option<Seq<char>>,
    pub is_staff: Option<bool>,
    pub queue: Seq<ClickhouseEventWrapper>,
    /// Token of the one debounce timer that may still flush.
    pub pending_flush: Option<u64>,
    /// Token that the next scheduled timer receives.
    pub next_token: u64,
    pub max_queue_len: nat,
    pub debounce_interval_ms: u64,
}

/// The pipeline's guarded state: identifiers, the event queue and the
/// debounce timer. Every transition returns the [`Action`] to perform.
pub struct Telemetry {
    metrics_id: Option<String>,
    installation_id: Option<String>,
    session_id: Option<String>,
    release_channel: Option<String>,
    app_metadata: AppMetadata,
    architecture: String,
    clickhouse_events_queue: Vec<ClickhouseEventWrapper>,
    pending_flush: Option<u64>,
    next_token: u64,
    log_file_path: Option<String>,
    is_staff: Option<bool>,
    policy: FlushPolicy,
}

pub open spec fn next_token_after(t: u64) -> u64 {
    if t == u64::MAX {
        0
    } else {
        (t + 1) as u64
    }
}

pub open spec fn wrap_event(v: TelemetryView, event: ClickhouseEvent) -> ClickhouseEventWrapper {
    ClickhouseEventWrapper { signed_in: v.metrics_id is Some, event }
}

/// Swap the queue out for an empty one and drop the pending timer.
pub open spec fn flush_spec(v: TelemetryView) -> (TelemetryView, ActionView) {
    (TelemetryView { queue: Seq::empty(), pending_flush: None, ..v }, ActionView::Flush(v.queue))
}

pub open spec fn report_spec(v: TelemetryView, event: ClickhouseEvent, metrics_enabled: bool) -> (
    TelemetryView,
    ActionView,
) {
    if !metrics_enabled {
        (v, ActionView::Idle)
    } else {
        let queued = TelemetryView { queue: v.queue.push(wrap_event(v, event)), ..v };
        if v.installation_id is None {
            (queued, ActionView::Idle)
        } else if queued.queue.len() >= v.max_queue_len {
            flush_spec(queued)
        } else {
            (
                TelemetryView {
                    pending_flush: Some(v.next_token),
                    next_token: next_token_after(v.next_token),
                    ..queued
                },
                ActionView::ScheduleFlush { token: v.next_token, delay_ms: v.debounce_interval_ms },
            )
        }
    }
}

pub open spec fn start_spec(
    v: TelemetryView,
    installation_id: Option<Seq<char>>,
    session_id: Seq<char>,
) -> (TelemetryView, ActionView) {
    let started = TelemetryView { installation_id, session_id: Some(session_id), ..v };
    if installation_id is Some && v.queue.len() > 0 {
        flush_spec(started)
    } else {
        (started, ActionView::Idle)
    }
}

pub open spec fn set_user_spec(
    v: TelemetryView,
    metrics_id: Option<Seq<char>>,
    is_staff: bool,
    metrics_enabled: bool,
) -> TelemetryView {
    if metrics_enabled {
        TelemetryView {
            metrics_id: if metrics_id is Some {
                metrics_id
            } else {
                v.metrics_id
            },
            is_staff: Some(is_staff),
            ..v
        }
    } else {
        v
    }
}

pub open spec fn timer_fired_spec(v: TelemetryView, token: u64) -> (TelemetryView, ActionView) {
    if v.pending_flush == Some(token) {
        flush_spec(v)
    } else {
        (v, ActionView::Idle)
    }
}

impl View for Telemetry {
    type V = TelemetryView;

    closed spec fn view(&self) -> TelemetryView {
        TelemetryView {
            metrics_id: opt_str_view(self.metrics_id),
            installation_id: opt_str_view(self.installation_id),
            session_id: opt_str_view(self.session_id),
            is_staff: self.is_staff,
            queue: self.clickhouse_events_queue@,
            pending_flush: self.pending_flush,
            next_token: self.next_token,
            max_queue_len: self.policy.max_queue_len as nat,
            debounce_interval_ms: self.policy.debounce_interval_ms,
        }
    }
}

/// The invariant of the abstract state: the threshold is positive, a pending
/// timer always has events to flush, and the next token differs from the
/// pending one.
pub open spec fn view_wf(v: TelemetryView) -> bool {
    &&& 1 <= v.max_queue_len <= usize::MAX
    &&& v.queue.len() < usize::MAX
    &&& v.pending_flush matches Some(t) ==> {
        &&& v.next_token == next_token_after(t)
        &&& v.queue.len() > 0
    }
}

impl Telemetry {
    pub open spec fn wf(&self) -> bool {
        view_wf(self@)
    }

    pub closed spec fn release_channel_spec(&self) -> Option<Seq<char>> {
        opt_str_view(self.release_channel)
    }

    pub closed spec fn app_metadata_spec(&self) -> AppMetadata {
        self.app_metadata
    }

    pub closed spec fn architecture_spec(&self) -> Seq<char> {
        self.architecture@
    }

    pub closed spec fn log_file_path_spec(&self) -> Option<Seq<char>> {
        opt_str_view(self.log_file_path)
    }

    /// Fixed data that no transition changes.
    pub open spec fn same_static(&self, other: &Telemetry) -> bool {
        &&& self.release_channel_spec() == other.release_channel_spec()
        &&& self.app_metadata_spec() == other.app_metadata_spec()
        &&& self.architecture_spec() == other.architecture_spec()
        &&& self.log_file_path_spec() == other.log_file_path_spec()
    }

    /// A pipeline with no identifiers, an empty queue and no timer.
    pub fn new(
        app_metadata: AppMetadata,
        architecture: String,
        release_channel: Option<String>,
        log_file_path: Option<String>,
        policy: FlushPolicy,
    ) -> (r: Telemetry)
        requires
            policy.max_queue_len >= 1,
        ensures
            r.wf(),
            r@.metrics_id is None,
            r@.installation_id is None,
            r@.session_id is None,
            r@.is_staff is None,
            r@.queue.len() == 0,
            r@.pending_flush is None,
            r@.max_queue_len == policy.max_queue_len,
            r@.debounce_interval_ms == policy.debounce_interval_ms,
            r.app_metadata_spec() == app_metadata,
            r.architecture_spec() == architecture@,
            r.release_channel_spec() == opt_str_view(release_channel),
            r.log_file_path_spec() == opt_str_view(log_file_path),
    {
        Telemetry {
            metrics_id: None,
            installation_id: None,
            session_id: None,
            release_channel,
            app_metadata,
            architecture,
            clickhouse_events_queue: Vec::new(),
            pending_flush: None,
            next_token: 0,
            log_file_path,
            is_staff: None,
            policy,
        }
    }

    /// Path of the local event log, if one is configured.
    pub fn log_file_path(&self) -> (r: Option<String>)
        ensures
            opt_str_view(r) == self.log_file_path_spec(),
    {
        clone_opt_str(&self.log_file_path)
    }

    /// Swap the queue out for an empty one, drop the pending timer, and hand
    /// the batch to the caller.
    fn flush_clickhouse_events(&mut self) -> (r: Action)
        requires
            old(self).wf(),
        ensures
            final(self).wf(),
            (final(self)@, r@) == flush_spec(old(self)@),
            final(self).same_static(old(self)),
    {
        let mut events: Vec<ClickhouseEventWrapper> = Vec::new();
        std::mem::swap(&mut self.clickhouse_events_queue, &mut events);
        self.pending_flush = None;
        Action::Flush(events)
    }

    /// Supply the installation and session identifiers. When an
    /// installation id is given, events queued so far are flushed at once.
    pub fn start(&mut self, installation_id: Option<String>, session_id: String) -> (r: Action)
        requires
            old(self).wf(),
        ensures
            final(self).wf(),
            (final(self)@, r@) == start_spec(
                old(self)@,
                opt_str_view(installation_id),
                session_id@,
            ),
            final(self).same_static(old(self)),
    {
        self.installation_id = installation_id;
        self.session_id = Some(session_id);
        if self.installation_id.is_some() && self.clickhouse_events_queue.len() > 0 {
            self.flush_clickhouse_events()
        } else {
            Action::Idle
        }
    }

    /// Record the signed-in user; nothing changes unless metrics are enabled.
    /// A metrics id, once set, is kept when `None` is passed.
    pub fn set_authenticated_user_info(
        &mut self,
        metrics_id: Option<String>,
        is_staff: bool,
        telemetry_settings: TelemetrySettings,
    )
        requires
            old(self).wf(),
        ensures
            final(self).wf(),
            final(self)@ == set_user_spec(
                old(self)@,
                opt_str_view(metrics_id),
                is_staff,
                telemetry_settings.metrics,
            ),
            final(self).same_static(old(self)),
    {
        if !telemetry_settings.metrics {
            return;
        }
        if metrics_id.is_some() {
            self.metrics_id = metrics_id;
        }
        self.is_staff = Some(is_staff);
    }

    /// Queue an event, if metrics are enabled, and decide on the flush.
    pub fn report_clickhouse_event(
        &mut self,
        event: ClickhouseEvent,
        telemetry_settings: TelemetrySettings,
    ) -> (r: Action)
        requires
            old(self).wf(),
            old(self)@.queue.len() + 1 < usize::MAX,
        ensures
            final(self).wf(),
            (final(self)@, r@) == report_spec(old(self)@, event, telemetry_settings.metrics),
            telemetry_settings.metrics && old(self)@.installation_id is Some ==> (old(
                self,
            )@.pending_flush matches Some(p) ==> final(self)@.pending_flush != Some(p)),
            final(self).same_static(old(self)),
    {
        if !telemetry_settings.metrics {
            return Action::Idle;
        }
        let signed_in = self.metrics_id.is_some();
        self.clickhouse_events_queue.push(ClickhouseEventWrapper { signed_in, event });
        if self.installation_id.is_some() {
            if self.clickhouse_events_queue.len() >= self.policy.max_queue_len {
                self.flush_clickhouse_events()
            } else {
                let token = self.next_token;
                self.next_token = if token == u64::MAX {
                    0
                } else {
                    token + 1
                };
                self.pending_flush = Some(token);
                Action::ScheduleFlush { token, delay_ms: self.policy.debounce_interval_ms }
            }
        } else {
            Action::Idle
        }
    }

    /// A debounce timer carrying `token` has fired: flush if it is still the
    /// pending one, else do nothing.
    pub fn timer_fired(&mut self, token: u64) -> (r: Action)
        requires
            old(self).wf(),
        ensures
            final(self).wf(),
            (final(self)@, r@) == timer_fired_spec(old(self)@, token),
            final(self).same_static(old(self)),
    {
        if self.pending_flush == Some(token) {
            self.flush_clickhouse_events()
        } else {
            Action::Idle
        }
    }

    /// The request that ships `events`, stamped with the current
    /// identifiers and the fixed application data.
    pub fn request_body(&self, token: &str, events: Vec<ClickhouseEventWrapper>) -> (r:
        ClickhouseEventRequestBody)
        ensures
            r.token@ == token@,
            opt_str_view(r.installation_id) == self@.installation_id,
            opt_str_view(r.session_id) == self@.session_id,
            r.is_staff == self@.is_staff,
            opt_str_view(r.app_version) == opt_str_view(self.app_metadata_spec().app_version),
            r.os_name@ == self.app_metadata_spec().os_name@,
            opt_str_view(r.os_version) == opt_str_view(self.app_metadata_spec().os_version),
            r.architecture@ == self.architecture_spec(),
            opt_str_view(r.release_channel) == self.release_channel_spec(),
            r.events@ == events@,
    {
        ClickhouseEventRequestBody {
            token: token.to_owned(),
            installation_id: clone_opt_str(&self.installation_id),
            session_id: clone_opt_str(&self.session_id),
            is_staff: self.is_staff,
            app_version: clone_opt_str(&self.app_metadata.app_version),
            os_name: self.app_metadata.os_name.clone(),
            os_version: clone_opt_str(&self.app_metadata.os_version),
            architecture: self.architecture.clone(),
            release_channel: clone_opt_str(&self.release_channel),
            events,
        }
    }

    pub fn metrics_id(&self) -> (r: Option<String>)
        ensures
            opt_str_view(r) == self@.metrics_id,
    {
        clone_opt_str(&self.metrics_id)
    }

    pub fn installation_id(&self) -> (r: Option<String>)
        ensures
            opt_str_view(r) == self@.installation_id,
    {
        clone_opt_str(&self.installation_id)
    }

    pub fn is_staff(&self) -> (r: Option<bool>)
        ensures
            r == self@.is_staff,
    {
        self.is_staff
    }

    /// Number of queued events.
    pub fn queue_len(&self) -> (r: usize)
        ensures
            r == self@.queue.len(),
    {
        self.clickhouse_events_queue.len()
    }
}

} // verus!
