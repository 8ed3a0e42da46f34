use vstd::prelude::*;

use crate::event::ClickhouseEvent;
use crate::telemetry::{
    flush_spec, report_spec, set_user_spec, start_spec, timer_fired_spec, view_wf,
    wrap_event, ActionView, TelemetryView,
};

verus! {

/// The state and the actions after reporting `events` in order.
pub open spec fn report_all(v: TelemetryView, events: Seq<ClickhouseEvent>, metrics_enabled: bool) -> (
    TelemetryView,
    Seq<ActionView>,
)
    decreases events.len(),
{
    if events.len() == 0 {
        (v, Seq::empty())
    } else {
        let (w, actions) = report_all(v, events.drop_last(), metrics_enabled);
        let (x, a) = report_spec(w, events.last(), metrics_enabled);
        (x, actions.push(a))
    }
}

/// Without an installation id, reported events only accumulate: each one is
/// appended in order, no action ships anything, and the queue never shrinks.
pub proof fn lemma_unset_installation_accumulates(v: TelemetryView, events: Seq<ClickhouseEvent>)
    requires
        v.installation_id is None,
    ensures
        report_all(v, events, true).0 == (TelemetryView {
            queue: v.queue + events.map_values(|e: ClickhouseEvent| wrap_event(v, e)),
            ..v
        }),
        report_all(v, events, true).1.len() == events.len(),
        forall|i: int| 0 <= i < events.len() ==> #[trigger] report_all(v, events, true).1[i] is Idle,
        forall|i: int, j: int|
            0 <= i <= j <= events.len() ==> #[trigger] report_all(v, events.take(i), true).0.queue.len()
                <= #[trigger] report_all(v, events.take(j), true).0.queue.len(),
    decreases events.len(),
{
    if events.len() > 0 {
        lemma_unset_installation_accumulates(v, events.drop_last());
        assert(events.drop_last().map_values(|e: ClickhouseEvent| wrap_event(v, e)).push(
            wrap_event(v, events.last()),
        ) =~= events.map_values(|e: ClickhouseEvent| wrap_event(v, e)));
    }
    assert forall|i: int, j: int| 0 <= i <= j <= events.len() implies #[trigger] report_all(
        v,
        events.take(i),
        true,
    ).0.queue.len() <= #[trigger] report_all(v, events.take(j), true).0.queue.len() by {
        lemma_accumulated_len(v, events.take(i));
        lemma_accumulated_len(v, events.take(j));
    }
}

proof fn lemma_accumulated_len(v: TelemetryView, events: Seq<ClickhouseEvent>)
    requires
        v.installation_id is None,
    ensures
        report_all(v, events, true).0.queue.len() == v.queue.len() + events.len(),
        report_all(v, events, true).0.installation_id is None,
    decreases events.len(),
{
    if events.len() > 0 {
        lemma_accumulated_len(v, events.drop_last());
    }
}

/// Below the threshold, each report restarts the debounce: it schedules a
/// timer with a fresh token for the full interval, the timer pending before
/// it no longer flushes, and only the fresh token drains the queue.
pub proof fn lemma_report_restarts_debounce(v: TelemetryView, event: ClickhouseEvent)
    requires
        view_wf(v),
        v.installation_id is Some,
        v.queue.len() + 1 < v.max_queue_len,
    ensures
        ({
            let (w, a) = report_spec(v, event, true);
            &&& a == ActionView::ScheduleFlush {
                token: v.next_token,
                delay_ms: v.debounce_interval_ms,
            }
            &&& w.queue == v.queue.push(wrap_event(v, event))
            &&& w.pending_flush == Some(v.next_token)
            &&& forall|u: u64| u != v.next_token ==> #[trigger] timer_fired_spec(w, u) == (w, ActionView::Idle)
            &&& v.pending_flush matches Some(t) ==> t != v.next_token
            &&& timer_fired_spec(w, v.next_token) == flush_spec(w)
        }),
{
}

/// Starting without an installation id ships nothing and keeps the queue.
pub proof fn lemma_start_without_installation_keeps_queue(v: TelemetryView, session_id: Seq<char>)
    ensures
        start_spec(v, None, session_id).1 == ActionView::Idle,
        start_spec(v, None, session_id).0.queue == v.queue,
        start_spec(v, None, session_id).0.installation_id is None,
{
}

/// A metrics id, once set, stays set whatever user info is recorded later.
pub proof fn lemma_metrics_id_never_cleared(
    v: TelemetryView,
    metrics_id: Option<Seq<char>>,
    is_staff: bool,
    metrics_enabled: bool,
)
    requires
        v.metrics_id is Some,
    ensures
        set_user_spec(v, metrics_id, is_staff, metrics_enabled).metrics_id is Some,
        metrics_id is None ==> set_user_spec(v, metrics_id, is_staff, metrics_enabled).metrics_id
            == v.metrics_id,
{
}

/// Fewer events than the threshold, reported with an installation id,
/// never ship anything: each report only schedules a debounce timer of the
/// full interval, and a timer fires a flush only when it carries the token
/// of the most recent report.
pub proof fn lemma_below_threshold_only_debounces(v: TelemetryView, events: Seq<ClickhouseEvent>)
    requires
        view_wf(v),
        v.installation_id is Some,
        v.queue.len() + events.len() < v.max_queue_len,
    ensures
        ({
            let (w, actions) = report_all(v, events, true);
            &&& view_wf(w)
            &&& w.installation_id == v.installation_id
            &&& w.metrics_id == v.metrics_id
            &&& w.max_queue_len == v.max_queue_len
            &&& w.debounce_interval_ms == v.debounce_interval_ms
            &&& w.queue == v.queue + events.map_values(|e: ClickhouseEvent| wrap_event(v, e))
            &&& actions.len() == events.len()
            &&& forall|i: int|
                0 <= i < actions.len() ==> (#[trigger] actions[i] matches ActionView::ScheduleFlush {
                    delay_ms,
                    ..
                } && delay_ms == v.debounce_interval_ms)
            &&& events.len() > 0 ==> actions.last() == ActionView::ScheduleFlush {
                token: w.pending_flush.unwrap(),
                delay_ms: v.debounce_interval_ms,
            } && w.pending_flush is Some
            &&& forall|u: u64| w.pending_flush != Some(u) ==> #[trigger] timer_fired_spec(w, u) == (w, ActionView::Idle)
        }),
    decreases events.len(),
{
    if events.len() > 0 {
        lemma_below_threshold_only_debounces(v, events.drop_last());
        let (w0, prev) = report_all(v, events.drop_last(), true);
        let (w, a) = report_spec(w0, events.last(), true);
        assert(report_all(v, events, true) == (w, prev.push(a)));
        assert(events.drop_last().map_values(|e: ClickhouseEvent| wrap_event(v, e)).push(
            wrap_event(v, events.last()),
        ) =~= events.map_values(|e: ClickhouseEvent| wrap_event(v, e)));
        assert forall|i: int| 0 <= i < prev.len() + 1 implies (#[trigger] prev.push(a)[i] matches ActionView::ScheduleFlush {
            delay_ms,
            ..
        } && delay_ms == v.debounce_interval_ms) by {
            if i < prev.len() {
                assert(prev.push(a)[i] == prev[i]);
            }
        }
    }
}

/// Reaching the threshold flushes at once, whatever timer is pending: the
/// batch is the whole queue with the new event last, and no timer remains.
pub proof fn lemma_threshold_flushes_immediately(v: TelemetryView, event: ClickhouseEvent)
    requires
        v.installation_id is Some,
        v.queue.len() + 1 >= v.max_queue_len,
    ensures
        report_spec(v, event, true) == (TelemetryView {
            queue: Seq::empty(),
            pending_flush: None,
            ..v
        }, ActionView::Flush(v.queue.push(wrap_event(v, event)))),
{
}

/// A flush ships exactly the queue at swap time, in order, and leaves an
/// empty queue behind, so events reported afterwards start a new batch.
pub proof fn lemma_flush_ships_queue(v: TelemetryView, later: ClickhouseEvent)
    ensures
        flush_spec(v).1 == ActionView::Flush(v.queue),
        flush_spec(v).0.queue.len() == 0,
        flush_spec(v).0.pending_flush is None,
        report_spec(flush_spec(v).0, later, true).0.queue.len() <= 1,
{
}

/// With metrics disabled, reporting and recording the user change nothing.
pub proof fn lemma_disabled_consent_changes_nothing(
    v: TelemetryView,
    event: ClickhouseEvent,
    metrics_id: Option<Seq<char>>,
    is_staff: bool,
)
    ensures
        report_spec(v, event, false) == (v, ActionView::Idle),
        set_user_spec(v, metrics_id, is_staff, false) == v,
{
}

} // verus!
