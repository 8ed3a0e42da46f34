//! An analytics pipeline: events are queued behind a consent gate, drained
//! at a size threshold or after a debounce window, and shipped in order.
//! The state machine here is pure: each transition returns the action that
//! the caller performs outside the lock.
pub mod event;
pub mod laws;
pub mod sampler;
pub mod scala;
pub mod telemetry;
pub mod wire;

pub use event::{
    AppMetadata, AssistantKind, ClickhouseEvent, ClickhouseEventRequestBody,
    ClickhouseEventWrapper, TelemetrySettings,
};
pub use sampler::{ProcessSample, Sampler, SamplerStep};
pub use scala::ScalaLspAdapter;
pub use telemetry::{Action, FlushPolicy, Telemetry};
pub use wire::{clickhouse_events_url, frame_log_lines};
