use vstd::prelude::*;

verus! {

/// Which assistant surface produced an assistant event.
#[derive(Clone, Copy, Debug, PartialEq, Eq, Structural)]
pub enum AssistantKind {
    Panel,
    Inline,
}

/// A business event. The pipeline never looks inside a payload: it only
/// queues it and hands it on for serialization.
#[derive(Clone, Debug, PartialEq)]
pub enum ClickhouseEvent {
    Editor {
        operation: String,
        file_extension: Option<String>,
        vim_mode: bool,
        copilot_enabled: bool,
        copilot_enabled_for_language: bool,
    },
    Copilot {
        suggestion_id: Option<String>,
        suggestion_accepted: bool,
        file_extension: Option<String>,
    },
    Call {
        operation: String,
        room_id: Option<u64>,
        channel_id: Option<u64>,
    },
    Assistant {
        conversation_id: Option<String>,
        kind: AssistantKind,
        model: String,
    },
    /// `usage_as_percentage_bits` is the IEEE 754 single-precision bit
    /// pattern of the usage percentage.
    Cpu {
        usage_as_percentage_bits: u32,
        core_count: u32,
    },
    Memory {
        memory_in_bytes: u64,
        virtual_memory_in_bytes: u64,
    },
}

/// An event as it sits in the queue: the payload and whether a user was
/// signed in when it was reported.
#[derive(Clone, Debug, PartialEq)]
pub struct ClickhouseEventWrapper {
    pub signed_in: bool,
    pub event: ClickhouseEvent,
}

/// The consent configuration, read by the caller at each call site.
#[derive(Clone, Copy, Debug, PartialEq, Eq, Structural)]
pub struct TelemetrySettings {
    pub diagnostics: bool,
    pub metrics: bool,
}

/// Descriptive data about the running application, fixed at construction.
#[derive(Clone, Debug, PartialEq)]
pub struct AppMetadata {
    pub app_version: Option<String>,
    pub os_name: String,
    pub os_version: Option<String>,
}

/// The body of one request to the collection endpoint.
#[derive(Clone, Debug, PartialEq)]
pub struct ClickhouseEventRequestBody {
    pub token: String,
    pub installation_id: Option<String>,
    pub session_id: Option<String>,
    pub is_staff: Option<bool>,
    pub app_version: Option<String>,
    pub os_name: String,
    pub os_version: Option<String>,
    pub architecture: String,
    pub release_channel: Option<String>,
    pub events: Vec<ClickhouseEventWrapper>,
}

/// The characters of an optional string.
pub open spec fn opt_str_view(o: Option<String>) -> Option<Seq<char>> {
    match o {
        Some(s) => Some(s@),
        None => None,
    }
}

pub(crate) fn clone_opt_str(o: &Option<String>) -> (r: Option<String>)
    ensures
        opt_str_view(r) == opt_str_view(*o),
{
    match o {
        Some(s) => Some(s.clone()),
        None => None,
    }
}

} // verus!
