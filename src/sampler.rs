use vstd::prelude::*;

use crate::event::{ClickhouseEvent, TelemetrySettings};

verus! {

/// Seconds between two resource samples.
pub const DURATION_BETWEEN_SYSTEM_EVENTS_SECS: u64 = 60;

/// One measurement of the current process.
#[derive(Clone, Copy, Debug, PartialEq, Eq, Structural)]
pub struct ProcessSample {
    pub memory_in_bytes: u64,
    pub virtual_memory_in_bytes: u64,
    /// IEEE 754 single-precision bit pattern of the usage percentage.
    pub cpu_usage_bits: u32,
    pub core_count: u32,
}

/// What one tick of the sampler produces.
#[derive(Debug, PartialEq)]
pub enum SamplerStep {
    /// The sampler has ended for good.
    Stop,
    /// Report both events with these settings.
    Report { memory: ClickhouseEvent, cpu: ClickhouseEvent, settings: TelemetrySettings },
}

/// The recurring resource sampler. It ends itself when its own process
/// cannot be found or the settings cannot be read, and never restarts.
pub struct Sampler {
    stopped: bool,
}

pub open spec fn memory_event(s: ProcessSample) -> ClickhouseEvent {
    ClickhouseEvent::Memory {
        memory_in_bytes: s.memory_in_bytes,
        virtual_memory_in_bytes: s.virtual_memory_in_bytes,
    }
}

pub open spec fn cpu_event(s: ProcessSample) -> ClickhouseEvent {
    ClickhouseEvent::Cpu { usage_as_percentage_bits: s.cpu_usage_bits, core_count: s.core_count }
}

impl Sampler {
    pub closed spec fn stopped_spec(&self) -> bool {
        self.stopped
    }

    pub fn new() -> (r: Sampler)
        ensures
            !r.stopped_spec(),
    {
        Sampler { stopped: false }
    }

    pub fn is_stopped(&self) -> (r: bool)
        ensures
            r == self.stopped_spec(),
    {
        self.stopped
    }

    /// One tick, given the lookup of the own process and the settings read.
    /// A missing process or missing settings stops the sampler; a stopped
    /// sampler produces nothing more.
    pub fn tick(
        &mut self,
        process: Option<ProcessSample>,
        settings: Option<TelemetrySettings>,
    ) -> (r: SamplerStep)
        ensures
            (final(self).stopped_spec(), r is Report) == tick_spec(
                old(self).stopped_spec(),
                process,
                settings,
            ),
            r is Report ==> r == (SamplerStep::Report {
                memory: memory_event(process.unwrap()),
                cpu: cpu_event(process.unwrap()),
                settings: settings.unwrap(),
            }),
    {
        if self.stopped {
            return SamplerStep::Stop;
        }
        let p = match process {
            Some(p) => p,
            None => {
                self.stopped = true;
                return SamplerStep::Stop;
            },
        };
        let memory = ClickhouseEvent::Memory {
            memory_in_bytes: p.memory_in_bytes,
            virtual_memory_in_bytes: p.virtual_memory_in_bytes,
        };
        let cpu = ClickhouseEvent::Cpu {
            usage_as_percentage_bits: p.cpu_usage_bits,
            core_count: p.core_count,
        };
        match settings {
            Some(s) => SamplerStep::Report { memory, cpu, settings: s },
            None => {
                self.stopped = true;
                SamplerStep::Stop
            },
        }
    }
}

/// The stopped flag after a tick, and whether the tick reported events.
pub open spec fn tick_spec(
    stopped: bool,
    process: Option<ProcessSample>,
    settings: Option<TelemetrySettings>,
) -> (bool, bool) {
    if stopped {
        (true, false)
    } else if process is Some && settings is Some {
        (false, true)
    } else {
        (true, false)
    }
}

/// The stopped flag after a run of ticks, and for each tick whether it
/// reported events.
pub open spec fn ticks_spec(
    stopped: bool,
    inputs: Seq<(Option<ProcessSample>, Option<TelemetrySettings>)>,
) -> (bool, Seq<bool>)
    decreases inputs.len(),
{
    if inputs.len() == 0 {
        (stopped, Seq::empty())
    } else {
        let (s, reported) = ticks_spec(stopped, inputs.drop_last());
        let (t, r) = tick_spec(s, inputs.last().0, inputs.last().1);
        (t, reported.push(r))
    }
}

/// After one failed process lookup the sampler reports nothing, whatever
/// the later ticks bring, and stays stopped.
pub proof fn lemma_failed_lookup_silences_sampler(
    stopped: bool,
    settings: Option<TelemetrySettings>,
    later: Seq<(Option<ProcessSample>, Option<TelemetrySettings>)>,
)
    ensures
        tick_spec(stopped, None, settings) == (true, false),
        ticks_spec(true, later).0,
        ticks_spec(true, later).1.len() == later.len(),
        forall|i: int| 0 <= i < later.len() ==> !#[trigger] ticks_spec(true, later).1[i],
    decreases later.len(),
{
    if later.len() > 0 {
        lemma_failed_lookup_silences_sampler(true, settings, later.drop_last());
    }
}

} // verus!
