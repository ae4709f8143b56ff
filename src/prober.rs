//! The per-target measurement loop as a state machine.
//!
//! The driver owns the timer, the echo socket and the storage client: it
//! feeds each event to [`Prober::handle`] and performs the action returned.
use vstd::prelude::*;
use vstd::string::*;
use crate::sample::{ProbeOutcome, Sample, sample_spec};
use crate::target::Model;
use crate::text::{decimal_of, integer_decimal};

verus! {

/// Where a prober stands.
#[derive(Clone, Copy, PartialEq, Eq, Debug, Structural)]
pub enum ProberState {
    /// Not started yet.
    Init,
    /// Waiting for the next tick.
    Armed,
    /// A probe is in flight.
    Probing,
    /// Stopped for good.
    Disabled,
}

/// Why a prober was disabled at start.
#[derive(Clone, Copy, PartialEq, Eq, Debug, Structural)]
pub enum DisableReason {
    /// The tick period is not a positive number of seconds.
    InvalidInterval,
    /// The echo facility (a raw socket) could not be opened.
    FacilityUnavailable,
    /// The host is not an IP address.
    InvalidHost,
}

/// What the driver observed.
#[derive(Clone, Copy, PartialEq, Eq, Debug, Structural)]
pub enum ProberEvent {
    /// Start-up: whether the echo facility opened and the host parsed.
    Started { facility_ok: bool, host_ok: bool },
    /// The timer fired.
    Tick,
    /// The probe in flight finished.
    Probed(ProbeOutcome),
}

/// What the driver must do next.
#[derive(Clone, Copy, PartialEq, Eq, Debug, Structural)]
pub enum ProberAction {
    /// Report why the prober stops; it does no further work.
    Report(DisableReason),
    /// Wait for the next tick.
    WaitTick,
    /// Send one echo request to the target's address.
    Probe,
    /// Write the sample to storage (a failure is only logged) and publish
    /// its live form, then wait for the next tick.
    Publish(Sample),
    /// Nothing to do.
    Idle,
}

/// One transition of the prober of target `target_id`.
pub open spec fn step_spec(
    state: ProberState,
    target_id: i32,
    interval_secs: i32,
    ev: ProberEvent,
) -> (ProberState, ProberAction) {
    match (state, ev) {
        (ProberState::Init, ProberEvent::Started { facility_ok, host_ok }) => {
            if interval_secs <= 0 {
                (ProberState::Disabled, ProberAction::Report(DisableReason::InvalidInterval))
            } else if !facility_ok {
                (ProberState::Disabled, ProberAction::Report(DisableReason::FacilityUnavailable))
            } else if !host_ok {
                (ProberState::Disabled, ProberAction::Report(DisableReason::InvalidHost))
            } else {
                (ProberState::Armed, ProberAction::WaitTick)
            }
        },
        (ProberState::Armed, ProberEvent::Tick) => (ProberState::Probing, ProberAction::Probe),
        (ProberState::Probing, ProberEvent::Probed(o)) => (
            ProberState::Armed,
            ProberAction::Publish(sample_spec(target_id, o)),
        ),
        (s, _) => (s, ProberAction::Idle),
    }
}

/// Ticks, each followed by the outcome of its probe, run from `state`:
/// the final state and the samples published, in order.
pub open spec fn run_ticks(
    state: ProberState,
    target_id: i32,
    interval_secs: i32,
    outcomes: Seq<ProbeOutcome>,
) -> (ProberState, Seq<Sample>)
    decreases outcomes.len(),
{
    if outcomes.len() == 0 {
        (state, Seq::empty())
    } else {
        let (s0, published) = run_ticks(state, target_id, interval_secs, outcomes.drop_last());
        let (s1, _) = step_spec(s0, target_id, interval_secs, ProberEvent::Tick);
        let (s2, a) = step_spec(s1, target_id, interval_secs, ProberEvent::Probed(outcomes.last()));
        match a {
            ProberAction::Publish(sample) => (s2, published.push(sample)),
            _ => (s2, published),
        }
    }
}

/// The measurement loop of one target.
pub struct Prober {
    pub target_id: i32,
    pub interval_secs: i32,
    pub state: ProberState,
}

impl Prober {
    /// A prober for `target`, not started yet.
    pub fn new(target: &Model) -> (r: Prober)
        ensures
            r.target_id == target.id,
            r.interval_secs == target.probe_interval_secs,
            r.state == ProberState::Init,
    {
        Prober {
            target_id: target.id,
            interval_secs: target.probe_interval_secs,
            state: ProberState::Init,
        }
    }

    /// The tick period in seconds, once it has been found valid.
    pub fn period_secs(&self) -> (r: Option<u64>)
        ensures
            self.interval_secs > 0 ==> r == Some(self.interval_secs as u64),
            self.interval_secs <= 0 ==> r is None,
    {
        if self.interval_secs > 0 {
            Some(self.interval_secs as u64)
        } else {
            None
        }
    }

    /// Takes one event and says what to do.
    pub fn handle(&mut self, ev: ProberEvent) -> (r: ProberAction)
        ensures
            final(self).target_id == old(self).target_id,
            final(self).interval_secs == old(self).interval_secs,
            (final(self).state, r) == step_spec(
                old(self).state,
                old(self).target_id,
                old(self).interval_secs,
                ev,
            ),
    {
        match (self.state, ev) {
            (ProberState::Init, ProberEvent::Started { facility_ok, host_ok }) => {
                if self.interval_secs <= 0 {
                    self.state = ProberState::Disabled;
                    ProberAction::Report(DisableReason::InvalidInterval)
                } else if !facility_ok {
                    self.state = ProberState::Disabled;
                    ProberAction::Report(DisableReason::FacilityUnavailable)
                } else if !host_ok {
                    self.state = ProberState::Disabled;
                    ProberAction::Report(DisableReason::InvalidHost)
                } else {
                    self.state = ProberState::Armed;
                    ProberAction::WaitTick
                }
            },
            (ProberState::Armed, ProberEvent::Tick) => {
                self.state = ProberState::Probing;
                ProberAction::Probe
            },
            (ProberState::Probing, ProberEvent::Probed(o)) => {
                self.state = ProberState::Armed;
                ProberAction::Publish(Sample::from_outcome(self.target_id, o))
            },
            _ => ProberAction::Idle,
        }
    }
}

/// Once disabled, a prober ignores every event.
pub proof fn lemma_disabled_is_terminal(target_id: i32, interval_secs: i32, ev: ProberEvent)
    ensures
        step_spec(ProberState::Disabled, target_id, interval_secs, ev) == (
            ProberState::Disabled,
            ProberAction::Idle,
        ),
{
}

/// A started prober publishes exactly one sample per tick, in tick order,
/// each made from that tick's outcome, and is armed again afterwards.
pub proof fn lemma_one_sample_per_tick(
    target_id: i32,
    interval_secs: i32,
    outcomes: Seq<ProbeOutcome>,
)
    ensures
        run_ticks(ProberState::Armed, target_id, interval_secs, outcomes).0 == ProberState::Armed,
        run_ticks(ProberState::Armed, target_id, interval_secs, outcomes).1.len() == outcomes.len(),
        forall|k: int|
            0 <= k < outcomes.len() ==> #[trigger] run_ticks(
                ProberState::Armed,
                target_id,
                interval_secs,
                outcomes,
            ).1[k] == sample_spec(target_id, outcomes[k]),
    decreases outcomes.len(),
{
    if outcomes.len() > 0 {
        lemma_one_sample_per_tick(target_id, interval_secs, outcomes.drop_last());
    }
}

/// A tick that fires while a probe is in flight starts no second probe.
pub proof fn lemma_no_overlapping_probes(target_id: i32, interval_secs: i32)
    ensures
        step_spec(ProberState::Probing, target_id, interval_secs, ProberEvent::Tick) == (
            ProberState::Probing,
            ProberAction::Idle,
        ),
{
}

/// A successful start arms the prober; every failed check disables it.
pub proof fn lemma_start(target_id: i32, interval_secs: i32, facility_ok: bool, host_ok: bool)
    ensures
        ({
            let (s, a) = step_spec(
                ProberState::Init,
                target_id,
                interval_secs,
                ProberEvent::Started { facility_ok, host_ok },
            );
            &&& (interval_secs > 0 && facility_ok && host_ok) ==> s == ProberState::Armed
            &&& !(interval_secs > 0 && facility_ok && host_ok) ==> s == ProberState::Disabled
                && a is Report
        }),
{
}

/// What a sample is written to time-series storage as.
pub struct TelemetryPoint {
    pub measurement: String,
    pub target_id_tag: String,
    pub is_lost_tag: String,
    /// Round trip in microseconds; stored as the field `rtt_ms` in
    /// milliseconds.
    pub rtt_us: u64,
}

/// The text form of a flag.
pub open spec fn bool_text(b: bool) -> Seq<char> {
    if b {
        "true"@
    } else {
        "false"@
    }
}

/// The storage point for a sample: measurement `probe_data`, tags
/// `target_id` and `is_lost` as text, and the round trip for field `rtt_ms`.
pub fn telemetry_point(sample: &Sample) -> (r: TelemetryPoint)
    ensures
        r.measurement@ == "probe_data"@,
        r.target_id_tag@ == decimal_of(sample.target_id as int),
        r.is_lost_tag@ == bool_text(sample.is_lost),
        r.rtt_us == sample.rtt_us,
{
    let flag = if sample.is_lost {
        String::from_str("true")
    } else {
        String::from_str("false")
    };
    TelemetryPoint {
        measurement: String::from_str("probe_data"),
        target_id_tag: integer_decimal(sample.target_id as i64),
        is_lost_tag: flag,
        rtt_us: sample.rtt_us,
    }
}

} // verus!
