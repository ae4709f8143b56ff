//! Probe outcomes, the samples built from them and their live wire form.
use vstd::prelude::*;

verus! {

/// What one echo attempt against a host produced.
#[derive(Clone, Copy, PartialEq, Eq, Debug, Structural)]
pub enum ProbeOutcome {
    /// A reply came back after this many whole microseconds.
    Reply { rtt_us: u64 },
    /// No reply: timeout, unreachable host or any transport error.
    NoReply,
}

/// One measurement of one target.
#[derive(Clone, Copy, PartialEq, Eq, Debug, Structural)]
pub struct Sample {
    pub target_id: i32,
    pub is_lost: bool,
    /// Round-trip time in microseconds: zero exactly when the probe was
    /// lost, at least one for a reply.
    pub rtt_us: u64,
}

/// A sample as it is pushed to live subscribers.
#[derive(Clone, Copy, PartialEq, Eq, Debug, Structural)]
pub struct LiveEvent {
    pub target_id: i32,
    pub is_lost: bool,
    pub rtt_us: u64,
}

/// The reported round trip of a reply: a reply faster than one
/// microsecond counts as one, so a reply never reads as lost.
pub open spec fn reply_time(rtt_us: u64) -> u64 {
    if rtt_us == 0 {
        1
    } else {
        rtt_us
    }
}

/// The sample that an outcome yields for a target.
pub open spec fn sample_spec(target_id: i32, outcome: ProbeOutcome) -> Sample {
    match outcome {
        ProbeOutcome::Reply { rtt_us } => Sample { target_id, is_lost: false, rtt_us: reply_time(rtt_us) },
        ProbeOutcome::NoReply => Sample { target_id, is_lost: true, rtt_us: 0 },
    }
}

impl Sample {
    /// Builds the sample for one probe of `target_id`.
    pub fn from_outcome(target_id: i32, outcome: ProbeOutcome) -> (r: Sample)
        ensures
            r == sample_spec(target_id, outcome),
            r.target_id == target_id,
            r.is_lost <==> outcome is NoReply,
            r.is_lost ==> r.rtt_us == 0,
            !r.is_lost ==> r.rtt_us >= 1,
    {
        match outcome {
            ProbeOutcome::Reply { rtt_us } => {
                let t = if rtt_us == 0 {
                    1
                } else {
                    rtt_us
                };
                Sample { target_id, is_lost: false, rtt_us: t }
            },
            ProbeOutcome::NoReply => Sample { target_id, is_lost: true, rtt_us: 0 },
        }
    }

    /// The live form of this sample.
    pub fn to_live_event(&self) -> (r: LiveEvent)
        ensures
            r.target_id == self.target_id,
            r.is_lost == self.is_lost,
            r.rtt_us == self.rtt_us,
    {
        LiveEvent { target_id: self.target_id, is_lost: self.is_lost, rtt_us: self.rtt_us }
    }
}

/// A lost probe always reads as lost with a zero round trip, and a reply
/// never does: a sample's round trip is zero exactly when it is lost.
pub proof fn lemma_lost_probe_is_zero(target_id: i32)
    ensures
        sample_spec(target_id, ProbeOutcome::NoReply).is_lost,
        sample_spec(target_id, ProbeOutcome::NoReply).rtt_us == 0,
        forall|o: ProbeOutcome| #[trigger] sample_spec(target_id, o).is_lost <==> sample_spec(
            target_id,
            o,
        ).rtt_us == 0,
{
}

} // verus!
