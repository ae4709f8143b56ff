//! Configured targets and the input that creates or updates them.
use vstd::prelude::*;
use vstd::string::*;

verus! {

/// A configured target as stored.
#[derive(Clone, Debug, PartialEq, Eq)]
pub struct Model {
    pub id: i32,
    pub name: String,
    pub host: String,
    pub probe_type: String,
    pub probe_interval_secs: i32,
    pub is_active: bool,
    /// Creation time, microseconds since the Unix epoch (UTC).
    pub created_at_micros: i64,
}

/// Fields a client supplies to create or update a target.
#[derive(Clone, Debug, PartialEq, Eq)]
pub struct TargetInput {
    pub name: String,
    pub host: String,
    pub probe_type: String,
    pub probe_interval_secs: i32,
    pub is_active: bool,
}

/// The probe type assumed when the input names none.
pub fn default_probe_type() -> (r: String)
    ensures
        r@ == "icmp"@,
{
    String::from_str("icmp")
}

impl Model {
    /// A new target built from `input`, with the given id and creation time.
    pub fn from_input(id: i32, input: &TargetInput, created_at_micros: i64) -> (r: Model)
        ensures
            r.id == id,
            r.name@ == input.name@,
            r.host@ == input.host@,
            r.probe_type@ == input.probe_type@,
            r.probe_interval_secs == input.probe_interval_secs,
            r.is_active == input.is_active,
            r.created_at_micros == created_at_micros,
    {
        Model {
            id,
            name: input.name.clone(),
            host: input.host.clone(),
            probe_type: input.probe_type.clone(),
            probe_interval_secs: input.probe_interval_secs,
            is_active: input.is_active,
            created_at_micros,
        }
    }

    /// Replaces every client-supplied field with the input's; the id and the
    /// creation time stay.
    pub fn apply_input(&mut self, input: &TargetInput)
        ensures
            final(self).id == old(self).id,
            final(self).created_at_micros == old(self).created_at_micros,
            final(self).name@ == input.name@,
            final(self).host@ == input.host@,
            final(self).probe_type@ == input.probe_type@,
            final(self).probe_interval_secs == input.probe_interval_secs,
            final(self).is_active == input.is_active,
    {
        self.name = input.name.clone();
        self.host = input.host.clone();
        self.probe_type = input.probe_type.clone();
        self.probe_interval_secs = input.probe_interval_secs;
        self.is_active = input.is_active;
    }
}

} // verus!
