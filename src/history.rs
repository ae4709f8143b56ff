//! Translation of a historical range request into a storage query, and of
//! the rows it returns into samples.
//!
//! The latency reading is carried through as the storage gives it (type
//! `R`); this module never interprets it.
use vstd::prelude::*;
use vstd::string::*;
use crate::text::{decimal_of, integer_decimal, same_text};

verus! {

/// The time range of a historical request, in the storage's own syntax.
#[derive(Clone, Debug, PartialEq, Eq)]
pub struct ProbeDataQuery {
    pub start_time: String,
    pub end_time: String,
}

/// One row as storage returns it.
#[derive(Clone, Debug, PartialEq)]
pub struct InfluxProbeDataPoint<R> {
    pub target_id: String,
    pub is_lost: String,
    pub rtt_ms: R,
    pub _time: String,
}

/// One historical sample as served.
#[derive(Clone, Debug, PartialEq)]
pub struct ProbeDataPoint<R> {
    pub time: String,
    pub rtt_ms: R,
    pub is_lost: bool,
}

/// The storage query failed; distinct from an empty result.
#[derive(Clone, Copy, Debug, PartialEq, Eq, Structural)]
pub struct StorageUnavailable {}

/// The range query for target `target_id` over `[start, stop)` in `bucket`.
pub open spec fn flux_spec(
    bucket: Seq<char>,
    start: Seq<char>,
    stop: Seq<char>,
    target_id: int,
) -> Seq<char> {
    "from(bucket: \""@ + bucket + "\")\n        |> range(start: "@ + start + ", stop: "@ + stop
        + ")\n        |> filter(fn: (r) => r._measurement == \"probe_data\")\n        |> filter(fn: (r) => r.target_id == \""@
        + decimal_of(target_id)
        + "\")\n        |> filter(fn: (r) => r._field == \"rtt_ms\")\n        |> keep(columns: [\"_time\", \"_value\", \"target_id\", \"is_lost\"])\n        |> rename(columns: {\"_value\": \"rtt_ms\"})"@
}

/// A stored loss flag: only the exact text `true` reads as lost.
pub open spec fn lost_flag(s: Seq<char>) -> bool {
    s == "true"@
}

/// The served form of one stored row.
pub open spec fn row_matches<R>(row: InfluxProbeDataPoint<R>, p: ProbeDataPoint<R>) -> bool {
    &&& p.time@ == row._time@
    &&& p.rtt_ms == row.rtt_ms
    &&& p.is_lost == lost_flag(row.is_lost@)
}

/// Builds the storage query for one target's samples over a time range,
/// keeping the latency field with its time and loss flag.
pub fn flux_query(bucket: &str, target_id: i32, query: &ProbeDataQuery) -> (r: String)
    ensures
        r@ == flux_spec(bucket@, query.start_time@, query.end_time@, target_id as int),
{
    let id = integer_decimal(target_id as i64);
    let s = String::from_str("from(bucket: \"");
    let s = s.concat(bucket);
    let s = s.concat("\")\n        |> range(start: ");
    let s = s.concat(query.start_time.as_str());
    let s = s.concat(", stop: ");
    let s = s.concat(query.end_time.as_str());
    let s = s.concat(")\n        |> filter(fn: (r) => r._measurement == \"probe_data\")\n        |> filter(fn: (r) => r.target_id == \"");
    let s = s.concat(id.as_str());
    s.concat("\")\n        |> filter(fn: (r) => r._field == \"rtt_ms\")\n        |> keep(columns: [\"_time\", \"_value\", \"target_id\", \"is_lost\"])\n        |> rename(columns: {\"_value\": \"rtt_ms\"})")
}

/// Reads a stored loss flag; anything but `true` (including malformed
/// text) reads as not lost.
pub fn parse_is_lost(s: &str) -> (r: bool)
    ensures
        r == lost_flag(s@),
{
    same_text(s, "true")
}

/// Maps stored rows to served samples one for one, in storage order.
pub fn rows_to_points<R: Copy>(rows: &Vec<InfluxProbeDataPoint<R>>) -> (r: Vec<ProbeDataPoint<R>>)
    ensures
        r@.len() == rows@.len(),
        forall|i: int| 0 <= i < rows@.len() ==> row_matches(#[trigger] rows@[i], r@[i]),
{
    let mut out: Vec<ProbeDataPoint<R>> = Vec::new();
    let mut i: usize = 0;
    while i < rows.len()
        invariant
            i <= rows@.len(),
            out@.len() == i,
            forall|j: int| 0 <= j < i ==> row_matches(#[trigger] rows@[j], out@[j]),
        decreases rows@.len() - i,
    {
        let row = &rows[i];
        let p = ProbeDataPoint {
            time: row._time.clone(),
            rtt_ms: row.rtt_ms,
            is_lost: parse_is_lost(row.is_lost.as_str()),
        };
        out.push(p);
        i = i + 1;
    }
    out
}

/// The answer to a historical request from what storage returned: the
/// samples in storage order, or `StorageUnavailable` when the query failed.
pub fn translate_result<R: Copy, E>(result: &Result<Vec<InfluxProbeDataPoint<R>>, E>) -> (r: Result<Vec<ProbeDataPoint<R>>, StorageUnavailable>)
    ensures
        result is Err <==> r is Err,
        result is Ok ==> r->Ok_0@.len() == result->Ok_0@.len()
            && forall|i: int| 0 <= i < result->Ok_0@.len() ==> row_matches(
                #[trigger] result->Ok_0@[i],
                r->Ok_0@[i],
            ),
{
    match result {
        Ok(rows) => Ok(rows_to_points(rows)),
        Err(_) => Err(StorageUnavailable {}),
    }
}

/// A malformed loss flag (neither `true` nor `false`) reads as not lost;
/// the row is still served, since `rows_to_points` keeps every row.
pub proof fn lemma_malformed_flag_reads_not_lost<R>(row: InfluxProbeDataPoint<R>, p: ProbeDataPoint<R>)
    requires
        row.is_lost@ != "true"@,
        row.is_lost@ != "false"@,
        row_matches(row, p),
    ensures
        !p.is_lost,
        p.time@ == row._time@,
        p.rtt_ms == row.rtt_ms,
{
}

} // verus!
