//! Run-level telemetry shared between runners, CLIs, and CI integrations.
use std::collections::BTreeMap;

use crate::ids::{ComponentId, FlowId, NodeId, PackId};
use crate::session::SessionKey;
use vstd::prelude::*;

verus! {

/// Overall execution status emitted by the runner.
#[derive(Clone, Copy, Debug, PartialEq, Eq, Hash)]
pub enum RunStatus {
    /// Flow finished successfully.
    Success,
    /// Flow finished with partial failures but continued.
    PartialFailure,
    /// Flow failed.
    Failure,
}

/// Per-node execution status.
#[derive(Clone, Copy, Debug, PartialEq, Eq, Hash)]
pub enum NodeStatus {
    /// Node executed successfully.
    Passed,
    /// Node skipped execution (e.g. gated by conditionals).
    Skipped,
    /// Node errored.
    Error,
}

/// Aggregated timing summary per node.
#[derive(Clone, Debug, PartialEq, Eq)]
pub struct NodeSummary {
    /// Stable node identifier.
    pub node_id: NodeId,
    /// Component backing the node implementation.
    pub component: ComponentId,
    /// Final status of the node execution.
    pub status: NodeStatus,
    /// Execution time reported by the runner.
    pub duration_ms: u64,
}

/// Byte-range offsets referencing captured transcripts/logs.
#[derive(Clone, Debug, PartialEq, Eq, Hash)]
pub struct TranscriptOffset {
    /// Start offset (inclusive) counted in bytes.
    pub start: u64,
    /// End offset (exclusive) counted in bytes.
    pub end: u64,
}

/// Rich failure diagnostics for a node.
#[derive(Clone, Debug, PartialEq, Eq)]
pub struct NodeFailure {
    /// Machine readable error code.
    pub code: String,
    /// Human readable explanation.
    pub message: String,
    /// Optional structured metadata.
    pub details: BTreeMap<String, String>,
    /// Transcript offsets referencing the failure within captured logs.
    pub transcript_offsets: Vec<TranscriptOffset>,
    /// Disk paths or URIs pointing at log bundles.
    pub log_paths: Vec<String>,
}

/// Aggregated run outcome emitted by the runtime.
#[derive(Clone, Debug, PartialEq)]
pub struct RunResult {
    /// Session identifier emitted by the runtime.
    pub session_id: SessionKey,
    /// Pack identifier.
    pub pack_id: PackId,
    /// Pack version executed for the run.
    pub pack_version: semver::Version,
    /// Flow identifier executed for the session.
    pub flow_id: FlowId,
    /// Wall-clock start timestamp in UTC.
    pub started_at_utc: time::OffsetDateTime,
    /// Wall-clock finish timestamp in UTC.
    pub finished_at_utc: time::OffsetDateTime,
    /// Final run status.
    pub status: RunStatus,
    /// Per-node execution summaries.
    pub node_summaries: Vec<NodeSummary>,
    /// Rich failure diagnostics, if any.
    pub failures: Vec<NodeFailure>,
    /// Directory containing emitted artifacts/log bundles.
    pub artifacts_dir: Option<String>,
}

/// The whole milliseconds that `time` counts from `start` to `end`: the
/// `Duration` that `OffsetDateTime` subtraction gives, read with
/// `Duration::whole_milliseconds`. It depends on the two timestamps alone.
pub uninterp spec fn millis_between(start: time::OffsetDateTime, end: time::OffsetDateTime) -> i128;

/// Whole milliseconds from `start` to `end`, with `time`'s `OffsetDateTime`
/// subtraction and `Duration::whole_milliseconds`. The result is claimed to be
/// `millis_between(start, end)`, a deterministic function of the two
/// timestamps; its value is not spelled out, since the timestamps are opaque
/// here.
#[verifier::external_body]
fn whole_millis_between(start: &time::OffsetDateTime, end: &time::OffsetDateTime) -> (r: i128)
    ensures
        r == millis_between(*start, *end),
{
    (*end - *start).whole_milliseconds()
}

/// A signed millisecond count as a run duration: negative counts become 0,
/// others keep their low 64 bits.
pub fn duration_from_millis(ms: i128) -> (r: u64)
    ensures
        r == if ms < 0 {
            0
        } else {
            ms as u64
        },
{
    if ms < 0 {
        0
    } else {
        ms as u64
    }
}

impl RunResult {
    /// Returns the run duration in milliseconds (0 when the run ends before it starts).
    pub fn duration_ms(&self) -> (r: u64)
        ensures
            r == (if millis_between(self.started_at_utc, self.finished_at_utc) < 0 {
                0
            } else {
                millis_between(self.started_at_utc, self.finished_at_utc) as u64
            }),
    {
        duration_from_millis(whole_millis_between(&self.started_at_utc, &self.finished_at_utc))
    }
}

} // verus!
