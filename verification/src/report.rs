//! What is sent to the node of the shares that were gathered.

use vstd::prelude::*;

use crate::difficulty::Difficulty;
use crate::telemetry::TelemetryAccumulator;

verus! {

/// What is sent of a miner's shares.
#[derive(Debug, Clone)]
pub struct TelemetryReport {
    pub channel_id: String,
    pub payout_address: String,
    pub username: String,
    pub window_start_utc: Option<String>,
    pub window_end_utc: Option<String>,
    pub accepted_share_count: u64,
    pub rejected_share_count: u64,
    pub accepted_work_difficulty: Difficulty,
    pub fee_work_difficulty: Difficulty,
    pub best_difficulty: Difficulty,
}

/// What is sent of the shares of all miners.
#[derive(Debug, Clone)]
pub struct TelemetryBatch {
    pub source_instance: String,
    pub entries: Vec<TelemetryReport>,
}

/// A time in milliseconds since the epoch as RFC 3339 text in UTC, where it can be written.
pub uninterp spec fn utc_text(unix_ms: i64) -> Option<Seq<char>>;

/// The content of optional text.
pub open spec fn content(text: Option<String>) -> Option<Seq<char>> {
    match text {
        Some(text) => Some(text@),
        None => None,
    }
}

/// `chrono::DateTime::from_timestamp_millis` finds the date of a time, if it is in range, and
/// `to_rfc3339` writes it. The text depends on the time alone.
#[verifier::external_body]
fn rfc3339(unix_ms: i64) -> (text: Option<String>)
    ensures
        content(text) == utc_text(unix_ms),
{
    match chrono::DateTime::from_timestamp_millis(unix_ms) {
        Some(date) => Some(date.to_rfc3339()),
        None => None,
    }
}

impl TelemetryReport {
    /// Whether this reports what was gathered, with a window written as given.
    pub open spec fn reports(
        self,
        entry: TelemetryAccumulator,
        start: Option<Seq<char>>,
        end: Option<Seq<char>>,
    ) -> bool {
        &&& self.channel_id == entry.channel_id
        &&& self.payout_address == entry.payout_address
        &&& self.username == entry.username
        &&& content(self.window_start_utc) == start
        &&& content(self.window_end_utc) == end
        &&& self.accepted_share_count == entry.accepted_shares
        &&& self.rejected_share_count == entry.rejected_shares
        &&& self.accepted_work_difficulty == entry.accepted_difficulty
        &&& self.fee_work_difficulty == entry.fee_difficulty
        &&& self.best_difficulty == entry.best_difficulty
    }

    /// Makes the report of what was gathered, given its window as text.
    pub fn assemble(entry: &TelemetryAccumulator, start: Option<String>, end: Option<String>) -> (report:
        TelemetryReport)
        ensures
            report.reports(*entry, content(start), content(end)),
    {
        TelemetryReport {
            channel_id: entry.channel_id.clone(),
            payout_address: entry.payout_address.clone(),
            username: entry.username.clone(),
            window_start_utc: start,
            window_end_utc: end,
            accepted_share_count: entry.accepted_shares,
            rejected_share_count: entry.rejected_shares,
            accepted_work_difficulty: entry.accepted_difficulty,
            fee_work_difficulty: entry.fee_difficulty,
            best_difficulty: entry.best_difficulty,
        }
    }
}

impl TelemetryBatch {
    /// Makes the reports of everything that was gathered.
    pub fn assemble(source_instance: &str, pending: &Vec<TelemetryAccumulator>) -> (batch:
        TelemetryBatch)
        ensures
            batch.source_instance@ == source_instance@,
            batch.entries@.len() == pending@.len(),
            forall|i: int|
                0 <= i < pending@.len() ==> (#[trigger] batch.entries@[i]).reports(
                    pending@[i],
                    utc_text(pending@[i].window_start_unix_ms),
                    utc_text(pending@[i].window_end_unix_ms),
                ),
    {
        let mut entries: Vec<TelemetryReport> = Vec::new();
        let mut i: usize = 0;
        while i < pending.len()
            invariant
                i <= pending@.len(),
                entries@.len() == i,
                forall|j: int|
                    0 <= j < i ==> (#[trigger] entries@[j]).reports(
                        pending@[j],
                        utc_text(pending@[j].window_start_unix_ms),
                        utc_text(pending@[j].window_end_unix_ms),
                    ),
            decreases pending@.len() - i,
        {
            let entry = &pending[i];
            let start = rfc3339(entry.window_start_unix_ms);
            let end = rfc3339(entry.window_end_unix_ms);
            entries.push(TelemetryReport::assemble(entry, start, end));
            i = i + 1;
        }
        TelemetryBatch { source_instance: source_instance.to_owned(), entries }
    }
}

} // verus!
