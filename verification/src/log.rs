//! The append-only interaction log: one record per completed interaction,
//! plus header metadata. The log only ever grows; the persistence layer
//! rewrites the whole file from this in-memory value after each append.

use vstd::prelude::*;

verus! {

/// One completed interaction: the prompt, the (possibly filtered) response
/// tokens in arrival order, and the configuration that produced them.
#[derive(Clone)]
pub struct Log {
    pub filtering: bool,
    pub time: String,
    pub prompt: String,
    pub response: Vec<String>,
    pub model: Option<String>,
    pub systemprompt: Option<String>,
}

/// Relies on chrono's `Local::now().to_rfc3339()`: the current wall-clock
/// time as an RFC 3339 string. The result depends on the clock, so nothing
/// is claimed of it.
#[verifier::external_body]
pub(crate) fn current_timestamp() -> String {
    chrono::Local::now().to_rfc3339()
}

impl Log {
    /// Builds a record stamped with the current wall-clock time.
    pub fn create_with_current_time(
        filtering: bool,
        model: Option<String>,
        response: Vec<String>,
        systemprompt: Option<String>,
        prompt: String,
    ) -> (log: Log)
        ensures
            log.filtering == filtering,
            log.model == model,
            log.response == response,
            log.systemprompt == systemprompt,
            log.prompt == prompt,
    {
        Log {
            filtering: filtering,
            time: current_timestamp(),
            prompt: prompt,
            response: response,
            model: model,
            systemprompt: systemprompt,
        }
    }
}

/// The full interaction log: header metadata and the ordered records.
pub struct History {
    pub began_logging: String,
    pub version: String,
    pub filtering: bool,
    pub logs: Vec<Log>,
}

/// The record sequence after one append: exactly one record gained, at the
/// end. This is what one completed interaction does to the log.
pub open spec fn spec_push_log(logs: Seq<Log>, log: Log) -> Seq<Log> {
    logs.push(log)
}

/// The record sequence after appending each record of `records` in order,
/// one interaction at a time.
pub open spec fn spec_push_logs(logs: Seq<Log>, records: Seq<Log>) -> Seq<Log>
    decreases records.len(),
{
    if records.len() == 0 {
        logs
    } else {
        spec_push_logs(spec_push_log(logs, records[0]), records.drop_first())
    }
}

impl History {
    /// Appends one record at the end; the records already logged and the
    /// header metadata are untouched.
    pub fn push_log(&mut self, log: Log)
        ensures
            final(self).logs@ == spec_push_log(old(self).logs@, log),
            final(self).began_logging == old(self).began_logging,
            final(self).version == old(self).version,
            final(self).filtering == old(self).filtering,
    {
        self.logs.push(log);
    }
}

/// Appending is monotonic: a run of single-record appends leaves exactly
/// the old records followed by the new ones, in append order. In
/// particular, a log that starts empty holds, after `k` completed
/// interactions, exactly those `k` records in completion order.
pub proof fn lemma_log_append_monotonic(logs: Seq<Log>, records: Seq<Log>)
    ensures
        spec_push_logs(logs, records) == logs + records,
    decreases records.len(),
{
    if records.len() == 0 {
        assert(spec_push_logs(logs, records) =~= logs + records);
    } else {
        lemma_log_append_monotonic(spec_push_log(logs, records[0]), records.drop_first());
        assert(spec_push_log(logs, records[0]) + records.drop_first() =~= logs + records);
    }
}

} // verus!
