//! What a light-compute run leaves behind: the event it records as
//! technical noise, with its keys in order, and the entry it adds to the
//! compute app.

use vstd::prelude::*;
use crate::agent::action::{AgentAction, WorkingMemoryDelta};
use crate::agent::trace::{entries, text_is};
use crate::compute::source::failure_kind;
use crate::compute::tool::{compute_summary, outcome_type, ComputeOutcome, LightComputeLimits, LightComputeTool};
use crate::json::{json_text, Json};
use crate::text::decimal;
use crate::workspace::delta::WorkspaceDelta;
use vstd::string::StringSliceAdditionalSpecFns;

verus! {

/// `j` is an object whose keys are `ks`, in order.
pub open spec fn keys_are(j: Json, ks: Seq<Seq<char>>) -> bool {
    j is Object && entries(j).map_values(|e: (String, Json)| e.0@) == ks
}

/// The value of the `i`-th entry of `j`.
pub open spec fn field(j: Json, i: int) -> Json {
    entries(j)[i].1
}

/// `j` is the integer `n`.
pub open spec fn int_is(j: Json, n: u64) -> bool {
    j == Json::Integer(n as i128)
}

/// `j` is an error with this message and type.
pub open spec fn error_is(j: Json, message: Seq<char>, kind: Seq<char>) -> bool {
    &&& keys_are(j, seq!["message"@, "type"@])
    &&& text_is(field(j, 0), message)
    &&& text_is(field(j, 1), kind)
}

/// `j` is the event of a run that ended in `o`, with `result` as its
/// result when it finished, after `elapsed_ms`, under `l`.
pub open spec fn compute_event_is(j: Json, o: ComputeOutcome, result: Json, elapsed_ms: u64, l: LightComputeLimits) -> bool {
    match o {
        ComputeOutcome::TimedOut => {
            &&& keys_are(j, seq!["error"@, "metrics"@, "ok"@])
            &&& error_is(field(j, 0), "light_compute exceeded timeout"@, "timeout"@)
            &&& keys_are(field(j, 1), seq!["elapsed_ms"@, "timeout_ms"@])
            &&& int_is(field(field(j, 1), 0), elapsed_ms) && int_is(field(field(j, 1), 1), l.timeout_ms)
            &&& field(j, 2) == Json::Bool(false)
        },
        ComputeOutcome::OutOfMemory => {
            &&& keys_are(j, seq!["error"@, "metrics"@, "ok"@])
            &&& error_is(field(j, 0), "light_compute memory limit exceeded"@, "oom"@)
            &&& keys_are(field(j, 1), seq!["elapsed_ms"@, "max_heap_bytes"@])
            &&& int_is(field(field(j, 1), 0), elapsed_ms) && int_is(field(field(j, 1), 1), l.max_heap_bytes)
            &&& field(j, 2) == Json::Bool(false)
        },
        ComputeOutcome::Finished => {
            &&& keys_are(j, seq!["metrics"@, "ok"@, "result"@])
            &&& keys_are(field(j, 0), seq!["elapsed_ms"@, "max_heap_bytes"@, "max_output_bytes"@, "timeout_ms"@])
            &&& int_is(field(field(j, 0), 0), elapsed_ms) && int_is(field(field(j, 0), 1), l.max_heap_bytes)
            &&& int_is(field(field(j, 0), 2), l.max_output_bytes) && int_is(field(field(j, 0), 3), l.timeout_ms)
            &&& field(j, 1) == Json::Bool(true)
            &&& field(j, 2) == result
        },
        ComputeOutcome::Failed { message } => {
            &&& keys_are(j, seq!["error"@, "limits"@, "ok"@])
            &&& error_is(field(j, 0), message@, failure_kind(message@))
            &&& keys_are(
                field(j, 1),
                seq!["max_code_bytes"@, "max_heap_bytes"@, "max_input_bytes"@, "max_output_bytes"@, "timeout_ms"@],
            )
            &&& int_is(field(field(j, 1), 0), l.max_code_bytes) && int_is(field(field(j, 1), 1), l.max_heap_bytes)
            &&& int_is(field(field(j, 1), 2), l.max_input_bytes) && int_is(field(field(j, 1), 3), l.max_output_bytes)
            &&& int_is(field(field(j, 1), 4), l.timeout_ms)
            &&& field(j, 2) == Json::Bool(false)
        },
    }
}

/// The summary text of a run that ended in `o`.
pub open spec fn summary_text(o: ComputeOutcome) -> Seq<char> {
    match outcome_type(o) {
        None => "light_compute success"@,
        Some(t) => "light_compute "@ + t,
    }
}

/// An entry of a JSON object.
fn entry(key: &str, value: Json) -> (r: (String, Json))
    ensures
        r.0@ == key@ && r.1 == value,
{
    (String::from_str(key), value)
}

/// An error object with this message and type.
fn error_json(message: String, kind: &str) -> (r: Json)
    ensures
        error_is(r, message@, kind@),
{
    let mut es: Vec<(String, Json)> = Vec::new();
    es.push(entry("message", Json::Str(message)));
    es.push(entry("type", Json::Str(String::from_str(kind))));
    let r = Json::Object(es);
    assert(entries(r).map_values(|e: (String, Json)| e.0@) =~= seq!["message"@, "type"@]);
    r
}

impl LightComputeTool {
    /// How a run ended once its output is measured: a finished run whose
    /// JSON output (`output_text`) is larger than the limit fails with the
    /// check's error; any other run keeps its outcome.
    pub fn settle_run(&self, outcome: ComputeOutcome, output_text: &str) -> (r: ComputeOutcome)
        ensures
            outcome is Finished && output_text.spec_bytes().len() > self.limits.max_output_bytes ==> (r matches ComputeOutcome::Failed { message } && message@ == "Sandbox error: "@ + (
                "light_compute output exceeds "@ + decimal(self.limits.max_output_bytes as nat) + " bytes"@)),
            !(outcome is Finished && output_text.spec_bytes().len() > self.limits.max_output_bytes) ==> r == outcome,
    {
        match outcome {
            ComputeOutcome::Finished => match self.check_output(output_text) {
                Ok(()) => ComputeOutcome::Finished,
                Err(e) => ComputeOutcome::Failed { message: e.describe() },
            },
            other => other,
        }
    }

    /// The event of a run that ended in `outcome`, with `result` as its
    /// result when it finished, after `elapsed_ms`.
    pub fn run_event(&self, outcome: &ComputeOutcome, result: Json, elapsed_ms: u64) -> (r: Json)
        ensures
            compute_event_is(r, *outcome, result, elapsed_ms, self.limits),
    {
        let l = self.limits;
        let mut es: Vec<(String, Json)> = Vec::new();
        let mut m: Vec<(String, Json)> = Vec::new();
        match outcome {
            ComputeOutcome::TimedOut => {
                m.push(entry("elapsed_ms", Json::Integer(elapsed_ms as i128)));
                m.push(entry("timeout_ms", Json::Integer(l.timeout_ms as i128)));
                let metrics = Json::Object(m);
                assert(entries(metrics).map_values(|e: (String, Json)| e.0@) =~= seq!["elapsed_ms"@, "timeout_ms"@]);
                es.push(entry("error", error_json(String::from_str("light_compute exceeded timeout"), "timeout")));
                es.push(entry("metrics", metrics));
                es.push(entry("ok", Json::Bool(false)));
                let r = Json::Object(es);
                assert(entries(r).map_values(|e: (String, Json)| e.0@) =~= seq!["error"@, "metrics"@, "ok"@]);
                r
            },
            ComputeOutcome::OutOfMemory => {
                m.push(entry("elapsed_ms", Json::Integer(elapsed_ms as i128)));
                m.push(entry("max_heap_bytes", Json::Integer(l.max_heap_bytes as i128)));
                let metrics = Json::Object(m);
                assert(entries(metrics).map_values(|e: (String, Json)| e.0@) =~= seq![
                    "elapsed_ms"@,
                    "max_heap_bytes"@,
                ]);
                es.push(entry("error", error_json(String::from_str("light_compute memory limit exceeded"), "oom")));
                es.push(entry("metrics", metrics));
                es.push(entry("ok", Json::Bool(false)));
                let r = Json::Object(es);
                assert(entries(r).map_values(|e: (String, Json)| e.0@) =~= seq!["error"@, "metrics"@, "ok"@]);
                r
            },
            ComputeOutcome::Finished => {
                m.push(entry("elapsed_ms", Json::Integer(elapsed_ms as i128)));
                m.push(entry("max_heap_bytes", Json::Integer(l.max_heap_bytes as i128)));
                m.push(entry("max_output_bytes", Json::Integer(l.max_output_bytes as i128)));
                m.push(entry("timeout_ms", Json::Integer(l.timeout_ms as i128)));
                let metrics = Json::Object(m);
                assert(entries(metrics).map_values(|e: (String, Json)| e.0@) =~= seq![
                    "elapsed_ms"@,
                    "max_heap_bytes"@,
                    "max_output_bytes"@,
                    "timeout_ms"@,
                ]);
                es.push(entry("metrics", metrics));
                es.push(entry("ok", Json::Bool(true)));
                es.push(entry("result", result));
                let r = Json::Object(es);
                assert(entries(r).map_values(|e: (String, Json)| e.0@) =~= seq!["metrics"@, "ok"@, "result"@]);
                r
            },
            ComputeOutcome::Failed { message } => {
                m.push(entry("max_code_bytes", Json::Integer(l.max_code_bytes as i128)));
                m.push(entry("max_heap_bytes", Json::Integer(l.max_heap_bytes as i128)));
                m.push(entry("max_input_bytes", Json::Integer(l.max_input_bytes as i128)));
                m.push(entry("max_output_bytes", Json::Integer(l.max_output_bytes as i128)));
                m.push(entry("timeout_ms", Json::Integer(l.timeout_ms as i128)));
                let limits = Json::Object(m);
                assert(entries(limits).map_values(|e: (String, Json)| e.0@) =~= seq![
                    "max_code_bytes"@,
                    "max_heap_bytes"@,
                    "max_input_bytes"@,
                    "max_output_bytes"@,
                    "timeout_ms"@,
                ]);
                let kind = crate::compute::source::classify_failure(message.as_str());
                es.push(entry("error", error_json(message.clone(), kind)));
                es.push(entry("limits", limits));
                es.push(entry("ok", Json::Bool(false)));
                let r = Json::Object(es);
                assert(entries(r).map_values(|e: (String, Json)| e.0@) =~= seq!["error"@, "limits"@, "ok"@]);
                r
            },
        }
    }

    /// What a run leaves behind: its event recorded under `light_compute`,
    /// and the run added to the compute app with its summary and the
    /// event's JSON text.
    pub fn run_action(&self, outcome: ComputeOutcome, result: Json, elapsed_ms: u64) -> (r: AgentAction)
        ensures
            r matches AgentAction::Compound(v) && v@.len() == 2
                && (v@[0] matches AgentAction::UpdateWorkingMemory(WorkingMemoryDelta::AddTechnicalNoise(k, e))
                && k@ == "light_compute"@ && compute_event_is(e, outcome, result, elapsed_ms, self.limits)
                && (v@[1] matches AgentAction::UpdateWorkspace(WorkspaceDelta::RecordCompute { summary, payload })
                && summary@ == summary_text(outcome) && payload@ == json_text(e))),
    {
        let event = self.run_event(&outcome, result, elapsed_ms);
        let summary = compute_summary(&outcome);
        let payload = event.to_text();
        let mut v: Vec<AgentAction> = Vec::new();
        v.push(AgentAction::UpdateWorkingMemory(WorkingMemoryDelta::AddTechnicalNoise(String::from_str("light_compute"), event)));
        v.push(AgentAction::UpdateWorkspace(WorkspaceDelta::RecordCompute { summary, payload }));
        AgentAction::Compound(v)
    }
}

} // verus!
