//! What the harness records of a run as technical noise: decode anomalies
//! with their payloads, each as a JSON value.

use vstd::prelude::*;
use crate::agent::action::{AgentAction, WorkingMemoryDelta};
use crate::agent::decode::{anomaly_key, anomaly_kind, DecodeAnomaly};
use crate::json::Json;

verus! {

/// `j` is the JSON string `t`.
pub open spec fn text_is(j: Json, t: Seq<char>) -> bool {
    j matches Json::Str(s) && s@ == t
}

/// `e` is the entry `key` holding the string `t`.
pub open spec fn entry_is(e: (String, Json), key: Seq<char>, t: Seq<char>) -> bool {
    e.0@ == key && text_is(e.1, t)
}

/// `j` is an object of exactly `n` entries.
pub open spec fn object_of(j: Json, n: int) -> bool {
    j matches Json::Object(es) && es@.len() == n
}

/// The entries of an object (none for other values).
pub open spec fn entries(j: Json) -> Seq<(String, Json)> {
    match j {
        Json::Object(es) => es@,
        _ => Seq::empty(),
    }
}

/// `j` is an array of strings holding `names`.
pub open spec fn text_array_is(j: Json, names: Seq<String>) -> bool {
    j matches Json::Array(items) && items@.len() == names.len()
        && forall|i: int| 0 <= i < names.len() ==> #[trigger] text_is(items@[i], names[i]@)
}

/// `j` is the payload recorded for anomaly `a`: its reason or type, and
/// what it carries, keys in order.
pub open spec fn payload_is(a: DecodeAnomaly, j: Json) -> bool {
    let es = entries(j);
    match a {
        DecodeAnomaly::AssistantContentIgnored { content } => object_of(j, 2) && entry_is(es[0], "content"@, content@)
            && entry_is(es[1], "reason"@, "content_with_tool_calls_has_no_semantic_effect"@),
        DecodeAnomaly::MultipleToolCallsInSingleTurn { tool_names } => object_of(j, 2)
            && entry_is(es[0], "reason"@, "multiple_tool_calls_in_single_turn"@) && es[1].0@ == "tool_names"@
            && text_array_is(es[1].1, tool_names@),
        DecodeAnomaly::ToolInvalidArguments { error, raw_arguments, .. } => object_of(j, 3) && entry_is(
            es[0],
            "error"@,
            error@,
        ) && entry_is(es[1], "raw_arguments"@, raw_arguments@) && entry_is(es[2], "type"@, "invalid_arguments"@),
        DecodeAnomaly::ToolExecutionFailed { error, .. } => object_of(j, 2) && entry_is(es[0], "error"@, error@)
            && entry_is(es[1], "type"@, "tool_execution_failed"@),
        DecodeAnomaly::UnknownTool { .. } => object_of(j, 2) && entry_is(es[0], "error"@, "Unknown tool"@)
            && entry_is(es[1], "type"@, "unknown_tool"@),
        DecodeAnomaly::NonActionableAssistantContent { content } => object_of(j, 2) && entry_is(
            es[0],
            "content"@,
            content@,
        ) && entry_is(es[1], "reason"@, "non_actionable_assistant_content"@),
        DecodeAnomaly::NoActionableModelOutput => object_of(j, 1) && entry_is(
            es[0],
            "reason"@,
            "no_actionable_model_output"@,
        ),
        DecodeAnomaly::MultipleDecodeAnomalies { anomalies } => object_of(j, 2) && es[0].0@ == "anomalies"@
            && (es[0].1 matches Json::Array(items) && items@.len() == anomalies@.len() && forall|i: int|
            0 <= i < items@.len() ==> object_of(#[trigger] items@[i], 2) && entry_is(
                entries(items@[i])[0],
                "key"@,
                anomaly_key(anomaly_kind(anomalies@[i])),
            ) && entries(items@[i])[1].0@ == "payload"@) && entry_is(es[1], "reason"@, "multiple_decode_anomalies"@),
    }
}

/// The entry `key` holding the string `val`.
pub fn text_entry(key: &str, val: &str) -> (r: (String, Json))
    ensures
        entry_is(r, key@, val@),
{
    (String::from_str(key), Json::Str(String::from_str(val)))
}

/// An object of two entries.
pub(crate) fn object2(a: (String, Json), b: (String, Json)) -> (r: Json)
    ensures
        object_of(r, 2) && entries(r)[0] == a && entries(r)[1] == b,
{
    let mut es: Vec<(String, Json)> = Vec::new();
    es.push(a);
    es.push(b);
    Json::Object(es)
}

impl DecodeAnomaly {
    /// The payload recorded for this anomaly.
    pub fn payload(&self) -> (r: Json)
        ensures
            payload_is(*self, r),
        decreases self,
    {
        match self {
            DecodeAnomaly::AssistantContentIgnored { content } => object2(
                text_entry("content", content.as_str()),
                text_entry("reason", "content_with_tool_calls_has_no_semantic_effect"),
            ),
            DecodeAnomaly::MultipleToolCallsInSingleTurn { tool_names } => {
                let mut items: Vec<Json> = Vec::new();
                let mut i: usize = 0;
                while i < tool_names.len()
                    invariant
                        i <= tool_names@.len(),
                        items@.len() == i,
                        forall|k: int| 0 <= k < i ==> #[trigger] text_is(items@[k], tool_names@[k]@),
                    decreases tool_names@.len() - i,
                {
                    items.push(Json::Str(tool_names[i].clone()));
                    i = i + 1;
                }
                object2(
                    text_entry("reason", "multiple_tool_calls_in_single_turn"),
                    (String::from_str("tool_names"), Json::Array(items)),
                )
            },
            DecodeAnomaly::ToolInvalidArguments { error, raw_arguments, .. } => {
                let mut es: Vec<(String, Json)> = Vec::new();
                es.push(text_entry("error", error.as_str()));
                es.push(text_entry("raw_arguments", raw_arguments.as_str()));
                es.push(text_entry("type", "invalid_arguments"));
                Json::Object(es)
            },
            DecodeAnomaly::ToolExecutionFailed { error, .. } => object2(
                text_entry("error", error.as_str()),
                text_entry("type", "tool_execution_failed"),
            ),
            DecodeAnomaly::UnknownTool { .. } => object2(
                text_entry("error", "Unknown tool"),
                text_entry("type", "unknown_tool"),
            ),
            DecodeAnomaly::NonActionableAssistantContent { content } => object2(
                text_entry("content", content.as_str()),
                text_entry("reason", "non_actionable_assistant_content"),
            ),
            DecodeAnomaly::NoActionableModelOutput => {
                let mut es: Vec<(String, Json)> = Vec::new();
                es.push(text_entry("reason", "no_actionable_model_output"));
                Json::Object(es)
            },
            DecodeAnomaly::MultipleDecodeAnomalies { anomalies } => {
                let mut items: Vec<Json> = Vec::new();
                let mut i: usize = 0;
                while i < anomalies.len()
                    invariant
                        i <= anomalies@.len(),
                        items@.len() == i,
                        *self == (DecodeAnomaly::MultipleDecodeAnomalies { anomalies: *anomalies }),
                        forall|k: int| 0 <= k < i ==> object_of(#[trigger] items@[k], 2) && entry_is(
                            entries(items@[k])[0],
                            "key"@,
                            anomaly_key(anomaly_kind(anomalies@[k])),
                        ) && entries(items@[k])[1].0@ == "payload"@,
                    decreases anomalies@.len() - i,
                {
                    proof {
                        assert(decreases_to!(*self => (*self)->anomalies));
                        assert(decreases_to!(*anomalies => anomalies@));
                        assert(decreases_to!(anomalies@ => anomalies@[i as int]));
                    }
                    let p = anomalies[i].payload();
                    let k = anomalies[i].key();
                    items.push(object2((String::from_str("key"), Json::Str(k)), (String::from_str("payload"), p)));
                    i = i + 1;
                }
                object2(
                    (String::from_str("anomalies"), Json::Array(items)),
                    text_entry("reason", "multiple_decode_anomalies"),
                )
            },
        }
    }

    /// The action that records this anomaly as technical noise under its
    /// key.
    pub fn into_action(self) -> (r: AgentAction)
        ensures
            r matches AgentAction::UpdateWorkingMemory(WorkingMemoryDelta::AddTechnicalNoise(k, p))
                && k@ == anomaly_key(anomaly_kind(self)) && payload_is(self, p),
    {
        let k = self.key();
        let p = self.payload();
        AgentAction::UpdateWorkingMemory(WorkingMemoryDelta::AddTechnicalNoise(k, p))
    }

    /// The record of this anomaly: an object of its key and payload.
    pub fn record(&self) -> (r: Json)
        ensures
            object_of(r, 1) && entries(r)[0].0@ == anomaly_key(anomaly_kind(*self))
                && payload_is(*self, entries(r)[0].1),
    {
        let mut es: Vec<(String, Json)> = Vec::new();
        es.push((self.key(), self.payload()));
        Json::Object(es)
    }
}

} // verus!
