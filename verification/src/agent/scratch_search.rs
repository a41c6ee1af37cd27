//! Searching the scratchpad: the lines that hold a query, ignoring ASCII
//! case.

use vstd::prelude::*;
use crate::agent::action::{AgentAction, WorkingMemoryDelta};
use crate::agent::error::AgentError;
use crate::agent::tools::ScratchpadSearchTool;
use crate::agent::trace::{entries, entry_is, object_of};
use crate::json::{trimmed_member, Json};
use crate::memory::WorkingMemory;
use crate::text::{chars_contain, chars_of, contains, lower, lower_chars, push_str, string_from_chars};

verus! {

/// The lines of `lines` that hold `needle` once lower-cased, with their
/// positions, in order.
pub open spec fn scratch_matches(lines: Seq<String>, needle: Seq<char>) -> Seq<(int, Seq<char>)>
    decreases lines.len(),
{
    if lines.len() == 0 {
        Seq::empty()
    } else {
        let r = scratch_matches(lines.drop_last(), needle);
        if contains(lower(lines.last()@), needle) {
            r.push(((lines.len() - 1) as int, lines.last()@))
        } else {
            r
        }
    }
}

/// `j` lists `ms`, each as its content and line.
pub open spec fn matches_are(j: Json, ms: Seq<(int, Seq<char>)>) -> bool {
    j matches Json::Array(items) && items@.len() == ms.len() && forall|i: int|
        0 <= i < ms.len() ==> object_of(#[trigger] items@[i], 2) && entry_is(
            entries(items@[i])[0],
            "content"@,
            ms[i].1,
        ) && entries(items@[i])[1].0@ == "line"@ && entries(items@[i])[1].1 == Json::Integer(ms[i].0 as i128)
}

/// The scratchpad lines holding `query`, ignoring ASCII case.
pub fn search_scratchpad(lines: &Vec<String>, query: &str) -> (r: Json)
    ensures
        matches_are(r, scratch_matches(lines@, lower(query@))),
{
    let q = chars_of(query);
    let needle = lower_chars(&q);
    let mut items: Vec<Json> = Vec::new();
    let ghost mut found: Seq<(int, Seq<char>)> = Seq::empty();
    let mut i: usize = 0;
    while i < lines.len()
        invariant
            i <= lines@.len(),
            needle@ == lower(query@),
            found == scratch_matches(lines@.take(i as int), needle@),
            items@.len() == found.len(),
            forall|k: int| 0 <= k < found.len() ==> object_of(#[trigger] items@[k], 2) && entry_is(
                entries(items@[k])[0],
                "content"@,
                found[k].1,
            ) && entries(items@[k])[1].0@ == "line"@ && entries(items@[k])[1].1 == Json::Integer(found[k].0 as i128),
        decreases lines@.len() - i,
    {
        assert(lines@.take(i + 1).drop_last() =~= lines@.take(i as int));
        let cs = chars_of(lines[i].as_str());
        let low = lower_chars(&cs);
        if chars_contain(&low, &needle) {
            let mut es: Vec<(String, Json)> = Vec::new();
            es.push((String::from_str("content"), Json::Str(lines[i].clone())));
            es.push((String::from_str("line"), Json::Integer(i as i128)));
            items.push(Json::Object(es));
            proof {
                found = found.push((i as int, lines@[i as int]@));
            }
        }
        i = i + 1;
    }
    assert(lines@.take(lines@.len() as int) =~= lines@);
    Json::Array(items)
}

impl ScratchpadSearchTool {
    /// Records the scratchpad lines that hold the query, under
    /// `scratchpad_search:` and the query.
    pub fn action(&self, args: &Json, memory: &WorkingMemory) -> (r: Result<AgentAction, AgentError>)
        ensures
            match trimmed_member(*args, "query"@) {
                Some(q) => r matches Ok(AgentAction::UpdateWorkingMemory(WorkingMemoryDelta::AddTechnicalNoise(k, p)))
                    && k@ == "scratchpad_search:"@ + q && object_of(p, 1) && entries(p)[0].0@ == "matches"@
                    && matches_are(entries(p)[0].1, scratch_matches(memory.workspace.scratchpad.document_lines@, lower(q))),
                None => r matches Err(AgentError::Provider(m)) && m@
                    == "scratchpad_search requires a non-empty 'query' string"@,
            },
    {
        let query = match self.read_query(args) {
            Ok(q) => q,
            Err(e) => return Err(e),
        };
        let found = search_scratchpad(&memory.workspace.scratchpad.document_lines, query.as_str());
        let mut k: Vec<char> = Vec::new();
        push_str(&mut k, "scratchpad_search:");
        push_str(&mut k, query.as_str());
        let mut es: Vec<(String, Json)> = Vec::new();
        es.push((String::from_str("matches"), found));
        Ok(AgentAction::UpdateWorkingMemory(WorkingMemoryDelta::AddTechnicalNoise(string_from_chars(&k), Json::Object(es))))
    }
}

} // verus!
