//! The catalog of built-in tools and how a toolset is composed by name.

use vstd::prelude::*;
use crate::agent::error::AgentError;
use crate::text::{push_str, string_from_chars};

verus! {

/// Every built-in tool.
#[derive(Debug, Clone, Copy, PartialEq, Eq, Structural)]
pub enum ToolKind {
    Identity,
    FollowUp,
    SearchStack,
    ScratchThought,
    WebSearch,
    LightCompute,
    ManageApp,
    InspectApp,
    EditorEdit,
    Microbash,
    FilesystemPatch,
    ScratchpadSearch,
    ExecutionRequest,
    ScratchpadEdit,
    CreateTicket,
    DeleteTicket,
    DeleteAllTickets,
    EditTicket,
    AddCommute,
    GetDirections,
    RemoveCommute,
    StartLiveDirections,
    CreateCountdown,
}

/// The names of the built-in tools, in catalog order.
pub open spec fn tool_names() -> Seq<Seq<char>> {
    seq![
        "identity"@, "follow_up"@, "search_stack"@, "scratch_thought"@, "web_search"@,
        "light_compute"@, "manage_app"@, "inspect_app"@, "editor_edit"@, "microbash"@,
        "filesystem_patch"@, "scratchpad_search"@, "execution_request"@, "scratchpad_edit"@,
        "create_ticket"@, "delete_ticket"@, "delete_all_tickets"@, "edit_ticket"@,
        "add_commute"@, "get_directions"@, "remove_commute"@, "start_live_directions"@,
        "create_countdown"@,
    ]
}

/// The tools in catalog order.
pub open spec fn tool_kinds() -> Seq<ToolKind> {
    seq![
        ToolKind::Identity, ToolKind::FollowUp, ToolKind::SearchStack, ToolKind::ScratchThought,
        ToolKind::WebSearch, ToolKind::LightCompute, ToolKind::ManageApp, ToolKind::InspectApp,
        ToolKind::EditorEdit, ToolKind::Microbash, ToolKind::FilesystemPatch,
        ToolKind::ScratchpadSearch, ToolKind::ExecutionRequest, ToolKind::ScratchpadEdit,
        ToolKind::CreateTicket, ToolKind::DeleteTicket, ToolKind::DeleteAllTickets,
        ToolKind::EditTicket, ToolKind::AddCommute, ToolKind::GetDirections,
        ToolKind::RemoveCommute, ToolKind::StartLiveDirections, ToolKind::CreateCountdown,
    ]
}

/// The first tool at or after position `k` of the catalog named `name`.
pub open spec fn tool_named_from(name: Seq<char>, k: nat) -> Option<ToolKind>
    decreases 23 - k,
{
    if k >= 23 {
        None
    } else if tool_names()[k as int] == name {
        Some(tool_kinds()[k as int])
    } else {
        tool_named_from(name, k + 1)
    }
}

/// The tool named `name`, if any.
pub open spec fn tool_named(name: Seq<char>) -> Option<ToolKind> {
    tool_named_from(name, 0)
}

/// The position of a tool in the catalog.
pub open spec fn tool_index(k: ToolKind) -> int {
    match k {
        ToolKind::Identity => 0,
        ToolKind::FollowUp => 1,
        ToolKind::SearchStack => 2,
        ToolKind::ScratchThought => 3,
        ToolKind::WebSearch => 4,
        ToolKind::LightCompute => 5,
        ToolKind::ManageApp => 6,
        ToolKind::InspectApp => 7,
        ToolKind::EditorEdit => 8,
        ToolKind::Microbash => 9,
        ToolKind::FilesystemPatch => 10,
        ToolKind::ScratchpadSearch => 11,
        ToolKind::ExecutionRequest => 12,
        ToolKind::ScratchpadEdit => 13,
        ToolKind::CreateTicket => 14,
        ToolKind::DeleteTicket => 15,
        ToolKind::DeleteAllTickets => 16,
        ToolKind::EditTicket => 17,
        ToolKind::AddCommute => 18,
        ToolKind::GetDirections => 19,
        ToolKind::RemoveCommute => 20,
        ToolKind::StartLiveDirections => 21,
        ToolKind::CreateCountdown => 22,
    }
}

/// The built-in tool names, in catalog order.
pub fn available_tools() -> (r: Vec<&'static str>)
    ensures
        r@.len() == 23,
        forall|i: int| 0 <= i < 23 ==> (#[trigger] r@[i])@ == tool_names()[i],
{
    let r = vec![
        "identity", "follow_up", "search_stack", "scratch_thought", "web_search",
        "light_compute", "manage_app", "inspect_app", "editor_edit", "microbash",
        "filesystem_patch", "scratchpad_search", "execution_request", "scratchpad_edit",
        "create_ticket", "delete_ticket", "delete_all_tickets", "edit_ticket", "add_commute",
        "get_directions", "remove_commute", "start_live_directions", "create_countdown",
    ];
    r
}

/// Whether the light-compute tool can run; it always can.
pub fn light_compute_is_available() -> (r: bool)
    ensures
        r,
{
    true
}

impl ToolKind {
    /// The name the provider calls the tool by.
    pub fn name(self) -> (r: &'static str)
        ensures
            r@ == tool_names()[tool_index(self)],
    {
        let names = available_tools();
        let i: usize = match self {
            ToolKind::Identity => 0,
            ToolKind::FollowUp => 1,
            ToolKind::SearchStack => 2,
            ToolKind::ScratchThought => 3,
            ToolKind::WebSearch => 4,
            ToolKind::LightCompute => 5,
            ToolKind::ManageApp => 6,
            ToolKind::InspectApp => 7,
            ToolKind::EditorEdit => 8,
            ToolKind::Microbash => 9,
            ToolKind::FilesystemPatch => 10,
            ToolKind::ScratchpadSearch => 11,
            ToolKind::ExecutionRequest => 12,
            ToolKind::ScratchpadEdit => 13,
            ToolKind::CreateTicket => 14,
            ToolKind::DeleteTicket => 15,
            ToolKind::DeleteAllTickets => 16,
            ToolKind::EditTicket => 17,
            ToolKind::AddCommute => 18,
            ToolKind::GetDirections => 19,
            ToolKind::RemoveCommute => 20,
            ToolKind::StartLiveDirections => 21,
            ToolKind::CreateCountdown => 22,
        };
        names[i]
    }
}

/// The names of the tool list, joined by `, `.
fn catalog_text() -> (r: Vec<char>)
    ensures
        r@ == crate::text::join(tool_names(), ", "@),
{
    let names = available_tools();
    let mut out: Vec<char> = Vec::new();
    let mut i: usize = 0;
    while i < names.len()
        invariant
            names@.len() == 23,
            forall|k: int| 0 <= k < 23 ==> (#[trigger] names@[k])@ == tool_names()[k],
            i <= 23,
            out@ == crate::text::join(tool_names().take(i as int), ", "@),
        decreases 23 - i,
    {
        assert(tool_names().take(i + 1).drop_last() =~= tool_names().take(i as int));
        if i > 0 {
            push_str(&mut out, ", ");
        }
        push_str(&mut out, names[i]);
        i = i + 1;
        proof {
            if i == 1 {
                assert(tool_names().take(1) =~= seq![tool_names()[0]]);
            }
        }
    }
    assert(tool_names().take(23) =~= tool_names());
    out
}

/// The message of the error for an unknown tool name.
pub open spec fn unknown_tool_message(name: Seq<char>) -> Seq<char> {
    "Unknown tool '"@ + name + "'. Available tools: "@ + crate::text::join(tool_names(), ", "@)
}

/// The tools named by `names`, in order: web search is left out when no
/// provider is configured; an unknown name is a configuration error.
pub open spec fn composed(names: Seq<Seq<char>>, web: bool) -> Result<Seq<ToolKind>, Seq<char>>
    decreases names.len(),
{
    if names.len() == 0 {
        Ok(Seq::empty())
    } else {
        match composed(names.drop_last(), web) {
            Err(e) => Err(e),
            Ok(prev) => match tool_named(names.last()) {
                None => Err(unknown_tool_message(names.last())),
                Some(ToolKind::WebSearch) => if web {
                    Ok(prev.push(ToolKind::WebSearch))
                } else {
                    Ok(prev)
                },
                Some(k) => Ok(prev.push(k)),
            },
        }
    }
}

/// The tool named `name`.
pub fn tool_by_name(name: &str) -> (r: Option<ToolKind>)
    ensures
        r == tool_named(name@),
{
    let names = available_tools();
    let kinds = [
        ToolKind::Identity, ToolKind::FollowUp, ToolKind::SearchStack, ToolKind::ScratchThought,
        ToolKind::WebSearch, ToolKind::LightCompute, ToolKind::ManageApp, ToolKind::InspectApp,
        ToolKind::EditorEdit, ToolKind::Microbash, ToolKind::FilesystemPatch,
        ToolKind::ScratchpadSearch, ToolKind::ExecutionRequest, ToolKind::ScratchpadEdit,
        ToolKind::CreateTicket, ToolKind::DeleteTicket, ToolKind::DeleteAllTickets,
        ToolKind::EditTicket, ToolKind::AddCommute, ToolKind::GetDirections,
        ToolKind::RemoveCommute, ToolKind::StartLiveDirections, ToolKind::CreateCountdown,
    ];
    assert(kinds@ == tool_kinds());
    let mut i: usize = 0;
    while i < 23
        invariant
            names@.len() == 23,
            forall|k: int| 0 <= k < 23 ==> (#[trigger] names@[k])@ == tool_names()[k],
            kinds@ == tool_kinds(),
            i <= 23,
            tool_named(name@) == tool_named_from(name@, i as nat),
        decreases 23 - i,
    {
        if crate::text::str_eq(names[i], name) {
            return Some(kinds[i]);
        }
        i = i + 1;
    }
    None
}

/// Builds a toolset from ordered names.
pub fn compose_tools(names: &Vec<String>, web_search_available: bool) -> (r: Result<Vec<ToolKind>, AgentError>)
    ensures
        match composed(crate::text::views(names@), web_search_available) {
            Ok(kinds) => r matches Ok(v) && v@ == kinds,
            Err(m) => r matches Err(AgentError::Configuration(s)) && s@ == m,
        },
{
    let mut out: Vec<ToolKind> = Vec::new();
    let mut i: usize = 0;
    while i < names.len()
        invariant
            i <= names@.len(),
            composed(crate::text::views(names@.take(i as int)), web_search_available) == Ok::<Seq<ToolKind>, Seq<char>>(out@),
        decreases names@.len() - i,
    {
        assert(crate::text::views(names@.take(i + 1)).drop_last() =~= crate::text::views(names@.take(i as int)));
        assert(crate::text::views(names@.take(i + 1)).last() == names@[i as int]@);
        match tool_by_name(names[i].as_str()) {
            None => {
                let mut msg: Vec<char> = Vec::new();
                push_str(&mut msg, "Unknown tool '");
                push_str(&mut msg, names[i].as_str());
                push_str(&mut msg, "'. Available tools: ");
                let listed = catalog_text();
                crate::text::push_chars(&mut msg, &listed);
                proof {
                    assert(crate::text::views(names@).take(i as int) =~= crate::text::views(names@.take(i as int)));
                    lemma_composed_err(crate::text::views(names@), i as int, web_search_available);
                }
                return Err(AgentError::Configuration(string_from_chars(&msg)));
            },
            Some(kind) => {
                if kind != ToolKind::WebSearch || web_search_available {
                    out.push(kind);
                }
            },
        }
        i = i + 1;
    }
    assert(names@.take(names@.len() as int) =~= names@);
    Ok(out)
}

/// An unknown name makes the whole composition fail with its message.
proof fn lemma_composed_err(names: Seq<Seq<char>>, i: int, web: bool)
    requires
        0 <= i < names.len(),
        composed(names.take(i), web) is Ok,
        tool_named(names[i]) is None,
    ensures
        composed(names, web) == Err::<Seq<ToolKind>, Seq<char>>(unknown_tool_message(names[i])),
    decreases names.len(),
{
    if names.len() - 1 == i {
        assert(names.drop_last() =~= names.take(i));
    } else {
        assert(names.drop_last().take(i) =~= names.take(i));
        lemma_composed_err(names.drop_last(), i, web);
    }
}

} // verus!
