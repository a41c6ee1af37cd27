//! The built-in tools that need no outside service, and how each one reads
//! its arguments into the action it asks for.

use vstd::prelude::*;
use crate::agent::action::{AgentAction, WorkingMemoryDelta};
use crate::agent::error::AgentError;
use crate::json::{member, member_i64, member_text, text_of, trimmed_member, trimmed_member_text, int_of, Json};
use crate::text::{push_str, str_eq, string_from_chars, trim};
use crate::workspace::delta::WorkspaceDelta;
use crate::workspace::model::{app_is_available, available, label_of, AppId};

verus! {

/// Ends a run with the final answer.
pub struct IdentityTool;

/// Records a clarifying question without ending the run.
pub struct FollowUpTool;

/// Writes a thought into the scratchpad.
pub struct ScratchThought;

/// Searches the user's own stack.
pub struct SearchStack;

/// Opens, closes, focuses, pins, unpins or scrolls workspace apps.
pub struct ManageAppTool;

/// Opens a workspace app by id.
pub struct OpenAppTool;

/// Shows an app's visible viewport and lifecycle.
pub struct InspectAppTool;

/// Searches the scratchpad.
pub struct ScratchpadSearchTool;

/// Edits the scratchpad by rows.
pub struct ScratchpadEditTool;

/// Proposes a new ticket.
pub struct CreateTicketTool;

/// Proposes deleting a ticket.
pub struct DeleteTicketTool;

/// Proposes deleting every ticket.
pub struct DeleteAllTicketsTool;

/// Proposes editing a ticket.
pub struct EditTicketTool;

/// Proposes a recurring commute.
pub struct AddCommuteTool;

/// Proposes a directions commute.
pub struct GetDirectionsTool;

/// Proposes removing a commute.
pub struct RemoveCommuteTool;

/// Proposes live directions with a deadline.
pub struct StartLiveDirectionsTool;

/// Proposes a countdown ticket.
pub struct CreateCountdownTool;

/// A provider error with the text `msg`.
fn provider_error<T>(msg: &str) -> (r: Result<T, AgentError>)
    ensures
        r matches Err(AgentError::Provider(s)) && s@ == msg@,
{
    Err(AgentError::Provider(String::from_str(msg)))
}

/// The final answer in `args`: its `answer` string, trimmed; it may be
/// empty. Without an `answer` string there is no answer.
pub open spec fn identity_answer(args: Json) -> Option<Seq<char>> {
    match text_of(member(args, "answer"@)) {
        Some(t) => Some(trim(t)),
        None => None,
    }
}

impl IdentityTool {
    /// The tool's name.
    pub fn name(&self) -> (r: &'static str)
        ensures
            r@ == "identity"@,
    {
        "identity"
    }

    /// Reads the arguments: stops the run with the `answer` string,
    /// trimmed (an empty answer is an explicit empty reply).
    pub fn action(&self, args: &Json) -> (r: Result<AgentAction, AgentError>)
        ensures
            match identity_answer(*args) {
                Some(a) => r matches Ok(AgentAction::Stop(s)) && s@ == a,
                None => r matches Err(AgentError::Provider(m)) && m@
                    == "identity requires an 'answer' string"@,
            },
    {
        match member_text(args, "answer") {
            Some(s) => Ok(AgentAction::Stop(crate::text::trim_string(s.as_str()))),
            None => provider_error("identity requires an 'answer' string"),
        }
    }
}

/// The trace that a follow-up question leaves: the question, and the reason
/// or `null`.
pub open spec fn follow_up_trace(question: Seq<char>, reason: Option<Seq<char>>, payload: Json) -> bool {
    &&& payload matches Json::Object(entries)
    &&& entries@.len() == 2
    &&& entries@[0].0@ == "question"@
    &&& (entries@[0].1 matches Json::Str(q) && q@ == question)
    &&& entries@[1].0@ == "reason"@
    &&& match reason {
        Some(text) => (entries@[1].1 matches Json::Str(t) && t@ == text),
        None => entries@[1].1 is Null,
    }
}

impl FollowUpTool {
    /// The tool's name.
    pub fn name(&self) -> (r: &'static str)
        ensures
            r@ == "follow_up"@,
    {
        "follow_up"
    }

    /// Reads the arguments: records the trimmed `question` (it must not be
    /// blank) and the trimmed `reason` when one is given, under `follow_up`.
    pub fn action(&self, args: &Json) -> (r: Result<AgentAction, AgentError>)
        ensures
            match trimmed_member(*args, "question"@) {
                Some(q) => r matches Ok(AgentAction::UpdateWorkingMemory(
                    WorkingMemoryDelta::AddTechnicalNoise(key, payload),
                )) && key@ == "follow_up"@ && follow_up_trace(
                    q,
                    trimmed_member(*args, "reason"@),
                    payload,
                ),
                None => r matches Err(AgentError::Provider(m)) && m@
                    == "follow_up requires a non-empty 'question' string"@,
            },
    {
        let question = match trimmed_member_text(args, "question") {
            Some(q) => q,
            None => return provider_error("follow_up requires a non-empty 'question' string"),
        };
        let reason = match trimmed_member_text(args, "reason") {
            Some(t) => Json::Str(t),
            None => Json::Null,
        };
        let mut entries: Vec<(String, Json)> = Vec::new();
        entries.push((String::from_str("question"), Json::Str(question)));
        entries.push((String::from_str("reason"), reason));
        Ok(
            AgentAction::UpdateWorkingMemory(
                WorkingMemoryDelta::AddTechnicalNoise(String::from_str("follow_up"), Json::Object(entries)),
            ),
        )
    }
}

/// What a scratch thought carries: the trimmed thought and whether an
/// object of metadata comes with it.
pub struct ThoughtArgs {
    pub thought: String,
    pub has_metadata: bool,
}

impl ScratchThought {
    /// The tool's name.
    pub fn name(&self) -> (r: &'static str)
        ensures
            r@ == "scratch_thought"@,
    {
        "scratch_thought"
    }

    /// Reads the arguments: the trimmed `thought` must not be blank; the
    /// `metadata`, when present and not `null`, must be an object.
    pub fn read_args(&self, args: &Json) -> (r: Result<ThoughtArgs, AgentError>)
        ensures
            match trimmed_member(*args, "thought"@) {
                None => r matches Err(AgentError::Provider(m)) && m@
                    == "scratch_thought requires a non-empty 'thought' string"@,
                Some(t) => match member(*args, "metadata"@) {
                    None | Some(Json::Null) => r matches Ok(a) && a.thought@ == t && !a.has_metadata,
                    Some(Json::Object(_)) => r matches Ok(a) && a.thought@ == t && a.has_metadata,
                    Some(_) => r matches Err(AgentError::Provider(m)) && m@
                        == "scratch_thought 'metadata' must be an object when provided"@,
                },
            },
    {
        let thought = match trimmed_member_text(args, "thought") {
            Some(t) => t,
            None => return provider_error("scratch_thought requires a non-empty 'thought' string"),
        };
        match args.get("metadata") {
            None => Ok(ThoughtArgs { thought, has_metadata: false }),
            Some(Json::Null) => Ok(ThoughtArgs { thought, has_metadata: false }),
            Some(Json::Object(_)) => Ok(ThoughtArgs { thought, has_metadata: true }),
            Some(_) => provider_error("scratch_thought 'metadata' must be an object when provided"),
        }
    }
}

impl SearchStack {
    /// The tool's name.
    pub fn name(&self) -> (r: &'static str)
        ensures
            r@ == "search_stack"@,
    {
        "search_stack"
    }

    /// Reads the arguments: the trimmed `query`, which must not be blank.
    pub fn read_query(&self, args: &Json) -> (r: Result<String, AgentError>)
        ensures
            match trimmed_member(*args, "query"@) {
                Some(q) => r matches Ok(s) && s@ == q,
                None => r matches Err(AgentError::Provider(m)) && m@
                    == "search_stack requires a non-empty 'query' string"@,
            },
    {
        match trimmed_member_text(args, "query") {
            Some(q) => Ok(q),
            None => provider_error("search_stack requires a non-empty 'query' string"),
        }
    }
}

/// The app that the dock tools name `name`.
pub open spec fn dock_app_named(name: Seq<char>) -> Option<AppId> {
    if name == "scratchpad"@ {
        Some(AppId::Scratchpad)
    } else if name == "websearch"@ {
        Some(AppId::WebSearch)
    } else if name == "stack-search"@ {
        Some(AppId::StackSearch)
    } else if name == "compute"@ {
        Some(AppId::Compute)
    } else if name == "file-tree"@ {
        Some(AppId::FileTree)
    } else if name == "editor"@ {
        Some(AppId::Editor)
    } else if name == "file-search"@ {
        Some(AppId::FileSearch)
    } else if name == "jobs"@ {
        Some(AppId::Jobs)
    } else {
        None
    }
}

/// The app that `open_app` names `name`, aliases with `_` included.
pub open spec fn open_app_named(name: Seq<char>) -> Option<AppId> {
    if name == "scratchpad"@ {
        Some(AppId::Scratchpad)
    } else if name == "websearch"@ {
        Some(AppId::WebSearch)
    } else if name == "stack-search"@ || name == "stack_search"@ {
        Some(AppId::StackSearch)
    } else if name == "compute"@ {
        Some(AppId::Compute)
    } else if name == "cli"@ {
        Some(AppId::Cli)
    } else if name == "file-tree"@ || name == "file_tree"@ {
        Some(AppId::FileTree)
    } else if name == "editor"@ {
        Some(AppId::Editor)
    } else if name == "file-search"@ || name == "file_search"@ {
        Some(AppId::FileSearch)
    } else if name == "jobs"@ {
        Some(AppId::Jobs)
    } else {
        None
    }
}

/// The app named in the `app_id` member, for the dock tools.
pub open spec fn dock_app_arg(args: Json) -> Option<AppId> {
    match text_of(member(args, "app_id"@)) {
        Some(t) => dock_app_named(t),
        None => None,
    }
}

/// The app that the dock tools name `name`.
pub fn dock_app_by_name(name: &str) -> (r: Option<AppId>)
    ensures
        r == dock_app_named(name@),
{
    if str_eq(name, "scratchpad") {
        Some(AppId::Scratchpad)
    } else if str_eq(name, "websearch") {
        Some(AppId::WebSearch)
    } else if str_eq(name, "stack-search") {
        Some(AppId::StackSearch)
    } else if str_eq(name, "compute") {
        Some(AppId::Compute)
    } else if str_eq(name, "file-tree") {
        Some(AppId::FileTree)
    } else if str_eq(name, "editor") {
        Some(AppId::Editor)
    } else if str_eq(name, "file-search") {
        Some(AppId::FileSearch)
    } else if str_eq(name, "jobs") {
        Some(AppId::Jobs)
    } else {
        None
    }
}

/// The app named in `args` for the dock tools.
fn dock_app_of(args: &Json) -> (r: Option<AppId>)
    ensures
        r == dock_app_arg(*args),
{
    match member_text(args, "app_id") {
        Some(t) => dock_app_by_name(t.as_str()),
        None => None,
    }
}

/// `prefix` followed by the app's label and a closing quote.
fn app_message(prefix: &str, app: AppId) -> (r: String)
    ensures
        r@ == prefix@ + label_of(app) + "'"@,
{
    let mut m: Vec<char> = Vec::new();
    push_str(&mut m, prefix);
    push_str(&mut m, app.label());
    push_str(&mut m, "'");
    string_from_chars(&m)
}

/// How many lines a scroll moves: the `lines` integer, 5 when absent, at
/// least 1.
pub open spec fn scroll_lines(args: Json) -> int {
    match int_of(member(args, "lines"@)) {
        Some(n) => if n < 1 {
            1
        } else {
            n
        },
        None => 5,
    }
}

/// `n` negated, wrapping at the least `isize`.
pub open spec fn negated(n: isize) -> isize {
    if n == isize::MIN {
        n
    } else {
        (-n) as isize
    }
}

/// The delta that `manage_app` asks for with `action` on `app`.
pub open spec fn managed_delta(action: Seq<char>, app: AppId, lines: isize) -> Option<WorkspaceDelta> {
    if action == "open"@ {
        Some(WorkspaceDelta::OpenApp(app))
    } else if action == "close"@ {
        Some(WorkspaceDelta::CloseApp(app))
    } else if action == "focus"@ {
        Some(WorkspaceDelta::FocusApp(app))
    } else if action == "pin"@ {
        Some(WorkspaceDelta::PinApp(app))
    } else if action == "unpin"@ {
        Some(WorkspaceDelta::UnpinApp(app))
    } else if action == "scroll_up"@ {
        Some(WorkspaceDelta::ScrollApp { app_id: app, delta: negated(lines) })
    } else if action == "scroll_down"@ {
        Some(WorkspaceDelta::ScrollApp { app_id: app, delta: lines })
    } else {
        None
    }
}

/// Scrolling up moves the viewport toward the start: by `n` lines (at
/// least one), `scroll_up` gives a negative delta of `-n`, and
/// `scroll_down` the opposite one, `n`.
pub proof fn scroll_up_and_down_are_opposite(app: AppId, n: isize)
    requires
        n >= 1,
    ensures
        managed_delta("scroll_up"@, app, n) matches Some(WorkspaceDelta::ScrollApp { app_id: a, delta: up }) && a
            == app && up < 0 && up == -n,
        managed_delta("scroll_down"@, app, n) matches Some(WorkspaceDelta::ScrollApp { app_id: b, delta: down })
            && b == app && down == n,
{
    reveal_strlit("open");
    reveal_strlit("close");
    reveal_strlit("focus");
    reveal_strlit("pin");
    reveal_strlit("unpin");
    reveal_strlit("scroll_up");
    reveal_strlit("scroll_down");
    assert("scroll_up"@.len() != "open"@.len() && "scroll_up"@.len() != "close"@.len());
    assert("scroll_up"@.len() != "focus"@.len() && "scroll_up"@.len() != "pin"@.len());
    assert("scroll_up"@.len() != "unpin"@.len());
    assert("scroll_down"@.len() != "open"@.len() && "scroll_down"@.len() != "close"@.len());
    assert("scroll_down"@.len() != "focus"@.len() && "scroll_down"@.len() != "pin"@.len());
    assert("scroll_down"@.len() != "unpin"@.len() && "scroll_down"@.len() != "scroll_up"@.len());
}

/// A scroll moves by at least one line: however `lines` is given, the
/// amount is positive.
pub proof fn scroll_moves_at_least_one_line(args: Json)
    ensures
        scroll_lines(args) >= 1,
{
}

impl ManageAppTool {
    /// The tool's name.
    pub fn name(&self) -> (r: &'static str)
        ensures
            r@ == "manage_app"@,
    {
        "manage_app"
    }

    /// Reads the arguments: an `action` string, then a valid `app_id` of
    /// an available app, then the action itself; scrolls move by `lines`.
    pub fn action(&self, args: &Json, web_search_available: bool) -> (r: Result<AgentAction, AgentError>)
        ensures
            match text_of(member(*args, "action"@)) {
                None => r matches Err(AgentError::Provider(m)) && m@
                    == "manage_app requires an 'action' string"@,
                Some(action) => match dock_app_arg(*args) {
                    None => r matches Err(AgentError::Provider(m)) && m@
                        == "manage_app requires a valid 'app_id'"@,
                    Some(app) => if !available(app, web_search_available) {
                        r matches Err(AgentError::Provider(m)) && m@
                            == "manage_app cannot operate on unavailable app '"@ + label_of(app) + "'"@
                    } else {
                        match managed_delta(action, app, scroll_lines(*args) as isize) {
                            Some(d) => r matches Ok(AgentAction::UpdateWorkspace(x)) && x == d,
                            None => r matches Err(AgentError::Provider(m)) && m@
                                == "manage_app received unsupported action"@,
                        }
                    },
                },
            },
    {
        let action = match member_text(args, "action") {
            Some(a) => a,
            None => return provider_error("manage_app requires an 'action' string"),
        };
        let app_id = match dock_app_of(args) {
            Some(a) => a,
            None => return provider_error("manage_app requires a valid 'app_id'"),
        };
        if !app_is_available(app_id, web_search_available) {
            return Err(AgentError::Provider(app_message("manage_app cannot operate on unavailable app '", app_id)));
        }
        let raw: i64 = match member_i64(args, "lines") {
            Some(n) => n,
            None => 5,
        };
        let lines: isize = if raw < 1 {
            1
        } else {
            raw as isize
        };
        let a = action.as_str();
        let delta = if str_eq(a, "open") {
            WorkspaceDelta::OpenApp(app_id)
        } else if str_eq(a, "close") {
            WorkspaceDelta::CloseApp(app_id)
        } else if str_eq(a, "focus") {
            WorkspaceDelta::FocusApp(app_id)
        } else if str_eq(a, "pin") {
            WorkspaceDelta::PinApp(app_id)
        } else if str_eq(a, "unpin") {
            WorkspaceDelta::UnpinApp(app_id)
        } else if str_eq(a, "scroll_up") {
            WorkspaceDelta::ScrollApp { app_id, delta: if lines == isize::MIN { lines } else { -lines } }
        } else if str_eq(a, "scroll_down") {
            WorkspaceDelta::ScrollApp { app_id, delta: lines }
        } else {
            return provider_error("manage_app received unsupported action");
        };
        Ok(AgentAction::UpdateWorkspace(delta))
    }
}

/// The app that `open_app` names `name`.
pub fn open_app_by_name(name: &str) -> (r: Option<AppId>)
    ensures
        r == open_app_named(name@),
{
    if str_eq(name, "scratchpad") {
        Some(AppId::Scratchpad)
    } else if str_eq(name, "websearch") {
        Some(AppId::WebSearch)
    } else if str_eq(name, "stack-search") || str_eq(name, "stack_search") {
        Some(AppId::StackSearch)
    } else if str_eq(name, "compute") {
        Some(AppId::Compute)
    } else if str_eq(name, "cli") {
        Some(AppId::Cli)
    } else if str_eq(name, "file-tree") || str_eq(name, "file_tree") {
        Some(AppId::FileTree)
    } else if str_eq(name, "editor") {
        Some(AppId::Editor)
    } else if str_eq(name, "file-search") || str_eq(name, "file_search") {
        Some(AppId::FileSearch)
    } else if str_eq(name, "jobs") {
        Some(AppId::Jobs)
    } else {
        None
    }
}

impl OpenAppTool {
    /// The tool's name.
    pub fn name(&self) -> (r: &'static str)
        ensures
            r@ == "open_app"@,
    {
        "open_app"
    }

    /// Reads the arguments: opens the available app named by `app_id`.
    pub fn action(&self, args: &Json, web_search_available: bool) -> (r: Result<AgentAction, AgentError>)
        ensures
            match (match text_of(member(*args, "app_id"@)) {
                Some(t) => open_app_named(t),
                None => None,
            }) {
                None => r matches Err(AgentError::Provider(m)) && m@
                    == "open_app requires a valid 'app_id'"@,
                Some(app) => if !available(app, web_search_available) {
                    r matches Err(AgentError::Provider(m)) && m@
                        == "open_app cannot operate on unavailable app '"@ + label_of(app) + "'"@
                } else {
                    r matches Ok(AgentAction::UpdateWorkspace(x)) && x == WorkspaceDelta::OpenApp(app)
                },
            },
    {
        let app_id = match member_text(args, "app_id") {
            Some(t) => match open_app_by_name(t.as_str()) {
                Some(a) => a,
                None => return provider_error("open_app requires a valid 'app_id'"),
            },
            None => return provider_error("open_app requires a valid 'app_id'"),
        };
        if !app_is_available(app_id, web_search_available) {
            return Err(AgentError::Provider(app_message("open_app cannot operate on unavailable app '", app_id)));
        }
        Ok(AgentAction::UpdateWorkspace(WorkspaceDelta::OpenApp(app_id)))
    }
}

impl InspectAppTool {
    /// The tool's name.
    pub fn name(&self) -> (r: &'static str)
        ensures
            r@ == "inspect_app"@,
    {
        "inspect_app"
    }

    /// Reads the arguments: the available app named by `app_id`.
    pub fn read_app(&self, args: &Json, web_search_available: bool) -> (r: Result<AppId, AgentError>)
        ensures
            match dock_app_arg(*args) {
                None => r matches Err(AgentError::Provider(m)) && m@
                    == "inspect_app requires a valid 'app_id'"@,
                Some(app) => if !available(app, web_search_available) {
                    r matches Err(AgentError::Provider(m)) && m@
                        == "inspect_app cannot inspect unavailable app '"@ + label_of(app) + "'"@
                } else {
                    r == Ok::<AppId, AgentError>(app)
                },
            },
    {
        let app_id = match dock_app_of(args) {
            Some(a) => a,
            None => return provider_error("inspect_app requires a valid 'app_id'"),
        };
        if !app_is_available(app_id, web_search_available) {
            return Err(AgentError::Provider(app_message("inspect_app cannot inspect unavailable app '", app_id)));
        }
        Ok(app_id)
    }
}

impl ScratchpadSearchTool {
    /// The tool's name.
    pub fn name(&self) -> (r: &'static str)
        ensures
            r@ == "scratchpad_search"@,
    {
        "scratchpad_search"
    }

    /// Reads the arguments: the trimmed `query`, which must not be blank.
    pub fn read_query(&self, args: &Json) -> (r: Result<String, AgentError>)
        ensures
            match trimmed_member(*args, "query"@) {
                Some(q) => r matches Ok(s) && s@ == q,
                None => r matches Err(AgentError::Provider(m)) && m@
                    == "scratchpad_search requires a non-empty 'query' string"@,
            },
    {
        match trimmed_member_text(args, "query") {
            Some(q) => Ok(q),
            None => provider_error("scratchpad_search requires a non-empty 'query' string"),
        }
    }
}

impl CreateTicketTool {
    /// The tool's name.
    pub fn name(&self) -> (r: &'static str)
        ensures
            r@ == "create_ticket"@,
    {
        "create_ticket"
    }
}

impl DeleteTicketTool {
    /// The tool's name.
    pub fn name(&self) -> (r: &'static str)
        ensures
            r@ == "delete_ticket"@,
    {
        "delete_ticket"
    }
}

impl DeleteAllTicketsTool {
    /// The tool's name.
    pub fn name(&self) -> (r: &'static str)
        ensures
            r@ == "delete_all_tickets"@,
    {
        "delete_all_tickets"
    }
}

impl EditTicketTool {
    /// The tool's name.
    pub fn name(&self) -> (r: &'static str)
        ensures
            r@ == "edit_ticket"@,
    {
        "edit_ticket"
    }
}

impl AddCommuteTool {
    /// The tool's name.
    pub fn name(&self) -> (r: &'static str)
        ensures
            r@ == "add_commute"@,
    {
        "add_commute"
    }
}

impl GetDirectionsTool {
    /// The tool's name.
    pub fn name(&self) -> (r: &'static str)
        ensures
            r@ == "get_directions"@,
    {
        "get_directions"
    }
}

impl RemoveCommuteTool {
    /// The tool's name.
    pub fn name(&self) -> (r: &'static str)
        ensures
            r@ == "remove_commute"@,
    {
        "remove_commute"
    }
}

impl StartLiveDirectionsTool {
    /// The tool's name.
    pub fn name(&self) -> (r: &'static str)
        ensures
            r@ == "start_live_directions"@,
    {
        "start_live_directions"
    }
}

impl CreateCountdownTool {
    /// The tool's name.
    pub fn name(&self) -> (r: &'static str)
        ensures
            r@ == "create_countdown"@,
    {
        "create_countdown"
    }
}

} // verus!
