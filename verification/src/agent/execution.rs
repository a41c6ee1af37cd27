//! Constrained execution requests: reading a `run_tool` request, admitting
//! only the internal light-compute tool, and the records that runs,
//! failures and cancellations leave.

use vstd::prelude::*;
use crate::agent::action::{AgentAction, WorkingMemoryDelta};
use crate::agent::error::AgentError;
use crate::json::{member, member_text, member_u64, text_of, uint_of, Json};
use crate::text::{push_str, str_eq, string_from_chars};
use vstd::string::StringSliceAdditionalSpecFns;

verus! {

/// What a run may read on standard input.
#[derive(Debug, Clone, Copy, PartialEq, Eq, Structural)]
pub enum StdinPolicy {
    Disabled,
    Empty,
}

/// What a run may reach on the network.
#[derive(Debug, Clone, Copy, PartialEq, Eq, Structural)]
pub enum NetworkPolicy {
    Deny,
}

/// How a run's output is handed back.
#[derive(Debug, Clone, Copy, PartialEq, Eq, Structural)]
pub enum OutputStreamingPolicy {
    Buffered,
    Streaming,
}

/// Which filesystem sandbox a run gets.
#[derive(Debug, Clone, Copy, PartialEq, Eq, Structural)]
pub enum CapabilityProfile {
    SafeDataSandbox,
    ProjectSandbox,
}

/// The limits of a run.
#[derive(Debug, Clone, Copy, PartialEq, Eq, Structural)]
pub struct ExecutionLimits {
    pub timeout_ms: u64,
    pub max_output_bytes: u64,
}

/// A request to run an allowlisted tool.
#[derive(Debug, Clone, PartialEq, Eq)]
pub struct RunToolRequest {
    pub tool_id: String,
    pub argv: Vec<String>,
    pub cwd: String,
    pub env_allowlist: Vec<String>,
    pub stdin_policy: StdinPolicy,
    pub network_policy: NetworkPolicy,
    pub output_streaming_policy: OutputStreamingPolicy,
    pub filesystem_capability_profile: CapabilityProfile,
    pub limits: ExecutionLimits,
}

/// One execution operation.
#[derive(Debug, Clone, PartialEq, Eq)]
pub enum ExecutionOperation {
    RunTool(RunToolRequest),
    PollExecution(String),
    CollectOutput(String),
    CancelExecution(String),
}

/// The strings of a JSON array whose items are all strings.
pub open spec fn strings_of(items: Seq<Json>) -> Option<Seq<Seq<char>>>
    decreases items.len(),
{
    if items.len() == 0 {
        Some(Seq::empty())
    } else {
        match (strings_of(items.drop_last()), items.last()) {
            (Some(prev), Json::Str(s)) => Some(prev.push(s@)),
            _ => None,
        }
    }
}

/// The strings of a JSON array.
fn string_items(items: &Vec<Json>) -> (r: Option<Vec<String>>)
    ensures
        match strings_of(items@) {
            Some(ss) => r matches Some(v) && crate::text::views(v@) == ss,
            None => r is None,
        },
{
    let mut out: Vec<String> = Vec::new();
    let mut i: usize = 0;
    assert(items@.take(0) =~= Seq::<Json>::empty());
    while i < items.len()
        invariant
            i <= items@.len(),
            strings_of(items@.take(i as int)) == Some(crate::text::views(out@)),
        decreases items@.len() - i,
    {
        assert(items@.take(i + 1).drop_last() =~= items@.take(i as int));
        match &items[i] {
            Json::Str(s) => {
                let ghost before = out@;
                out.push(s.clone());
                assert(crate::text::views(out@) =~= crate::text::views(before).push(s@));
            },
            _ => {
                proof {
                    lemma_strings_stuck(items@, i as int + 1);
                }
                return None;
            },
        }
        i = i + 1;
    }
    assert(items@.take(items@.len() as int) =~= items@);
    Some(out)
}

proof fn lemma_strings_stuck(items: Seq<Json>, k: int)
    requires
        0 < k <= items.len(),
        strings_of(items.take(k)) is None,
    ensures
        strings_of(items) is None,
    decreases items.len() - k,
{
    if k < items.len() {
        assert(items.take(k + 1).drop_last() =~= items.take(k));
        lemma_strings_stuck(items, k + 1);
    } else {
        assert(items.take(k) =~= items);
    }
}

/// The texts of member `key` when it is an array of strings.
pub open spec fn member_strings(args: Json, key: Seq<char>) -> Option<Seq<Seq<char>>> {
    match member(args, key) {
        Some(Json::Array(items)) => strings_of(items@),
        _ => None,
    }
}

/// The text of member `key`, or `default` when it is not a string.
pub open spec fn text_or(args: Json, key: Seq<char>, default: Seq<char>) -> Seq<char> {
    match text_of(member(args, key)) {
        Some(t) => t,
        None => default,
    }
}

/// The unsigned member `key`, or `default`.
pub open spec fn uint_or(args: Json, key: Seq<char>, default: int) -> int {
    match uint_of(member(args, key)) {
        Some(n) => n,
        None => default,
    }
}

/// A provider error with the text `msg`.
fn provider_error<T>(msg: &str) -> (r: Result<T, AgentError>)
    ensures
        r matches Err(AgentError::Provider(s)) && s@ == msg@,
{
    Err(AgentError::Provider(String::from_str(msg)))
}

/// The text of member `key`, or `default`.
fn text_or_default(args: &Json, key: &str, default: &str) -> (r: String)
    ensures
        r@ == text_or(*args, key@, default@),
{
    match member_text(args, key) {
        Some(t) => t,
        None => String::from_str(default),
    }
}

/// `r` is the `run_tool` request that `args` describe, or the error that
/// refuses them.
pub open spec fn run_request_of(args: Json, r: Result<RunToolRequest, AgentError>) -> bool {
    let stdin = text_or(args, "stdin_policy"@, "disabled"@);
    let network = text_or(args, "network_policy"@, "deny"@);
    let streaming = text_or(args, "output_streaming_policy"@, "buffered"@);
    let profile = text_or(args, "filesystem_capability_profile"@, "project_sandbox"@);
    match text_of(member(args, "tool_id"@)) {
        None => crate::agent::error::is_provider_error(r, "execution_request run_tool requires string 'tool_id'"@),
        Some(tool_id) => match member(args, "argv"@) {
            Some(Json::Array(items)) => match strings_of(items@) {
                None => crate::agent::error::is_provider_error(r, "execution_request 'argv' must contain strings"@),
                Some(argv) => match text_of(member(args, "cwd"@)) {
                    None => crate::agent::error::is_provider_error(r, "execution_request run_tool requires string 'cwd'"@),
                    Some(cwd) => if !(cwd.len() > 0 && cwd[0] == '/') {
                        crate::agent::error::is_provider_error(r, "execution_request cwd error: path must be absolute"@)
                    } else {
                        match crate::vpath::resolved("/"@, cwd) {
                            None => crate::agent::error::is_provider_error(
                                r,
                                "execution_request cwd error: path escapes the virtual root"@,
                            ),
                            Some(canonical) => match member(args, "env_allowlist"@) {
                                Some(Json::Array(env)) if strings_of(env@) is None => crate::agent::error::is_provider_error(
                                    r,
                                    "execution_request 'env_allowlist' must contain strings"@,
                                ),
                                _ => if stdin != "disabled"@ && stdin != "empty"@ {
                                    crate::agent::error::is_provider_error(
                                        r,
                                        "execution_request stdin_policy must be 'disabled' or 'empty'"@,
                                    )
                                } else if network != "deny"@ {
                                    crate::agent::error::is_provider_error(
                                        r,
                                        "execution_request network_policy must be 'deny' in the public runtime"@,
                                    )
                                } else if streaming != "buffered"@ && streaming != "streaming"@ {
                                    crate::agent::error::is_provider_error(
                                        r,
                                        "execution_request output_streaming_policy must be 'buffered' or 'streaming'"@,
                                    )
                                } else if profile != "safe_data_sandbox"@ && profile != "project_sandbox"@ {
                                    crate::agent::error::is_provider_error(
                                        r,
                                        "execution_request filesystem_capability_profile must be 'safe_data_sandbox' or 'project_sandbox'"@,
                                    )
                                } else {
                                    r matches Ok(q) && q.tool_id@ == tool_id && crate::text::views(q.argv@) == argv
                                        && q.cwd@ == canonical && crate::text::views(q.env_allowlist@) == (match member_strings(args, "env_allowlist"@) {
                                            Some(e) => e,
                                            None => Seq::empty(),
                                        }) && q.stdin_policy == (if stdin == "disabled"@ {
                                            StdinPolicy::Disabled
                                        } else {
                                            StdinPolicy::Empty
                                        }) && q.network_policy == NetworkPolicy::Deny
                                        && q.output_streaming_policy == (if streaming == "buffered"@ {
                                            OutputStreamingPolicy::Buffered
                                        } else {
                                            OutputStreamingPolicy::Streaming
                                        }) && q.filesystem_capability_profile == (if profile == "safe_data_sandbox"@ {
                                            CapabilityProfile::SafeDataSandbox
                                        } else {
                                            CapabilityProfile::ProjectSandbox
                                        }) && q.limits.timeout_ms == uint_or(args, "timeout_ms"@, 1000)
                                        && q.limits.max_output_bytes == uint_or(args, "max_output_bytes"@, 65536)
                                },
                            },
                        }
                    },
                },
            },
            _ => crate::agent::error::is_provider_error(r, "execution_request run_tool requires array 'argv'"@),
        },
    }
}

/// Reads a `run_tool` request: `tool_id`, `argv` and an absolute `cwd` are
/// required; `env_allowlist` defaults to none; the policies default to
/// disabled stdin, denied network, buffered output and the project
/// sandbox; the limits default to 1000 ms and 65536 bytes.
pub fn parse_run_tool_request(args: &Json) -> (r: Result<RunToolRequest, AgentError>)
    ensures
        run_request_of(*args, r),
{
    let tool_id = match member_text(args, "tool_id") {
        Some(t) => t,
        None => return provider_error("execution_request run_tool requires string 'tool_id'"),
    };
    let argv = match args.get("argv") {
        Some(Json::Array(items)) => match string_items(items) {
            Some(v) => v,
            None => return provider_error("execution_request 'argv' must contain strings"),
        },
        _ => return provider_error("execution_request run_tool requires array 'argv'"),
    };
    let cwd_text = match member_text(args, "cwd") {
        Some(t) => t,
        None => return provider_error("execution_request run_tool requires string 'cwd'"),
    };
    let cwd_chars = crate::text::chars_of(cwd_text.as_str());
    if !(cwd_chars.len() > 0 && cwd_chars[0] == '/') {
        return provider_error("execution_request cwd error: path must be absolute");
    }
    let cwd = match crate::vpath::resolve_path("/", cwd_text.as_str()) {
        Ok(p) => p,
        Err(_) => return provider_error("execution_request cwd error: path escapes the virtual root"),
    };
    let env_allowlist = match args.get("env_allowlist") {
        Some(Json::Array(env)) => match string_items(env) {
            Some(v) => v,
            None => return provider_error("execution_request 'env_allowlist' must contain strings"),
        },
        _ => {
            let v: Vec<String> = Vec::new();
            assert(crate::text::views(v@) =~= Seq::<Seq<char>>::empty());
            v
        },
    };
    let stdin = text_or_default(args, "stdin_policy", "disabled");
    let stdin_policy = if str_eq(stdin.as_str(), "disabled") {
        StdinPolicy::Disabled
    } else if str_eq(stdin.as_str(), "empty") {
        StdinPolicy::Empty
    } else {
        return provider_error("execution_request stdin_policy must be 'disabled' or 'empty'");
    };
    let network = text_or_default(args, "network_policy", "deny");
    if !str_eq(network.as_str(), "deny") {
        return provider_error("execution_request network_policy must be 'deny' in the public runtime");
    }
    let streaming = text_or_default(args, "output_streaming_policy", "buffered");
    let output_streaming_policy = if str_eq(streaming.as_str(), "buffered") {
        OutputStreamingPolicy::Buffered
    } else if str_eq(streaming.as_str(), "streaming") {
        OutputStreamingPolicy::Streaming
    } else {
        return provider_error("execution_request output_streaming_policy must be 'buffered' or 'streaming'");
    };
    let profile = text_or_default(args, "filesystem_capability_profile", "project_sandbox");
    let filesystem_capability_profile = if str_eq(profile.as_str(), "safe_data_sandbox") {
        CapabilityProfile::SafeDataSandbox
    } else if str_eq(profile.as_str(), "project_sandbox") {
        CapabilityProfile::ProjectSandbox
    } else {
        return provider_error(
            "execution_request filesystem_capability_profile must be 'safe_data_sandbox' or 'project_sandbox'",
        );
    };
    let timeout_ms = match member_u64(args, "timeout_ms") {
        Some(n) => n,
        None => 1000,
    };
    let max_output_bytes = match member_u64(args, "max_output_bytes") {
        Some(n) => n,
        None => 65536,
    };
    Ok(RunToolRequest {
        tool_id,
        argv,
        cwd,
        env_allowlist,
        stdin_policy,
        network_policy: NetworkPolicy::Deny,
        output_streaming_policy,
        filesystem_capability_profile,
        limits: ExecutionLimits { timeout_ms, max_output_bytes },
    })
}

/// Reads the `handle` of a poll, collect or cancel operation.
pub fn parse_handle(args: &Json) -> (r: Result<String, AgentError>)
    ensures
        match text_of(member(*args, "handle"@)) {
            Some(h) => r matches Ok(s) && s@ == h,
            None => crate::agent::error::is_provider_error(r, "execution_request requires string 'handle'"@),
        },
{
    match member_text(args, "handle") {
        Some(h) => Ok(h),
        None => provider_error("execution_request requires string 'handle'"),
    }
}

/// Reads an execution operation: `run_tool`, `poll_execution`,
/// `collect_output` or `cancel_execution`.
pub fn parse_operation(args: &Json) -> (r: Result<ExecutionOperation, AgentError>)
    ensures
        match text_of(member(*args, "operation"@)) {
            None => crate::agent::error::is_provider_error(r, "execution_request requires a string 'operation'"@),
            Some(op) => if op == "run_tool"@ {
                match r {
                    Ok(ExecutionOperation::RunTool(q)) => run_request_of(*args, Ok(q)),
                    Err(e) => run_request_of(*args, Err(e)),
                    _ => false,
                }
            } else if op == "poll_execution"@ || op == "collect_output"@ || op == "cancel_execution"@ {
                match text_of(member(*args, "handle"@)) {
                    None => crate::agent::error::is_provider_error(r, "execution_request requires string 'handle'"@),
                    Some(h) => match r {
                        Ok(ExecutionOperation::PollExecution(x)) => op == "poll_execution"@ && x@ == h,
                        Ok(ExecutionOperation::CollectOutput(x)) => op == "collect_output"@ && x@ == h,
                        Ok(ExecutionOperation::CancelExecution(x)) => op == "cancel_execution"@ && x@ == h,
                        _ => false,
                    },
                }
            } else {
                crate::agent::error::is_provider_error(r, "execution_request received unsupported operation"@)
            },
        },
{
    let op = match member_text(args, "operation") {
        Some(o) => o,
        None => return provider_error("execution_request requires a string 'operation'"),
    };
    let o = op.as_str();
    if str_eq(o, "run_tool") {
        match parse_run_tool_request(args) {
            Ok(q) => Ok(ExecutionOperation::RunTool(q)),
            Err(e) => Err(e),
        }
    } else if str_eq(o, "poll_execution") {
        Ok(ExecutionOperation::PollExecution(parse_handle(args)?))
    } else if str_eq(o, "collect_output") {
        Ok(ExecutionOperation::CollectOutput(parse_handle(args)?))
    } else if str_eq(o, "cancel_execution") {
        Ok(ExecutionOperation::CancelExecution(parse_handle(args)?))
    } else {
        provider_error("execution_request received unsupported operation")
    }
}

/// Where an execution stands.
#[derive(Debug, Clone, Copy, PartialEq, Eq, Structural)]
pub enum ExecutionState {
    Queued,
    Running,
    Completed,
    Failed,
    Cancelled,
}

/// The status of an execution.
#[derive(Debug, Clone, PartialEq, Eq)]
pub struct ExecutionStatus {
    pub handle: String,
    pub state: ExecutionState,
    pub exit_code: Option<i32>,
    pub stdout_bytes: u64,
    pub stderr_bytes: u64,
}

/// The output of an execution.
#[derive(Debug, Clone, PartialEq, Eq)]
pub struct ExecutionOutput {
    pub handle: String,
    pub stdout: Vec<u8>,
    pub stderr: Vec<u8>,
    pub exit_code: Option<i32>,
}

/// What is kept of an execution.
#[derive(Debug, Clone, PartialEq, Eq)]
pub struct ExecutionRecord {
    pub status: ExecutionStatus,
    pub output: ExecutionOutput,
}

/// The lower-case name of a state, as recorded in job lists.
pub open spec fn state_name(s: ExecutionState) -> Seq<char> {
    match s {
        ExecutionState::Queued => "queued"@,
        ExecutionState::Running => "running"@,
        ExecutionState::Completed => "completed"@,
        ExecutionState::Failed => "failed"@,
        ExecutionState::Cancelled => "cancelled"@,
    }
}

/// The lower-case name of a state.
pub fn state_label(s: ExecutionState) -> (r: &'static str)
    ensures
        r@ == state_name(s),
{
    match s {
        ExecutionState::Queued => "queued",
        ExecutionState::Running => "running",
        ExecutionState::Completed => "completed",
        ExecutionState::Failed => "failed",
        ExecutionState::Cancelled => "cancelled",
    }
}

/// The UTF-8 bytes of a text.
pub fn text_bytes(s: &str) -> (r: Vec<u8>)
    ensures
        r@ == s.spec_bytes(),
{
    let b = s.as_bytes();
    let mut out: Vec<u8> = Vec::new();
    let mut i: usize = 0;
    while i < b.len()
        invariant
            i <= b@.len(),
            out@ == b@.take(i as int),
        decreases b@.len() - i,
    {
        out.push(b[i]);
        i = i + 1;
        assert(out@ =~= b@.take(i as int));
    }
    assert(b@.take(b@.len() as int) =~= b@);
    out
}

/// The record of an execution that failed with `message`: exit code 1,
/// no output, the message on standard error.
pub fn failed_record(handle: String, message: &str) -> (r: ExecutionRecord)
    ensures
        r.status.handle == handle,
        r.output.handle == handle,
        r.status.state == ExecutionState::Failed,
        r.status.exit_code == Some(1i32),
        r.output.exit_code == Some(1i32),
        r.status.stdout_bytes == 0,
        r.output.stdout@.len() == 0,
        r.output.stderr@ == message.spec_bytes(),
        r.status.stderr_bytes == message.spec_bytes().len(),
{
    let stderr = text_bytes(message);
    let stderr_len = stderr.len() as u64;
    ExecutionRecord {
        status: ExecutionStatus {
            handle: handle.clone(),
            state: ExecutionState::Failed,
            exit_code: Some(1),
            stdout_bytes: 0,
            stderr_bytes: stderr_len,
        },
        output: ExecutionOutput { handle, stdout: Vec::new(), stderr, exit_code: Some(1) },
    }
}

/// Why the public runtime refuses a request, or the source code and the
/// raw JSON input it runs with.
pub open spec fn admission(q: RunToolRequest) -> Result<(Seq<char>, Option<Seq<char>>), Seq<char>> {
    if q.tool_id@ != "light_compute"@ {
        Err("tool_id '"@ + q.tool_id@ + "' is not allowlisted in the public execution runtime"@)
    } else if q.env_allowlist@.len() > 0 {
        Err("light_compute execution does not accept env_allowlist entries"@)
    } else if q.argv@.len() == 0 {
        Err("light_compute execution requires argv[0] to contain source code"@)
    } else {
        Ok((q.argv@[0]@, if q.argv@.len() > 1 {
            Some(q.argv@[1]@)
        } else {
            None
        }))
    }
}

/// Admits a request to the public runtime: only light compute, with no
/// environment, no network, and its source code as the first argument.
pub fn admit_run(q: &RunToolRequest) -> (r: Result<(String, Option<String>), String>)
    ensures
        match admission(*q) {
            Err(m) => r matches Err(s) && s@ == m,
            Ok((code, input)) => r matches Ok((c, i)) && c@ == code && match input {
                Some(t) => (i matches Some(x) && x@ == t),
                None => i is None,
            },
        },
{
    if !str_eq(q.tool_id.as_str(), "light_compute") {
        let mut m: Vec<char> = Vec::new();
        push_str(&mut m, "tool_id '");
        push_str(&mut m, q.tool_id.as_str());
        push_str(&mut m, "' is not allowlisted in the public execution runtime");
        return Err(string_from_chars(&m));
    }
    if q.env_allowlist.len() > 0 {
        return Err(String::from_str("light_compute execution does not accept env_allowlist entries"));
    }
    if q.argv.len() == 0 {
        return Err(String::from_str("light_compute execution requires argv[0] to contain source code"));
    }
    let input = if q.argv.len() > 1 {
        Some(q.argv[1].clone())
    } else {
        None
    };
    Ok((q.argv[0].clone(), input))
}

/// The record of a light-compute run whose payload serialized to
/// `stdout`: over the output limit it fails; otherwise it completed with
/// exit code 0 when the payload says `ok`, and failed with 1 otherwise.
pub fn finish_run(handle: String, stdout: Vec<u8>, ok: bool, max_output_bytes: u64) -> (r: ExecutionRecord)
    ensures
        stdout@.len() > max_output_bytes ==> {
            &&& r.status.state == ExecutionState::Failed
            &&& r.status.exit_code == Some(1i32)
            &&& r.output.stdout@.len() == 0
            &&& r.status.handle == handle
        },
        stdout@.len() <= max_output_bytes ==> {
            &&& r.status.handle == handle
            &&& r.output.handle == handle
            &&& r.status.state == (if ok {
                ExecutionState::Completed
            } else {
                ExecutionState::Failed
            })
            &&& r.status.exit_code == Some(if ok {
                0i32
            } else {
                1i32
            })
            &&& r.output.exit_code == r.status.exit_code
            &&& r.output.stdout@ == stdout@
            &&& r.status.stdout_bytes == stdout@.len()
            &&& r.output.stderr@.len() == 0
            &&& r.status.stderr_bytes == 0
        },
{
    if stdout.len() as u64 > max_output_bytes {
        let mut m: Vec<char> = Vec::new();
        push_str(&mut m, "light_compute output exceeds requested max_output_bytes ");
        let digits = crate::text::decimal_chars(max_output_bytes);
        crate::text::push_chars(&mut m, &digits);
        let text = string_from_chars(&m);
        return failed_record(handle, text.as_str());
    }
    let exit_code: i32 = if ok {
        0
    } else {
        1
    };
    let len = stdout.len() as u64;
    ExecutionRecord {
        status: ExecutionStatus {
            handle: handle.clone(),
            state: if ok {
                ExecutionState::Completed
            } else {
                ExecutionState::Failed
            },
            exit_code: Some(exit_code),
            stdout_bytes: len,
            stderr_bytes: 0,
        },
        output: ExecutionOutput { handle, stdout, stderr: Vec::new(), exit_code: Some(exit_code) },
    }
}

/// Cancels an execution that is queued or running (exit code 130);
/// finished executions stay as they are.
pub fn cancel_record(record: &mut ExecutionRecord)
    ensures
        (old(record).status.state == ExecutionState::Queued || old(record).status.state == ExecutionState::Running) ==> {
            &&& final(record).status.state == ExecutionState::Cancelled
            &&& final(record).output.exit_code == Some(130i32)
            &&& final(record).status.handle == old(record).status.handle
            &&& final(record).status.exit_code == old(record).status.exit_code
            &&& final(record).status.stdout_bytes == old(record).status.stdout_bytes
            &&& final(record).status.stderr_bytes == old(record).status.stderr_bytes
            &&& final(record).output.stdout == old(record).output.stdout
            &&& final(record).output.stderr == old(record).output.stderr
            &&& final(record).output.handle == old(record).output.handle
        },
        !(old(record).status.state == ExecutionState::Queued || old(record).status.state == ExecutionState::Running)
            ==> *final(record) == *old(record),
{
    match record.status.state {
        ExecutionState::Queued | ExecutionState::Running => {
            record.status.state = ExecutionState::Cancelled;
            record.output.exit_code = Some(130);
        },
        _ => {},
    }
}

/// The technical noise that `a` records under `light_compute`, if it is
/// such a record.
pub open spec fn light_compute_noise(a: AgentAction) -> Option<Json> {
    match a {
        AgentAction::UpdateWorkingMemory(WorkingMemoryDelta::AddTechnicalNoise(k, p)) => if k@ == "light_compute"@ {
            Some(p)
        } else {
            None
        },
        _ => None,
    }
}

/// The first technical noise recorded under `light_compute` among `v`.
pub open spec fn first_light_compute_noise(v: Seq<AgentAction>) -> Option<Json>
    decreases v.len(),
{
    if v.len() == 0 {
        None
    } else {
        match light_compute_noise(v[0]) {
            Some(p) => Some(p),
            None => first_light_compute_noise(v.drop_first()),
        }
    }
}

/// The payload of a light-compute action: its technical noise under
/// `light_compute`, alone or the first such among compound actions.
pub fn extract_light_compute_payload(action: &AgentAction) -> (r: Result<&Json, String>)
    ensures
        match *action {
            AgentAction::Compound(v) => match first_light_compute_noise(v@) {
                Some(p) => r matches Ok(q) && *q == p,
                None => r matches Err(m) && m@ == "light_compute did not produce a technical payload"@,
            },
            AgentAction::UpdateWorkingMemory(WorkingMemoryDelta::AddTechnicalNoise(key, payload)) => if key@
                == "light_compute"@ {
                r matches Ok(p) && *p == payload
            } else {
                r matches Err(m) && m@ == "unexpected technical payload returned from light_compute"@
            },
            _ => r matches Err(m) && m@ == "unexpected action returned from light_compute"@,
        },
{
    match action {
        AgentAction::Compound(actions) => {
            let mut i: usize = 0;
            assert(actions@.skip(0) =~= actions@);
            while i < actions.len()
                invariant
                    i <= actions@.len(),
                    first_light_compute_noise(actions@) == first_light_compute_noise(actions@.skip(i as int)),
                    *action == AgentAction::Compound(*actions),
                decreases actions@.len() - i,
            {
                proof {
                    let rest = actions@.skip(i as int);
                    assert(rest[0] == actions@[i as int]);
                    assert(rest.drop_first() =~= actions@.skip(i + 1));
                }
                match &actions[i] {
                    AgentAction::UpdateWorkingMemory(WorkingMemoryDelta::AddTechnicalNoise(key, payload)) => {
                        if str_eq(key.as_str(), "light_compute") {
                            proof {
                                let rest = actions@.skip(i as int);
                                assert(light_compute_noise(rest[0]) == Some(*payload));
                                assert(first_light_compute_noise(rest) == Some(*payload));
                            }
                            return Ok(payload);
                        }
                    },
                    _ => {},
                }
                i = i + 1;
            }
            assert(actions@.skip(i as int).len() == 0);
            Err(String::from_str("light_compute did not produce a technical payload"))
        },
        AgentAction::UpdateWorkingMemory(WorkingMemoryDelta::AddTechnicalNoise(key, payload)) => {
            if str_eq(key.as_str(), "light_compute") {
                Ok(payload)
            } else {
                Err(String::from_str("unexpected technical payload returned from light_compute"))
            }
        },
        _ => Err(String::from_str("unexpected action returned from light_compute")),
    }
}

/// Runs, polls, collects or cancels constrained execution requests.
pub struct ExecutionRequestTool;

impl ExecutionRequestTool {
    /// The tool's name.
    pub fn name(&self) -> (r: &'static str)
        ensures
            r@ == "execution_request"@,
    {
        "execution_request"
    }
}

} // verus!
