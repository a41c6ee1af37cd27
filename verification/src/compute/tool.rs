//! The light-compute tool: its limits, its arguments, the checks a source
//! passes before it runs, and how a run is summarized.

use vstd::prelude::*;
use crate::agent::error::AgentError;
use crate::compute::source::{classify_failure, failure_kind, forbidden_construct_reason, forbidden_from};
use crate::json::{member, trimmed_member, trimmed_member_text, Json};
use crate::text::{decimal, decimal_chars, lower, push_chars, push_str, string_from_chars};
use vstd::string::StringSliceAdditionalSpecFns;

verus! {

/// The limits of a light-compute run.
#[derive(Debug, Clone, Copy, PartialEq, Eq, Structural)]
pub struct LightComputeLimits {
    pub timeout_ms: u64,
    pub max_heap_bytes: u64,
    pub max_code_bytes: u64,
    pub max_input_bytes: u64,
    pub max_output_bytes: u64,
}

impl Default for LightComputeLimits {
    fn default() -> (r: Self)
        ensures
            r.timeout_ms == 1000,
            r.max_heap_bytes == 10485760,
            r.max_code_bytes == 20000,
            r.max_input_bytes == 64000,
            r.max_output_bytes == 64000,
    {
        LightComputeLimits {
            timeout_ms: 1000,
            max_heap_bytes: 10485760,
            max_code_bytes: 20000,
            max_input_bytes: 64000,
            max_output_bytes: 64000,
        }
    }
}

/// The engine a light-compute run uses.
#[derive(Debug, Clone, Copy, PartialEq, Eq, Structural)]
pub enum LightComputeBackendKind {
    /// JavaScript on V8, on desktop platforms.
    V8,
    /// Python on Monty, on Android.
    Monty,
}

impl LightComputeBackendKind {
    /// What the tool tells the provider about the language it runs.
    pub fn description(self) -> (r: &'static str)
        ensures
            self == LightComputeBackendKind::V8 ==> r@ == "Runs short sandboxed JavaScript with strict limits and allowlisted helpers in global `hstack` (math, stats, strings, and object utilities)."@,
            self == LightComputeBackendKind::Monty ==> r@ == "Runs short sandboxed Python on Monty with strict limits and allowlisted helpers in `hstack` (math, stats, strings, and object utilities)."@,
    {
        match self {
            LightComputeBackendKind::V8 => "Runs short sandboxed JavaScript with strict limits and allowlisted helpers in global `hstack` (math, stats, strings, and object utilities).",
            LightComputeBackendKind::Monty => "Runs short sandboxed Python on Monty with strict limits and allowlisted helpers in `hstack` (math, stats, strings, and object utilities).",
        }
    }
}

/// Sandboxed compute for short code snippets with strict limits.
pub struct LightComputeTool {
    pub backend: LightComputeBackendKind,
    pub limits: LightComputeLimits,
}

/// What a light-compute call carries: the trimmed code and whether an
/// input object comes with it.
pub struct ComputeArgs {
    pub code: String,
    pub has_input: bool,
}

/// `prefix`, the decimal `n`, then `suffix`.
fn numbered_text(prefix: &str, n: u64, suffix: &str) -> (r: String)
    ensures
        r@ == prefix@ + decimal(n as nat) + suffix@,
{
    let mut m: Vec<char> = Vec::new();
    push_str(&mut m, prefix);
    let d = decimal_chars(n);
    push_chars(&mut m, &d);
    push_str(&mut m, suffix);
    string_from_chars(&m)
}

impl LightComputeTool {
    /// The tool as desktop platforms run it: V8 with the default limits.
    pub fn new() -> (r: Self)
        ensures
            r.backend == LightComputeBackendKind::V8,
            r.limits == (LightComputeLimits {
                timeout_ms: 1000,
                max_heap_bytes: 10485760,
                max_code_bytes: 20000,
                max_input_bytes: 64000,
                max_output_bytes: 64000,
            }),
    {
        LightComputeTool { backend: LightComputeBackendKind::V8, limits: LightComputeLimits::default() }
    }

    /// The tool on a given engine, with the default limits.
    pub fn with_backend(backend: LightComputeBackendKind) -> (r: Self)
        ensures
            r.backend == backend,
            r.limits == (LightComputeLimits {
                timeout_ms: 1000,
                max_heap_bytes: 10485760,
                max_code_bytes: 20000,
                max_input_bytes: 64000,
                max_output_bytes: 64000,
            }),
    {
        LightComputeTool { backend, limits: LightComputeLimits::default() }
    }

    /// The tool's name.
    pub fn name(&self) -> (r: &'static str)
        ensures
            r@ == "light_compute"@,
    {
        "light_compute"
    }

    /// Reads the arguments: the trimmed `code` must not be blank; `input`,
    /// when present and not `null`, must be an object.
    pub fn read_args(&self, args: &Json) -> (r: Result<ComputeArgs, AgentError>)
        ensures
            match trimmed_member(*args, "code"@) {
                None => crate::agent::error::is_provider_error(r, "light_compute requires non-empty 'code'"@),
                Some(c) => match member(*args, "input"@) {
                    None | Some(Json::Null) => r matches Ok(a) && a.code@ == c && !a.has_input,
                    Some(Json::Object(_)) => r matches Ok(a) && a.code@ == c && a.has_input,
                    Some(_) => crate::agent::error::is_provider_error(r, "light_compute 'input' must be an object when provided"@),
                },
            },
    {
        let code = match trimmed_member_text(args, "code") {
            Some(c) => c,
            None => return Err(AgentError::Provider(String::from_str("light_compute requires non-empty 'code'"))),
        };
        match args.get("input") {
            None => Ok(ComputeArgs { code, has_input: false }),
            Some(Json::Null) => Ok(ComputeArgs { code, has_input: false }),
            Some(Json::Object(_)) => Ok(ComputeArgs { code, has_input: true }),
            Some(_) => Err(AgentError::Provider(String::from_str("light_compute 'input' must be an object when provided"))),
        }
    }

    /// Checks a source and its serialized input before a run: the code's
    /// size, then its forbidden constructs, then the input's size.
    pub fn check_source(&self, code: &str, input_json: &str) -> (r: Result<(), AgentError>)
        ensures
            code.spec_bytes().len() > self.limits.max_code_bytes ==> (r matches Err(AgentError::Sandbox(m))
                && m@ == "light_compute code exceeds "@ + decimal(self.limits.max_code_bytes as nat) + " bytes"@),
            code.spec_bytes().len() <= self.limits.max_code_bytes ==> match forbidden_from(lower(code@), 0) {
                Some(reason) => (r matches Err(AgentError::Sandbox(m)) && m@ == "light_compute rejected source: "@
                    + reason),
                None => if input_json.spec_bytes().len() > self.limits.max_input_bytes {
                    (r matches Err(AgentError::Sandbox(m)) && m@ == "light_compute input exceeds "@ + decimal(
                        self.limits.max_input_bytes as nat,
                    ) + " bytes"@)
                } else {
                    r is Ok
                },
            },
    {
        if code.as_bytes().len() as u64 > self.limits.max_code_bytes {
            return Err(AgentError::Sandbox(numbered_text("light_compute code exceeds ", self.limits.max_code_bytes, " bytes")));
        }
        match forbidden_construct_reason(code) {
            Some(reason) => {
                let mut m: Vec<char> = Vec::new();
                push_str(&mut m, "light_compute rejected source: ");
                push_str(&mut m, reason);
                return Err(AgentError::Sandbox(string_from_chars(&m)));
            },
            None => {},
        }
        if input_json.as_bytes().len() as u64 > self.limits.max_input_bytes {
            return Err(AgentError::Sandbox(numbered_text("light_compute input exceeds ", self.limits.max_input_bytes, " bytes")));
        }
        Ok(())
    }

    /// Checks the size of a run's JSON output.
    pub fn check_output(&self, json_payload: &str) -> (r: Result<(), AgentError>)
        ensures
            json_payload.spec_bytes().len() > self.limits.max_output_bytes ==> (r matches Err(AgentError::Sandbox(m))
                && m@ == "light_compute output exceeds "@ + decimal(self.limits.max_output_bytes as nat) + " bytes"@),
            json_payload.spec_bytes().len() <= self.limits.max_output_bytes ==> r is Ok,
    {
        if json_payload.as_bytes().len() as u64 > self.limits.max_output_bytes {
            return Err(AgentError::Sandbox(numbered_text("light_compute output exceeds ", self.limits.max_output_bytes, " bytes")));
        }
        Ok(())
    }
}

/// How a light-compute run ended.
#[derive(Debug)]
pub enum ComputeOutcome {
    /// It produced a result.
    Finished,
    /// It ran out of time.
    TimedOut,
    /// It ran out of memory.
    OutOfMemory,
    /// It failed with this message.
    Failed { message: String },
}

/// The type of a failed run, or none for a success.
pub open spec fn outcome_type(o: ComputeOutcome) -> Option<Seq<char>> {
    match o {
        ComputeOutcome::Finished => None,
        ComputeOutcome::TimedOut => Some("timeout"@),
        ComputeOutcome::OutOfMemory => Some("oom"@),
        ComputeOutcome::Failed { message } => Some(failure_kind(message@)),
    }
}

/// The type of a failed run, or none for a success.
pub fn outcome_error_type(o: &ComputeOutcome) -> (r: Option<&'static str>)
    ensures
        match outcome_type(*o) {
            Some(t) => r matches Some(s) && s@ == t,
            None => r is None,
        },
{
    match o {
        ComputeOutcome::Finished => None,
        ComputeOutcome::TimedOut => Some("timeout"),
        ComputeOutcome::OutOfMemory => Some("oom"),
        ComputeOutcome::Failed { message } => Some(classify_failure(message.as_str())),
    }
}

/// The summary a run leaves in the compute app: `light_compute success`,
/// or `light_compute` and the failure's type.
pub fn compute_summary(o: &ComputeOutcome) -> (r: String)
    ensures
        match outcome_type(*o) {
            None => r@ == "light_compute success"@,
            Some(t) => r@ == "light_compute "@ + t,
        },
{
    match outcome_error_type(o) {
        None => String::from_str("light_compute success"),
        Some(t) => {
            let mut m: Vec<char> = Vec::new();
            push_str(&mut m, "light_compute ");
            push_str(&mut m, t);
            string_from_chars(&m)
        },
    }
}

} // verus!
