//! The microbash tool: the command it reads from its arguments.

use vstd::prelude::*;
use crate::agent::error::{is_provider_error, AgentError};
use crate::json::{trimmed_member, trimmed_member_text, Json};

verus! {

/// Runs microbash commands against the sandboxed workspace.
pub struct MicrobashTool {
    /// The directory that stands for the sandbox root, when not the
    /// configured one.
    pub sandbox_root_override: Option<String>,
}

impl MicrobashTool {
    /// The tool over the configured sandbox.
    pub fn new() -> (r: Self)
        ensures
            r.sandbox_root_override is None,
    {
        MicrobashTool { sandbox_root_override: None }
    }

    /// The tool over the sandbox rooted at `root`.
    pub fn new_with_root(root: String) -> (r: Self)
        ensures
            r.sandbox_root_override == Some(root),
    {
        MicrobashTool { sandbox_root_override: Some(root) }
    }

    /// The tool's name.
    pub fn name(&self) -> (r: &'static str)
        ensures
            r@ == "microbash"@,
    {
        "microbash"
    }

    /// The command to run: the `command` string, trimmed; a missing or
    /// blank command fails.
    pub fn read_command(&self, args: &Json) -> (r: Result<String, AgentError>)
        ensures
            match trimmed_member(*args, "command"@) {
                Some(c) => r matches Ok(s) && s@ == c,
                None => is_provider_error(r, "microbash requires a non-empty 'command' string"@),
            },
    {
        match trimmed_member_text(args, "command") {
            Some(c) => Ok(c),
            None => Err(AgentError::Provider(String::from_str("microbash requires a non-empty 'command' string"))),
        }
    }
}

} // verus!
