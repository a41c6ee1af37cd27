//! The errors of the agent harness.

use vstd::prelude::*;

verus! {

/// What can go wrong in the harness, each with its message.
#[derive(Debug, Clone, PartialEq, Eq)]
pub enum AgentError {
    Network(String),
    Api { status: u16, body: String },
    Provider(String),
    ProviderContract(String),
    Configuration(String),
    Invariant(String),
    Serialization(String),
    Sandbox(String),
    Header(String),
    World(String),
    MaxIterations,
    Redis(String),
    Denied(String),
}

/// `r` is a provider error with message `m`.
pub open spec fn is_provider_error<T>(r: Result<T, AgentError>, m: Seq<char>) -> bool {
    r matches Err(AgentError::Provider(s)) && s@ == m
}

/// The text of an error, its kind first.
pub open spec fn error_text(e: AgentError) -> Seq<char> {
    match e {
        AgentError::Network(m) => "Network error: "@ + m@,
        AgentError::Api { status, body } => "API error (status "@ + crate::text::decimal(status as nat) + "): "@ + body@,
        AgentError::Provider(m) => "Provider error: "@ + m@,
        AgentError::ProviderContract(m) => "Provider contract error: "@ + m@,
        AgentError::Configuration(m) => "Configuration error: "@ + m@,
        AgentError::Invariant(m) => "Invariant violation: "@ + m@,
        AgentError::Serialization(m) => "Serialization error: "@ + m@,
        AgentError::Sandbox(m) => "Sandbox error: "@ + m@,
        AgentError::Header(m) => "Header error: "@ + m@,
        AgentError::World(m) => "HStack world error: "@ + m@,
        AgentError::MaxIterations => "Max iterations reached"@,
        AgentError::Redis(m) => "Redis error: "@ + m@,
        AgentError::Denied(m) => "Control system denied action: "@ + m@,
    }
}

impl AgentError {
    /// The text of this error.
    pub fn describe(&self) -> (r: String)
        ensures
            r@ == error_text(*self),
    {
        let mut t: Vec<char> = Vec::new();
        match self {
            AgentError::Network(m) => {
                crate::text::push_str(&mut t, "Network error: ");
                crate::text::push_str(&mut t, m.as_str());
            },
            AgentError::Api { status, body } => {
                crate::text::push_str(&mut t, "API error (status ");
                let d = crate::text::decimal_chars(*status as u64);
                crate::text::push_chars(&mut t, &d);
                crate::text::push_str(&mut t, "): ");
                crate::text::push_str(&mut t, body.as_str());
            },
            AgentError::Provider(m) => {
                crate::text::push_str(&mut t, "Provider error: ");
                crate::text::push_str(&mut t, m.as_str());
            },
            AgentError::ProviderContract(m) => {
                crate::text::push_str(&mut t, "Provider contract error: ");
                crate::text::push_str(&mut t, m.as_str());
            },
            AgentError::Configuration(m) => {
                crate::text::push_str(&mut t, "Configuration error: ");
                crate::text::push_str(&mut t, m.as_str());
            },
            AgentError::Invariant(m) => {
                crate::text::push_str(&mut t, "Invariant violation: ");
                crate::text::push_str(&mut t, m.as_str());
            },
            AgentError::Serialization(m) => {
                crate::text::push_str(&mut t, "Serialization error: ");
                crate::text::push_str(&mut t, m.as_str());
            },
            AgentError::Sandbox(m) => {
                crate::text::push_str(&mut t, "Sandbox error: ");
                crate::text::push_str(&mut t, m.as_str());
            },
            AgentError::Header(m) => {
                crate::text::push_str(&mut t, "Header error: ");
                crate::text::push_str(&mut t, m.as_str());
            },
            AgentError::World(m) => {
                crate::text::push_str(&mut t, "HStack world error: ");
                crate::text::push_str(&mut t, m.as_str());
            },
            AgentError::MaxIterations => {
                crate::text::push_str(&mut t, "Max iterations reached");
            },
            AgentError::Redis(m) => {
                crate::text::push_str(&mut t, "Redis error: ");
                crate::text::push_str(&mut t, m.as_str());
            },
            AgentError::Denied(m) => {
                crate::text::push_str(&mut t, "Control system denied action: ");
                crate::text::push_str(&mut t, m.as_str());
            },
        }
        crate::text::string_from_chars(&t)
    }
}

} // verus!
