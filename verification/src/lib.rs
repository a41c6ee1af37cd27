//! Verified core of the HStack agent harness: the modeled decode algebra,
//! the workspace dock and viewport allocator, the microbash command parser,
//! row-based text editing, sandbox path policy, the light-compute source
//! translator, and the structured decoding of provider turns.

pub mod agent;
pub mod compute;
pub mod edit;
pub mod formal;
pub mod fspolicy;
pub mod json;
pub mod memory;
pub mod microbash;
pub mod settings;
pub mod sync;
pub mod sync_config;
pub mod sync_runtime;
pub mod text;
pub mod voice;
pub mod vpath;
pub mod workspace;
