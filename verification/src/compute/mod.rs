//! Light compute: short sandboxed scripts over JSON input, with strict
//! limits. The scripts themselves run in the host's engines; this module
//! holds the tool's rules and the source translator of the Python backend.

pub mod source;
pub mod translate;
pub mod tool;
pub mod record;
pub mod script;
