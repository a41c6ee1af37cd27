//! The agent harness: its errors, prompt, tool catalog and tool arguments,
//! and the decoding of provider turns.

pub mod error;
pub mod prompt;
pub mod catalog;
pub mod action;
pub mod tools;
pub mod decode;
pub mod execution;
pub mod trace;
pub mod control;
pub mod apply;
pub mod run;
pub mod turn;
pub mod contract;
pub mod web;
pub mod provider;
pub mod diagnostics;
pub mod schema;
pub mod scratch_search;
