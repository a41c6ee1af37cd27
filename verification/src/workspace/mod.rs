//! The agent workspace: a dock of apps with lifecycles, text viewports, and
//! the allocator that decides which app viewports are mounted into the
//! provider-visible context under a token budget.

pub mod model;
pub mod render;
pub mod solve;
pub mod state;
pub mod views;
pub mod plan;
pub mod allocation;
pub mod ops;
pub mod delta;
pub mod context;
pub mod inspect;
pub mod near;
pub mod stack;
pub mod snapshot;
pub mod mount;
