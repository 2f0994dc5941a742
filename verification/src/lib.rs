//! Core logic of a security-hardened DevOps agent: task planning from prompts,
//! command validation against an allowlist, output rendering, cron matching,
//! and the autopilot scheduler's state transitions.

pub mod ai;
pub mod autopilot;
pub mod cli;
pub mod clock;
pub mod command;
pub mod cron;
pub mod engine;
pub mod error;
pub mod mcp;
pub mod model;
pub mod number;
pub mod planner;
pub mod render;
pub mod text;
