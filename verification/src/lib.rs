//! Decides which statements get their execution plan logged, and how.
//!
//! The host's executor calls four hooks around every statement: `start`,
//! `run`, `finish` and `end`. This library holds every decision that the
//! hooks take and the text that they log; reading the host's state, calling
//! its renderer and sending the message is left to the caller.
//!
//! - `guc`: the options and whether a statement is observed
//! - `worker`: the nesting level and the sampled flag of one process
//! - `instrument`: the instrumentation that an observed execution asks for
//! - `hooks`: what each of the four hooks does
//! - `report`: whether a plan is reported, with which options, and its text
//! - `emit`: the message that carries the plan

pub mod guc;
pub mod worker;
pub mod instrument;
pub mod hooks;
pub mod report;
pub mod emit;
