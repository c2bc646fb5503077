//! Execution core of a streaming dataflow operator: timestamps, messages,
//! callback event descriptors, deadlines, the per-operator helper that turns
//! inbound messages into events, and the executor lifecycle.
use vstd::prelude::*;

pub mod condition;
pub mod config;
pub mod deadline;
pub mod event;
pub mod helper;
pub mod lifecycle;
pub mod message;
pub mod notification;
pub mod one_in_one_out;
pub mod one_in_two_out;
pub mod processor;
pub mod sink;
pub mod timer;
pub mod timestamp;
pub mod two_in_one_out;
pub mod watermark;

verus! {

} // verus!
