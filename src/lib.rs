//! A small cooperative runtime: a bounded ready queue, a single-threaded
//! executor that resumes tasks in the order they become ready, the state
//! machine of a one-shot readiness reactor, a demonstration task, and a
//! reverse Polish notation calculator.
use vstd::prelude::*;

pub mod executor;
pub mod hello;
pub mod polish_notation;
pub mod reactor;
pub mod ready_queue;

verus! {

} // verus!
