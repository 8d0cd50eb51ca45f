//! Turns a function description and its input into an instruction for a chat
//! model, drives the request with one retry, and checks what the provider
//! sends back.
use vstd::prelude::*;

pub mod command_line;
pub mod llm;
pub mod prompt;
pub mod task;

verus! {

} // verus!
