//! A verified model of a small preemptive real-time kernel for single-core
//! microcontrollers: a fixed-capacity task table with priority dispatch driven
//! by a bit-scan over the ready mask, a context-switch state machine, and a
//! resource manager that arbitrates mutually-exclusive access to shared state
//! through lock flags and static task-authorization masks.
//!
//! The kernel state lives in explicit values (`TaskManager`, `ResourceManager`)
//! rather than globals, so every transition is a function from state to state
//! with a contract. The hardware edge — exception entry, register save/restore,
//! privilege queries — is left to the embedding, which captures the machine
//! context as a plain value and hands it to the verified transition functions.
use vstd::prelude::*;

pub mod errors;
pub mod helpers;
pub mod resources;
pub mod tasks;

verus! {

/// Capacity of the task table; task ids range over `[0, MAX_TASKS)`.
pub const MAX_TASKS: usize = 32;

/// Capacity of the resource table; resource ids range over `[0, MAX_RESOURCES)`.
pub const MAX_RESOURCES: usize = 32;

} // verus!
