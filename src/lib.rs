//! An embedded module runner: the decisions that take one module from code
//! text to a settled outcome, kept apart from the engine that executes it.
//!
//! - `pipeline` and `resolver`: compile, resolve imports, instantiate,
//!   evaluate, as a state machine fed by the engine's reports.
//! - `bridge`: the one outstanding evaluation and the drive tick that
//!   delivers its outcome to the host over a one-shot channel.
//! - `console` and `bindings`: what the global object offers to scripts.
//! - `laws`: properties of the pipeline and of the driver over many steps.
pub mod bindings;
pub mod bridge;
pub mod channel;
pub mod console;
pub mod error;
pub mod laws;
pub mod pipeline;
pub mod resolver;
