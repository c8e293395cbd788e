//! A pluggable slash-command execution layer for a text-authoring assistant
//! panel.
//!
//! User-typed `/command arg...` directives are resolved against a registry,
//! offered argument completions, and executed to produce structured output:
//! generated text together with annotated sections that downstream rendering
//! consumes. The crate specifies and verifies the contract every command
//! implementation must satisfy, the cooperative execution model that runs
//! commands without blocking the editing surface, and the structured-output
//! format.

pub mod cancel;
pub mod command;
pub mod completion;
pub mod error;
pub mod event;
pub mod execution;
pub mod output;
pub mod registry;
pub mod workflow;
