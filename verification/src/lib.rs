//! Command-registration and dispatch core for an event-driven application
//! that receives named, schema-typed remote invocations and routes each to
//! the correct handler with validated arguments.
//!
//! The core is split into:
//! - a command contract ([`commands::Command`]) every command type satisfies,
//! - immutable command descriptors and the write-once [`registry::Registry`],
//! - the [`dispatch`] pipeline turning a raw invocation into an outcome,
//! - a composite adapter for grouped commands ([`credits`]),
//! - per-event routing decisions ([`process_event`]).
//!
//! Network and storage collaborators are out of scope: every function here is
//! a total, verified computation on plain values; the embedding application
//! performs the I/O and hands the results back in.

pub mod commands;
pub mod credits;
pub mod dispatch;
pub mod errors;
pub mod hello_command;
pub mod payload;
pub mod process_event;
pub mod registry;
pub mod schema;
