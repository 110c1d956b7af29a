//! Error taxonomy of the dispatch core.
//!
//! - [`ParseError`]: malformed or missing argument payload; user-correctable.
//! - [`RunError`]: business-logic or downstream-collaborator failure during a
//!   command's run; reported to the user as a generic failure.
//! - [`RegistrationError`]: startup-only; duplicate command name at registry
//!   materialization, or the bulk schema publish being rejected. Fatal.

use vstd::prelude::*;

verus! {

/// Why an argument payload could not be parsed into a typed command value.
#[derive(Clone, Copy, Debug, PartialEq, Eq, Structural)]
pub enum ParseError {
    /// A required field is absent.
    MissingField,
    /// A field is present but holds a value of the wrong type.
    WrongFieldType,
    /// A plain command received a payload shaped like a sub-command invocation.
    UnexpectedSubcommand,
    /// A group command received a payload without a sub-command tag.
    MissingSubcommand,
    /// A group command received a sub-command tag it does not declare.
    UnknownSubcommand,
}

/// A failure raised while a command's run was executing.
#[derive(Clone, Debug, PartialEq, Eq)]
pub enum RunError {
    /// The storage collaborator failed or timed out.
    StorageFault(String),
    /// The outbound network collaborator failed.
    NetworkFault(String),
}

/// A fatal startup-phase failure, before the event loop begins.
#[derive(Debug, PartialEq, Eq)]
pub enum RegistrationError {
    /// Two descriptors were contributed under the same command name.
    DuplicateName(String),
    /// The platform rejected the bulk schema publication.
    PublishRejected(String),
}

} // verus!
