//! The command contract, and the type-erased runner thunk.
//!
//! Every command type declares a stable name, a schema, and a parser from the
//! raw argument payload. Running a command is the one asynchronous,
//! side-effecting operation and is performed by the embedding application;
//! the core hands it a fully parsed, typed command value.

use vstd::prelude::*;

use crate::credits::CreditsCommand;
use crate::errors::ParseError;
use crate::hello_command::HelloCommand;
use crate::payload::Payload;
use crate::schema::{Schema, SchemaView};

verus! {

/// The capability contract every command type satisfies: a stable name, a
/// pure, deterministic schema, and a pure parser for its argument payload.
pub trait Command: Sized {
    /// The command's declared name.
    spec fn spec_name() -> Seq<char>;

    /// The schema this command declares, as a mathematical value.
    spec fn spec_schema() -> SchemaView;

    /// What parsing an argument payload into this command type yields.
    spec fn spec_parse(p: Payload) -> Result<Self, ParseError>;

    /// A command's schema is published under its declared name.
    proof fn name_consistent()
        ensures
            Self::spec_schema().name == Self::spec_name(),
    ;

    /// The command's declared name, as a value.
    fn name() -> (n: String)
        ensures
            n@ == Self::spec_name(),
    ;

    /// Builds the command's schema. Pure and deterministic: every call yields
    /// the same structural value, pinned to [`Command::spec_schema`].
    fn create_schema() -> (s: Schema)
        ensures
            s@ == Self::spec_schema(),
    ;

    /// Parses a raw argument payload into a typed command value. Performs no
    /// I/O and fails exactly as [`Command::spec_parse`] says.
    fn parse_data(p: &Payload) -> (r: Result<Self, ParseError>)
        ensures
            r == Self::spec_parse(*p),
    ;
}

/// Round-trip schema stability: building the schema of one command type twice
/// yields structurally equal schemas, since each result equals the type's one
/// declared schema value.
pub proof fn lemma_schema_stable<T: Command>(s1: SchemaView, s2: SchemaView)
    requires
        s1 == T::spec_schema(),
        s2 == T::spec_schema(),
    ensures
        s1 == s2,
{
}

/// Uniqueness of the declared names: the two registered command types of
/// this application declare distinct names, so materializing a registry
/// holding both cannot fail on their account.
pub proof fn lemma_command_names_distinct()
    ensures
        HelloCommand::spec_name() != CreditsCommand::spec_name(),
{
    reveal_strlit("hello");
    reveal_strlit("credits");
    assert("hello"@.len() == 5);
    assert("credits"@.len() == 7);
}

/// The type-erased runner handle the registry stores for each command type.
/// The embedding application maps it back to the command's run behaviour.
#[derive(Clone, Copy, Debug, PartialEq, Eq, Structural)]
pub enum BotRunner {
    HelloRunner,
    CreditsRunner,
}

/// A fully parsed, typed command value, ready to run.
#[derive(Clone, Debug, PartialEq, Eq)]
pub enum BotCommand {
    Hello(HelloCommand),
    Credits(CreditsCommand),
}

/// What the runner thunk for tag `r` yields on payload `p`.
pub open spec fn spec_run_command(r: BotRunner, p: Payload) -> Result<BotCommand, ParseError> {
    match r {
        BotRunner::HelloRunner => match HelloCommand::spec_parse(p) {
            Ok(c) => Ok(BotCommand::Hello(c)),
            Err(e) => Err(e),
        },
        BotRunner::CreditsRunner => match CreditsCommand::spec_parse(p) {
            Ok(c) => Ok(BotCommand::Credits(c)),
            Err(e) => Err(e),
        },
    }
}

/// The type-erased runner thunk: parses the payload for the command type the
/// tag stands for, yielding either the typed command value to run or the
/// parse failure to report. The run itself is the embedding application's.
pub fn run_command(r: BotRunner, p: &Payload) -> (res: Result<BotCommand, ParseError>)
    ensures
        res == spec_run_command(r, *p),
{
    match r {
        BotRunner::HelloRunner => match HelloCommand::parse_data(p) {
            Ok(c) => Ok(BotCommand::Hello(c)),
            Err(e) => Err(e),
        },
        BotRunner::CreditsRunner => match CreditsCommand::parse_data(p) {
            Ok(c) => Ok(BotCommand::Credits(c)),
            Err(e) => Err(e),
        },
    }
}

} // verus!
