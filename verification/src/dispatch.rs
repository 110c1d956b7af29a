//! The dispatcher: from a raw inbound invocation to a uniform outcome.
//!
//! Dispatch resolves the invocation's name in the registry, parses the
//! payload through the resolved runner's thunk, and leaves the one
//! side-effecting step — running the typed command — to the embedding
//! application, which folds the run's result back into the outcome with
//! [`run_outcome`]. The dispatcher holds no mutable state: every decision is
//! a function of the immutable registry and the invocation's own inputs, so
//! it is safe to invoke concurrently from arbitrarily many inbound events.

use vstd::prelude::*;

use crate::commands::{run_command, spec_run_command, BotCommand, BotRunner};
use crate::credits::{CreditsCommand, CreditsCountCommand};
use crate::errors::{ParseError, RunError};
use crate::payload::{spec_find_arg, Arg, ArgValue, Payload};
use crate::registry::Registry;

verus! {

/// The uniform per-invocation result classification.
#[derive(Clone, Debug, PartialEq, Eq)]
pub enum Outcome {
    /// The command's run completed.
    Succeeded,
    /// The payload could not be parsed; user-correctable, no run invoked.
    BadRequest(ParseError),
    /// The name resolves to no registered command; no runner invoked.
    UnknownCommand(String),
    /// The command's run failed; reported to the user generically.
    Failed(RunError),
}

/// What dispatch decides for one raw invocation, before any run happens:
/// either the typed command to run, or the outcome to report right away.
pub open spec fn spec_dispatch(reg: Registry<BotRunner>, name: String, p: Payload) -> Result<
    BotCommand,
    Outcome,
> {
    match reg.lookup(name@) {
        None => Err(Outcome::UnknownCommand(name)),
        Some(r) => match spec_run_command(r, p) {
            Ok(c) => Ok(c),
            Err(e) => Err(Outcome::BadRequest(e)),
        },
    }
}

/// Resolves the invocation's name and parses its payload into the typed
/// command value to run. A missing name yields `UnknownCommand` with that
/// name; a parse failure yields `BadRequest`; in neither case is any typed
/// command produced, so no run can be invoked for such an invocation.
pub fn process_command(reg: &Registry<BotRunner>, name: &String, p: &Payload) -> (d: Result<
    BotCommand,
    Outcome,
>)
    ensures
        d == spec_dispatch(*reg, *name, *p),
{
    match reg.resolve(name) {
        None => Err(Outcome::UnknownCommand(name.clone())),
        Some(r) => match run_command(r, p) {
            Ok(c) => Ok(c),
            Err(e) => Err(Outcome::BadRequest(e)),
        },
    }
}

/// The outcome of a run that was invoked and returned `r`.
pub open spec fn spec_run_outcome(r: Result<(), RunError>) -> Outcome {
    match r {
        Ok(_) => Outcome::Succeeded,
        Err(e) => Outcome::Failed(e),
    }
}

/// Folds the result of an invocation's run into the uniform outcome: a
/// completed run succeeds, a failed one is contained and reported.
pub fn run_outcome(r: Result<(), RunError>) -> (o: Outcome)
    ensures
        o == spec_run_outcome(r),
{
    match r {
        Ok(_) => Outcome::Succeeded,
        Err(e) => Outcome::Failed(e),
    }
}

/// The outcome of one whole invocation, given what its run — had one been
/// invoked — would return.
pub open spec fn spec_outcome(
    reg: Registry<BotRunner>,
    name: String,
    p: Payload,
    run: Result<(), RunError>,
) -> Outcome {
    match spec_dispatch(reg, name, p) {
        Err(o) => o,
        Ok(_) => spec_run_outcome(run),
    }
}

/// Dispatch correctness: dispatch invokes exactly the runner registered
/// under the resolved name and no other — a name held by the hello runner
/// can only ever produce a hello command, one held by the credits runner
/// only a credits command — and an unregistered name yields
/// `UnknownCommand` with that very name, invoking no runner at all.
pub proof fn lemma_dispatch_targets_resolved(reg: Registry<BotRunner>, name: String, p: Payload)
    ensures
        reg.lookup(name@) is None ==> spec_dispatch(reg, name, p) == Err::<BotCommand, Outcome>(
            Outcome::UnknownCommand(name),
        ),
        reg.lookup(name@) == Some(BotRunner::HelloRunner) && spec_dispatch(reg, name, p) is Ok
            ==> spec_dispatch(reg, name, p)->Ok_0 is Hello,
        reg.lookup(name@) == Some(BotRunner::CreditsRunner) && spec_dispatch(reg, name, p) is Ok
            ==> spec_dispatch(reg, name, p)->Ok_0 is Credits,
{
}

/// Composite dispatch: an invocation of a name the credits group holds,
/// tagged with the `count` sub-command and naming a user, resolves to the
/// count variant with that user passed through unmodified.
pub proof fn lemma_composite_dispatch(
    reg: Registry<BotRunner>,
    name: String,
    sub: String,
    args: Vec<Arg>,
    u: u64,
)
    requires
        reg.lookup(name@) == Some(BotRunner::CreditsRunner),
        sub@ == "count"@,
        spec_find_arg(args@, "user"@) == Some(ArgValue::UserArg(u)),
    ensures
        spec_dispatch(reg, name, Payload::Sub { name: sub, args }) == Ok::<BotCommand, Outcome>(
            BotCommand::Credits(
                CreditsCommand::CreditsCountCommand(CreditsCountCommand { user: Some(u) }),
            ),
        ),
{
}

/// Parse failure isolation: when the resolved runner cannot parse the
/// payload, dispatch yields no typed command, and the invocation's outcome
/// is the same `BadRequest` whatever any run would have returned — the run
/// is never invoked.
pub proof fn lemma_parse_failure_isolated(
    reg: Registry<BotRunner>,
    name: String,
    p: Payload,
    e: ParseError,
    run1: Result<(), RunError>,
    run2: Result<(), RunError>,
)
    requires
        reg.lookup(name@) matches Some(r) && spec_run_command(r, p) == Err::<BotCommand,
            ParseError,
        >(e),
    ensures
        spec_dispatch(reg, name, p) == Err::<BotCommand, Outcome>(Outcome::BadRequest(e)),
        spec_outcome(reg, name, p, run1) == spec_outcome(reg, name, p, run2),
{
}

/// Fault containment: an invocation whose run fails with a run error has
/// `Failed` with that very error as its own outcome, while the outcome of
/// any other invocation — concurrent or later, against the same immutable
/// registry — is a function of the registry and that invocation's own
/// inputs alone, exactly as if the failure had never happened.
pub proof fn lemma_fault_containment(
    reg: Registry<BotRunner>,
    name1: String,
    p1: Payload,
    e: RunError,
    name2: String,
    p2: Payload,
    run2: Result<(), RunError>,
)
    requires
        spec_dispatch(reg, name1, p1) is Ok,
    ensures
        spec_outcome(reg, name1, p1, Err(e)) == Outcome::Failed(e),
        spec_outcome(reg, name2, p2, run2) == match spec_dispatch(reg, name2, p2) {
            Err(o) => o,
            Ok(_) => spec_run_outcome(run2),
        },
{
}

} // verus!
