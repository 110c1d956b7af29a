//! The `credits` command group and its `count` sub-command.
//!
//! `credits` is a composite command: its schema nests the schemas of its
//! sub-commands, and its parser demultiplexes on the sub-command name in the
//! payload. The `count` sub-command opts out of standalone registration: it
//! is reachable only through its parent, yet fully dispatchable once the
//! parent resolves it.

use vstd::prelude::*;

use crate::commands::{BotRunner, Command};
use crate::errors::ParseError;
use crate::registry::CommandRegistrar;
use crate::payload::{find_arg, spec_find_arg, Arg, ArgValue, Payload};
use crate::schema::{
    as_sub, spec_as_sub, ParamKind, ParamSchema, ParamView, Schema, SchemaView, SubSchema,
    SubSchemaView,
};

verus! {

/// Credits a member's ledger row starts with when first inserted.
pub const STARTING_CREDITS: i64 = 10;

/// One row of the member ledger kept by the storage collaborator.
#[derive(Clone, Copy, Debug, PartialEq, Eq, Structural)]
pub struct Member {
    pub id: i64,
    pub credits: i64,
}

/// The row inserted for a member seen for the first time. Storage applies it
/// with insert-unless-present semantics; an existing row is left unchanged.
pub fn initial_member(id: i64) -> (m: Member)
    ensures
        m == (Member { id, credits: STARTING_CREDITS }),
{
    Member { id, credits: STARTING_CREDITS }
}

/// A parsed `credits count` invocation.
#[derive(Clone, Copy, Debug, PartialEq, Eq, Structural)]
pub struct CreditsCountCommand {
    /// Who? Defaults to the invoking member.
    pub user: Option<u64>,
}

/// A parsed invocation of the `credits` group, tagged by sub-command.
#[derive(Clone, Copy, Debug, PartialEq, Eq, Structural)]
pub enum CreditsCommand {
    CreditsCountCommand(CreditsCountCommand),
}

impl CreditsCountCommand {
    /// Parses the argument list meant for this sub-command.
    pub fn parse_args(args: &Vec<Arg>) -> (r: Result<CreditsCountCommand, ParseError>)
        ensures
            r == CreditsCountCommand::spec_parse(Payload::Args(*args)),
    {
        let user_key = String::from_str("user");
        match find_arg(args, &user_key) {
            None => Ok(CreditsCountCommand { user: None }),
            Some(ArgValue::UserArg(u)) => Ok(CreditsCountCommand { user: Some(*u) }),
            Some(_) => Err(ParseError::WrongFieldType),
        }
    }
}

impl Command for CreditsCountCommand {
    open spec fn spec_name() -> Seq<char> {
        "count"@
    }

    open spec fn spec_schema() -> SchemaView {
        SchemaView {
            name: "count"@,
            desc: "Get credit count"@,
            params: seq![
                ParamView {
                    name: "user"@,
                    desc: "Who?"@,
                    kind: ParamKind::UserParam,
                    required: false,
                },
            ],
            subs: seq![],
        }
    }

    open spec fn spec_parse(p: Payload) -> Result<CreditsCountCommand, ParseError> {
        match p {
            Payload::Sub { .. } => Err(ParseError::UnexpectedSubcommand),
            Payload::Args(args) => match spec_find_arg(args@, "user"@) {
                None => Ok(CreditsCountCommand { user: None }),
                Some(ArgValue::UserArg(u)) => Ok(CreditsCountCommand { user: Some(u) }),
                Some(_) => Err(ParseError::WrongFieldType),
            },
        }
    }

    proof fn name_consistent() {
    }

    fn name() -> (n: String) {
        String::from_str("count")
    }

    fn create_schema() -> (s: Schema) {
        let mut params: Vec<ParamSchema> = Vec::new();
        params.push(ParamSchema::new("user", "Who?", ParamKind::UserParam, false));
        let s = Schema {
            name: String::from_str("count"),
            desc: String::from_str("Get credit count"),
            params,
            subs: Vec::new(),
        };
        proof {
            assert(s@.params =~= Self::spec_schema().params);
            assert(s@.subs =~= Self::spec_schema().subs);
            assert(s@ =~= Self::spec_schema());
        }
        s
    }

    fn parse_data(p: &Payload) -> (r: Result<CreditsCountCommand, ParseError>) {
        match p {
            Payload::Sub { .. } => Err(ParseError::UnexpectedSubcommand),
            Payload::Args(args) => CreditsCountCommand::parse_args(args),
        }
    }
}

impl Command for CreditsCommand {
    open spec fn spec_name() -> Seq<char> {
        "credits"@
    }

    open spec fn spec_schema() -> SchemaView {
        SchemaView {
            name: "credits"@,
            desc: "Credit commands"@,
            params: seq![],
            subs: seq![spec_as_sub(CreditsCountCommand::spec_schema())],
        }
    }

    open spec fn spec_parse(p: Payload) -> Result<CreditsCommand, ParseError> {
        match p {
            Payload::Args(_) => Err(ParseError::MissingSubcommand),
            Payload::Sub { name, args } => if name@ == "count"@ {
                match CreditsCountCommand::spec_parse(Payload::Args(args)) {
                    Ok(c) => Ok(CreditsCommand::CreditsCountCommand(c)),
                    Err(e) => Err(e),
                }
            } else {
                Err(ParseError::UnknownSubcommand)
            },
        }
    }

    proof fn name_consistent() {
    }

    fn name() -> (n: String) {
        String::from_str("credits")
    }

    fn create_schema() -> (s: Schema) {
        let count = CreditsCountCommand::create_schema();
        let mut subs: Vec<SubSchema> = Vec::new();
        subs.push(as_sub(count));
        let s = Schema {
            name: String::from_str("credits"),
            desc: String::from_str("Credit commands"),
            params: Vec::new(),
            subs,
        };
        proof {
            assert(s@.params =~= Self::spec_schema().params);
            assert(s@.subs =~= Self::spec_schema().subs);
            assert(s@ =~= Self::spec_schema());
        }
        s
    }

    /// Demultiplexes on the sub-command name embedded in the payload and
    /// forwards the argument list to the selected variant's parser.
    fn parse_data(p: &Payload) -> (r: Result<CreditsCommand, ParseError>) {
        match p {
            Payload::Args(_) => Err(ParseError::MissingSubcommand),
            Payload::Sub { name, args } => {
                let count_key = String::from_str("count");
                if *name == count_key {
                    match CreditsCountCommand::parse_args(args) {
                        Ok(c) => Ok(CreditsCommand::CreditsCountCommand(c)),
                        Err(e) => Err(e),
                    }
                } else {
                    Err(ParseError::UnknownSubcommand)
                }
            },
        }
    }
}

/// The registration entry this module contributes: the one descriptor of
/// the `credits` group, bound to its runner handle. The `count` sub-command
/// contributes no descriptor of its own: it opted out of standalone
/// registration and is reachable only through its parent.
pub fn credits_registrar() -> (d: CommandRegistrar<BotRunner>)
    ensures
        d.name@ == CreditsCommand::spec_name(),
        d.schema@ == CreditsCommand::spec_schema(),
        d.schema@.name == d.name@,
        d.runner == BotRunner::CreditsRunner,
{
    proof {
        CreditsCommand::name_consistent();
    }
    CommandRegistrar::new::<CreditsCommand>(BotRunner::CreditsRunner)
}

/// The reply a `credits count` run sends back, rendered as an embed by the
/// embedding application.
#[derive(Clone, Copy, Debug, PartialEq, Eq, Structural)]
pub enum CreditsReply {
    /// The member's current credit count.
    CreditCount(i64),
    /// The queried user has no ledger row yet.
    NotRegistered,
    /// No user id could be determined from the invocation.
    MissingUser,
}

impl CreditsCountCommand {
    /// Which user the count is for: the explicitly named user if one was
    /// given, otherwise the invocation's author.
    pub fn target_user(&self, author: Option<u64>) -> (r: Option<u64>)
        ensures
            r == if self.user is Some {
                self.user
            } else {
                author
            },
    {
        match self.user {
            Some(u) => Some(u),
            None => author,
        }
    }

    /// The run decision once the storage lookup for the target has returned:
    /// report the member's credits, or that the user is unregistered, or that
    /// no user id could be determined.
    pub fn count_reply(target: Option<u64>, member: Option<Member>) -> (r: CreditsReply)
        ensures
            target is None ==> r == CreditsReply::MissingUser,
            target is Some && member is None ==> r == CreditsReply::NotRegistered,
            target is Some && member is Some ==> r == CreditsReply::CreditCount(
                member->Some_0.credits,
            ),
    {
        match target {
            None => CreditsReply::MissingUser,
            Some(_) => match member {
                None => CreditsReply::NotRegistered,
                Some(m) => CreditsReply::CreditCount(m.credits),
            },
        }
    }
}

/// The embed accent colour of each credits reply.
pub fn reply_color(r: &CreditsReply) -> (c: u32)
    ensures
        r is CreditCount ==> c == 0x34EB55,
        r is NotRegistered ==> c == 0xEBB434,
        r is MissingUser ==> c == 0xEB4034,
{
    match r {
        CreditsReply::CreditCount(_) => 0x34EB55,
        CreditsReply::NotRegistered => 0xEBB434,
        CreditsReply::MissingUser => 0xEB4034,
    }
}

} // verus!
