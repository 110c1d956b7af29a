//! The `hello` command: send a message, optionally greeting another member.

use vstd::prelude::*;

use crate::commands::{BotRunner, Command};
use crate::errors::ParseError;
use crate::registry::CommandRegistrar;
use crate::payload::{find_arg, spec_find_arg, ArgValue, Payload};
use crate::schema::{ParamKind, ParamSchema, ParamView, Schema, SchemaView};

verus! {

/// A parsed `hello` invocation.
#[derive(Clone, Debug, PartialEq, Eq)]
pub struct HelloCommand {
    /// Message to send.
    pub message: String,
    /// User to send the message to.
    pub user: Option<u64>,
}

impl Command for HelloCommand {
    open spec fn spec_name() -> Seq<char> {
        "hello"@
    }

    open spec fn spec_schema() -> SchemaView {
        SchemaView {
            name: "hello"@,
            desc: "Say hello to other members"@,
            params: seq![
                ParamView {
                    name: "message"@,
                    desc: "Message to send"@,
                    kind: ParamKind::StrParam,
                    required: true,
                },
                ParamView {
                    name: "user"@,
                    desc: "User to send the message to"@,
                    kind: ParamKind::UserParam,
                    required: false,
                },
            ],
            subs: seq![],
        }
    }

    open spec fn spec_parse(p: Payload) -> Result<HelloCommand, ParseError> {
        match p {
            Payload::Sub { .. } => Err(ParseError::UnexpectedSubcommand),
            Payload::Args(args) => match spec_find_arg(args@, "message"@) {
                None => Err(ParseError::MissingField),
                Some(v) => match v {
                    ArgValue::StrArg(msg) => match spec_find_arg(args@, "user"@) {
                        None => Ok(HelloCommand { message: msg, user: None }),
                        Some(ArgValue::UserArg(u)) => Ok(
                            HelloCommand { message: msg, user: Some(u) },
                        ),
                        Some(_) => Err(ParseError::WrongFieldType),
                    },
                    _ => Err(ParseError::WrongFieldType),
                },
            },
        }
    }

    proof fn name_consistent() {
    }

    fn name() -> (n: String) {
        String::from_str("hello")
    }

    fn create_schema() -> (s: Schema) {
        let mut params: Vec<ParamSchema> = Vec::new();
        params.push(ParamSchema::new("message", "Message to send", ParamKind::StrParam, true));
        params.push(
            ParamSchema::new("user", "User to send the message to", ParamKind::UserParam, false),
        );
        let s = Schema {
            name: String::from_str("hello"),
            desc: String::from_str("Say hello to other members"),
            params,
            subs: Vec::new(),
        };
        proof {
            assert(s@.params =~= Self::spec_schema().params);
            assert(s@.subs =~= Self::spec_schema().subs);
            assert(s@ =~= Self::spec_schema());
        }
        s
    }

    fn parse_data(p: &Payload) -> (r: Result<HelloCommand, ParseError>) {
        match p {
            Payload::Sub { .. } => Err(ParseError::UnexpectedSubcommand),
            Payload::Args(args) => {
                let message_key = String::from_str("message");
                let message = match find_arg(args, &message_key) {
                    None => {
                        return Err(ParseError::MissingField);
                    },
                    Some(ArgValue::StrArg(s)) => s.clone(),
                    Some(_) => {
                        return Err(ParseError::WrongFieldType);
                    },
                };
                let user_key = String::from_str("user");
                let user = match find_arg(args, &user_key) {
                    None => None,
                    Some(ArgValue::UserArg(u)) => Some(*u),
                    Some(_) => {
                        return Err(ParseError::WrongFieldType);
                    },
                };
                Ok(HelloCommand { message, user })
            },
        }
    }
}

/// The registration entry this module contributes: the one descriptor of
/// the `hello` command, bound to its runner handle.
pub fn hello_registrar() -> (d: CommandRegistrar<BotRunner>)
    ensures
        d.name@ == HelloCommand::spec_name(),
        d.schema@ == HelloCommand::spec_schema(),
        d.schema@.name == d.name@,
        d.runner == BotRunner::HelloRunner,
{
    proof {
        HelloCommand::name_consistent();
    }
    CommandRegistrar::new::<HelloCommand>(BotRunner::HelloRunner)
}

/// The reply a `hello` run sends back through the platform collaborator.
#[derive(Clone, Debug, PartialEq, Eq)]
pub enum HelloReply {
    /// Greet the given user, then the message, on its own line.
    Greet { user: u64, message: String },
    /// Send the message unchanged.
    Plain(String),
}

impl HelloCommand {
    /// The run decision of `hello`: if a user was named, greet that user with
    /// the message; otherwise send the message alone. The embedding
    /// application renders the reply and performs the network call.
    pub fn reply(self) -> (r: HelloReply)
        ensures
            match self.user {
                Some(u) => r == (HelloReply::Greet { user: u, message: self.message }),
                None => r == HelloReply::Plain(self.message),
            },
    {
        match self.user {
            Some(u) => HelloReply::Greet { user: u, message: self.message },
            None => HelloReply::Plain(self.message),
        }
    }
}

} // verus!
