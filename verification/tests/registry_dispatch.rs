use nbot::commands::{BotCommand, BotRunner, Command};
use nbot::credits::{credits_registrar, CreditsCommand, CreditsCountCommand};
use nbot::dispatch::{process_command, run_outcome, Outcome};
use nbot::errors::{ParseError, RegistrationError, RunError};
use nbot::hello_command::{hello_registrar, HelloCommand};
use nbot::payload::{Arg, ArgValue, Payload};
use nbot::registry::{Registry, RegistryBuilder};

fn bot_registry() -> Registry<BotRunner> {
    let mut b = RegistryBuilder::new();
    b.submit(hello_registrar());
    b.submit(credits_registrar());
    match b.materialize() {
        Ok(reg) => reg,
        Err(_) => panic!("distinct names must materialize"),
    }
}

fn hello_payload(msg: &str, user: Option<u64>) -> Payload {
    let mut args = vec![Arg {
        name: "message".to_string(),
        value: ArgValue::StrArg(msg.to_string()),
    }];
    if let Some(u) = user {
        args.push(Arg { name: "user".to_string(), value: ArgValue::UserArg(u) });
    }
    Payload::Args(args)
}

#[test]
fn duplicate_name_surfaces_registration_error() {
    let mut b = RegistryBuilder::new();
    b.submit(hello_registrar());
    b.submit(hello_registrar());
    match b.materialize() {
        Err(RegistrationError::DuplicateName(n)) => assert_eq!(n, "hello"),
        Err(_) => panic!("expected a duplicate-name error"),
        Ok(_) => panic!("a duplicate name must not be silently overwritten"),
    }
}

#[test]
fn distinct_names_materialize() {
    let reg = bot_registry();
    assert_eq!(reg.resolve(&"hello".to_string()), Some(BotRunner::HelloRunner));
    assert_eq!(reg.resolve(&"credits".to_string()), Some(BotRunner::CreditsRunner));
}

#[test]
fn lookup_table_build_idempotent() {
    let r1 = bot_registry();
    let r2 = bot_registry();
    for name in ["hello", "credits", "count", "missing", ""] {
        assert_eq!(r1.resolve(&name.to_string()), r2.resolve(&name.to_string()));
    }
}

#[test]
fn all_schemas_lists_every_descriptor() {
    let reg = bot_registry();
    let schemas = reg.all_schemas();
    assert_eq!(schemas.len(), 2);
    assert_eq!(schemas[0], HelloCommand::create_schema());
    assert_eq!(schemas[1], CreditsCommand::create_schema());
}

#[test]
fn registration_order_is_irrelevant_for_lookup() {
    let mut b = RegistryBuilder::new();
    b.submit(credits_registrar());
    b.submit(hello_registrar());
    let reg = match b.materialize() {
        Ok(reg) => reg,
        Err(_) => panic!("distinct names must materialize"),
    };
    let straight = bot_registry();
    for name in ["hello", "credits", "missing"] {
        assert_eq!(reg.resolve(&name.to_string()), straight.resolve(&name.to_string()));
    }
}

#[test]
fn resolve_misses_unregistered_names() {
    let reg = bot_registry();
    assert_eq!(reg.resolve(&"missing".to_string()), None);
    // the sub-command never registered standalone
    assert_eq!(reg.resolve(&"count".to_string()), None);
}

#[test]
fn dispatch_routes_to_registered_runner() {
    let reg = bot_registry();
    let d = process_command(&reg, &"hello".to_string(), &hello_payload("hi", None));
    match d {
        Ok(BotCommand::Hello(h)) => {
            assert_eq!(h.message, "hi");
            assert_eq!(h.user, None);
        },
        _ => panic!("hello must be parsed by the hello runner and no other"),
    }
}

#[test]
fn dispatch_unknown_name_invokes_no_runner() {
    let reg = bot_registry();
    let d = process_command(&reg, &"missing".to_string(), &hello_payload("hi", None));
    assert_eq!(d, Err(Outcome::UnknownCommand("missing".to_string())));
}

#[test]
fn composite_dispatch_resolves_subcommand() {
    let reg = bot_registry();
    let payload = Payload::Sub {
        name: "count".to_string(),
        args: vec![Arg { name: "user".to_string(), value: ArgValue::UserArg(123) }],
    };
    let d = process_command(&reg, &"credits".to_string(), &payload);
    assert_eq!(
        d,
        Ok(BotCommand::Credits(CreditsCommand::CreditsCountCommand(CreditsCountCommand {
            user: Some(123),
        })))
    );
}

#[test]
fn parse_failure_is_bad_request_and_runs_nothing() {
    let reg = bot_registry();
    // payload for hello missing the required `message` field
    let payload = Payload::Args(vec![Arg {
        name: "user".to_string(),
        value: ArgValue::UserArg(9),
    }]);
    let d = process_command(&reg, &"hello".to_string(), &payload);
    // no typed command came back, so no run could have been invoked
    assert_eq!(d, Err(Outcome::BadRequest(ParseError::MissingField)));
}

#[test]
fn run_error_variants_map_to_failed() {
    let net = RunError::NetworkFault("connection reset".to_string());
    assert_eq!(
        run_outcome(Err(net)),
        Outcome::Failed(RunError::NetworkFault("connection reset".to_string()))
    );
    let store = RunError::StorageFault("pool exhausted".to_string());
    assert_eq!(
        run_outcome(Err(store)),
        Outcome::Failed(RunError::StorageFault("pool exhausted".to_string()))
    );
}

#[test]
fn failed_run_is_contained() {
    let reg = bot_registry();

    // first invocation: parses, then its run fails with a storage fault
    let d1 = process_command(&reg, &"hello".to_string(), &hello_payload("hi", None));
    assert!(matches!(d1, Ok(BotCommand::Hello(_))));
    let o1 = run_outcome(Err(RunError::StorageFault("timeout".to_string())));
    assert_eq!(o1, Outcome::Failed(RunError::StorageFault("timeout".to_string())));

    // a second invocation against the same registry completes unaffected
    let payload = Payload::Sub { name: "count".to_string(), args: vec![] };
    let d2 = process_command(&reg, &"credits".to_string(), &payload);
    assert_eq!(
        d2,
        Ok(BotCommand::Credits(CreditsCommand::CreditsCountCommand(CreditsCountCommand {
            user: None,
        })))
    );
    assert_eq!(run_outcome(Ok(())), Outcome::Succeeded);

    // and so does re-dispatching the first invocation's own inputs
    let d3 = process_command(&reg, &"hello".to_string(), &hello_payload("hi", None));
    assert_eq!(d1, d3);
}
