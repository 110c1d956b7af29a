use nbot::credits::{
    initial_member, reply_color, CreditsCountCommand, CreditsReply, Member, STARTING_CREDITS,
};
use nbot::hello_command::{HelloCommand, HelloReply};
use nbot::payload::{Arg, ArgValue, Payload};
use nbot::process_event::{message_reply, route_event, EventAction, InboundEvent};

#[test]
fn hello_reply_greets_named_user() {
    let c = HelloCommand { message: "hi there".to_string(), user: Some(5) };
    assert_eq!(c.reply(), HelloReply::Greet { user: 5, message: "hi there".to_string() });
}

#[test]
fn hello_reply_plain_without_user() {
    let c = HelloCommand { message: "hi there".to_string(), user: None };
    assert_eq!(c.reply(), HelloReply::Plain("hi there".to_string()));
}

#[test]
fn target_user_prefers_named_user() {
    let c = CreditsCountCommand { user: Some(7) };
    assert_eq!(c.target_user(Some(9)), Some(7));
    let c2 = CreditsCountCommand { user: None };
    assert_eq!(c2.target_user(Some(9)), Some(9));
    assert_eq!(c2.target_user(None), None);
}

#[test]
fn count_reply_cases() {
    assert_eq!(CreditsCountCommand::count_reply(None, None), CreditsReply::MissingUser);
    assert_eq!(
        CreditsCountCommand::count_reply(Some(1), None),
        CreditsReply::NotRegistered
    );
    assert_eq!(
        CreditsCountCommand::count_reply(Some(1), Some(Member { id: 1, credits: 42 })),
        CreditsReply::CreditCount(42)
    );
}

#[test]
fn reply_colors_exact() {
    assert_eq!(reply_color(&CreditsReply::CreditCount(1)), 0x34EB55);
    assert_eq!(reply_color(&CreditsReply::NotRegistered), 0xEBB434);
    assert_eq!(reply_color(&CreditsReply::MissingUser), 0xEB4034);
}

#[test]
fn initial_member_starts_with_ten_credits() {
    assert_eq!(STARTING_CREDITS, 10);
    assert_eq!(initial_member(3), Member { id: 3, credits: 10 });
}

#[test]
fn message_reply_exact() {
    assert_eq!(message_reply(&"!ping".to_string()), Some("Pong!".to_string()));
    assert_eq!(message_reply(&"!ping2".to_string()), Some("Pong2!".to_string()));
    assert_eq!(message_reply(&"!pin".to_string()), None);
    assert_eq!(message_reply(&"".to_string()), None);
}

#[test]
fn route_command_invocation_to_dispatcher() {
    let payload = Payload::Args(vec![Arg {
        name: "message".to_string(),
        value: ArgValue::StrArg("hi".to_string()),
    }]);
    let e = InboundEvent::CommandInvocation { name: "hello".to_string(), payload: payload.clone() };
    assert_eq!(
        route_event(e),
        EventAction::DispatchCommand { name: "hello".to_string(), payload }
    );
}

#[test]
fn route_chat_probes() {
    let e = InboundEvent::ChatMessage { content: "!ping".to_string() };
    assert_eq!(route_event(e), EventAction::SendMessage("Pong!".to_string()));
    let e2 = InboundEvent::ChatMessage { content: "!ping2".to_string() };
    assert_eq!(route_event(e2), EventAction::SendMessage("Pong2!".to_string()));
    let e3 = InboundEvent::ChatMessage { content: "hello there".to_string() };
    assert_eq!(route_event(e3), EventAction::Ignore);
}

#[test]
fn route_other_events() {
    assert_eq!(route_event(InboundEvent::GatewayReady), EventAction::NoteReady);
    assert_eq!(route_event(InboundEvent::OtherInteraction), EventAction::Ignore);
    assert_eq!(route_event(InboundEvent::OtherEvent), EventAction::Ignore);
}
