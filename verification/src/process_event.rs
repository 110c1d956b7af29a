//! Per-event routing decisions of the driver loop.
//!
//! The embedding application reduces each gateway event to an
//! [`InboundEvent`] of plain values and asks [`route_event`] what to do with
//! it; command invocations are then handed to the dispatcher in a task of
//! their own, so a slow or failing command cannot stall ingestion.

use vstd::prelude::*;

use crate::payload::Payload;

verus! {

/// One inbound gateway event, reduced to the values the core routes on.
#[derive(Clone, Debug, PartialEq, Eq)]
pub enum InboundEvent {
    /// An application-command invocation: its name and raw argument payload.
    CommandInvocation { name: String, payload: Payload },
    /// An interaction that is not an application command.
    OtherInteraction,
    /// A chat message, with its text content.
    ChatMessage { content: String },
    /// The gateway reports the shard ready.
    GatewayReady,
    /// Any other event the core does not act on.
    OtherEvent,
}

/// What the driver loop does with one event.
#[derive(Clone, Debug, PartialEq, Eq)]
pub enum EventAction {
    /// Hand the invocation to the dispatcher, in a task of its own.
    DispatchCommand { name: String, payload: Payload },
    /// Reply to the message's channel with this text.
    SendMessage(String),
    /// Record that the shard is ready.
    NoteReady,
    /// Nothing to do.
    Ignore,
}

/// The fixed chat replies: each ping probe gets its pong answer, anything
/// else no reply at all.
pub fn message_reply(content: &String) -> (r: Option<String>)
    ensures
        content@ == "!ping"@ ==> (r matches Some(s) && s@ == "Pong!"@),
        content@ == "!ping2"@ ==> (r matches Some(s) && s@ == "Pong2!"@),
        content@ != "!ping"@ && content@ != "!ping2"@ ==> r is None,
{
    proof {
        reveal_strlit("!ping");
        reveal_strlit("!ping2");
        assert("!ping"@.len() == 5);
        assert("!ping2"@.len() == 6);
    }
    let ping = String::from_str("!ping");
    let ping2 = String::from_str("!ping2");
    if *content == ping {
        Some(String::from_str("Pong!"))
    } else if *content == ping2 {
        Some(String::from_str("Pong2!"))
    } else {
        None
    }
}

/// Routes one inbound event: command invocations go to the dispatcher,
/// recognized chat probes get their reply, everything else is ignored.
pub fn route_event(e: InboundEvent) -> (a: EventAction)
    ensures
        e matches InboundEvent::CommandInvocation { name, payload } ==> a
            == (EventAction::DispatchCommand { name, payload }),
        e is OtherInteraction ==> a == EventAction::Ignore,
        e matches InboundEvent::ChatMessage { content } ==> match a {
            EventAction::SendMessage(s) => (content@ == "!ping"@ && s@ == "Pong!"@) || (content@
                == "!ping2"@ && s@ == "Pong2!"@),
            EventAction::Ignore => content@ != "!ping"@ && content@ != "!ping2"@,
            _ => false,
        },
        e is GatewayReady ==> a == EventAction::NoteReady,
        e is OtherEvent ==> a == EventAction::Ignore,
{
    match e {
        InboundEvent::CommandInvocation { name, payload } => EventAction::DispatchCommand {
            name,
            payload,
        },
        InboundEvent::OtherInteraction => EventAction::Ignore,
        InboundEvent::ChatMessage { content } => match message_reply(&content) {
            Some(s) => EventAction::SendMessage(s),
            None => EventAction::Ignore,
        },
        InboundEvent::GatewayReady => EventAction::NoteReady,
        InboundEvent::OtherEvent => EventAction::Ignore,
    }
}

} // verus!
