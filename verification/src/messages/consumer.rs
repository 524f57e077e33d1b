//! The Kafka consumer's decisions: one record at a time, read by its topic, parsed, and
//! handed to the inbound handler. The caller reads the stream, parses payloads and calls
//! the handler; it reports back what came of each action.
use crate::messages::events::{route_inbound, ConsumedAuthEvent, InboundRoute, MessageEvent};
use vstd::prelude::*;

verus! {

/// What came of the action the consumer asked for last.
#[derive(Debug)]
pub enum ConsumerEvent {
    /// The stream gave a record from this topic.
    Received(String),
    /// The stream gave an error in place of a record.
    StreamFailed(String),
    /// The stream ended.
    StreamEnded,
    /// The record's payload, read as a message event.
    MessageParsed(Result<MessageEvent, String>),
    /// The record's payload, read as an auth event.
    AuthParsed(Result<ConsumedAuthEvent, String>),
    /// What the inbound handler answered.
    Handled(Result<(), String>),
}

/// What the caller is to do next.
#[derive(Debug)]
pub enum ConsumerAction {
    /// Wait for the next record of the stream.
    NextRecord,
    /// Parse the record's payload as a message event.
    ParseMessageEvent,
    /// Parse the record's payload as an auth event.
    ParseAuthEvent,
    /// Hand this event to the inbound handler's `on_message_event`.
    DeliverMessageEvent(MessageEvent),
    /// Hand this event to the inbound handler's `on_auth_event`.
    DeliverAuthEvent(ConsumedAuthEvent),
    /// Stop consuming.
    Stop,
}

/// Where the consumer stands.
#[derive(Debug, Clone, Copy, PartialEq, Eq, Structural)]
pub enum ConsumerPhase {
    /// Waiting for a record.
    Waiting,
    /// Waiting for the record's payload read as a message event.
    ParsingMessage,
    /// Waiting for the record's payload read as an auth event.
    ParsingAuth,
    /// Waiting for the handler's answer.
    Delivering,
    /// Stopped: the stream ended.
    Stopped,
}

/// A consumer of the message-events and auth-events topics.
#[derive(Debug)]
pub struct InboundConsumer {
    pub message_topic: String,
    pub auth_topic: String,
    pub phase: ConsumerPhase,
}

impl InboundConsumer {
    /// Whether `event` answers the action the consumer asked for last.
    pub open spec fn expects(&self, event: ConsumerEvent) -> bool {
        match event {
            ConsumerEvent::Received(_) => self.phase == ConsumerPhase::Waiting,
            ConsumerEvent::StreamFailed(_) => self.phase == ConsumerPhase::Waiting,
            ConsumerEvent::StreamEnded => self.phase == ConsumerPhase::Waiting,
            ConsumerEvent::MessageParsed(_) => self.phase == ConsumerPhase::ParsingMessage,
            ConsumerEvent::AuthParsed(_) => self.phase == ConsumerPhase::ParsingAuth,
            ConsumerEvent::Handled(_) => self.phase == ConsumerPhase::Delivering,
        }
    }

    /// The phase and the action that follow `event`. A record from the message-events topic
    /// is parsed as a message event, one from the auth-events topic as an auth event, and
    /// one from another topic is passed over; a parsed event goes to the handler; a stream
    /// error, an unreadable payload and the handler's answer, failure or not, lead on to the
    /// next record; only the stream's end stops the consumer.
    pub open spec fn next(&self, event: ConsumerEvent) -> (ConsumerPhase, ConsumerAction) {
        match event {
            ConsumerEvent::Received(t) => if t@ == self.message_topic@ {
                (ConsumerPhase::ParsingMessage, ConsumerAction::ParseMessageEvent)
            } else if t@ == self.auth_topic@ {
                (ConsumerPhase::ParsingAuth, ConsumerAction::ParseAuthEvent)
            } else {
                (ConsumerPhase::Waiting, ConsumerAction::NextRecord)
            },
            ConsumerEvent::StreamFailed(_) => (ConsumerPhase::Waiting, ConsumerAction::NextRecord),
            ConsumerEvent::StreamEnded => (ConsumerPhase::Stopped, ConsumerAction::Stop),
            ConsumerEvent::MessageParsed(parsed) => match parsed {
                Ok(m) => (ConsumerPhase::Delivering, ConsumerAction::DeliverMessageEvent(m)),
                Err(_) => (ConsumerPhase::Waiting, ConsumerAction::NextRecord),
            },
            ConsumerEvent::AuthParsed(parsed) => match parsed {
                Ok(a) => (ConsumerPhase::Delivering, ConsumerAction::DeliverAuthEvent(a)),
                Err(_) => (ConsumerPhase::Waiting, ConsumerAction::NextRecord),
            },
            ConsumerEvent::Handled(_) => (ConsumerPhase::Waiting, ConsumerAction::NextRecord),
        }
    }

    /// A consumer of the two topics that begins by waiting for a record.
    pub fn start(message_topic: String, auth_topic: String) -> (r: (InboundConsumer, ConsumerAction))
        ensures
            r.0.message_topic == message_topic,
            r.0.auth_topic == auth_topic,
            r.0.phase == ConsumerPhase::Waiting,
            r.1 is NextRecord,
    {
        (InboundConsumer { message_topic, auth_topic, phase: ConsumerPhase::Waiting }, ConsumerAction::NextRecord)
    }

    /// Whether `event` answers the action the consumer asked for last.
    pub fn accepts(&self, event: &ConsumerEvent) -> (r: bool)
        ensures
            r == self.expects(*event),
    {
        match event {
            ConsumerEvent::Received(_) | ConsumerEvent::StreamFailed(_) | ConsumerEvent::StreamEnded => {
                self.phase == ConsumerPhase::Waiting
            },
            ConsumerEvent::MessageParsed(_) => self.phase == ConsumerPhase::ParsingMessage,
            ConsumerEvent::AuthParsed(_) => self.phase == ConsumerPhase::ParsingAuth,
            ConsumerEvent::Handled(_) => self.phase == ConsumerPhase::Delivering,
        }
    }

    /// One step: takes what came of the last action and gives the next one (see `next`).
    pub fn step(self, event: ConsumerEvent) -> (r: (InboundConsumer, ConsumerAction))
        ensures
            r.0.message_topic == self.message_topic,
            r.0.auth_topic == self.auth_topic,
            (r.0.phase, r.1) == self.next(event),
    {
        let InboundConsumer { message_topic, auth_topic, phase: _ } = self;
        let (phase, action) = match event {
            ConsumerEvent::Received(t) => match route_inbound(t.as_str(), message_topic.as_str(), auth_topic.as_str()) {
                InboundRoute::MessageEvent => (ConsumerPhase::ParsingMessage, ConsumerAction::ParseMessageEvent),
                InboundRoute::AuthEvent => (ConsumerPhase::ParsingAuth, ConsumerAction::ParseAuthEvent),
                InboundRoute::Unexpected => (ConsumerPhase::Waiting, ConsumerAction::NextRecord),
            },
            ConsumerEvent::StreamFailed(_) => (ConsumerPhase::Waiting, ConsumerAction::NextRecord),
            ConsumerEvent::StreamEnded => (ConsumerPhase::Stopped, ConsumerAction::Stop),
            ConsumerEvent::MessageParsed(parsed) => match parsed {
                Ok(m) => (ConsumerPhase::Delivering, ConsumerAction::DeliverMessageEvent(m)),
                Err(_) => (ConsumerPhase::Waiting, ConsumerAction::NextRecord),
            },
            ConsumerEvent::AuthParsed(parsed) => match parsed {
                Ok(a) => (ConsumerPhase::Delivering, ConsumerAction::DeliverAuthEvent(a)),
                Err(_) => (ConsumerPhase::Waiting, ConsumerAction::NextRecord),
            },
            ConsumerEvent::Handled(_) => (ConsumerPhase::Waiting, ConsumerAction::NextRecord),
        };
        (InboundConsumer { message_topic, auth_topic, phase }, action)
    }
}

/// The consumer stops only when the stream ends: a stream error, a record on another topic,
/// an unreadable payload and a handler's failure all lead on to the next record.
pub proof fn law_consumer_stops_only_at_stream_end(c: InboundConsumer, event: ConsumerEvent)
    ensures
        (c.next(event).0 == ConsumerPhase::Stopped) <==> (event is StreamEnded),
        (c.next(event).1 is Stop) <==> (event is StreamEnded),
        event is StreamFailed ==> c.next(event).1 is NextRecord,
        event matches ConsumerEvent::Handled(_) ==> c.next(event).1 is NextRecord,
        event matches ConsumerEvent::MessageParsed(Err(_)) ==> c.next(event).1 is NextRecord,
        event matches ConsumerEvent::AuthParsed(Err(_)) ==> c.next(event).1 is NextRecord,
{
}

/// Records are handled one at a time: the consumer takes a new record only while waiting,
/// and it waits again exactly when it asks for the next record, which is only once the
/// record in hand is done with: passed over, unreadable, or answered by the handler.
pub proof fn law_one_record_at_a_time(c: InboundConsumer, event: ConsumerEvent)
    requires
        c.expects(event),
    ensures
        event is Received ==> c.phase == ConsumerPhase::Waiting,
        (c.next(event).0 == ConsumerPhase::Waiting) <==> (c.next(event).1 is NextRecord),
        c.next(event).1 matches ConsumerAction::DeliverMessageEvent(m) ==> event
            == ConsumerEvent::MessageParsed(Ok(m)),
        c.next(event).1 matches ConsumerAction::DeliverAuthEvent(a) ==> event
            == ConsumerEvent::AuthParsed(Ok(a)),
{
}

} // verus!
