//! Events that the messages service publishes and consumes, and how consumed records are
//! routed by topic.
use crate::clock::{rfc3339_text, utc_now_rfc3339, Timestamp};
use vstd::prelude::*;

verus! {

/// An event that the messages service publishes about its messages.
#[derive(Debug, Clone, PartialEq, Eq)]
pub enum MessageEvent {
    MessageCreated {
        message_id: u64,
        public_id: String,
        conversation_id: String,
        author_subject: String,
        occurred_at: String,
    },
}

/// An event that the auth service publishes, as this service reads it.
#[derive(Debug, Clone, PartialEq, Eq)]
pub enum ConsumedAuthEvent {
    UserRegistered { account_id: u64, username: String, occurred_at: String },
    UserLoggedIn {
        account_id: u64,
        username: String,
        occurred_at: String,
        expires_in_seconds: i64,
    },
}

impl MessageEvent {
    /// The conversation the event belongs to.
    pub open spec fn conversation(&self) -> Seq<char> {
        match self {
            MessageEvent::MessageCreated { conversation_id, .. } => conversation_id@,
        }
    }

    /// The Kafka record key: the conversation id, so that one conversation's events keep
    /// their order within a partition.
    pub fn partition_key(&self) -> (r: String)
        ensures
            r@ == self.conversation(),
    {
        match self {
            MessageEvent::MessageCreated { conversation_id, .. } => conversation_id.clone(),
        }
    }

    /// A `MessageCreated` event that occurred at `occurred_at`.
    pub fn message_created_at(
        message_id: u64,
        public_id: String,
        conversation_id: String,
        author_subject: String,
        occurred_at: String,
    ) -> (r: Self)
        ensures
            r == (MessageEvent::MessageCreated {
                message_id,
                public_id,
                conversation_id,
                author_subject,
                occurred_at,
            }),
    {
        MessageEvent::MessageCreated {
            message_id,
            public_id,
            conversation_id,
            author_subject,
            occurred_at,
        }
    }

    /// A `MessageCreated` event stamped with the current time, in RFC 3339: its
    /// `occurred_at` is the text chrono writes for some instant that the clock read.
    pub fn message_created(
        message_id: u64,
        public_id: String,
        conversation_id: String,
        author_subject: String,
    ) -> (r: Self)
        ensures
            r matches MessageEvent::MessageCreated {
                message_id: m,
                public_id: p,
                conversation_id: c,
                author_subject: a,
                occurred_at: o,
            } && m == message_id && p == public_id && c == conversation_id && a == author_subject
                && exists|t: Timestamp|
                t.nanos < 2_000_000_000 && o@ == #[trigger] rfc3339_text(t.secs, t.nanos),
    {
        let (now, occurred_at) = utc_now_rfc3339();
        Self::message_created_at(message_id, public_id, conversation_id, author_subject, occurred_at)
    }
}

/// The publisher that drops every event, for when Kafka is off.
pub struct NoopMessageEventPublisher;

impl NoopMessageEventPublisher {
    /// Accepts the event and does nothing with it.
    pub fn publish(&self, event: MessageEvent) -> (r: Result<(), String>)
        ensures
            r is Ok,
    {
        Ok(())
    }
}

/// The inbound handler that only records what arrives; it accepts every event.
pub struct LoggingMessagingInboundHandler;

impl LoggingMessagingInboundHandler {
    /// Accepts a message event.
    pub fn on_message_event(&self, event: MessageEvent) -> (r: Result<(), String>)
        ensures
            r is Ok,
    {
        Ok(())
    }

    /// Accepts an auth event.
    pub fn on_auth_event(&self, event: ConsumedAuthEvent) -> (r: Result<(), String>)
        ensures
            r is Ok,
    {
        Ok(())
    }
}

/// Where a consumed record goes, by its topic.
#[derive(Debug, Clone, Copy, PartialEq, Eq, Structural)]
pub enum InboundRoute {
    /// The record is a `MessageEvent`.
    MessageEvent,
    /// The record is a `ConsumedAuthEvent`.
    AuthEvent,
    /// The record came on a topic the consumer did not subscribe to.
    Unexpected,
}

/// The route of a record from `topic`; the message-events topic is checked first.
pub fn route_inbound(topic: &str, message_topic: &str, auth_topic: &str) -> (r: InboundRoute)
    ensures
        r == (if topic@ == message_topic@ {
            InboundRoute::MessageEvent
        } else if topic@ == auth_topic@ {
            InboundRoute::AuthEvent
        } else {
            InboundRoute::Unexpected
        }),
{
    if crate::text::str_eq(topic, message_topic) {
        InboundRoute::MessageEvent
    } else if crate::text::str_eq(topic, auth_topic) {
        InboundRoute::AuthEvent
    } else {
        InboundRoute::Unexpected
    }
}

} // verus!
