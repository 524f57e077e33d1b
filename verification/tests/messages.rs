use chat_services::messages::config::{
    default_trimmed, parse_kafka_enabled, parse_u16_default, required_trimmed,
    kafka_enabled_from_lowered, AppConfig, ConfigError, ConfigSource,
};
use chat_services::messages::consumer::{ConsumerAction, ConsumerEvent, ConsumerPhase, InboundConsumer};
use chat_services::messages::error::AppError;
use chat_services::messages::events::{
    route_inbound, ConsumedAuthEvent, InboundRoute, LoggingMessagingInboundHandler, MessageEvent,
    NoopMessageEventPublisher,
};
use chat_services::messages::kafka::{
    consumer_settings, producer_settings, topic_ensure_outcome, TopicCreation,
};
use chat_services::messages::service::{
    finish_create_message, finish_get_message, finish_list_messages, prepare_create_message,
    prepare_list_messages, validate_body, validate_conversation_id, CreateMessageInput, Message,
    MessageModel, NewMessage, MAX_BODY_LEN,
};

/// A store that keeps what it is given, as the service's tests used.
fn mock_store(m: NewMessage) -> Result<Message, String> {
    Ok(Message {
        id: 1,
        public_id: "msg_1".to_string(),
        conversation_id: m.conversation_id,
        author_subject: m.author_subject,
        body: m.body,
        created_at: "2026-01-01T00:00:00Z".to_string(),
    })
}

fn create(author: &str, input: CreateMessageInput) -> Result<Message, AppError> {
    let new = prepare_create_message(author.to_string(), input)?;
    finish_create_message(mock_store(new))
}

fn validation_code(e: &AppError) -> &'static str {
    match e {
        AppError::Validation { code, .. } => code,
        _ => panic!("unexpected error type"),
    }
}

#[test]
fn create_message_success_returns_message() {
    let input = CreateMessageInput { conversation_id: "conv-1".to_string(), body: "hello".to_string() };
    let message = create("user-sub", input).expect("should succeed");
    assert_eq!(message.conversation_id, "conv-1");
    assert_eq!(message.author_subject, "user-sub");
    assert_eq!(message.body, "hello");
}

#[test]
fn create_message_failure_empty_body_returns_validation_error() {
    let input = CreateMessageInput { conversation_id: "conv-1".to_string(), body: "   ".to_string() };
    let error = create("user-sub", input).expect_err("should fail");
    match error {
        AppError::Validation { code, .. } => assert_eq!(code, "invalid_body"),
        _ => panic!("unexpected error type"),
    }
}

#[test]
fn create_message_trims_conversation_and_body() {
    let input = CreateMessageInput {
        conversation_id: "  conv-2\t".to_string(),
        body: "\n hi there \u{3000}".to_string(),
    };
    let message = create("u", input).unwrap();
    assert_eq!(message.conversation_id, "conv-2");
    assert_eq!(message.body, "hi there");
}

#[test]
fn create_message_checks_conversation_before_body() {
    let input = CreateMessageInput { conversation_id: " ".to_string(), body: "".to_string() };
    let e = create("u", input).unwrap_err();
    assert_eq!(validation_code(&e), "invalid_conversation_id");
    match e {
        AppError::Validation { message, .. } => {
            assert_eq!(message.as_deref(), Some("conversation id is required"))
        }
        _ => unreachable!(),
    }
}

#[test]
fn validate_body_limits_bytes_after_trimming() {
    let exact = "a".repeat(MAX_BODY_LEN);
    assert!(validate_body(&exact).is_ok());
    let padded = format!("  {}  ", exact);
    assert!(validate_body(&padded).is_ok());
    let over = "a".repeat(MAX_BODY_LEN + 1);
    assert_eq!(validation_code(&validate_body(&over).unwrap_err()), "body_too_long");
    // Thai characters take three bytes each in UTF-8.
    let thai_ok = "ก".repeat(MAX_BODY_LEN / 3);
    assert!(validate_body(&thai_ok).is_ok());
    let thai_over = "ก".repeat(MAX_BODY_LEN / 3 + 1);
    assert_eq!(validation_code(&validate_body(&thai_over).unwrap_err()), "body_too_long");
    assert_eq!(validation_code(&validate_body("").unwrap_err()), "invalid_body");
}

#[test]
fn validate_conversation_id_refuses_blank() {
    assert!(validate_conversation_id("c").is_ok());
    assert!(validate_conversation_id("\u{a0}\u{2028}").is_err());
}

#[test]
fn store_failure_becomes_repository_error() {
    let e = finish_create_message(Err("db down".to_string())).unwrap_err();
    match e {
        AppError::Internal { code, message, source } => {
            assert_eq!(code, "repository_error");
            assert_eq!(message, None);
            assert_eq!(source.as_deref(), Some("db down"));
        }
        _ => panic!("unexpected error type"),
    }
    assert!(matches!(finish_list_messages(Err("x".to_string())), Err(AppError::Internal { .. })));
}

#[test]
fn get_message_not_found() {
    match finish_get_message(Ok(None)).unwrap_err() {
        AppError::NotFound { code, message } => {
            assert_eq!(code, "message_not_found");
            assert_eq!(message.as_deref(), Some("message not found"));
        }
        _ => panic!("unexpected error type"),
    }
    let m = mock_store(NewMessage {
        conversation_id: "c".into(),
        author_subject: "a".into(),
        body: "b".into(),
    })
    .unwrap();
    assert_eq!(finish_get_message(Ok(Some(m))).unwrap().public_id, "msg_1");
    assert!(matches!(finish_get_message(Err("e".into())), Err(AppError::Internal { .. })));
}

#[test]
fn list_messages_trims_and_validates() {
    assert_eq!(prepare_list_messages(" room ").unwrap(), "room");
    assert_eq!(validation_code(&prepare_list_messages("").unwrap_err()), "invalid_conversation_id");
    assert_eq!(finish_list_messages(Ok(vec![])).unwrap().len(), 0);
}

#[test]
fn error_constructors() {
    match AppError::validation("c", "m") {
        AppError::Validation { code, message } => {
            assert_eq!(code, "c");
            assert_eq!(message.as_deref(), Some("m"));
        }
        _ => panic!(),
    }
    assert!(matches!(AppError::not_found("n", "x"), AppError::NotFound { code: "n", .. }));
    match AppError::internal_with_source("i", "why") {
        AppError::Internal { code, message, source } => {
            assert_eq!(code, "i");
            assert_eq!(message, None);
            assert_eq!(source.as_deref(), Some("why"));
        }
        _ => panic!(),
    }
}

#[test]
fn message_from_model_and_row() {
    let model = MessageModel {
        id: 7,
        public_id: "p".into(),
        conversation_id: "c".into(),
        author_subject: "a".into(),
        body: "b".into(),
        created_at: "t".into(),
    };
    let m: Message = model.into();
    assert_eq!((m.id, m.public_id.as_str(), m.body.as_str()), (7, "p", "b"));
    let r = Message::from_row(-1, "p".into(), "c".into(), "a".into(), "b".into(), "t".into());
    assert_eq!(r.id, u64::MAX);
}

#[test]
fn partition_key_is_conversation() {
    let event = MessageEvent::message_created_at(1, "pub-1".into(), "conv-a".into(), "user:1".into(), "t".into());
    assert_eq!(event.partition_key(), "conv-a");
    let other = MessageEvent::message_created(2, "pub-2".into(), "conv-a".into(), "user:2".into());
    assert_eq!(other.partition_key(), event.partition_key());
    match other {
        MessageEvent::MessageCreated { message_id, occurred_at, .. } => {
            assert_eq!(message_id, 2);
            // RFC 3339: date, `T`, time.
            assert_eq!(&occurred_at[4..5], "-");
            assert_eq!(&occurred_at[10..11], "T");
        }
    }
}

#[test]
fn noop_and_logging_accept_everything() {
    let e = MessageEvent::message_created_at(1, "p".into(), "c".into(), "a".into(), "t".into());
    assert!(NoopMessageEventPublisher.publish(e.clone()).is_ok());
    assert!(LoggingMessagingInboundHandler.on_message_event(e).is_ok());
    let auth = ConsumedAuthEvent::UserRegistered { account_id: 9, username: "u".into(), occurred_at: "t".into() };
    assert!(LoggingMessagingInboundHandler.on_auth_event(auth).is_ok());
}

#[test]
fn inbound_routing() {
    assert_eq!(route_inbound("messages.events", "messages.events", "auth.events"), InboundRoute::MessageEvent);
    assert_eq!(route_inbound("auth.events", "messages.events", "auth.events"), InboundRoute::AuthEvent);
    assert_eq!(route_inbound("other", "messages.events", "auth.events"), InboundRoute::Unexpected);
    assert_eq!(route_inbound("same", "same", "same"), InboundRoute::MessageEvent);
}

#[test]
fn topic_creation_outcomes() {
    assert!(topic_ensure_outcome(&vec![TopicCreation::Created]).is_ok());
    assert!(topic_ensure_outcome(&vec![TopicCreation::AlreadyExists]).is_ok());
    let r = topic_ensure_outcome(&vec![
        TopicCreation::AlreadyExists,
        TopicCreation::Failed { name: "t1".into(), code: "InvalidTopic".into() },
        TopicCreation::Failed { name: "t2".into(), code: "X".into() },
    ]);
    assert_eq!(r.unwrap_err(), "create topic t1: InvalidTopic");
}

#[test]
fn client_settings() {
    let c = consumer_settings("grp");
    assert_eq!(c[0], ("group.id".to_string(), "grp".to_string()));
    assert_eq!(c.len(), 5);
    assert_eq!(c[4], ("heartbeat.interval.ms".to_string(), "3000".to_string()));
    let p = producer_settings();
    assert_eq!(p[1], ("acks".to_string(), "all".to_string()));
}

fn source() -> ConfigSource {
    ConfigSource {
        host: None,
        port: None,
        database_url: Some("postgres://db".into()),
        jwt_secret: Some("s3".into()),
        kafka_enabled: None,
        kafka_bootstrap_servers: None,
        kafka_topic_message_events: None,
        kafka_topic_auth_events: None,
        kafka_consumer_group: None,
    }
}

#[test]
fn config_defaults() {
    let c = AppConfig::from_source(source()).unwrap();
    assert_eq!(c.host, "127.0.0.1");
    assert_eq!(c.port, 3200);
    assert!(c.kafka_enabled);
    assert_eq!(c.kafka_bootstrap_servers, "127.0.0.1:9092");
    assert_eq!(c.kafka_topic_message_events, "messages.events");
    assert_eq!(c.kafka_topic_auth_events, "auth.events");
    assert_eq!(c.kafka_consumer_group, "messages-service");
    assert_eq!(c.port_config(), "127.0.0.1:3200");
}

#[test]
fn config_errors_in_order() {
    let mut s = source();
    s.database_url = None;
    s.port = Some("abc".into());
    match AppConfig::from_source(s) {
        Err(ConfigError::InvalidEnv(n)) => assert_eq!(n, "PORT"),
        _ => panic!(),
    }
    let mut s = source();
    s.database_url = None;
    match AppConfig::from_source(s) {
        Err(e @ ConfigError::MissingEnv(_)) => {
            assert_eq!(e.message(), "missing required env var: DATABASE_URL")
        }
        _ => panic!(),
    }
    let mut s = source();
    s.jwt_secret = Some("  ".into());
    match AppConfig::from_source(s) {
        Err(e) => assert_eq!(e.message(), "invalid value for env var: JWT_SECRET"),
        _ => panic!(),
    }
}

#[test]
fn config_values_kept_untrimmed() {
    let mut s = source();
    s.host = Some(" 0.0.0.0 ".into());
    s.port = Some("+8080".into());
    let c = AppConfig::from_source(s).unwrap();
    assert_eq!(c.host, " 0.0.0.0 ");
    assert_eq!(c.port, 8080);
    assert_eq!(c.port_config(), " 0.0.0.0 :8080");
}

#[test]
fn config_helpers() {
    assert!(matches!(required_trimmed("X", None), Err(ConfigError::MissingEnv("X"))));
    assert_eq!(required_trimmed("X", Some(" v ".into())).unwrap(), " v ");
    assert_eq!(default_trimmed("X", None, "d").unwrap(), "d");
    assert!(matches!(default_trimmed("X", None, " "), Err(ConfigError::InvalidEnv("X"))));
    assert_eq!(parse_u16_default("P", None, 5).unwrap(), 5);
    assert_eq!(parse_u16_default("P", Some("65535".into()), 5).unwrap(), 65535);
    assert!(parse_u16_default("P", Some("65536".into()), 5).is_err());
    assert!(parse_u16_default("P", Some("".into()), 5).is_err());
    assert!(parse_u16_default("P", Some("-1".into()), 5).is_err());
    assert!(parse_u16_default("P", Some(" 1".into()), 5).is_err());
}

#[test]
fn kafka_enabled_setting() {
    assert!(parse_kafka_enabled(None));
    assert!(parse_kafka_enabled(Some("   ".into())));
    assert!(!parse_kafka_enabled(Some(" FALSE ".into())));
    assert!(!parse_kafka_enabled(Some("Off".into())));
    assert!(!parse_kafka_enabled(Some("0".into())));
    assert!(!parse_kafka_enabled(Some("NO".into())));
    assert!(parse_kafka_enabled(Some("yes".into())));
    assert!(parse_kafka_enabled(Some("nope".into())));
    assert!(kafka_enabled_from_lowered(""));
    assert!(!kafka_enabled_from_lowered("off"));
    assert!(kafka_enabled_from_lowered("OFF"));
}

#[test]
fn consumer_handles_records_one_at_a_time() {
    let (c, a) = InboundConsumer::start("messages.events".into(), "auth.events".into());
    assert!(matches!(a, ConsumerAction::NextRecord));
    // A message event is parsed, delivered, and the next record follows, whatever the handler says.
    let (c, a) = c.step(ConsumerEvent::Received("messages.events".into()));
    assert!(matches!(a, ConsumerAction::ParseMessageEvent));
    assert!(!c.accepts(&ConsumerEvent::Received("messages.events".into())));
    let e = MessageEvent::message_created_at(1, "p".into(), "c".into(), "a".into(), "t".into());
    let (c, a) = c.step(ConsumerEvent::MessageParsed(Ok(e.clone())));
    match a {
        ConsumerAction::DeliverMessageEvent(d) => assert_eq!(d, e),
        other => panic!("{other:?}"),
    }
    let (c, a) = c.step(ConsumerEvent::Handled(Err("boom".into())));
    assert!(matches!(a, ConsumerAction::NextRecord));
    assert_eq!(c.phase, ConsumerPhase::Waiting);
    // An auth event with an unreadable payload is passed over.
    let (c, a) = c.step(ConsumerEvent::Received("auth.events".into()));
    assert!(matches!(a, ConsumerAction::ParseAuthEvent));
    let (c, a) = c.step(ConsumerEvent::AuthParsed(Err("not json".into())));
    assert!(matches!(a, ConsumerAction::NextRecord));
    // A readable auth event is delivered.
    let (c, _) = c.step(ConsumerEvent::Received("auth.events".into()));
    let auth = ConsumedAuthEvent::UserRegistered { account_id: 9, username: "u".into(), occurred_at: "t".into() };
    let (c, a) = c.step(ConsumerEvent::AuthParsed(Ok(auth.clone())));
    match a {
        ConsumerAction::DeliverAuthEvent(d) => assert_eq!(d, auth),
        other => panic!("{other:?}"),
    }
    let (c, _) = c.step(ConsumerEvent::Handled(Ok(())));
    // Another topic and a stream error lead on; only the stream's end stops.
    let (c, a) = c.step(ConsumerEvent::Received("other".into()));
    assert!(matches!(a, ConsumerAction::NextRecord));
    let (c, a) = c.step(ConsumerEvent::StreamFailed("broker down".into()));
    assert!(matches!(a, ConsumerAction::NextRecord));
    let (c, a) = c.step(ConsumerEvent::StreamEnded);
    assert!(matches!(a, ConsumerAction::Stop));
    assert_eq!(c.phase, ConsumerPhase::Stopped);
}
