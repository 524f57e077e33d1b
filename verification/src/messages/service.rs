//! Messages: their validation and the decisions of the message service around its store.
use crate::messages::error::AppError;
use crate::text::{
    chars_of, law_trim_idempotent, lemma_utf8_len_at_most_four_per_char, trim, trim_bounds, trimmed,
    utf8_len, utf8_len_exceeds,
};
use vstd::prelude::*;

verus! {

/// The largest message body, in UTF-8 bytes after trimming.
pub const MAX_BODY_LEN: usize = 16_384;

/// A request to post a message.
#[derive(Debug)]
pub struct CreateMessageInput {
    pub conversation_id: String,
    pub body: String,
}

/// A stored message.
#[derive(Clone, Debug)]
pub struct Message {
    pub id: u64,
    pub public_id: String,
    pub conversation_id: String,
    pub author_subject: String,
    pub body: String,
    pub created_at: String,
}

/// What the service hands its store to create: the trimmed conversation id and body.
#[derive(Debug)]
pub struct NewMessage {
    pub conversation_id: String,
    pub author_subject: String,
    pub body: String,
}

/// Whether a conversation id is acceptable: something besides white space.
pub open spec fn conversation_id_valid(conversation_id: Seq<char>) -> bool {
    trim(conversation_id).len() > 0
}

/// Whether a body is acceptable: non-blank and at most `MAX_BODY_LEN` bytes once trimmed.
pub open spec fn body_valid(body: Seq<char>) -> bool {
    trim(body).len() > 0 && utf8_len(trim(body)) <= MAX_BODY_LEN
}

/// The error for a blank conversation id.
pub open spec fn is_conversation_id_error(e: AppError) -> bool {
    e.is_validation("invalid_conversation_id"@, "conversation id is required"@)
}

/// The error that an unacceptable body gets.
pub open spec fn is_body_error(body: Seq<char>, e: AppError) -> bool {
    if trim(body).len() == 0 {
        e.is_validation("invalid_body"@, "message body is required"@)
    } else {
        e.is_validation("body_too_long"@, "message body exceeds maximum length"@)
    }
}

/// The error for a failing store, keeping the store's own text.
pub open spec fn is_repository_error(detail: Seq<char>, e: AppError) -> bool {
    e.is_internal("repository_error"@, detail)
}

/// Refuses a blank conversation id.
pub fn validate_conversation_id(conversation_id: &str) -> (r: Result<(), AppError>)
    ensures
        r is Ok <==> conversation_id_valid(conversation_id@),
        r matches Err(e) ==> is_conversation_id_error(e),
{
    if crate::text::is_blank(conversation_id) {
        return Err(AppError::validation("invalid_conversation_id", "conversation id is required"));
    }
    Ok(())
}

/// Refuses a blank body, and one longer than `MAX_BODY_LEN` bytes once trimmed.
pub fn validate_body(body: &str) -> (r: Result<(), AppError>)
    ensures
        r is Ok <==> body_valid(body@),
        r is Ok <==> (trim(body@).len() > 0 && utf8_len(trim(body@)) <= 16384),
        r matches Err(e) ==> is_body_error(body@, e),
{
    let v = chars_of(body);
    let (i, j) = trim_bounds(&v);
    if i == j {
        return Err(AppError::validation("invalid_body", "message body is required"));
    }
    if utf8_len_exceeds(&v, i, j, MAX_BODY_LEN) {
        return Err(AppError::validation("body_too_long", "message body exceeds maximum length"));
    }
    Ok(())
}

/// The first half of creating a message: validates the input, conversation id first,
/// and gives what the store is to create, with the id and the body trimmed.
pub fn prepare_create_message(author_subject: String, input: CreateMessageInput) -> (r: Result<
    NewMessage,
    AppError,
>)
    ensures
        r is Ok <==> conversation_id_valid(input.conversation_id@) && body_valid(input.body@),
        !conversation_id_valid(input.conversation_id@) ==> (r matches Err(e)
            && is_conversation_id_error(e)),
        conversation_id_valid(input.conversation_id@) && !body_valid(input.body@) ==> (r matches Err(
            e,
        ) && is_body_error(input.body@, e)),
        r matches Ok(m) ==> {
            &&& m.conversation_id@ == trim(input.conversation_id@)
            &&& m.author_subject@ == author_subject@
            &&& m.body@ == trim(input.body@)
        },
{
    validate_conversation_id(input.conversation_id.as_str())?;
    validate_body(input.body.as_str())?;
    Ok(
        NewMessage {
            conversation_id: trimmed(input.conversation_id.as_str()),
            author_subject,
            body: trimmed(input.body.as_str()),
        },
    )
}

/// The second half of creating a message: the store's answer, its failure turned into a
/// `repository_error` that keeps the store's text.
pub fn finish_create_message(stored: Result<Message, String>) -> (r: Result<Message, AppError>)
    ensures
        stored matches Ok(m) ==> r == Ok::<Message, AppError>(m),
        stored matches Err(d) ==> (r matches Err(e) && is_repository_error(d@, e)),
{
    match stored {
        Ok(m) => Ok(m),
        Err(d) => Err(AppError::internal_with_source("repository_error", d.as_str())),
    }
}

/// The result of looking up one message: the message, `message_not_found` when the store
/// has none, or a `repository_error` when the store failed.
pub fn finish_get_message(found: Result<Option<Message>, String>) -> (r: Result<Message, AppError>)
    ensures
        found matches Ok(Some(m)) ==> r == Ok::<Message, AppError>(m),
        found matches Ok(None) ==> (r matches Err(e) && e.is_not_found(
            "message_not_found"@,
            "message not found"@,
        )),
        found matches Err(d) ==> (r matches Err(e) && is_repository_error(d@, e)),
{
    match found {
        Ok(Some(m)) => Ok(m),
        Ok(None) => Err(AppError::not_found("message_not_found", "message not found")),
        Err(d) => Err(AppError::internal_with_source("repository_error", d.as_str())),
    }
}

/// The first half of listing a conversation: validates the id and gives it trimmed.
pub fn prepare_list_messages(conversation_id: &str) -> (r: Result<String, AppError>)
    ensures
        r is Ok <==> conversation_id_valid(conversation_id@),
        r matches Ok(c) ==> c@ == trim(conversation_id@),
        r matches Err(e) ==> is_conversation_id_error(e),
{
    validate_conversation_id(conversation_id)?;
    Ok(trimmed(conversation_id))
}

/// The second half of listing a conversation: the store's answer, its failure turned
/// into a `repository_error`.
pub fn finish_list_messages(listed: Result<Vec<Message>, String>) -> (r: Result<
    Vec<Message>,
    AppError,
>)
    ensures
        listed matches Ok(v) ==> r == Ok::<Vec<Message>, AppError>(v),
        listed matches Err(d) ==> (r matches Err(e) && is_repository_error(d@, e)),
{
    match listed {
        Ok(v) => Ok(v),
        Err(d) => Err(AppError::internal_with_source("repository_error", d.as_str())),
    }
}


/// The stored form of a message, as the storage model declares it.
#[derive(Clone, Debug)]
pub struct MessageModel {
    pub id: u64,
    pub public_id: String,
    pub conversation_id: String,
    pub author_subject: String,
    pub body: String,
    pub created_at: String,
}

impl vstd::std_specs::convert::FromSpecImpl<MessageModel> for Message {
    open spec fn obeys_from_spec() -> bool {
        true
    }

    open spec fn from_spec(model: MessageModel) -> Message {
        Message {
            id: model.id,
            public_id: model.public_id,
            conversation_id: model.conversation_id,
            author_subject: model.author_subject,
            body: model.body,
            created_at: model.created_at,
        }
    }
}

impl From<MessageModel> for Message {
    /// The message that a stored model holds, field for field.
    fn from(model: MessageModel) -> (r: Message) {
        Message {
            id: model.id,
            public_id: model.public_id,
            conversation_id: model.conversation_id,
            author_subject: model.author_subject,
            body: model.body,
            created_at: model.created_at,
        }
    }
}

impl Message {
    /// The message that a database row holds; the row's signed id is read as `u64`, as the
    /// `as` cast reads it.
    pub fn from_row(
        id: i64,
        public_id: String,
        conversation_id: String,
        author_subject: String,
        body: String,
        created_at: String,
    ) -> (r: Message)
        ensures
            r.id == id as u64,
            r.public_id == public_id,
            r.conversation_id == conversation_id,
            r.author_subject == author_subject,
            r.body == body,
            r.created_at == created_at,
    {
        Message { id: id as u64, public_id, conversation_id, author_subject, body, created_at }
    }
}


/// What the service hands its store passes the service's validation again, unchanged: a
/// valid conversation id and body, once trimmed, are still valid, and trimming them again
/// changes nothing.
pub proof fn law_prepared_message_revalidates(conversation_id: Seq<char>, body: Seq<char>)
    requires
        conversation_id_valid(conversation_id),
        body_valid(body),
    ensures
        conversation_id_valid(trim(conversation_id)),
        body_valid(trim(body)),
        trim(trim(conversation_id)) == trim(conversation_id),
        trim(trim(body)) == trim(body),
{
    law_trim_idempotent(conversation_id);
    law_trim_idempotent(body);
}

/// A request to list a conversation's messages.
#[derive(Debug)]
pub struct ListMessagesQuery {
    pub conversation_id: String,
}

/// A body is accepted exactly when, trimmed, it is not empty and its UTF-8 encoding takes at
/// most 16384 bytes; so every non-blank body of at most 4096 characters once trimmed is
/// accepted, whatever characters it holds.
pub proof fn law_body_acceptance(body: Seq<char>)
    ensures
        body_valid(body) <==> (trim(body).len() > 0 && utf8_len(trim(body)) <= 16384),
        trim(body).len() > 0 && trim(body).len() <= 4096 ==> body_valid(body),
{
    lemma_utf8_len_at_most_four_per_char(trim(body));
}

} // verus!
