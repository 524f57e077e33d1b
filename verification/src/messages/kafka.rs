//! Kafka: the settings of the service's clients, and the verdict on a topic creation.
use vstd::prelude::*;

verus! {

/// How the broker answered a request to create one topic.
#[derive(Debug, Clone)]
pub enum TopicCreation {
    /// The topic was created.
    Created,
    /// The topic was there already.
    AlreadyExists,
    /// The broker refused, for the topic `name`, with the error `code` (as its `Debug` writes it).
    Failed { name: String, code: String },
}

/// The verdict on a batch of topic creations: the text of the first refusal, if any.
pub open spec fn creation_failure(results: Seq<TopicCreation>) -> Option<Seq<char>>
    decreases results.len(),
{
    if results.len() == 0 {
        None
    } else {
        match results[0] {
            TopicCreation::Failed { name, code } => Some("create topic "@ + name@ + ": "@ + code@),
            _ => creation_failure(results.drop_first()),
        }
    }
}

/// Whether ensuring a topic succeeded: a topic created or already there is fine; the first
/// refusal is the error, as `create topic <name>: <code>`.
pub fn topic_ensure_outcome(results: &Vec<TopicCreation>) -> (r: Result<(), String>)
    ensures
        match r {
            Ok(()) => creation_failure(results@) is None,
            Err(text) => creation_failure(results@) == Some(text@),
        },
{
    let mut i: usize = 0;
    assert(results@.skip(0) =~= results@);
    while i < results.len()
        invariant
            i <= results.len(),
            creation_failure(results@) == creation_failure(results@.skip(i as int)),
        decreases results.len() - i,
    {
        assert(results@.skip(i as int).drop_first() =~= results@.skip(i + 1));
        assert(results@.skip(i as int)[0] == results@[i as int]);
        match &results[i] {
            TopicCreation::Failed { name, code } => {
                proof {
                    reveal_strlit("create topic ");
                    reveal_strlit(": ");
                }
                let text = String::from_str("create topic ").concat(name.as_str()).concat(
                    ": ",
                ).concat(code.as_str());
                return Err(text);
            },
            _ => {},
        }
        i = i + 1;
    }
    assert(results@.skip(i as int) =~= Seq::<TopicCreation>::empty());
    Ok(())
}

/// A string pair, for a client setting.
fn setting(key: &str, value: &str) -> (r: (String, String))
    ensures
        r.0@ == key@,
        r.1@ == value@,
{
    (String::from_str(key), String::from_str(value))
}

/// Whether `v` holds exactly these settings, in this order.
pub open spec fn settings_are(v: Seq<(String, String)>, expected: Seq<(Seq<char>, Seq<char>)>) -> bool {
    &&& v.len() == expected.len()
    &&& forall|i: int| 0 <= i < v.len() ==> (#[trigger] v[i]).0@ == expected[i].0 && v[i].1@
        == expected[i].1
}

/// The settings the message-event consumer adds to the shared client settings.
pub fn consumer_settings(group: &str) -> (r: Vec<(String, String)>)
    ensures
        settings_are(
            r@,
            seq![
                ("group.id"@, group@),
                ("enable.auto.commit"@, "true"@),
                ("auto.offset.reset"@, "earliest"@),
                ("session.timeout.ms"@, "45000"@),
                ("heartbeat.interval.ms"@, "3000"@),
            ],
        ),
{
    let mut r: Vec<(String, String)> = Vec::new();
    r.push(setting("group.id", group));
    r.push(setting("enable.auto.commit", "true"));
    r.push(setting("auto.offset.reset", "earliest"));
    r.push(setting("session.timeout.ms", "45000"));
    r.push(setting("heartbeat.interval.ms", "3000"));
    r
}

/// The settings the event producer adds to the shared client settings.
pub fn producer_settings() -> (r: Vec<(String, String)>)
    ensures
        settings_are(
            r@,
            seq![
                ("message.timeout.ms"@, "10000"@),
                ("acks"@, "all"@),
                ("enable.idempotence"@, "true"@),
            ],
        ),
{
    let mut r: Vec<(String, String)> = Vec::new();
    r.push(setting("message.timeout.ms", "10000"));
    r.push(setting("acks", "all"));
    r.push(setting("enable.idempotence", "true"));
    r
}

} // verus!
