//! The bot's environment: the variables it needs, and the database it connects to.
use vstd::prelude::*;

verus! {

/// The refusal for a variable that is not set.
pub open spec fn missing_env_text(key: Seq<char>) -> Seq<char> {
    "ไม่พบ "@ + key + " ใน environment"@
}

/// The refusal for a variable that is not set.
pub fn missing_env(key: &str) -> (r: String)
    ensures
        r@ == missing_env_text(key@),
{
    String::from_str("ไม่พบ ").concat(key).concat(" ใน environment")
}

/// Checks that `DISCORD_TOKEN`, `MONGO_URI` and `MONGO_DB_NAME` are set, in that order;
/// the first one missing is refused.
pub fn ensure_env(token_set: bool, mongo_uri_set: bool, db_name_set: bool) -> (r: Result<(), String>)
    ensures
        r is Ok <==> token_set && mongo_uri_set && db_name_set,
        !token_set ==> (r matches Err(m) && m@ == missing_env_text("DISCORD_TOKEN"@)),
        token_set && !mongo_uri_set ==> (r matches Err(m) && m@ == missing_env_text("MONGO_URI"@)),
        token_set && mongo_uri_set && !db_name_set ==> (r matches Err(m) && m@ == missing_env_text(
            "MONGO_DB_NAME"@,
        )),
{
    if !token_set {
        return Err(missing_env("DISCORD_TOKEN"));
    }
    if !mongo_uri_set {
        return Err(missing_env("MONGO_URI"));
    }
    if !db_name_set {
        return Err(missing_env("MONGO_DB_NAME"));
    }
    Ok(())
}

/// How the bot connects to MongoDB.
#[derive(Debug)]
pub struct MongoSettings {
    pub uri: String,
    pub db_name: String,
    pub max_pool_size: u32,
    pub min_pool_size: u32,
    pub max_idle_secs: u64,
    pub server_selection_timeout_secs: u64,
}

/// The connection settings from `MONGO_URI` and `MONGO_DB_NAME`, each with its default
/// (`mongodb://localhost:27017`, `discord_bot`), and a pool of 5 to 100 connections, idle
/// for at most 60 seconds, with 5 seconds to select a server.
pub fn mongo_settings(uri: Option<String>, db_name: Option<String>) -> (r: MongoSettings)
    ensures
        uri matches Some(u) ==> r.uri == u,
        uri is None ==> r.uri@ == "mongodb://localhost:27017"@,
        db_name matches Some(d) ==> r.db_name == d,
        db_name is None ==> r.db_name@ == "discord_bot"@,
        r.max_pool_size == 100,
        r.min_pool_size == 5,
        r.max_idle_secs == 60,
        r.server_selection_timeout_secs == 5,
{
    MongoSettings {
        uri: match uri {
            Some(u) => u,
            None => String::from_str("mongodb://localhost:27017"),
        },
        db_name: match db_name {
            Some(d) => d,
            None => String::from_str("discord_bot"),
        },
        max_pool_size: 100,
        min_pool_size: 5,
        max_idle_secs: 60,
        server_selection_timeout_secs: 5,
    }
}

} // verus!
