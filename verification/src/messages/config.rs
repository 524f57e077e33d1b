//! The messages service's configuration, from the values that its environment holds.
use crate::text::{
    decimal, law_decimal_parses_back, parse_unsigned, parse_unsigned_text, push_decimal, trim,
    trimmed,
};
use vstd::prelude::*;

verus! {

/// Why the configuration could not be read; each names its variable.
#[derive(Debug, Clone, Copy)]
pub enum ConfigError {
    MissingEnv(&'static str),
    InvalidEnv(&'static str),
}

/// A configuration error as a plain value: whether the variable was missing, and its name.
pub open spec fn error_view(e: ConfigError) -> (bool, Seq<char>) {
    match e {
        ConfigError::MissingEnv(name) => (true, name@),
        ConfigError::InvalidEnv(name) => (false, name@),
    }
}

impl ConfigError {
    /// The text that the error's `Display` writes.
    pub open spec fn spec_message(self) -> Seq<char> {
        match self {
            ConfigError::MissingEnv(name) => "missing required env var: "@ + name@,
            ConfigError::InvalidEnv(name) => "invalid value for env var: "@ + name@,
        }
    }

    /// The text that the error's `Display` writes.
    pub fn message(&self) -> (r: String)
        ensures
            r@ == self.spec_message(),
    {
        match self {
            ConfigError::MissingEnv(name) => String::from_str("missing required env var: ").concat(
                name,
            ),
            ConfigError::InvalidEnv(name) => String::from_str("invalid value for env var: ").concat(
                name,
            ),
        }
    }
}

/// The outcome of reading a required variable: missing, blank, or its value as it stands.
pub open spec fn required_spec(name: Seq<char>, value: Option<Seq<char>>) -> Result<
    Seq<char>,
    (bool, Seq<char>),
> {
    match value {
        None => Err((true, name)),
        Some(v) => if trim(v).len() == 0 {
            Err((false, name))
        } else {
            Ok(v)
        },
    }
}

/// The outcome of reading a variable with a default: blank is refused, the default too.
pub open spec fn default_spec(name: Seq<char>, value: Option<Seq<char>>, default: Seq<char>) -> Result<
    Seq<char>,
    (bool, Seq<char>),
> {
    let v = match value {
        None => default,
        Some(v) => v,
    };
    if trim(v).len() == 0 {
        Err((false, name))
    } else {
        Ok(v)
    }
}

/// The outcome of reading a `u16` variable with a default: the default when unset, else
/// `str::parse::<u16>` of the value as it stands.
pub open spec fn port_spec(name: Seq<char>, value: Option<Seq<char>>, default: u16) -> Result<
    u16,
    (bool, Seq<char>),
> {
    match value {
        None => Ok(default),
        Some(v) => match parse_unsigned(v, 65535) {
            Ok(n) => Ok(n as u16),
            Err(_) => Err((false, name)),
        },
    }
}

/// A string's view, under `Option`.
pub open spec fn opt_view(v: Option<String>) -> Option<Seq<char>> {
    match v {
        None => None,
        Some(s) => Some(s@),
    }
}

/// Reads a required variable: missing and blank values are refused; the value is kept as it
/// stands.
pub fn required_trimmed(name: &'static str, value: Option<String>) -> (r: Result<
    String,
    ConfigError,
>)
    ensures
        match r {
            Ok(v) => required_spec(name@, opt_view(value)) == Ok::<Seq<char>, (bool, Seq<char>)>(
                v@,
            ),
            Err(e) => required_spec(name@, opt_view(value)) == Err::<Seq<char>, (bool, Seq<char>)>(
                error_view(e),
            ),
        },
{
    match value {
        None => Err(ConfigError::MissingEnv(name)),
        Some(v) => {
            if crate::text::is_blank(v.as_str()) {
                Err(ConfigError::InvalidEnv(name))
            } else {
                Ok(v)
            }
        },
    }
}

/// Reads a variable that has a default: a blank value, or a blank default, is refused.
pub fn default_trimmed(name: &'static str, value: Option<String>, default: &'static str) -> (r: Result<
    String,
    ConfigError,
>)
    ensures
        match r {
            Ok(v) => default_spec(name@, opt_view(value), default@) == Ok::<
                Seq<char>,
                (bool, Seq<char>),
            >(v@),
            Err(e) => default_spec(name@, opt_view(value), default@) == Err::<
                Seq<char>,
                (bool, Seq<char>),
            >(error_view(e)),
        },
{
    let v = match value {
        None => String::from_str(default),
        Some(v) => v,
    };
    if crate::text::is_blank(v.as_str()) {
        return Err(ConfigError::InvalidEnv(name));
    }
    Ok(v)
}

/// Reads a `u16` variable with a default.
pub fn parse_u16_default(name: &'static str, value: Option<String>, default: u16) -> (r: Result<
    u16,
    ConfigError,
>)
    ensures
        match r {
            Ok(n) => port_spec(name@, opt_view(value), default) == Ok::<u16, (bool, Seq<char>)>(n),
            Err(e) => port_spec(name@, opt_view(value), default) == Err::<u16, (bool, Seq<char>)>(
                error_view(e),
            ),
        },
{
    match value {
        None => Ok(default),
        Some(raw) => match parse_unsigned_text(raw.as_str(), 65535) {
            Ok(n) => Ok(n as u16),
            Err(_) => Err(ConfigError::InvalidEnv(name)),
        },
    }
}

/// `str::to_lowercase`: Unicode lower case, a function of the text alone.
pub uninterp spec fn lowercase_text(s: Seq<char>) -> Seq<char>;

/// `str::to_lowercase`, whose result is `lowercase_text` of its argument.
#[verifier::external_body]
fn lowercase(s: &str) -> (r: String)
    ensures
        r@ == lowercase_text(s@),
{
    s.to_lowercase()
}

/// Whether a lower-cased, trimmed setting turns Kafka off: `false`, `0`, `no` or `off`.
pub open spec fn disables(t: Seq<char>) -> bool {
    t == "false"@ || t == "0"@ || t == "no"@ || t == "off"@
}

/// Whether Kafka is on, given the setting already trimmed and lower-cased: an empty setting
/// leaves it on, and only the words of `disables` turn it off.
pub fn kafka_enabled_from_lowered(t: &str) -> (r: bool)
    ensures
        r == (t@.len() == 0 || !disables(t@)),
        r == !(t@ == "false"@ || t@ == "0"@ || t@ == "no"@ || t@ == "off"@),
{
    proof {
        reveal_strlit("false");
        reveal_strlit("0");
        reveal_strlit("no");
        reveal_strlit("off");
    }
    if t.is_empty() {
        return true;
    }
    let f = crate::text::str_eq(t, "false");
    let z = crate::text::str_eq(t, "0");
    let n = crate::text::str_eq(t, "no");
    let o = crate::text::str_eq(t, "off");
    !(f || z || n || o)
}

/// Whether Kafka is on: on when the variable is unset or blank; off when its trimmed,
/// lower-cased value is one of `false`, `0`, `no`, `off`.
pub fn parse_kafka_enabled(value: Option<String>) -> (r: bool)
    ensures
        match value {
            None => r,
            Some(v) => r == (lowercase_text(trim(v@)).len() == 0 || !disables(
                lowercase_text(trim(v@)),
            )),
        },
{
    match value {
        None => true,
        Some(v) => {
            let t = trimmed(v.as_str());
            let l = lowercase(t.as_str());
            kafka_enabled_from_lowered(l.as_str())
        },
    }
}

/// The values that the service's environment holds, one per variable; `None` where a
/// variable is unset.
pub struct ConfigSource {
    pub host: Option<String>,
    pub port: Option<String>,
    pub database_url: Option<String>,
    pub jwt_secret: Option<String>,
    pub kafka_enabled: Option<String>,
    pub kafka_bootstrap_servers: Option<String>,
    pub kafka_topic_message_events: Option<String>,
    pub kafka_topic_auth_events: Option<String>,
    pub kafka_consumer_group: Option<String>,
}

/// The messages service's configuration.
pub struct AppConfig {
    pub host: String,
    pub port: u16,
    pub database_url: String,
    pub jwt_secret: String,
    pub kafka_enabled: bool,
    pub kafka_bootstrap_servers: String,
    pub kafka_topic_message_events: String,
    /// The topic the auth service publishes to, read when consuming.
    pub kafka_topic_auth_events: String,
    pub kafka_consumer_group: String,
}

/// The outcome of each variable, in the order the configuration reads them.
pub open spec fn host_of(s: ConfigSource) -> Result<Seq<char>, (bool, Seq<char>)> {
    default_spec("HOST"@, opt_view(s.host), "127.0.0.1"@)
}

pub open spec fn port_of(s: ConfigSource) -> Result<u16, (bool, Seq<char>)> {
    port_spec("PORT"@, opt_view(s.port), 3200)
}

pub open spec fn database_url_of(s: ConfigSource) -> Result<Seq<char>, (bool, Seq<char>)> {
    required_spec("DATABASE_URL"@, opt_view(s.database_url))
}

pub open spec fn jwt_secret_of(s: ConfigSource) -> Result<Seq<char>, (bool, Seq<char>)> {
    required_spec("JWT_SECRET"@, opt_view(s.jwt_secret))
}

pub open spec fn bootstrap_of(s: ConfigSource) -> Result<Seq<char>, (bool, Seq<char>)> {
    default_spec("KAFKA_BOOTSTRAP_SERVERS"@, opt_view(s.kafka_bootstrap_servers), "127.0.0.1:9092"@)
}

pub open spec fn message_topic_of(s: ConfigSource) -> Result<Seq<char>, (bool, Seq<char>)> {
    default_spec(
        "KAFKA_TOPIC_MESSAGE_EVENTS"@,
        opt_view(s.kafka_topic_message_events),
        "messages.events"@,
    )
}

pub open spec fn auth_topic_of(s: ConfigSource) -> Result<Seq<char>, (bool, Seq<char>)> {
    default_spec("KAFKA_TOPIC_AUTH_EVENTS"@, opt_view(s.kafka_topic_auth_events), "auth.events"@)
}

pub open spec fn group_of(s: ConfigSource) -> Result<Seq<char>, (bool, Seq<char>)> {
    default_spec("KAFKA_CONSUMER_GROUP"@, opt_view(s.kafka_consumer_group), "messages-service"@)
}

/// The first refusal among the variables, in reading order, if any.
pub open spec fn first_config_error(s: ConfigSource) -> Option<(bool, Seq<char>)> {
    if host_of(s) is Err {
        Some(host_of(s)->Err_0)
    } else if port_of(s) is Err {
        Some(port_of(s)->Err_0)
    } else if database_url_of(s) is Err {
        Some(database_url_of(s)->Err_0)
    } else if jwt_secret_of(s) is Err {
        Some(jwt_secret_of(s)->Err_0)
    } else if bootstrap_of(s) is Err {
        Some(bootstrap_of(s)->Err_0)
    } else if message_topic_of(s) is Err {
        Some(message_topic_of(s)->Err_0)
    } else if auth_topic_of(s) is Err {
        Some(auth_topic_of(s)->Err_0)
    } else if group_of(s) is Err {
        Some(group_of(s)->Err_0)
    } else {
        None
    }
}

/// Whether Kafka is on, for a setting.
pub open spec fn kafka_enabled_of(s: ConfigSource) -> bool {
    match s.kafka_enabled {
        None => true,
        Some(v) => lowercase_text(trim(v@)).len() == 0 || !disables(lowercase_text(trim(v@))),
    }
}

impl AppConfig {
    /// The configuration that the environment's values give: `HOST` (default `127.0.0.1`),
    /// `PORT` (default 3200), the required `DATABASE_URL` and `JWT_SECRET`, `KAFKA_ENABLED`,
    /// and the Kafka servers, topics and group with their defaults; the first refusal, in
    /// that order, is the error.
    pub fn from_source(source: ConfigSource) -> (r: Result<AppConfig, ConfigError>)
        ensures
            r is Err <==> first_config_error(source) is Some,
            r matches Err(e) ==> first_config_error(source) == Some(error_view(e)),
            r matches Ok(c) ==> {
                &&& host_of(source) == Ok::<Seq<char>, (bool, Seq<char>)>(c.host@)
                &&& port_of(source) == Ok::<u16, (bool, Seq<char>)>(c.port)
                &&& database_url_of(source) == Ok::<Seq<char>, (bool, Seq<char>)>(c.database_url@)
                &&& jwt_secret_of(source) == Ok::<Seq<char>, (bool, Seq<char>)>(c.jwt_secret@)
                &&& c.kafka_enabled == kafka_enabled_of(source)
                &&& bootstrap_of(source) == Ok::<Seq<char>, (bool, Seq<char>)>(
                    c.kafka_bootstrap_servers@,
                )
                &&& message_topic_of(source) == Ok::<Seq<char>, (bool, Seq<char>)>(
                    c.kafka_topic_message_events@,
                )
                &&& auth_topic_of(source) == Ok::<Seq<char>, (bool, Seq<char>)>(
                    c.kafka_topic_auth_events@,
                )
                &&& group_of(source) == Ok::<Seq<char>, (bool, Seq<char>)>(c.kafka_consumer_group@)
            },
    {
        let ConfigSource {
            host,
            port,
            database_url,
            jwt_secret,
            kafka_enabled,
            kafka_bootstrap_servers,
            kafka_topic_message_events,
            kafka_topic_auth_events,
            kafka_consumer_group,
        } = source;
        let host = default_trimmed("HOST", host, "127.0.0.1")?;
        let port = parse_u16_default("PORT", port, 3200)?;
        let database_url = required_trimmed("DATABASE_URL", database_url)?;
        let jwt_secret = required_trimmed("JWT_SECRET", jwt_secret)?;
        let kafka_enabled = parse_kafka_enabled(kafka_enabled);
        let kafka_bootstrap_servers = default_trimmed(
            "KAFKA_BOOTSTRAP_SERVERS",
            kafka_bootstrap_servers,
            "127.0.0.1:9092",
        )?;
        let kafka_topic_message_events = default_trimmed(
            "KAFKA_TOPIC_MESSAGE_EVENTS",
            kafka_topic_message_events,
            "messages.events",
        )?;
        let kafka_topic_auth_events = default_trimmed(
            "KAFKA_TOPIC_AUTH_EVENTS",
            kafka_topic_auth_events,
            "auth.events",
        )?;
        let kafka_consumer_group = default_trimmed(
            "KAFKA_CONSUMER_GROUP",
            kafka_consumer_group,
            "messages-service",
        )?;
        Ok(
            AppConfig {
                host,
                port,
                database_url,
                jwt_secret,
                kafka_enabled,
                kafka_bootstrap_servers,
                kafka_topic_message_events,
                kafka_topic_auth_events,
                kafka_consumer_group,
            },
        )
    }

    /// The address to listen on: `host:port`.
    pub fn port_config(&self) -> (r: String)
        ensures
            r@ == self.host@ + ":"@ + decimal(self.port as nat),
    {
        proof {
            reveal_strlit(":");
        }
        let mut r = self.host.clone();
        crate::text::push_char(&mut r, ':');
        push_decimal(&mut r, self.port as u64);
        assert(r@ =~= self.host@ + ":"@ + decimal(self.port as nat));
        r
    }
}


/// The port that `port_config` writes reads back as the same port: setting `PORT` to the
/// written port gives that port.
pub proof fn law_port_text_reads_back(port: u16, default: u16)
    ensures
        port_spec("PORT"@, Some(decimal(port as nat)), default) == Ok::<u16, (bool, Seq<char>)>(
            port,
        ),
{
    law_decimal_parses_back(port as nat, 65535);
}

/// Only the four words `false`, `0`, `no` and `off` turn Kafka off: every other setting,
/// `true`, `1`, `yes` and the empty one among them, leaves it on.
pub proof fn law_only_four_words_turn_kafka_off(t: Seq<char>)
    ensures
        (t.len() == 0 || !disables(t)) <==> !(t == "false"@ || t == "0"@ || t == "no"@ || t
            == "off"@),
{
    reveal_strlit("false");
    reveal_strlit("0");
    reveal_strlit("no");
    reveal_strlit("off");
}

} // verus!
