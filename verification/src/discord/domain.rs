//! The bot's domain: commands, guilds, tracked manga, channel subscriptions and errors.
use crate::clock::Timestamp;
use crate::text::{ascii_lower, to_ascii_lower, trim, trimmed};
use vstd::prelude::*;

verus! {

/// An application error of the bot, with a text for the user or the log.
#[derive(Debug, Clone)]
pub enum AppError {
    Validation(String),
    NotFound(String),
    Infrastructure(String),
}

impl AppError {
    /// Whether `self` is a validation error with text `m`.
    pub open spec fn is_validation_text(self, m: Seq<char>) -> bool {
        self matches AppError::Validation(t) && t@ == m
    }

    /// Whether `self` is a not-found error with text `m`.
    pub open spec fn is_not_found_text(self, m: Seq<char>) -> bool {
        self matches AppError::NotFound(t) && t@ == m
    }

    /// Whether `self` is an infrastructure error with text `m`.
    pub open spec fn is_infrastructure_text(self, m: Seq<char>) -> bool {
        self matches AppError::Infrastructure(t) && t@ == m
    }

    /// The text that the error's `Display` writes.
    pub open spec fn spec_describe(self) -> Seq<char> {
        match self {
            AppError::Validation(m) => "validation error: "@ + m@,
            AppError::NotFound(m) => "not found: "@ + m@,
            AppError::Infrastructure(m) => "infrastructure error: "@ + m@,
        }
    }

    /// The text that the error's `Display` writes.
    pub fn describe(&self) -> (r: String)
        ensures
            r@ == self.spec_describe(),
    {
        match self {
            AppError::Validation(m) => String::from_str("validation error: ").concat(m.as_str()),
            AppError::NotFound(m) => String::from_str("not found: ").concat(m.as_str()),
            AppError::Infrastructure(m) => String::from_str("infrastructure error: ").concat(
                m.as_str(),
            ),
        }
    }
}

/// The slash commands the simple bot knows.
#[derive(Debug, Clone, Copy, PartialEq, Eq, Structural)]
pub enum BotCommand {
    Ping,
    Help,
    Unknown,
}

/// The command a slash-command name stands for, compared trimmed and in ASCII lower case.
pub open spec fn command_for(name: Seq<char>) -> BotCommand {
    let t = ascii_lower(trim(name));
    if t == "ping"@ {
        BotCommand::Ping
    } else if t == "help"@ {
        BotCommand::Help
    } else {
        BotCommand::Unknown
    }
}

impl BotCommand {
    /// The command a slash-command name stands for, ignoring surrounding white space and
    /// ASCII case.
    pub fn from_slash_name(name: &str) -> (r: Self)
        ensures
            r == command_for(name@),
    {
        let t = trimmed(name);
        let l = to_ascii_lower(t.as_str());
        if crate::text::str_eq(l.as_str(), "ping") {
            BotCommand::Ping
        } else if crate::text::str_eq(l.as_str(), "help") {
            BotCommand::Help
        } else {
            BotCommand::Unknown
        }
    }
}

/// A guild registered with the bot, and the channel it registered from.
#[derive(Debug, Clone)]
pub struct Guild {
    pub guild_id: String,
    pub channel_id: String,
}

impl Guild {
    /// A guild record.
    pub fn new(guild_id: String, channel_id: String) -> (r: Self)
        ensures
            r.guild_id == guild_id,
            r.channel_id == channel_id,
    {
        Self { guild_id, channel_id }
    }
}

/// A manga added through the simple bot.
#[derive(Debug, Clone)]
pub struct Manga {
    pub site: MangaSite,
    pub title: String,
    pub url: String,
}

/// The site a manga comes from.
#[derive(Debug, Clone, Copy, PartialEq, Eq, Structural)]
pub enum MangaSite {
    MangaDex,
    MangaPlus,
    Custom,
}

/// The site a site name stands for; names are matched exactly.
pub open spec fn site_for(s: Seq<char>) -> MangaSite {
    if s == "mangadex"@ {
        MangaSite::MangaDex
    } else if s == "mangaplus"@ {
        MangaSite::MangaPlus
    } else {
        MangaSite::Custom
    }
}

impl MangaSite {
    /// The site a site name stands for: `mangadex`, `mangaplus`, anything else `Custom`.
    pub fn from_str(s: &str) -> (r: Self)
        ensures
            r == site_for(s@),
    {
        if crate::text::str_eq(s, "mangadex") {
            Self::MangaDex
        } else if crate::text::str_eq(s, "mangaplus") {
            Self::MangaPlus
        } else {
            Self::Custom
        }
    }
}

/// A manga whose chapters the bot follows.
#[derive(Clone, Debug)]
pub struct MangaTracking {
    pub title: String,
    pub url: String,
    pub latest_chapter: i32,
    pub latest_chapter_url: String,
    pub image_url: Option<String>,
    pub created_at: Timestamp,
    pub updated_at: Timestamp,
}

impl MangaTracking {
    /// A field-for-field copy.
    pub fn duplicate(&self) -> (r: Self)
        ensures
            r == *self,
    {
        MangaTracking {
            title: self.title.clone(),
            url: self.url.clone(),
            latest_chapter: self.latest_chapter,
            latest_chapter_url: self.latest_chapter_url.clone(),
            image_url: self.image_url.clone(),
            created_at: self.created_at,
            updated_at: self.updated_at,
        }
    }

    /// A manga that is tracked but not read yet: titled `Untitled`, at chapter 0, whose
    /// latest-chapter link is the manga's own link.
    pub fn new_placeholder(url: String, now: Timestamp) -> (r: Self)
        ensures
            r.title@ == "Untitled"@,
            r.url == url,
            r.latest_chapter == 0,
            r.latest_chapter_url == url,
            r.image_url is None,
            r.created_at == now,
            r.updated_at == now,
    {
        Self {
            title: String::from_str("Untitled"),
            latest_chapter: 0,
            latest_chapter_url: url.clone(),
            image_url: None,
            created_at: now,
            updated_at: now,
            url,
        }
    }
}

/// The channel of a guild that receives the bot's updates.
#[derive(Clone, Debug)]
pub struct ChannelSubscription {
    pub channel_id: String,
    pub guild_id: String,
    pub guild_name: String,
    pub channel_name: String,
    pub created_at: Timestamp,
    pub updated_at: Timestamp,
}

impl ChannelSubscription {
    /// A subscription made at `now`.
    pub fn new(
        channel_id: String,
        guild_id: String,
        guild_name: String,
        channel_name: String,
        now: Timestamp,
    ) -> (r: Self)
        ensures
            r.channel_id == channel_id,
            r.guild_id == guild_id,
            r.guild_name == guild_name,
            r.channel_name == channel_name,
            r.created_at == now,
            r.updated_at == now,
    {
        Self { channel_id, guild_id, guild_name, channel_name, created_at: now, updated_at: now }
    }
}

/// What a manga page shows: title, latest chapter and its link, and the cover image.
#[derive(Clone, Debug)]
pub struct ScrapeResult {
    pub title: String,
    pub latest_chapter: i32,
    pub latest_chapter_url: String,
    pub image_url: Option<String>,
}

/// The bot's configuration.
pub struct AppConfig {
    pub discord_token: String,
}

impl AppConfig {
    /// The configuration from the value of `DISCORD_TOKEN`, which is required.
    pub fn from_token(token: Option<String>) -> (r: Result<Self, String>)
        ensures
            token matches Some(t) ==> (r matches Ok(c) && c.discord_token == t),
            token is None ==> (r matches Err(m) && m@ == "missing DISCORD_TOKEN environment variable"@),
    {
        match token {
            Some(t) => Ok(Self { discord_token: t }),
            None => Err(String::from_str("missing DISCORD_TOKEN environment variable")),
        }
    }
}

} // verus!
