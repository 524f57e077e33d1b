//! The simple bot's use cases: answering slash commands, registering guilds, adding manga.
use crate::discord::domain::{command_for, site_for, BotCommand, Guild, Manga, MangaSite};
use vstd::prelude::*;

verus! {

/// The reply to a slash command.
pub open spec fn reply_for(c: BotCommand) -> Seq<char> {
    match c {
        BotCommand::Ping => "pong"@,
        BotCommand::Help => "Available commands: /ping, /help"@,
        BotCommand::Unknown => "Unknown command. Use /help"@,
    }
}

/// Answers the simple slash commands.
pub struct HandleSlashCommandUseCase;

impl HandleSlashCommandUseCase {
    /// The use case.
    pub fn new() -> Self {
        Self
    }

    /// The reply to the command named `command_name`.
    pub fn execute(&self, command_name: &str) -> (r: &'static str)
        ensures
            r@ == reply_for(command_for(command_name@)),
    {
        let command = BotCommand::from_slash_name(command_name);
        let response = match command {
            BotCommand::Ping => "pong",
            BotCommand::Help => "Available commands: /ping, /help",
            BotCommand::Unknown => "Unknown command. Use /help",
        };
        response
    }
}

/// Registers a guild in a guild store `R`.
pub struct RegisterGuildUseCase<R> {
    repo: R,
}

impl<R> RegisterGuildUseCase<R> {
    /// The store that registrations go to.
    pub closed spec fn store(&self) -> R {
        self.repo
    }

    /// The use case over `repo`.
    pub fn new(repo: R) -> (r: Self)
        ensures
            r.store() == repo,
    {
        Self { repo }
    }

    /// The store that registrations go to.
    pub fn repository(&self) -> (r: &R)
        ensures
            *r == self.store(),
    {
        &self.repo
    }

    /// What registering does: the guild to save, and the reply once it is saved.
    pub fn plan(&self, guild_id: String, channel_id: String) -> (r: (Guild, String))
        ensures
            r.0.guild_id == guild_id,
            r.0.channel_id == channel_id,
            r.1@ == "✅ guild registered"@,
    {
        let guild = Guild::new(guild_id, channel_id);
        (guild, String::from_str("✅ guild registered"))
    }
}

/// Adds a manga to a manga store `R`.
pub struct AddMangaUseCase<R> {
    repo: R,
}

impl<R> AddMangaUseCase<R> {
    /// The store that manga go to.
    pub closed spec fn store(&self) -> R {
        self.repo
    }

    /// The use case over `repo`.
    pub fn new(repo: R) -> (r: Self)
        ensures
            r.store() == repo,
    {
        Self { repo }
    }

    /// The store that manga go to.
    pub fn repository(&self) -> (r: &R)
        ensures
            *r == self.store(),
    {
        &self.repo
    }

    /// What adding does: the manga to save, its site read from `site`, and the reply once it
    /// is saved.
    pub fn plan(&self, site: &str, title: String, url: String) -> (r: (Manga, String))
        ensures
            r.0.site == site_for(site@),
            r.0.title == title,
            r.0.url == url,
            r.1@ == "📚 manga added successfully"@,
    {
        let manga = Manga { site: MangaSite::from_str(site), title, url };
        (manga, String::from_str("📚 manga added successfully"))
    }
}

} // verus!
