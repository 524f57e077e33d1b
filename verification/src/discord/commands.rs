//! The bot's slash commands: which command runs, and what each outcome is answered with.
use crate::discord::domain::{AppError, ChannelSubscription};
use crate::discord::services::AddMangaResult;
use crate::text::{signed_decimal, decimal, i32_to_text, str_eq, u64_to_text};
use vstd::prelude::*;

verus! {

/// The colour of an answer's embed.
#[derive(Clone, Copy, Debug, PartialEq, Eq, Structural)]
pub enum ReplyColour {
    Red,
    Gold,
    DarkGreen,
    Blue,
}

/// An answer to a command, shown to its caller alone as an embed.
#[derive(Debug)]
pub struct Reply {
    pub title: String,
    pub description: String,
    pub colour: ReplyColour,
}

/// The footer of every answer's embed.
pub const REPLY_FOOTER: &'static str = "discord-service";

/// Whether `r` has this title, description and colour.
pub open spec fn reply_is(r: Reply, title: Seq<char>, description: Seq<char>, colour: ReplyColour) -> bool {
    r.title@ == title && r.description@ == description && r.colour == colour
}

/// An answer.
fn reply(title: &str, description: &str, colour: ReplyColour) -> (r: Reply)
    ensures
        reply_is(r, title@, description@, colour),
{
    Reply { title: String::from_str(title), description: String::from_str(description), colour }
}

/// The text shown for an error: its own text for validation and not-found errors, a
/// general message for infrastructure errors.
pub open spec fn error_text(e: AppError) -> Seq<char> {
    match e {
        AppError::Validation(m) => m@,
        AppError::NotFound(m) => m@,
        AppError::Infrastructure(_) => "เกิดข้อผิดพลาดภายในระบบ"@,
    }
}

/// The text shown for an error.
pub fn render_error(error: &AppError) -> (r: String)
    ensures
        r@ == error_text(*error),
{
    match error {
        AppError::Validation(message) | AppError::NotFound(message) => message.clone(),
        AppError::Infrastructure(_) => String::from_str("เกิดข้อผิดพลาดภายในระบบ"),
    }
}

/// The answer to a failure.
pub fn error_reply(error: &AppError) -> (r: Reply)
    ensures
        reply_is(r, "เกิดข้อผิดพลาด"@, error_text(*error), ReplyColour::Red),
{
    Reply {
        title: String::from_str("เกิดข้อผิดพลาด"),
        description: render_error(error),
        colour: ReplyColour::Red,
    }
}

/// The commands the bot registers.
#[derive(Clone, Copy, Debug, PartialEq, Eq, Structural)]
pub enum CommandRoute {
    Manga,
    Channel,
    Unknown,
}

/// The command a command name selects.
pub fn route_command(name: &str) -> (r: CommandRoute)
    ensures
        r == (if name@ == "manga"@ {
            CommandRoute::Manga
        } else if name@ == "channel"@ {
            CommandRoute::Channel
        } else {
            CommandRoute::Unknown
        }),
{
    if str_eq(name, "manga") {
        CommandRoute::Manga
    } else if str_eq(name, "channel") {
        CommandRoute::Channel
    } else {
        CommandRoute::Unknown
    }
}

/// The answer to an unknown command.
pub fn unknown_command_reply() -> (r: Reply)
    ensures
        reply_is(r, "ไม่รู้จักคำสั่ง"@, "ไม่พบคำสั่งนี้"@, ReplyColour::Red),
{
    reply("ไม่รู้จักคำสั่ง", "ไม่พบคำสั่งนี้", ReplyColour::Red)
}

/// The answer to an unknown subcommand.
pub fn unknown_subcommand_reply() -> (r: Reply)
    ensures
        reply_is(r, "ไม่รู้จักคำสั่ง"@, "ไม่รู้จักคำสั่งย่อยนี้"@, ReplyColour::Red),
{
    reply("ไม่รู้จักคำสั่ง", "ไม่รู้จักคำสั่งย่อยนี้", ReplyColour::Red)
}

/// Whether a command came without any subcommand, from the number of its options: such a
/// command is answered with `missing_subcommand_text` and runs nothing.
pub fn needs_subcommand(option_count: usize) -> (r: bool)
    ensures
        r == (option_count == 0),
{
    option_count == 0
}

/// The plain answer to a command given without any subcommand.
pub fn missing_subcommand_text() -> (r: String)
    ensures
        r@ == "ไม่พบคำสั่งย่อย กรุณาระบุตัวเลือก"@,
{
    String::from_str("ไม่พบคำสั่งย่อย กรุณาระบุตัวเลือก")
}

/// Whether `/manga`'s subcommand is the one it has, `add`.
pub fn is_manga_add(subcommand: &str) -> (r: bool)
    ensures
        r == (subcommand@ == "add"@),
{
    str_eq(subcommand, "add")
}

/// The description of a manga just added.
pub open spec fn added_description(title: Seq<char>, chapter: i32, url: Seq<char>) -> Seq<char> {
    "**เพิ่มการ์ตูนสำเร็จ**\n**ชื่อเรื่อง:** "@ + title + "\n**ตอนล่าสุด:** "@ + signed_decimal(
        chapter as int,
    ) + "\n**URL:** "@ + url
}

/// The answer to `/manga add`, by what adding came to.
pub fn add_manga_reply(outcome: &Result<AddMangaResult, AppError>) -> (r: Reply)
    ensures
        match outcome {
            Ok(AddMangaResult::AlreadyExists) => reply_is(
                r,
                "การเพิ่มการ์ตูน"@,
                "การ์ตูนนี้มีอยู่ในระบบแล้ว"@,
                ReplyColour::Gold,
            ),
            Ok(AddMangaResult::Created(m)) => reply_is(
                r,
                "เพิ่มการ์ตูนสำเร็จ"@,
                added_description(m.title@, m.latest_chapter, m.url@),
                ReplyColour::DarkGreen,
            ),
            Err(e) => reply_is(r, "เกิดข้อผิดพลาด"@, error_text(*e), ReplyColour::Red),
        },
{
    match outcome {
        Ok(AddMangaResult::AlreadyExists) => reply(
            "การเพิ่มการ์ตูน",
            "การ์ตูนนี้มีอยู่ในระบบแล้ว",
            ReplyColour::Gold,
        ),
        Ok(AddMangaResult::Created(m)) => {
            let d = String::from_str("**เพิ่มการ์ตูนสำเร็จ**\n**ชื่อเรื่อง:** ").concat(
                m.title.as_str(),
            ).concat("\n**ตอนล่าสุด:** ").concat(i32_to_text(m.latest_chapter).as_str()).concat(
                "\n**URL:** ",
            ).concat(m.url.as_str());
            Reply { title: String::from_str("เพิ่มการ์ตูนสำเร็จ"), description: d, colour: ReplyColour::DarkGreen }
        },
        Err(e) => error_reply(e),
    }
}

/// The subcommands of `/channel`.
#[derive(Clone, Copy, Debug, PartialEq, Eq, Structural)]
pub enum ChannelRoute {
    Register,
    List,
    Unknown,
}

/// The subcommand of `/channel` a subcommand name selects.
pub fn route_channel_command(subcommand: &str) -> (r: ChannelRoute)
    ensures
        r == (if subcommand@ == "register"@ {
            ChannelRoute::Register
        } else if subcommand@ == "list"@ {
            ChannelRoute::List
        } else {
            ChannelRoute::Unknown
        }),
{
    if str_eq(subcommand, "register") {
        ChannelRoute::Register
    } else if str_eq(subcommand, "list") {
        ChannelRoute::List
    } else {
        ChannelRoute::Unknown
    }
}

/// The answer to a guild-only command used outside a guild.
pub fn guild_only_reply() -> (r: Reply)
    ensures
        reply_is(r, "ไม่รองรับ"@, "คำสั่งนี้ใช้ได้เฉพาะในเซิร์ฟเวอร์เท่านั้น"@, ReplyColour::Red),
{
    reply("ไม่รองรับ", "คำสั่งนี้ใช้ได้เฉพาะในเซิร์ฟเวอร์เท่านั้น", ReplyColour::Red)
}

/// A step of `/channel register`: answer, or fetch something, or store the subscription.
#[derive(Debug)]
pub enum RegisterStep {
    /// Answer and stop.
    Reply(Reply),
    /// Fetch the guild `guild`, for its name; `channel` is the channel chosen.
    FetchGuild { guild: u64, channel: u64 },
    /// Fetch the channel `channel`, for its name and whether it belongs to a guild; the
    /// guild `guild` is named `guild_name`.
    FetchChannel { guild: u64, guild_name: String, channel: u64 },
    /// Store the subscription for this guild's channel.
    Register { guild_id: String, guild_name: String, channel_id: String, channel_name: String },
}

/// The first step of `/channel register`, given the chosen channel and the guild the
/// command came from: without a channel, or outside a guild, it answers; else it fetches
/// the guild.
pub fn register_start(channel: Option<u64>, guild: Option<u64>) -> (r: RegisterStep)
    ensures
        channel is None ==> (r matches RegisterStep::Reply(a) && reply_is(
            a,
            "ข้อมูลไม่ครบ"@,
            "กรุณาเลือกช่องที่ต้องการบันทึก"@,
            ReplyColour::Red,
        )),
        channel is Some && guild is None ==> (r matches RegisterStep::Reply(a) && reply_is(
            a,
            "ไม่รองรับ"@,
            "คำสั่งนี้ใช้ได้เฉพาะในเซิร์ฟเวอร์เท่านั้น"@,
            ReplyColour::Red,
        )),
        channel matches Some(c) ==> (guild matches Some(g) ==> r == (RegisterStep::FetchGuild {
            guild: g,
            channel: c,
        })),
{
    let c = match channel {
        None => return RegisterStep::Reply(
            reply("ข้อมูลไม่ครบ", "กรุณาเลือกช่องที่ต้องการบันทึก", ReplyColour::Red),
        ),
        Some(c) => c,
    };
    match guild {
        None => RegisterStep::Reply(guild_only_reply()),
        Some(g) => RegisterStep::FetchGuild { guild: g, channel: c },
    }
}

/// The step after fetching the guild, which gives its name: its failure is answered with
/// the fetch's text; otherwise the chosen channel is fetched.
pub fn register_after_guild(guild: u64, channel: u64, fetched: Result<String, String>) -> (r: RegisterStep)
    ensures
        fetched matches Err(t) ==> (r matches RegisterStep::Reply(a) && reply_is(
            a,
            "เกิดข้อผิดพลาด"@,
            "ดึงข้อมูลเซิร์ฟเวอร์ไม่สำเร็จ: "@ + t@,
            ReplyColour::Red,
        )),
        fetched matches Ok(name) ==> r == (RegisterStep::FetchChannel {
            guild,
            guild_name: name,
            channel,
        }),
{
    match fetched {
        Err(t) => RegisterStep::Reply(
            Reply {
                title: String::from_str("เกิดข้อผิดพลาด"),
                description: String::from_str("ดึงข้อมูลเซิร์ฟเวอร์ไม่สำเร็จ: ").concat(t.as_str()),
                colour: ReplyColour::Red,
            },
        ),
        Ok(name) => RegisterStep::FetchChannel { guild, guild_name: name, channel },
    }
}

/// The step after fetching the channel, which is `Some((id, name))` for a guild channel and
/// `None` for a private one: a failed fetch and a private channel are answered; a guild
/// channel is registered with the guild's id and name, the ids written in decimal.
pub fn register_after_channel(guild: u64, guild_name: String, fetched: Result<
    Option<(u64, String)>,
    String,
>) -> (r: RegisterStep)
    ensures
        fetched matches Err(t) ==> (r matches RegisterStep::Reply(a) && reply_is(
            a,
            "เกิดข้อผิดพลาด"@,
            "ไม่พบช่องที่ระบุ: "@ + t@,
            ReplyColour::Red,
        )),
        fetched matches Ok(None) ==> (r matches RegisterStep::Reply(a) && reply_is(
            a,
            "เกิดข้อผิดพลาด"@,
            "ไม่สามารถบันทึกข้อมูลช่องส่วนตัวได้"@,
            ReplyColour::Red,
        )),
        fetched matches Ok(Some(c)) ==> (r matches RegisterStep::Register {
            guild_id: g,
            guild_name: n,
            channel_id: i,
            channel_name: m,
        } && g@ == decimal(guild as nat) && n == guild_name && i@ == decimal(c.0 as nat) && m
            == c.1),
{
    match fetched {
        Err(t) => RegisterStep::Reply(
            Reply {
                title: String::from_str("เกิดข้อผิดพลาด"),
                description: String::from_str("ไม่พบช่องที่ระบุ: ").concat(t.as_str()),
                colour: ReplyColour::Red,
            },
        ),
        Ok(None) => RegisterStep::Reply(
            reply("เกิดข้อผิดพลาด", "ไม่สามารถบันทึกข้อมูลช่องส่วนตัวได้", ReplyColour::Red),
        ),
        Ok(Some((id, name))) => RegisterStep::Register {
            guild_id: u64_to_text(guild),
            guild_name,
            channel_id: u64_to_text(id),
            channel_name: name,
        },
    }
}

/// The answer once the subscription was stored, or failed to be.
pub fn register_reply(stored: &Result<(), AppError>) -> (r: Reply)
    ensures
        stored is Ok ==> reply_is(
            r,
            "บันทึกข้อมูลสำเร็จ"@,
            "บันทึกหรืออัปเดตข้อมูลช่องเรียบร้อย"@,
            ReplyColour::DarkGreen,
        ),
        stored matches Err(e) ==> reply_is(r, "เกิดข้อผิดพลาด"@, error_text(*e), ReplyColour::Red),
{
    match stored {
        Ok(()) => reply(
            "บันทึกข้อมูลสำเร็จ",
            "บันทึกหรืออัปเดตข้อมูลช่องเรียบร้อย",
            ReplyColour::DarkGreen,
        ),
        Err(e) => error_reply(e),
    }
}

/// One line of the channel list: the channel's name in bold, then its id in brackets.
pub open spec fn channel_line(c: ChannelSubscription) -> Seq<char> {
    "**"@ + c.channel_name@ + "** ("@ + c.channel_id@ + ")"@
}

/// The lines of the channel list, joined by newlines.
pub open spec fn channel_lines(cs: Seq<ChannelSubscription>) -> Seq<char>
    decreases cs.len(),
{
    if cs.len() == 0 {
        Seq::empty()
    } else if cs.len() == 1 {
        channel_line(cs[0])
    } else {
        channel_lines(cs.drop_last()) + "\n"@ + channel_line(cs.last())
    }
}

/// The answer to `/channel list`, by what listing the guild's channels came to.
pub fn list_channels_reply(listed: &Result<Vec<ChannelSubscription>, AppError>) -> (r: Reply)
    ensures
        listed matches Ok(cs) ==> (cs.len() == 0 ==> reply_is(
            r,
            "รายการช่อง"@,
            "ไม่พบช่องที่บันทึกไว้ในระบบ"@,
            ReplyColour::Red,
        )),
        listed matches Ok(cs) ==> (cs.len() > 0 ==> reply_is(
            r,
            "รายการช่องทั้งหมด"@,
            channel_lines(cs@),
            ReplyColour::Blue,
        )),
        listed matches Err(e) ==> reply_is(r, "เกิดข้อผิดพลาด"@, error_text(*e), ReplyColour::Red),
{
    match listed {
        Err(e) => error_reply(e),
        Ok(cs) => {
            if cs.len() == 0 {
                return reply("รายการช่อง", "ไม่พบช่องที่บันทึกไว้ในระบบ", ReplyColour::Red);
            }
            proof {
                reveal_strlit("**");
                reveal_strlit("** (");
                reveal_strlit(")");
                reveal_strlit("\n");
            }
            let mut d = String::new();
            let mut i: usize = 0;
            while i < cs.len()
                invariant
                    i <= cs.len(),
                    d@ == channel_lines(cs@.subrange(0, i as int)),
                decreases cs.len() - i,
            {
                let c = &cs[i];
                assert(cs@.subrange(0, i + 1).drop_last() =~= cs@.subrange(0, i as int));
                if i > 0 {
                    d = d.concat("\n");
                }
                d = d.concat("**").concat(c.channel_name.as_str()).concat("** (").concat(
                    c.channel_id.as_str(),
                ).concat(")");
                i = i + 1;
                assert(d@ =~= channel_lines(cs@.subrange(0, i as int)));
            }
            assert(cs@.subrange(0, cs.len() as int) =~= cs@);
            Reply { title: String::from_str("รายการช่องทั้งหมด"), description: d, colour: ReplyColour::Blue }
        },
    }
}

/// The commands of the simple bot.
#[derive(Clone, Copy, Debug, PartialEq, Eq, Structural)]
pub enum SimpleRoute {
    Register,
    AddManga,
    Other,
}

/// The simple bot's command a command name selects.
pub fn route_simple_command(name: &str) -> (r: SimpleRoute)
    ensures
        r == (if name@ == "register"@ {
            SimpleRoute::Register
        } else if name@ == "add_manga"@ {
            SimpleRoute::AddManga
        } else {
            SimpleRoute::Other
        }),
{
    if str_eq(name, "register") {
        SimpleRoute::Register
    } else if str_eq(name, "add_manga") {
        SimpleRoute::AddManga
    } else {
        SimpleRoute::Other
    }
}

/// The guild id the simple bot registers: the command's guild in decimal, or `no-guild`.
pub fn simple_guild_id(guild: Option<u64>) -> (r: String)
    ensures
        guild matches Some(g) ==> r@ == decimal(g as nat),
        guild is None ==> r@ == "no-guild"@,
{
    match guild {
        Some(g) => u64_to_text(g),
        None => String::from_str("no-guild"),
    }
}

/// The site and link of `/add_manga`, from its first two options: `custom` and the empty
/// link where an option is missing.
pub fn simple_add_manga_args(site: Option<&str>, url: Option<&str>) -> (r: (String, String))
    ensures
        site matches Some(s) ==> r.0@ == s@,
        site is None ==> r.0@ == "custom"@,
        url matches Some(u) ==> r.1@ == u@,
        url is None ==> r.1@ == ""@,
{
    let s = match site {
        Some(s) => String::from_str(s),
        None => String::from_str("custom"),
    };
    let u = match url {
        Some(u) => String::from_str(u),
        None => String::from_str(""),
    };
    (s, u)
}

} // verus!
