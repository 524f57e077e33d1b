use chat_services::clock::Timestamp;
use chat_services::discord::auto_update::{UpdateAction, UpdateEvent, UpdatePhase, UpdateRun};
use chat_services::discord::commands::{
    add_manga_reply, error_reply, guild_only_reply, is_manga_add, list_channels_reply,
    missing_subcommand_text, needs_subcommand, register_after_channel, register_after_guild, register_reply,
    register_start, render_error, route_channel_command, route_command, route_simple_command,
    simple_add_manga_args, simple_guild_id, unknown_command_reply, unknown_subcommand_reply,
    ChannelRoute, CommandRoute, RegisterStep, ReplyColour, SimpleRoute, REPLY_FOOTER,
};
use chat_services::discord::domain::{
    AppConfig, AppError, BotCommand, ChannelSubscription, Guild, MangaSite, MangaTracking,
    ScrapeResult,
};
use chat_services::discord::notify::{channel_targets, delivery_plan, update_embed};
use chat_services::discord::scrape::{
    chapter_from_query, chapter_number, check_page_status, check_scrape_url, image_from_query,
    read_failed, read_manga_page, request_failed, title_from_queries,
};
use chat_services::discord::services::{
    after_create, after_lookup, channel_registration, check_manga_url, AddMangaResult, AfterLookup,
    PUNYCODE_DOMAIN, THAI_DOMAIN,
};
use chat_services::discord::use_cases::{AddMangaUseCase, HandleSlashCommandUseCase, RegisterGuildUseCase};

fn ts(secs: i64) -> Timestamp {
    Timestamp { secs, nanos: 0 }
}

fn manga_at(url: &str, chapter: i32) -> MangaTracking {
    MangaTracking {
        title: "T".into(),
        url: url.into(),
        latest_chapter: chapter,
        latest_chapter_url: format!("{url}/c{chapter}"),
        image_url: None,
        created_at: ts(10),
        updated_at: ts(20),
    }
}

fn page(chapter: i32) -> ScrapeResult {
    ScrapeResult {
        title: "New title".into(),
        latest_chapter: chapter,
        latest_chapter_url: format!("https://x/c{chapter}"),
        image_url: Some("https://x/cover.jpg".into()),
    }
}

#[test]
fn slash_commands() {
    assert_eq!(BotCommand::from_slash_name("ping"), BotCommand::Ping);
    assert_eq!(BotCommand::from_slash_name("  PiNg\n"), BotCommand::Ping);
    assert_eq!(BotCommand::from_slash_name("HELP"), BotCommand::Help);
    assert_eq!(BotCommand::from_slash_name("pong"), BotCommand::Unknown);
    let uc = HandleSlashCommandUseCase::new();
    assert_eq!(uc.execute("ping"), "pong");
    assert_eq!(uc.execute("help"), "Available commands: /ping, /help");
    assert_eq!(uc.execute("x"), "Unknown command. Use /help");
}

#[test]
fn manga_sites() {
    assert!(matches!(MangaSite::from_str("mangadex"), MangaSite::MangaDex));
    assert!(matches!(MangaSite::from_str("mangaplus"), MangaSite::MangaPlus));
    assert!(matches!(MangaSite::from_str("MangaDex"), MangaSite::Custom));
}

#[test]
fn simple_use_cases() {
    let uc = RegisterGuildUseCase::new(vec![0u8]);
    let (guild, reply) = uc.plan("g1".into(), "c1".into());
    assert_eq!((guild.guild_id.as_str(), guild.channel_id.as_str()), ("g1", "c1"));
    assert_eq!(reply, "✅ guild registered");
    assert_eq!(uc.repository(), &vec![0u8]);
    let g = Guild::new("a".into(), "b".into());
    assert_eq!(g.guild_id, "a");
    let add = AddMangaUseCase::new(());
    let (manga, reply) = add.plan("mangaplus", "t".into(), "u".into());
    assert!(matches!(manga.site, MangaSite::MangaPlus));
    assert_eq!(manga.url, "u");
    assert_eq!(reply, "📚 manga added successfully");
}

#[test]
fn timestamps_in_milliseconds() {
    assert_eq!(Timestamp { secs: 2, nanos: 345_678_901 }.to_millis(), 2345);
    assert_eq!(Timestamp { secs: -1, nanos: 500_000_000 }.to_millis(), -500);
    assert_eq!(Timestamp { secs: i64::MAX, nanos: 0 }.to_millis(), i64::MAX);
    assert_eq!(Timestamp { secs: i64::MIN, nanos: 0 }.to_millis(), i64::MIN);
    assert_eq!(Timestamp::from_millis(-1), Timestamp { secs: -1, nanos: 999_000_000 });
    assert_eq!(Timestamp::from_millis(1500), Timestamp { secs: 1, nanos: 500_000_000 });
    for m in [0i64, 1, -1, 999, -1000, 1_700_000_000_123, i64::MIN, i64::MAX] {
        assert_eq!(Timestamp::from_millis(m).to_millis(), m);
    }
}

#[test]
fn domain_constructors() {
    let m = MangaTracking::new_placeholder("https://a".into(), ts(5));
    assert_eq!(m.title, "Untitled");
    assert_eq!(m.latest_chapter, 0);
    assert_eq!(m.latest_chapter_url, "https://a");
    assert_eq!(m.created_at, ts(5));
    assert_eq!(m.updated_at, ts(5));
    let c = ChannelSubscription::new("1".into(), "2".into(), "g".into(), "c".into(), ts(7));
    assert_eq!((c.channel_id.as_str(), c.guild_id.as_str()), ("1", "2"));
    assert_eq!(c.created_at, c.updated_at);
    let cfg = AppConfig::from_token(Some("tok".into())).unwrap();
    assert_eq!(cfg.discord_token, "tok");
    assert_eq!(AppConfig::from_token(None).err().unwrap(), "missing DISCORD_TOKEN environment variable");
    assert_eq!(AppError::Validation("v".into()).describe(), "validation error: v");
    assert_eq!(AppError::NotFound("n".into()).describe(), "not found: n");
    assert_eq!(AppError::Infrastructure("i".into()).describe(), "infrastructure error: i");
}

#[test]
fn manga_url_checks() {
    match check_manga_url("  ") {
        Err(AppError::Validation(m)) => assert_eq!(m, "กรุณาระบุ URL ของการ์ตูน"),
        _ => panic!(),
    }
    match check_manga_url("http://sing-manga.com/x") {
        Err(AppError::Validation(m)) => assert_eq!(m, "URL ต้องขึ้นต้นด้วย https://"),
        _ => panic!(),
    }
    assert_eq!(check_manga_url("https://sing-manga.com/x").unwrap(), "https://sing-manga.com/x");
    let url = format!("https://{THAI_DOMAIN}/manga/{THAI_DOMAIN}");
    let normalized = check_manga_url(&url).unwrap();
    assert_eq!(normalized, format!("https://{PUNYCODE_DOMAIN}/manga/{PUNYCODE_DOMAIN}"));
    // Normalising twice changes nothing.
    assert_eq!(check_manga_url(&normalized).unwrap(), normalized);
    assert!(!normalized.contains(THAI_DOMAIN));
}

#[test]
fn add_manga_flow() {
    match after_lookup("u".into(), Err(AppError::Infrastructure("db".into()))) {
        AfterLookup::Done(Err(AppError::Infrastructure(m))) => assert_eq!(m, "db"),
        _ => panic!(),
    }
    assert!(matches!(
        after_lookup("u".into(), Ok(Some(manga_at("u", 1)))),
        AfterLookup::Done(Ok(AddMangaResult::AlreadyExists))
    ));
    let created = match after_lookup("https://u".into(), Ok(None)) {
        AfterLookup::Create(m) => m,
        _ => panic!(),
    };
    assert_eq!(created.title, "Untitled");
    assert_eq!(created.url, "https://u");
    assert_eq!(created.created_at, created.updated_at);
    // Stamped with the current time.
    assert!(created.created_at.secs > 1_600_000_000);
    assert!(created.created_at.nanos < 2_000_000_000);
    match after_create(created.clone(), Ok(())) {
        Ok(AddMangaResult::Created(m)) => assert_eq!(m.url, "https://u"),
        _ => panic!(),
    }
    assert!(after_create(created, Err(AppError::Infrastructure("x".into()))).is_err());
    let sub = channel_registration("g".into(), "G".into(), "c".into(), "C".into());
    assert_eq!((sub.guild_name.as_str(), sub.channel_name.as_str()), ("G", "C"));
}

fn expect_scrape(action: UpdateAction) -> String {
    match action {
        UpdateAction::Scrape(u) => u,
        other => panic!("expected a scrape, got {other:?}"),
    }
}

#[test]
fn update_run_skips_unreadable_and_older_pages() {
    let (run, action) = UpdateRun::start();
    assert!(matches!(action, UpdateAction::ListAll));
    let list = vec![manga_at("https://a", 5), manga_at("https://b", 5), manga_at("https://c", 5)];
    let (run, action) = run.step(UpdateEvent::Listed(Ok(list)));
    assert_eq!(expect_scrape(action), "https://a");
    // A page that cannot be read is passed over.
    let (run, action) = run.step(UpdateEvent::Scraped(Err(AppError::Infrastructure("x".into()))));
    assert_eq!(expect_scrape(action), "https://b");
    // A page without a newer chapter is passed over.
    let (run, action) = run.step(UpdateEvent::Scraped(Ok(page(5))));
    assert_eq!(expect_scrape(action), "https://c");
    // A newer chapter is stored, then announced.
    let (run, action) = run.step(UpdateEvent::Scraped(Ok(page(7))));
    let stored = match action {
        UpdateAction::UpdateLatest(m) => m,
        _ => panic!(),
    };
    assert_eq!(stored.latest_chapter, 7);
    assert_eq!(stored.url, "https://c");
    assert_eq!(stored.title, "New title");
    assert_eq!(stored.created_at, ts(10));
    assert_eq!(stored.image_url.as_deref(), Some("https://x/cover.jpg"));
    let (run, action) = run.step(UpdateEvent::Updated(Ok(())));
    match action {
        UpdateAction::Notify(m) => assert_eq!(m.latest_chapter, 7),
        _ => panic!(),
    }
    let (run, action) = run.step(UpdateEvent::Notified(Ok(())));
    assert!(matches!(action, UpdateAction::Finish(Ok(()))));
    assert!(matches!(run.phase, UpdatePhase::Finished));
}

#[test]
fn update_run_stamps_the_given_time() {
    let (run, _) = UpdateRun::start();
    let (run, _) = run.step_at(UpdateEvent::Listed(Ok(vec![manga_at("https://a", 1)])), ts(50));
    let (_, action) = run.step_at(UpdateEvent::Scraped(Ok(page(2))), ts(99));
    match action {
        UpdateAction::UpdateLatest(m) => {
            assert_eq!(m.updated_at, ts(99));
            assert_eq!(m.created_at, ts(10));
        }
        other => panic!("{other:?}"),
    }
}

#[test]
fn update_run_stops_on_store_or_announce_failure() {
    let (run, _) = UpdateRun::start();
    let (run, _) = run.step(UpdateEvent::Listed(Ok(vec![manga_at("https://a", 1), manga_at("https://b", 1)])));
    let (run, _) = run.step(UpdateEvent::Scraped(Ok(page(2))));
    let (_, action) = run.step(UpdateEvent::Updated(Err(AppError::Infrastructure("db".into()))));
    assert!(matches!(action, UpdateAction::Finish(Err(AppError::Infrastructure(_)))));

    let (run, _) = UpdateRun::start();
    let (run, _) = run.step(UpdateEvent::Listed(Ok(vec![manga_at("https://a", 1)])));
    let (run, _) = run.step(UpdateEvent::Scraped(Ok(page(2))));
    let (run, _) = run.step(UpdateEvent::Updated(Ok(())));
    assert!(!run.accepts(&UpdateEvent::Updated(Ok(()))));
    let (_, action) = run.step(UpdateEvent::Notified(Err(AppError::Infrastructure("dc".into()))));
    assert!(matches!(action, UpdateAction::Finish(Err(_))));

    let (run, _) = UpdateRun::start();
    let (_, action) = run.step(UpdateEvent::Listed(Err(AppError::Infrastructure("l".into()))));
    assert!(matches!(action, UpdateAction::Finish(Err(_))));
    let (run, _) = UpdateRun::start();
    let (_, action) = run.step(UpdateEvent::Listed(Ok(vec![])));
    assert!(matches!(action, UpdateAction::Finish(Ok(()))));
}

#[test]
fn scrape_checks() {
    assert!(check_scrape_url("https://sing-manga.com/m").is_ok());
    assert!(check_scrape_url(&format!("https://{PUNYCODE_DOMAIN}/m")).is_ok());
    match check_scrape_url("https://example.com") {
        Err(AppError::Validation(m)) => {
            assert_eq!(m, "ไม่รองรับเว็บไซต์นี้ กรุณาใช้ sing-manga.com หรือ สดใสเมะ.com")
        }
        _ => panic!(),
    }
    match check_page_status(false, "404 Not Found") {
        Err(AppError::Infrastructure(m)) => assert_eq!(m, "request manga page failed with status 404 Not Found"),
        _ => panic!(),
    }
    assert!(check_page_status(true, "200 OK").is_ok());
    assert!(matches!(request_failed("t"), AppError::Infrastructure(m) if m == "request manga page failed: t"));
    assert!(matches!(read_failed("t"), AppError::Infrastructure(m) if m == "read manga html failed: t"));
}

#[test]
fn chapter_numbers() {
    assert_eq!(chapter_number("Chapter 123").unwrap(), 123);
    assert_eq!(chapter_number("ตอนที่ 45").unwrap(), 45);
    assert_eq!(chapter_number("Ch. 1.5").unwrap(), 15);
    match chapter_number("Chapter") {
        Err(AppError::Validation(m)) => {
            assert_eq!(m, "แปลงหมายเลขตอนไม่สำเร็จ: cannot parse integer from empty string")
        }
        _ => panic!(),
    }
    match chapter_number("Chapter 99999999999") {
        Err(AppError::Validation(m)) => {
            assert_eq!(m, "แปลงหมายเลขตอนไม่สำเร็จ: number too large to fit in target type")
        }
        _ => panic!(),
    }
    assert_eq!(chapter_number("2147483647").unwrap(), i32::MAX);
}

#[test]
fn title_and_chapter_choices() {
    fn m(text: &str, attr: Option<&str>) -> (String, Option<String>) {
        (text.to_string(), attr.map(str::to_string))
    }
    fn c(labels: &[&str], href: Option<&str>) -> (Vec<String>, Option<String>) {
        (labels.iter().map(|l| l.to_string()).collect(), href.map(str::to_string))
    }
    assert_eq!(title_from_queries(Ok(vec![m("  A  ", None), m("B", None)]), Err(()), Err(())).unwrap(), "A");
    assert_eq!(
        title_from_queries(Ok(vec![m("  ", None), m("Later", None)]), Ok(vec![m("", Some(" Meta "))]), Err(()))
            .unwrap(),
        " Meta "
    );
    assert_eq!(
        title_from_queries(Ok(vec![]), Ok(vec![m("", None), m("", Some("Second"))]), Ok(vec![m(" H ", None)]))
            .unwrap(),
        "H"
    );
    match title_from_queries(Ok(vec![]), Ok(vec![]), Ok(vec![])) {
        Err(AppError::NotFound(m)) => assert_eq!(m, "ไม่พบชื่อการ์ตูน"),
        _ => panic!(),
    }
    match title_from_queries(Ok(vec![]), Err(()), Ok(vec![])) {
        Err(AppError::Infrastructure(m)) => assert_eq!(m, "invalid selector: meta[property=\"og:title\"]"),
        _ => panic!(),
    }
    assert_eq!(image_from_query(Ok(vec![m("", Some("i")), m("", Some("j"))])).unwrap().as_deref(), Some("i"));
    assert_eq!(image_from_query(Ok(vec![m("", None), m("", Some("j"))])).unwrap(), None);
    assert_eq!(image_from_query(Ok(vec![])).unwrap(), None);
    assert!(image_from_query(Err(())).is_err());
    assert_eq!(
        chapter_from_query(Ok(vec![
            c(&["Chapter 1"], Some("/c1")),
            c(&["Chapter 12", "Chapter 99"], Some("/c12")),
        ]))
        .unwrap(),
        (12, "/c12".to_string())
    );
    match chapter_from_query(Ok(vec![c(&["Chapter 12"], None)])) {
        Err(AppError::NotFound(m)) => assert_eq!(m, "ไม่พบ URL ของตอนล่าสุด"),
        _ => panic!(),
    }
    match chapter_from_query(Ok(vec![c(&["Chapter 3"], Some("/c3")), c(&[], None)])) {
        Err(AppError::NotFound(m)) => assert_eq!(m, "ไม่พบหมายเลขตอน"),
        _ => panic!(),
    }
    match chapter_from_query(Ok(vec![])) {
        Err(AppError::NotFound(m)) => assert_eq!(m, "ไม่พบตอนล่าสุด"),
        _ => panic!(),
    }
    match chapter_from_query(Err(1)) {
        Err(AppError::Infrastructure(m)) => assert_eq!(m, "invalid chapter number selector"),
        _ => panic!(),
    }
}

#[test]
fn commands_without_subcommand() {
    assert!(needs_subcommand(0));
    assert!(!needs_subcommand(1));
    assert_eq!(missing_subcommand_text(), "ไม่พบคำสั่งย่อย กรุณาระบุตัวเลือก");
}

#[test]
fn thai_and_punycode_links_are_one_link() {
    let thai = check_manga_url("https://สดใสเมะ.com/manga/one-piece").unwrap();
    let puny = check_manga_url("https://xn--l3c0azab5a2gta.com/manga/one-piece").unwrap();
    assert_eq!(thai, puny);
    assert_eq!(thai, "https://xn--l3c0azab5a2gta.com/manga/one-piece");
    let a = check_manga_url("http://สดใสเมะ.com/x").unwrap_err();
    let b = check_manga_url("http://xn--l3c0azab5a2gta.com/x").unwrap_err();
    assert_eq!(format!("{a:?}"), format!("{b:?}"));
}

#[test]
fn read_a_manga_page() {
    let html = r#"<html><head><meta property="og:title" content="OG Title"></head>
        <body><h1 class="entry-title">  Real Title </h1>
        <div class="thumb"><img src="https://img/cover.png"></div>
        <div class="lastend">
          <div class="inepcx"><a href="https://m/c1"><span class="epcurlast">Chapter 1</span></a></div>
          <div class="inepcx"><a href="https://m/c57"><span class="epcurlast">Chapter 57</span></a></div>
        </div></body></html>"#;
    let r = read_manga_page(html).unwrap();
    assert_eq!(r.title, "Real Title");
    assert_eq!(r.image_url.as_deref(), Some("https://img/cover.png"));
    assert_eq!(r.latest_chapter, 57);
    assert_eq!(r.latest_chapter_url, "https://m/c57");

    let only_meta = r#"<html><head><meta property="og:title" content="OG"></head><body>
        <div class="lastend"><div class="inepcx"><a><span class="epcurlast">ตอนที่ 3</span></a></div></div>
        </body></html>"#;
    match read_manga_page(only_meta) {
        Err(AppError::NotFound(m)) => assert_eq!(m, "ไม่พบ URL ของตอนล่าสุด"),
        other => panic!("{other:?}"),
    }
    match read_manga_page("<html><body></body></html>") {
        Err(AppError::NotFound(m)) => assert_eq!(m, "ไม่พบชื่อการ์ตูน"),
        other => panic!("{other:?}"),
    }
}

#[test]
fn command_routes_and_replies() {
    assert_eq!(route_command("manga"), CommandRoute::Manga);
    assert_eq!(route_command("channel"), CommandRoute::Channel);
    assert_eq!(route_command("x"), CommandRoute::Unknown);
    assert_eq!(route_channel_command("register"), ChannelRoute::Register);
    assert_eq!(route_channel_command("list"), ChannelRoute::List);
    assert_eq!(route_channel_command("add"), ChannelRoute::Unknown);
    assert!(is_manga_add("add"));
    assert!(!is_manga_add("remove"));
    let r = unknown_command_reply();
    assert_eq!((r.title.as_str(), r.description.as_str(), r.colour), ("ไม่รู้จักคำสั่ง", "ไม่พบคำสั่งนี้", ReplyColour::Red));
    assert_eq!(unknown_subcommand_reply().description, "ไม่รู้จักคำสั่งย่อยนี้");
    assert_eq!(guild_only_reply().title, "ไม่รองรับ");
    assert_eq!(missing_subcommand_text(), "ไม่พบคำสั่งย่อย กรุณาระบุตัวเลือก");
    assert_eq!(REPLY_FOOTER, "discord-service");
    assert_eq!(render_error(&AppError::Validation("v".into())), "v");
    assert_eq!(render_error(&AppError::NotFound("n".into())), "n");
    assert_eq!(render_error(&AppError::Infrastructure("secret".into())), "เกิดข้อผิดพลาดภายในระบบ");
    assert_eq!(error_reply(&AppError::NotFound("n".into())).title, "เกิดข้อผิดพลาด");
}

#[test]
fn add_manga_replies() {
    let r = add_manga_reply(&Ok(AddMangaResult::AlreadyExists));
    assert_eq!((r.title.as_str(), r.colour), ("การเพิ่มการ์ตูน", ReplyColour::Gold));
    let mut m = manga_at("https://u", -3);
    m.title = "Title".into();
    let r = add_manga_reply(&Ok(AddMangaResult::Created(m)));
    assert_eq!(r.colour, ReplyColour::DarkGreen);
    assert_eq!(
        r.description,
        "**เพิ่มการ์ตูนสำเร็จ**\n**ชื่อเรื่อง:** Title\n**ตอนล่าสุด:** -3\n**URL:** https://u"
    );
    let r = add_manga_reply(&Err(AppError::Validation("bad".into())));
    assert_eq!((r.description.as_str(), r.colour), ("bad", ReplyColour::Red));
}

#[test]
fn register_channel_steps() {
    match register_start(None, Some(1)) {
        RegisterStep::Reply(r) => assert_eq!(r.title, "ข้อมูลไม่ครบ"),
        _ => panic!(),
    }
    match register_start(Some(2), None) {
        RegisterStep::Reply(r) => assert_eq!(r.description, "คำสั่งนี้ใช้ได้เฉพาะในเซิร์ฟเวอร์เท่านั้น"),
        _ => panic!(),
    }
    assert!(matches!(register_start(Some(2), Some(1)), RegisterStep::FetchGuild { guild: 1, channel: 2 }));
    match register_after_guild(1, 2, Err("boom".into())) {
        RegisterStep::Reply(r) => assert_eq!(r.description, "ดึงข้อมูลเซิร์ฟเวอร์ไม่สำเร็จ: boom"),
        _ => panic!(),
    }
    match register_after_guild(1, 2, Ok("G".into())) {
        RegisterStep::FetchChannel { guild, guild_name, channel } => {
            assert_eq!((guild, guild_name.as_str(), channel), (1, "G", 2))
        }
        _ => panic!(),
    }
    match register_after_channel(1, "G".into(), Err("gone".into())) {
        RegisterStep::Reply(r) => assert_eq!(r.description, "ไม่พบช่องที่ระบุ: gone"),
        _ => panic!(),
    }
    match register_after_channel(1, "G".into(), Ok(None)) {
        RegisterStep::Reply(r) => assert_eq!(r.description, "ไม่สามารถบันทึกข้อมูลช่องส่วนตัวได้"),
        _ => panic!(),
    }
    match register_after_channel(1234567890123, "G".into(), Ok(Some((987, "general".into())))) {
        RegisterStep::Register { guild_id, guild_name, channel_id, channel_name } => {
            assert_eq!(guild_id, "1234567890123");
            assert_eq!(guild_name, "G");
            assert_eq!(channel_id, "987");
            assert_eq!(channel_name, "general");
        }
        _ => panic!(),
    }
    assert_eq!(register_reply(&Ok(())).title, "บันทึกข้อมูลสำเร็จ");
    assert_eq!(register_reply(&Err(AppError::Infrastructure("x".into()))).description, "เกิดข้อผิดพลาดภายในระบบ");
}

#[test]
fn channel_list_reply() {
    let r = list_channels_reply(&Ok(vec![]));
    assert_eq!((r.title.as_str(), r.colour), ("รายการช่อง", ReplyColour::Red));
    let cs = vec![
        ChannelSubscription::new("11".into(), "g".into(), "G".into(), "news".into(), ts(0)),
        ChannelSubscription::new("22".into(), "g".into(), "G".into(), "chat".into(), ts(0)),
    ];
    let r = list_channels_reply(&Ok(cs));
    assert_eq!(r.title, "รายการช่องทั้งหมด");
    assert_eq!(r.description, "**news** (11)\n**chat** (22)");
    assert_eq!(r.colour, ReplyColour::Blue);
}

#[test]
fn simple_bot_commands() {
    assert_eq!(route_simple_command("register"), SimpleRoute::Register);
    assert_eq!(route_simple_command("add_manga"), SimpleRoute::AddManga);
    assert_eq!(route_simple_command("ping"), SimpleRoute::Other);
    assert_eq!(simple_guild_id(Some(42)), "42");
    assert_eq!(simple_guild_id(None), "no-guild");
    assert_eq!(simple_add_manga_args(None, None), ("custom".to_string(), String::new()));
    assert_eq!(simple_add_manga_args(Some("gomanga"), Some("u")), ("gomanga".to_string(), "u".to_string()));
}

#[test]
fn notification_targets_and_embed() {
    let cs = vec![
        ChannelSubscription::new("123".into(), "g".into(), "G".into(), "a".into(), ts(0)),
        ChannelSubscription::new("abc".into(), "g".into(), "G".into(), "b".into(), ts(0)),
        ChannelSubscription::new("18446744073709551616".into(), "g".into(), "G".into(), "c".into(), ts(0)),
        ChannelSubscription::new("+7".into(), "g".into(), "G".into(), "d".into(), ts(0)),
    ];
    assert_eq!(channel_targets(&cs), vec![123, 7]);
    let mut m = manga_at("https://u", 12);
    m.image_url = Some("https://img".into());
    let e = update_embed(&m);
    assert_eq!(e.title, "การอัพเดทมังงะ: T");
    assert_eq!(e.description, "อัพเดทถึงตอนที่ 12");
    assert_eq!(e.fields[1].value, "ตอนที่ 12");
    assert_eq!(e.fields[2].value, "https://u/c12");
    assert!(!e.fields[2].inline);
    assert_eq!(e.thumbnail.as_deref(), Some("https://img"));
    assert_eq!(e.footer, "ระบบอัพเดทมังงะอัตโนมัติ");
    assert_eq!(delivery_plan(2, &vec![7, 8]), vec![(7, 0), (8, 0), (7, 1), (8, 1)]);
    assert!(delivery_plan(3, &vec![]).is_empty());
    assert!(delivery_plan(0, &vec![1]).is_empty());
}
