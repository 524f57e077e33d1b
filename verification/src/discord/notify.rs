//! Announcing manga updates: which channels receive them, and what each announcement shows.
use crate::discord::domain::{ChannelSubscription, MangaTracking};
use crate::text::{
    decimal, i32_to_text, law_decimal_parses_back, parse_unsigned, parse_unsigned_text, signed_decimal,
    NumberError,
};
use vstd::prelude::*;

verus! {

/// The Discord channel ids that subscriptions give, in order: each subscription's channel
/// id read as a `u64`; ids that are not numbers are passed over.
pub open spec fn targets(cs: Seq<ChannelSubscription>) -> Seq<u64>
    decreases cs.len(),
{
    if cs.len() == 0 {
        Seq::empty()
    } else {
        let rest = targets(cs.drop_last());
        match parse_unsigned(cs.last().channel_id@, 18446744073709551615) {
            Ok(n) => rest.push(n as u64),
            Err(_) => rest,
        }
    }
}

/// The Discord channel ids that subscriptions give (see `targets`).
pub fn channel_targets(channels: &Vec<ChannelSubscription>) -> (r: Vec<u64>)
    ensures
        r@ == targets(channels@),
{
    let mut r: Vec<u64> = Vec::new();
    let mut i: usize = 0;
    assert(channels@.subrange(0, 0) =~= Seq::<ChannelSubscription>::empty());
    while i < channels.len()
        invariant
            i <= channels.len(),
            r@ == targets(channels@.subrange(0, i as int)),
        decreases channels.len() - i,
    {
        assert(channels@.subrange(0, i + 1).drop_last() =~= channels@.subrange(0, i as int));
        match parse_unsigned_text(channels[i].channel_id.as_str(), u64::MAX) {
            Ok(n) => r.push(n),
            Err(_) => {},
        }
        i = i + 1;
    }
    assert(channels@.subrange(0, channels.len() as int) =~= channels@);
    r
}

/// A field of an announcement.
#[derive(Debug)]
pub struct EmbedField {
    pub name: String,
    pub value: String,
    pub inline: bool,
}

/// An announcement of a manga's newer chapter, shown in dark green.
#[derive(Debug)]
pub struct UpdateEmbed {
    pub title: String,
    pub description: String,
    pub fields: Vec<EmbedField>,
    pub thumbnail: Option<String>,
    pub footer: String,
}

/// Whether `f` is this field.
pub open spec fn field_is(f: EmbedField, name: Seq<char>, value: Seq<char>, inline: bool) -> bool {
    f.name@ == name && f.value@ == value && f.inline == inline
}

/// The announcement of `m`: its title and chapter, three fields (title, chapter, chapter
/// link), its cover as the thumbnail when it has one, and the footer of automatic updates.
pub fn update_embed(m: &MangaTracking) -> (r: UpdateEmbed)
    ensures
        r.title@ == "การอัพเดทมังงะ: "@ + m.title@,
        r.description@ == "อัพเดทถึงตอนที่ "@ + signed_decimal(m.latest_chapter as int),
        r.fields@.len() == 3,
        field_is(r.fields@[0], "ชื่อมังงะ"@, m.title@, true),
        field_is(r.fields@[1], "ตอนล่าสุด"@, "ตอนที่ "@ + signed_decimal(m.latest_chapter as int), true),
        field_is(r.fields@[2], "ลิงก์ตอนล่าสุด"@, m.latest_chapter_url@, false),
        r.thumbnail == m.image_url,
        r.footer@ == "ระบบอัพเดทมังงะอัตโนมัติ"@,
{
    let chapter = i32_to_text(m.latest_chapter);
    let mut fields: Vec<EmbedField> = Vec::new();
    fields.push(
        EmbedField { name: String::from_str("ชื่อมังงะ"), value: m.title.clone(), inline: true },
    );
    fields.push(
        EmbedField {
            name: String::from_str("ตอนล่าสุด"),
            value: String::from_str("ตอนที่ ").concat(chapter.as_str()),
            inline: true,
        },
    );
    fields.push(
        EmbedField {
            name: String::from_str("ลิงก์ตอนล่าสุด"),
            value: m.latest_chapter_url.clone(),
            inline: false,
        },
    );
    UpdateEmbed {
        title: String::from_str("การอัพเดทมังงะ: ").concat(m.title.as_str()),
        description: String::from_str("อัพเดทถึงตอนที่ ").concat(chapter.as_str()),
        fields,
        thumbnail: m.image_url.clone(),
        footer: String::from_str("ระบบอัพเดทมังงะอัตโนมัติ"),
    }
}


/// The sends that announcing `manga_count` manga makes, in order: manga by manga, and for
/// each manga every channel in `targets`, as (channel, manga index).
pub open spec fn deliveries(manga_count: nat, targets: Seq<u64>) -> Seq<(u64, usize)>
    decreases manga_count,
{
    if manga_count == 0 {
        Seq::empty()
    } else {
        deliveries((manga_count - 1) as nat, targets) + targets.map(
            |j: int, t: u64| (t, (manga_count - 1) as usize),
        )
    }
}

/// The sends that announcing `manga_count` manga to `targets` makes (see `deliveries`); the
/// caller makes them in order and stops at the first that fails.
pub fn delivery_plan(manga_count: usize, targets: &Vec<u64>) -> (r: Vec<(u64, usize)>)
    ensures
        r@ == deliveries(manga_count as nat, targets@),
{
    let mut r: Vec<(u64, usize)> = Vec::new();
    let mut a: usize = 0;
    while a < manga_count
        invariant
            a <= manga_count,
            r@ == deliveries(a as nat, targets@),
        decreases manga_count - a,
    {
        let ghost before = r@;
        let mut b: usize = 0;
        while b < targets.len()
            invariant
                a < manga_count,
                b <= targets.len(),
                r@ == before + targets@.take(b as int).map(|j: int, t: u64| (t, a)),
            decreases targets.len() - b,
        {
            r.push((targets[b], a));
            assert(targets@.take(b + 1).map(|j: int, t: u64| (t, a)) =~= targets@.take(b as int).map(
                |j: int, t: u64| (t, a),
            ).push((targets@[b as int], a)));
            b = b + 1;
        }
        assert(targets@.take(targets.len() as int) =~= targets@);
        assert(deliveries((a + 1) as nat, targets@) =~= before + targets@.map(|j: int, t: u64| (t, a)));
        a = a + 1;
    }
    r
}

/// Every channel id that is the decimal text of a `u64`, as Discord's ids are, is a
/// target, read as that number.
pub proof fn law_every_u64_channel_id_is_a_target(c: ChannelSubscription, n: u64)
    requires
        c.channel_id@ == decimal(n as nat),
    ensures
        targets(seq![c]) == seq![n],
{
    law_decimal_parses_back(n as nat, 18446744073709551615);
    let cs = seq![c];
    assert(cs.drop_last() =~= Seq::<ChannelSubscription>::empty());
    assert(targets(cs.drop_last()) == Seq::<u64>::empty());
    assert(cs.last() == c);
    assert(parse_unsigned(cs.last().channel_id@, 18446744073709551615) == Ok::<nat, NumberError>(
        n as nat,
    ));
    assert(targets(cs) == Seq::<u64>::empty().push(n));
    assert(Seq::<u64>::empty().push(n) =~= seq![n]);
}

/// The targets of two lists of subscriptions, one after the other, are the targets of the
/// first followed by those of the second: each subscription counts on its own.
pub proof fn law_targets_of_concatenation(a: Seq<ChannelSubscription>, b: Seq<ChannelSubscription>)
    ensures
        targets(a + b) == targets(a) + targets(b),
    decreases b.len(),
{
    if b.len() == 0 {
        assert(a + b =~= a);
        assert(targets(a) + targets(b) =~= targets(a));
    } else {
        assert((a + b).drop_last() =~= a + b.drop_last());
        assert((a + b).last() == b.last());
        law_targets_of_concatenation(a, b.drop_last());
        let rest = targets(a) + targets(b.drop_last());
        match parse_unsigned(b.last().channel_id@, 18446744073709551615) {
            Ok(n) => {
                assert(rest.push(n as u64) =~= targets(a) + targets(b.drop_last()).push(n as u64));
            },
            Err(_) => {},
        }
    }
}

} // verus!
