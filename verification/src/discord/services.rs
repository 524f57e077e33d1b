//! The services' decisions around their stores: adding a manga by its link (the link's
//! checks and normalisation, then the lookup and the creation), and registering a channel.
use crate::clock::utc_now;
use crate::discord::domain::{AppError, ChannelSubscription, MangaTracking};
use crate::text::{
    contains, has_prefix, lemma_replace_all_absent, lemma_replace_all_passes_over,
    lemma_replace_all_removes, lemma_trim_keeps_nonwhite, replace_all, replace_str, starts_with, trim,
};
use vstd::prelude::*;

verus! {

/// The Thai domain name of one supported site, as users type it.
pub const THAI_DOMAIN: &'static str = "สดใสเมะ.com";

/// The same domain in its ASCII (punycode) form, as links are stored.
pub const PUNYCODE_DOMAIN: &'static str = "xn--l3c0azab5a2gta.com";

/// The link as stored: every occurrence of the Thai domain replaced by its punycode form.
pub open spec fn normalized_url(raw: Seq<char>) -> Seq<char> {
    replace_all(raw, THAI_DOMAIN@, PUNYCODE_DOMAIN@)
}

/// The outcome of checking a link typed by a user.
pub open spec fn url_check(raw: Seq<char>) -> Result<Seq<char>, Seq<char>> {
    if trim(raw).len() == 0 {
        Err("กรุณาระบุ URL ของการ์ตูน"@)
    } else if !has_prefix(raw, "https://"@) {
        Err("URL ต้องขึ้นต้นด้วย https://"@)
    } else {
        Ok(normalized_url(raw))
    }
}

/// Checks a link typed by a user and gives it normalised: a blank link and one that does
/// not start with `https://` are refused as validation errors.
pub fn check_manga_url(raw_url: &str) -> (r: Result<String, AppError>)
    ensures
        match r {
            Ok(u) => url_check(raw_url@) == Ok::<Seq<char>, Seq<char>>(u@),
            Err(e) => e matches AppError::Validation(m) && url_check(raw_url@) == Err::<
                Seq<char>,
                Seq<char>,
            >(m@),
        },
{
    if crate::text::is_blank(raw_url) {
        return Err(AppError::Validation(String::from_str("กรุณาระบุ URL ของการ์ตูน")));
    }
    if !starts_with(raw_url, "https://") {
        return Err(AppError::Validation(String::from_str("URL ต้องขึ้นต้นด้วย https://")));
    }
    proof {
        reveal_strlit("สดใสเมะ.com");
    }
    Ok(replace_str(raw_url, THAI_DOMAIN, PUNYCODE_DOMAIN))
}

/// What adding a manga came to.
#[derive(Clone, Debug)]
pub enum AddMangaResult {
    /// The link was tracked already.
    AlreadyExists,
    /// The manga is now tracked, as a placeholder.
    Created(MangaTracking),
}

/// What to do after looking the link up.
#[derive(Debug)]
pub enum AfterLookup {
    /// Stop with this result.
    Done(Result<AddMangaResult, AppError>),
    /// Store this new placeholder.
    Create(MangaTracking),
}

/// The step after looking up the normalised link `url`: a failed lookup stops with its
/// error, a tracked link stops with `AlreadyExists`, and an unknown link is to be stored
/// as a placeholder made now.
pub fn after_lookup(url: String, looked_up: Result<Option<MangaTracking>, AppError>) -> (r: AfterLookup)
    ensures
        looked_up matches Err(e) ==> r == AfterLookup::Done(Err(e)),
        looked_up matches Ok(Some(_)) ==> r == AfterLookup::Done(Ok(AddMangaResult::AlreadyExists)),
        looked_up matches Ok(None) ==> (r matches AfterLookup::Create(m) && {
            &&& m.title@ == "Untitled"@
            &&& m.url == url
            &&& m.latest_chapter == 0
            &&& m.latest_chapter_url == url
            &&& m.image_url is None
            &&& m.created_at == m.updated_at
        }),
{
    match looked_up {
        Err(e) => AfterLookup::Done(Err(e)),
        Ok(Some(_)) => AfterLookup::Done(Ok(AddMangaResult::AlreadyExists)),
        Ok(None) => AfterLookup::Create(MangaTracking::new_placeholder(url, utc_now())),
    }
}

/// The result after storing the placeholder: the store's error, or `Created`.
pub fn after_create(manga: MangaTracking, created: Result<(), AppError>) -> (r: Result<
    AddMangaResult,
    AppError,
>)
    ensures
        created matches Err(e) ==> r == Err::<AddMangaResult, AppError>(e),
        created is Ok ==> r == Ok::<AddMangaResult, AppError>(AddMangaResult::Created(manga)),
{
    match created {
        Err(e) => Err(e),
        Ok(()) => Ok(AddMangaResult::Created(manga)),
    }
}


/// The subscription that registering a guild's channel stores, made now.
pub fn channel_registration(
    guild_id: String,
    guild_name: String,
    channel_id: String,
    channel_name: String,
) -> (r: ChannelSubscription)
    ensures
        r.channel_id == channel_id,
        r.guild_id == guild_id,
        r.guild_name == guild_name,
        r.channel_name == channel_name,
        r.created_at == r.updated_at,
{
    ChannelSubscription::new(channel_id, guild_id, guild_name, channel_name, utc_now())
}


/// Normalising a link leaves no Thai domain name in it, and normalising it again changes
/// nothing.
pub proof fn law_normalized_url_has_no_thai_domain(raw: Seq<char>)
    ensures
        !contains(normalized_url(raw), THAI_DOMAIN@),
        normalized_url(normalized_url(raw)) == normalized_url(raw),
{
    reveal_strlit("สดใสเมะ.com");
    reveal_strlit("xn--l3c0azab5a2gta.com");
    let from = THAI_DOMAIN@;
    let to = PUNYCODE_DOMAIN@;
    assert forall|j: int| 0 <= j < to.len() implies to[j] != from[0] by {}
    assert forall|j: int| 0 <= j < from.len() implies from[j] != to[0] by {}
    lemma_replace_all_removes(raw, from, to);
    lemma_replace_all_absent(normalized_url(raw), from, to);
}

/// Replacement treats the Thai domain name and its punycode form alike wherever they
/// stand: the first is replaced by the second, and the second passes through.
proof fn lemma_domains_replace_alike(a: Seq<char>, b: Seq<char>)
    ensures
        replace_all(a + THAI_DOMAIN@ + b, THAI_DOMAIN@, PUNYCODE_DOMAIN@) == replace_all(
            a + PUNYCODE_DOMAIN@ + b,
            THAI_DOMAIN@,
            PUNYCODE_DOMAIN@,
        ),
    decreases a.len(),
{
    reveal_strlit("สดใสเมะ.com");
    reveal_strlit("xn--l3c0azab5a2gta.com");
    let from = THAI_DOMAIN@;
    let to = PUNYCODE_DOMAIN@;
    let n = from.len() as int;
    let s1 = a + from + b;
    let s2 = a + to + b;
    if a.len() == 0 {
        assert(s1 =~= from + b);
        assert(s2 =~= to + b);
        assert(s1.subrange(0, n) =~= from);
        assert(s1.skip(n) =~= b);
        assert forall|j: int| 0 <= j < to.len() implies to[j] != from[0] by {}
        lemma_replace_all_passes_over(to, b, from, to);
    } else if a.len() >= n {
        assert(s1.subrange(0, n) =~= a.subrange(0, n));
        assert(s2.subrange(0, n) =~= a.subrange(0, n));
        if has_prefix(s1, from) {
            assert(s1.skip(n) =~= a.skip(n) + from + b);
            assert(s2.skip(n) =~= a.skip(n) + to + b);
            lemma_domains_replace_alike(a.skip(n), b);
        } else {
            assert(s1.drop_first() =~= a.drop_first() + from + b);
            assert(s2.drop_first() =~= a.drop_first() + to + b);
            lemma_domains_replace_alike(a.drop_first(), b);
        }
    } else {
        let k = a.len() as int;
        assert(s1[k] == from[0]);
        assert(s1[k + 1] == from[1]);
        assert(s2[k] == to[0]);
        assert(!has_prefix(s1, from)) by {
            if has_prefix(s1, from) {
                assert(s1.subrange(0, n)[k] == from[k]);
                assert(s1.subrange(0, n)[k + 1] == from[k + 1]);
                assert(k == 1 || k == 2 || k == 3 || k == 4 || k == 5 || k == 6 || k == 7 || k == 8
                    || k == 9 || k == 10);
            }
        }
        assert(!has_prefix(s2, from)) by {
            if has_prefix(s2, from) {
                assert(s2.subrange(0, n)[k] == from[k]);
                assert(k == 1 || k == 2 || k == 3 || k == 4 || k == 5 || k == 6 || k == 7 || k == 8
                    || k == 9 || k == 10);
            }
        }
        assert(s1.drop_first() =~= a.drop_first() + from + b);
        assert(s2.drop_first() =~= a.drop_first() + to + b);
        lemma_domains_replace_alike(a.drop_first(), b);
    }
}

/// A link written with the Thai domain name and the same link written with its punycode
/// name come to one stored link: checking either gives the same outcome, so a manga added
/// under one form is found under the other.
pub proof fn law_thai_and_punycode_links_alike(a: Seq<char>, b: Seq<char>)
    ensures
        normalized_url(a + THAI_DOMAIN@ + b) == normalized_url(a + PUNYCODE_DOMAIN@ + b),
        url_check(a + THAI_DOMAIN@ + b) == url_check(a + PUNYCODE_DOMAIN@ + b),
{
    reveal_strlit("สดใสเมะ.com");
    reveal_strlit("xn--l3c0azab5a2gta.com");
    reveal_strlit("https://");
    lemma_domains_replace_alike(a, b);
    let from = THAI_DOMAIN@;
    let to = PUNYCODE_DOMAIN@;
    let s1 = a + from + b;
    let s2 = a + to + b;
    let k = a.len() as int;
    assert(s1[k] == from[0]);
    assert(s2[k] == to[0]);
    lemma_trim_keeps_nonwhite(s1, k);
    lemma_trim_keeps_nonwhite(s2, k);
    let h = "https://"@;
    if k >= h.len() {
        assert(s1.subrange(0, h.len() as int) =~= a.subrange(0, h.len() as int));
        assert(s2.subrange(0, h.len() as int) =~= a.subrange(0, h.len() as int));
    } else {
        assert(!has_prefix(s1, h)) by {
            if has_prefix(s1, h) {
                assert(s1.subrange(0, h.len() as int)[k] == h[k]);
                assert(k == 0 || k == 1 || k == 2 || k == 3 || k == 4 || k == 5 || k == 6 || k == 7);
            }
        }
        assert(!has_prefix(s2, h)) by {
            if has_prefix(s2, h) {
                assert(s2.subrange(0, h.len() as int)[k] == h[k]);
                assert(k == 0 || k == 1 || k == 2 || k == 3 || k == 4 || k == 5 || k == 6 || k == 7);
            }
        }
    }
}

} // verus!
