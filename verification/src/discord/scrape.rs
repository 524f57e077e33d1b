//! Reading a manga page: which sites are supported, and what the page's parts come to.
use crate::discord::domain::{AppError, ScrapeResult};
use crate::text::{
    contains, contains_str, digits_only, keep_digits, parse_unsigned, parse_unsigned_text,
    replace_all, replace_str, trim, trimmed, NumberError,
};
use vstd::prelude::*;

verus! {

/// Whether pages at `url` can be read: links of `sing-manga.com`, or of the Thai site by its
/// punycode name.
pub open spec fn supported_site(url: Seq<char>) -> bool {
    contains(url, "sing-manga.com"@) || contains(url, "xn--l3c0azab5a2gta.com"@)
}

/// The refusal of an unsupported site.
pub open spec fn unsupported_site_text() -> Seq<char> {
    "ไม่รองรับเว็บไซต์นี้ กรุณาใช้ sing-manga.com หรือ สดใสเมะ.com"@
}

/// Refuses links of sites whose pages cannot be read.
pub fn check_scrape_url(url: &str) -> (r: Result<(), AppError>)
    ensures
        r is Ok <==> supported_site(url@),
        r matches Err(e) ==> e.is_validation_text(unsupported_site_text()),
{
    if !(contains_str(url, "sing-manga.com") || contains_str(url, "xn--l3c0azab5a2gta.com")) {
        return Err(
            AppError::Validation(
                String::from_str("ไม่รองรับเว็บไซต์นี้ กรุณาใช้ sing-manga.com หรือ สดใสเมะ.com"),
            ),
        );
    }
    Ok(())
}

/// The error for a page request that failed, keeping the transport's text.
pub fn request_failed(detail: &str) -> (r: AppError)
    ensures
        r.is_infrastructure_text("request manga page failed: "@ + detail@),
{
    AppError::Infrastructure(String::from_str("request manga page failed: ").concat(detail))
}

/// Refuses an answer whose status is not a success; `status` is the status as written.
pub fn check_page_status(success: bool, status: &str) -> (r: Result<(), AppError>)
    ensures
        r is Ok <==> success,
        r matches Err(e) ==> e.is_infrastructure_text(
            "request manga page failed with status "@ + status@,
        ),
{
    if !success {
        return Err(
            AppError::Infrastructure(
                String::from_str("request manga page failed with status ").concat(status),
            ),
        );
    }
    Ok(())
}

/// The error for a page whose body could not be read, keeping the transport's text.
pub fn read_failed(detail: &str) -> (r: AppError)
    ensures
        r.is_infrastructure_text("read manga html failed: "@ + detail@),
{
    AppError::Infrastructure(String::from_str("read manga html failed: ").concat(detail))
}

/// One element that a CSS query matched, as plain values: its text (its text nodes,
/// joined) and the attribute that was asked for, if it has it.
pub open spec fn match_view(m: (String, Option<String>)) -> (Seq<char>, Option<Seq<char>>) {
    (
        m.0@,
        match m.1 {
            None => None,
            Some(a) => Some(a@),
        },
    )
}

/// Every element that a CSS query matched, in the order scraper yields them, as plain
/// values; `Err(())` when the selector does not parse.
pub open spec fn matches_view(q: Result<Vec<(String, Option<String>)>, ()>) -> Result<
    Seq<(Seq<char>, Option<Seq<char>>)>,
    (),
> {
    match q {
        Err(()) => Err(()),
        Ok(v) => Ok(v@.map_values(|m: (String, Option<String>)| match_view(m))),
    }
}

/// One element that an outer CSS query matched, as plain values: the texts of its
/// descendants that the inner query matches, in the order scraper yields them, and the
/// attribute that was asked for, if it has it.
pub open spec fn scoped_match_view(m: (Vec<String>, Option<String>)) -> (
    Seq<Seq<char>>,
    Option<Seq<char>>,
) {
    (
        m.0@.map_values(|t: String| t@),
        match m.1 {
            None => None,
            Some(a) => Some(a@),
        },
    )
}

/// Every element that an outer CSS query matched, in the order scraper yields them, as
/// plain values; `Err(0)` when the outer selector does not parse, `Err(1)` when the inner
/// one does not.
pub open spec fn scoped_matches_view(q: Result<Vec<(Vec<String>, Option<String>)>, u8>) -> Result<
    Seq<(Seq<Seq<char>>, Option<Seq<char>>)>,
    u8,
> {
    match q {
        Err(k) => Err(k),
        Ok(v) => Ok(v@.map_values(|m: (Vec<String>, Option<String>)| scoped_match_view(m))),
    }
}

/// Every element of the page `html` that matches `css`, in the order `Html::select` yields
/// them (the order of scraper's node tree, as parsing built it), each with its
/// text and its attribute `attr`, as scraper finds them; `Err(())` when `css` does not
/// parse.
pub uninterp spec fn css_select(html: Seq<char>, css: Seq<char>, attr: Seq<char>) -> Result<
    Seq<(Seq<char>, Option<Seq<char>>)>,
    (),
>;

/// Every element of the page `html` that matches `outer`, in the order `Html::select`
/// yields them (the order of scraper's node tree, as parsing built it), each with the
/// texts of its descendants that match `inner` and its attribute `attr`, as scraper finds
/// them; `Err(0)` when `outer` does not parse, `Err(1)` when `inner` does not.
pub uninterp spec fn css_select_scoped(
    html: Seq<char>,
    outer: Seq<char>,
    inner: Seq<char>,
    attr: Seq<char>,
) -> Result<Seq<(Seq<Seq<char>>, Option<Seq<char>>)>, u8>;

/// `scraper::Html::parse_document`, `scraper::Selector::parse` and `Html::select`, each
/// match read as its text (`ElementRef::text`) and its attribute (`ElementRef::attr`): the
/// result is `css_select` of the arguments.
#[verifier::external_body]
fn select_matches(html: &str, css: &str, attr: &str) -> (r: Result<Vec<(String, Option<String>)>, ()>)
    ensures
        matches_view(r) == css_select(html@, css@, attr@),
{
    let doc = scraper::Html::parse_document(html);
    let Ok(sel) = scraper::Selector::parse(css) else { return Err(()) };
    Ok(doc.select(&sel).map(|e| (e.text().collect::<String>(), e.attr(attr).map(str::to_string))).collect())
}

/// `scraper::Html::parse_document`, `scraper::Selector::parse` of both selectors and
/// `Html::select`, each match read as the texts of its own matches of `ElementRef::select`
/// and its attribute: the result is `css_select_scoped` of the arguments.
#[verifier::external_body]
fn select_scoped_matches(html: &str, outer: &str, inner: &str, attr: &str) -> (r: Result<
    Vec<(Vec<String>, Option<String>)>,
    u8,
>)
    ensures
        scoped_matches_view(r) == css_select_scoped(html@, outer@, inner@, attr@),
{
    let doc = scraper::Html::parse_document(html);
    let Ok(outer_sel) = scraper::Selector::parse(outer) else { return Err(0) };
    let Ok(inner_sel) = scraper::Selector::parse(inner) else { return Err(1) };
    Ok(doc.select(&outer_sel).map(|e| (
        e.select(&inner_sel).map(|n| n.text().collect::<String>()).collect(),
        e.attr(attr).map(str::to_string),
    )).collect())
}

/// The first match's text, if there is a match.
pub open spec fn first_text_of(q: Result<Seq<(Seq<char>, Option<Seq<char>>)>, ()>) -> Result<
    Option<Seq<char>>,
    (),
> {
    match q {
        Err(()) => Err(()),
        Ok(s) => Ok(
            if s.len() > 0 {
                Some(s[0].0)
            } else {
                None
            },
        ),
    }
}

/// The first match's attribute (if it has it), if there is a match.
pub open spec fn first_attr_of(q: Result<Seq<(Seq<char>, Option<Seq<char>>)>, ()>) -> Result<
    Option<Option<Seq<char>>>,
    (),
> {
    match q {
        Err(()) => Err(()),
        Ok(s) => Ok(
            if s.len() > 0 {
                Some(s[0].1)
            } else {
                None
            },
        ),
    }
}

/// Of the last outer match, if there is one: the text of its first inner match (if any),
/// and its attribute (if it has it).
pub open spec fn last_scoped_of(q: Result<Seq<(Seq<Seq<char>>, Option<Seq<char>>)>, u8>) -> Result<
    Option<(Option<Seq<char>>, Option<Seq<char>>)>,
    u8,
> {
    match q {
        Err(k) => Err(k),
        Ok(s) => Ok(
            if s.len() > 0 {
                let m = s[s.len() - 1];
                Some(
                    (
                        if m.0.len() > 0 {
                            Some(m.0[0])
                        } else {
                            None
                        },
                        m.1,
                    ),
                )
            } else {
                None
            },
        ),
    }
}

/// The title that the page's three queries give, tried in order: the text of the first
/// `h1.entry-title`, trimmed; the `content` of the first `og:title` meta tag, as it stands;
/// the text of the first `h1`, trimmed. A candidate that is absent or blank is passed
/// over; a selector that does not parse, when its turn comes, is an infrastructure error.
pub open spec fn title_outcome(
    entry: Result<Option<Seq<char>>, ()>,
    meta: Result<Option<Option<Seq<char>>>, ()>,
    heading: Result<Option<Seq<char>>, ()>,
) -> Result<Seq<char>, (u8, Seq<char>)> {
    if entry is Err {
        Err((2, "invalid selector: h1.entry-title"@))
    } else if entry matches Ok(Some(t)) && trim(t).len() > 0 {
        Ok(trim(entry->Ok_0->Some_0))
    } else if meta is Err {
        Err((2, "invalid selector: meta[property=\"og:title\"]"@))
    } else if meta matches Ok(Some(Some(t))) && trim(t).len() > 0 {
        Ok(meta->Ok_0->Some_0->Some_0)
    } else if heading is Err {
        Err((2, "invalid selector: h1"@))
    } else if heading matches Ok(Some(t)) && trim(t).len() > 0 {
        Ok(trim(heading->Ok_0->Some_0))
    } else {
        Err((1, "ไม่พบชื่อการ์ตูน"@))
    }
}

/// An error as plain values: 0 for validation, 1 for not found, 2 for infrastructure, and
/// its text.
pub open spec fn error_view(e: AppError) -> (u8, Seq<char>) {
    match e {
        AppError::Validation(m) => (0, m@),
        AppError::NotFound(m) => (1, m@),
        AppError::Infrastructure(m) => (2, m@),
    }
}

/// The title from the matches of the page's three queries (see `title_outcome`): the first
/// match of each is the one that counts.
pub fn title_from_queries(
    entry: Result<Vec<(String, Option<String>)>, ()>,
    meta: Result<Vec<(String, Option<String>)>, ()>,
    heading: Result<Vec<(String, Option<String>)>, ()>,
) -> (r: Result<String, AppError>)
    ensures
        match title_outcome(
            first_text_of(matches_view(entry)),
            first_attr_of(matches_view(meta)),
            first_text_of(matches_view(heading)),
        ) {
            Ok(t) => r matches Ok(s) && s@ == t,
            Err(v) => r matches Err(e) && error_view(e) == v,
        },
{
    match &entry {
        Err(_) => return Err(AppError::Infrastructure(String::from_str("invalid selector: h1.entry-title"))),
        Ok(v) => {
            if v.len() > 0 {
                let s = trimmed(v[0].0.as_str());
                if !s.as_str().is_empty() {
                    return Ok(s);
                }
            }
        },
    }
    match &meta {
        Err(_) => return Err(
            AppError::Infrastructure(String::from_str("invalid selector: meta[property=\"og:title\"]")),
        ),
        Ok(v) => {
            if v.len() > 0 {
                match &v[0].1 {
                    Some(t) => {
                        if !crate::text::is_blank(t.as_str()) {
                            return Ok(t.clone());
                        }
                    },
                    None => {},
                }
            }
        },
    }
    match &heading {
        Err(_) => return Err(AppError::Infrastructure(String::from_str("invalid selector: h1"))),
        Ok(v) => {
            if v.len() > 0 {
                let s = trimmed(v[0].0.as_str());
                if !s.as_str().is_empty() {
                    return Ok(s);
                }
            }
        },
    }
    Err(AppError::NotFound(String::from_str("ไม่พบชื่อการ์ตูน")))
}

/// The cover image from the matches of its query: the `src` of the first `div.thumb img`,
/// if any; a selector that does not parse is an infrastructure error.
pub fn image_from_query(found: Result<Vec<(String, Option<String>)>, ()>) -> (r: Result<
    Option<String>,
    AppError,
>)
    ensures
        match first_attr_of(matches_view(found)) {
            Err(()) => r matches Err(e) && error_view(e) == (2u8, "invalid image selector"@),
            Ok(None) => r == Ok::<Option<String>, AppError>(None),
            Ok(Some(a)) => r matches Ok(i) && match (a, i) {
                (None, None) => true,
                (Some(x), Some(y)) => x == y@,
                _ => false,
            },
        },
{
    match &found {
        Err(_) => Err(AppError::Infrastructure(String::from_str("invalid image selector"))),
        Ok(v) => {
            if v.len() == 0 {
                Ok(None)
            } else {
                match &v[0].1 {
                    None => Ok(None),
                    Some(s) => Ok(Some(s.clone())),
                }
            }
        },
    }
}

/// The text of a chapter label with its `Chapter ` and `ตอนที่ ` words taken out.
pub open spec fn chapter_label_rest(text: Seq<char>) -> Seq<char> {
    replace_all(replace_all(text, "Chapter "@, Seq::empty()), "ตอนที่ "@, Seq::empty())
}

/// The chapter number that a chapter label shows: its digits, read as an `i32`.
pub open spec fn chapter_number_of(text: Seq<char>) -> Result<nat, NumberError> {
    parse_unsigned(digits_only(chapter_label_rest(text)), 2147483647)
}

/// The chapter number that a chapter label shows; a label without digits, or whose digits
/// exceed `i32`, is a validation error that carries the parser's text.
pub fn chapter_number(text: &str) -> (r: Result<i32, AppError>)
    ensures
        match chapter_number_of(text@) {
            Ok(n) => r == Ok::<i32, AppError>(n as i32),
            Err(k) => r matches Err(e) && e.is_validation_text(
                "แปลงหมายเลขตอนไม่สำเร็จ: "@ + k.spec_text(),
            ),
        },
{
    proof {
        reveal_strlit("");
        reveal_strlit("Chapter ");
        reveal_strlit("ตอนที่ ");
        assert(""@ =~= Seq::<char>::empty());
    }
    let a = replace_str(text, "Chapter ", "");
    let b = replace_str(a.as_str(), "ตอนที่ ", "");
    let digits = keep_digits(b.as_str());
    match parse_unsigned_text(digits.as_str(), 2147483647) {
        Ok(n) => Ok(n as i32),
        Err(k) => Err(
            AppError::Validation(String::from_str("แปลงหมายเลขตอนไม่สำเร็จ: ").concat(k.text().as_str())),
        ),
    }
}

/// The latest chapter's number and link from its query: a selector that does not parse is
/// an infrastructure error; a missing chapter link, number label or `href` is a not-found
/// error, checked in that order, with the number read before the `href`.
pub open spec fn chapter_outcome(q: Result<Option<(Option<Seq<char>>, Option<Seq<char>>)>, u8>) -> Result<
    (i32, Seq<char>),
    (u8, Seq<char>),
> {
    match q {
        Err(k) => if k == 0 {
            Err((2, "invalid chapter selector"@))
        } else {
            Err((2, "invalid chapter number selector"@))
        },
        Ok(None) => Err((1, "ไม่พบตอนล่าสุด"@)),
        Ok(Some((None, _))) => Err((1, "ไม่พบหมายเลขตอน"@)),
        Ok(Some((Some(t), href))) => match chapter_number_of(t) {
            Err(k) => Err((0, "แปลงหมายเลขตอนไม่สำเร็จ: "@ + k.spec_text())),
            Ok(n) => match href {
                None => Err((1, "ไม่พบ URL ของตอนล่าสุด"@)),
                Some(h) => Ok((n as i32, h)),
            },
        },
    }
}

/// The latest chapter's number and link from the matches of its query (see
/// `chapter_outcome`): the last chapter link counts, and within it its first number label.
pub fn chapter_from_query(found: Result<Vec<(Vec<String>, Option<String>)>, u8>) -> (r: Result<
    (i32, String),
    AppError,
>)
    ensures
        match chapter_outcome(last_scoped_of(scoped_matches_view(found))) {
            Ok(c) => r matches Ok(p) && p.0 == c.0 && p.1@ == c.1,
            Err(v) => r matches Err(e) && error_view(e) == v,
        },
{
    let v = match found {
        Err(k) => {
            if k == 0 {
                return Err(AppError::Infrastructure(String::from_str("invalid chapter selector")));
            }
            return Err(AppError::Infrastructure(String::from_str("invalid chapter number selector")));
        },
        Ok(v) => v,
    };
    if v.len() == 0 {
        return Err(AppError::NotFound(String::from_str("ไม่พบตอนล่าสุด")));
    }
    let last = &v[v.len() - 1];
    if last.0.len() == 0 {
        return Err(AppError::NotFound(String::from_str("ไม่พบหมายเลขตอน")));
    }
    let number = chapter_number(last.0[0].as_str())?;
    match &last.1 {
        None => Err(AppError::NotFound(String::from_str("ไม่พบ URL ของตอนล่าสุด"))),
        Some(h) => Ok((number, h.clone())),
    }
}

/// What a manga page's HTML shows, in the order the page is read: its title, its cover, its
/// latest chapter; the first failure is the error.
pub open spec fn page_outcome(html: Seq<char>) -> Result<
    (Seq<char>, Option<Seq<char>>, i32, Seq<char>),
    (u8, Seq<char>),
> {
    let title = title_outcome(
        first_text_of(css_select(html, "h1.entry-title"@, ""@)),
        first_attr_of(css_select(html, "meta[property=\"og:title\"]"@, "content"@)),
        first_text_of(css_select(html, "h1"@, ""@)),
    );
    let image = first_attr_of(css_select(html, "div.thumb img"@, "src"@));
    let chapter = chapter_outcome(
        last_scoped_of(
            css_select_scoped(html, "div.lastend div.inepcx a"@, "span.epcurlast"@, "href"@),
        ),
    );
    if title is Err {
        Err(title->Err_0)
    } else if image is Err {
        Err((2, "invalid image selector"@))
    } else if chapter is Err {
        Err(chapter->Err_0)
    } else {
        Ok(
            (
                title->Ok_0,
                match image->Ok_0 {
                    None => None,
                    Some(a) => a,
                },
                chapter->Ok_0.0,
                chapter->Ok_0.1,
            ),
        )
    }
}

/// Reads a manga page's HTML: its title, cover and latest chapter (see `page_outcome`).
pub fn read_manga_page(html: &str) -> (r: Result<ScrapeResult, AppError>)
    ensures
        match page_outcome(html@) {
            Ok(p) => r matches Ok(s) && s.title@ == p.0 && match (p.1, s.image_url) {
                (None, None) => true,
                (Some(x), Some(y)) => x == y@,
                _ => false,
            } && s.latest_chapter == p.2 && s.latest_chapter_url@ == p.3,
            Err(v) => r matches Err(e) && error_view(e) == v,
        },
{
    let entry = select_matches(html, "h1.entry-title", "");
    let meta = select_matches(html, "meta[property=\"og:title\"]", "content");
    let heading = select_matches(html, "h1", "");
    let title = title_from_queries(entry, meta, heading)?;
    let image_url = image_from_query(select_matches(html, "div.thumb img", "src"))?;
    let found = select_scoped_matches(html, "div.lastend div.inepcx a", "span.epcurlast", "href");
    let (latest_chapter, latest_chapter_url) = chapter_from_query(found)?;
    Ok(ScrapeResult { title, latest_chapter, latest_chapter_url, image_url })
}

/// Whether a text candidate for the title is absent or blank.
pub open spec fn no_text(q: Result<Option<Seq<char>>, ()>) -> bool {
    q == Ok::<Option<Seq<char>>, ()>(None) || (q matches Ok(Some(t)) && trim(t).len() == 0)
}

/// A non-blank `h1.entry-title` is the title, trimmed, whatever the other queries found.
pub proof fn law_entry_title_comes_first(
    t: Seq<char>,
    meta: Result<Option<Option<Seq<char>>>, ()>,
    heading: Result<Option<Seq<char>>, ()>,
)
    requires
        trim(t).len() > 0,
    ensures
        title_outcome(Ok(Some(t)), meta, heading) == Ok::<Seq<char>, (u8, Seq<char>)>(trim(t)),
{
}

/// Without a non-blank entry title, a non-blank `og:title` content is the title, as it
/// stands, whatever the page's `h1` holds.
pub proof fn law_og_title_before_heading(
    entry: Result<Option<Seq<char>>, ()>,
    m: Seq<char>,
    heading: Result<Option<Seq<char>>, ()>,
)
    requires
        no_text(entry),
        trim(m).len() > 0,
    ensures
        title_outcome(entry, Ok(Some(Some(m))), heading) == Ok::<Seq<char>, (u8, Seq<char>)>(m),
{
}

/// The page's `h1` is the title, trimmed, only when neither the entry title nor the
/// `og:title` content gives one; with no candidate at all the title is not found.
pub proof fn law_heading_comes_last(
    entry: Result<Option<Seq<char>>, ()>,
    meta: Result<Option<Option<Seq<char>>>, ()>,
    heading: Result<Option<Seq<char>>, ()>,
)
    requires
        no_text(entry),
        meta is Ok,
        !(meta matches Ok(Some(Some(m))) && trim(m).len() > 0),
    ensures
        heading matches Ok(Some(h)) ==> (trim(h).len() > 0 ==> title_outcome(entry, meta, heading)
            == Ok::<Seq<char>, (u8, Seq<char>)>(trim(h))),
        no_text(heading) ==> title_outcome(entry, meta, heading) == Err::<Seq<char>, (u8, Seq<char>)>(
            (1u8, "ไม่พบชื่อการ์ตูน"@),
        ),
{
}

} // verus!
