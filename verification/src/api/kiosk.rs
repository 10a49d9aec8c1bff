//! Public kiosk content: response shapes, display helpers and the request
//! URLs of the unsigned kiosk endpoints.

use vstd::prelude::*;
use crate::text::{
    chars_of, int_digits, nat_digits, owned, parse_u32, parse_u32_spec, push_char, push_chars,
    push_i64, push_u64, split_chars, split_on, str_eq,
};
use crate::uri::{push_uri_component, uri_component};

verus! {

// ── Response types ───────────────────────────────────────────────────────────

/// An article in a listing.
#[derive(Debug, Clone, PartialEq)]
pub struct ContentSummary {
    pub id: String,
    pub slug: String,
    pub title: String,
    pub category: String,
    pub route_id: Option<String>,
    pub is_published: bool,
    /// Decimal score as the backend renders it, e.g. `"92.50"`.
    pub quality_score: Option<String>,
    /// ISO date `"YYYY-MM-DD"` or absent.
    pub publish_date: Option<String>,
    pub updated_at: String,
}

/// A full article with body and tags.
#[derive(Debug, Clone, PartialEq)]
pub struct ContentArticle {
    pub id: String,
    pub slug: String,
    pub title: String,
    pub body: String,
    pub category: String,
    pub route_id: Option<String>,
    pub publish_date: Option<String>,
    pub is_published: bool,
    pub quality_score: Option<String>,
    pub source_url: Option<String>,
    pub source_fingerprint: Option<String>,
    pub created_at: String,
    pub updated_at: String,
    pub tags: Vec<String>,
}

#[derive(Debug, Clone)]
pub struct ArticleResponse {
    pub article: ContentArticle,
    pub related: Vec<ContentSummary>,
}

#[derive(Debug, Clone)]
pub struct SearchResponse {
    pub items: Vec<ContentSummary>,
    pub total: i64,
    pub page: i64,
    pub per_page: i64,
    pub total_pages: i64,
    /// `"fts"`, `"fuzzy"` or absent.
    pub search_type: Option<String>,
}

#[derive(Debug, Clone, Copy, PartialEq, Eq)]
pub struct ArchiveEntry {
    pub year: i32,
    pub month: i32,
    pub count: i64,
}

#[derive(Debug, Clone)]
pub struct ArchiveIndexResponse {
    pub mode: String,
    pub entries: Vec<ArchiveEntry>,
}

#[derive(Debug, Clone)]
pub struct ArchiveArticlesResponse {
    pub mode: String,
    pub year: i32,
    pub month: i32,
    pub items: Vec<ContentSummary>,
    pub total: i64,
    pub page: i64,
    pub per_page: i64,
    pub total_pages: i64,
}

#[derive(Debug, Clone, PartialEq)]
pub struct CategoryCount {
    pub category: String,
    pub count: i64,
}

#[derive(Debug, Clone, PartialEq)]
pub struct TagCount {
    pub tag: String,
    pub count: i64,
}

// ── Dates ────────────────────────────────────────────────────────────────────

/// Three-letter month abbreviation of month number `m` (1 to 12).
pub open spec fn month_abbr(m: u32) -> Option<Seq<char>> {
    if m == 1 {
        Some("Jan"@)
    } else if m == 2 {
        Some("Feb"@)
    } else if m == 3 {
        Some("Mar"@)
    } else if m == 4 {
        Some("Apr"@)
    } else if m == 5 {
        Some("May"@)
    } else if m == 6 {
        Some("Jun"@)
    } else if m == 7 {
        Some("Jul"@)
    } else if m == 8 {
        Some("Aug"@)
    } else if m == 9 {
        Some("Sep"@)
    } else if m == 10 {
        Some("Oct"@)
    } else if m == 11 {
        Some("Nov"@)
    } else if m == 12 {
        Some("Dec"@)
    } else {
        None
    }
}

pub fn month_abbr_exec(m: u32) -> (r: Option<&'static str>)
    ensures
        r matches Some(x) ==> month_abbr(m) == Some(x@),
        r is None <==> month_abbr(m) is None,
{
    match m {
        1 => Some("Jan"),
        2 => Some("Feb"),
        3 => Some("Mar"),
        4 => Some("Apr"),
        5 => Some("May"),
        6 => Some("Jun"),
        7 => Some("Jul"),
        8 => Some("Aug"),
        9 => Some("Sep"),
        10 => Some("Oct"),
        11 => Some("Nov"),
        12 => Some("Dec"),
        _ => None,
    }
}

/// The short display form `"Mon D, YYYY"` of an ISO date `"YYYY-MM-DD"`:
/// the text is split at `-`; the second and third pieces must parse as
/// unsigned numbers and the second must be a month number; the day is
/// printed without leading zeros and the first piece is kept as the year.
pub open spec fn date_display(iso: Seq<char>) -> Option<Seq<char>> {
    let parts = split_on(iso, '-');
    if parts.len() < 3 {
        None
    } else {
        match (parse_u32_spec(parts[1]), parse_u32_spec(parts[2])) {
            (Some(m), Some(d)) => match month_abbr(m) {
                Some(name) => Some(name + seq![' '] + nat_digits(d as nat) + seq![','] + seq![' ']
                    + parts[0]),
                None => None,
            },
            _ => None,
        }
    }
}

/// Short human-readable date, e.g. `"2024-01-15"` gives `"Jan 15, 2024"`.
pub fn parse_date_display(iso: &str) -> (r: Option<String>)
    ensures
        r matches Some(x) ==> date_display(iso@) == Some(x@),
        r is None <==> date_display(iso@) is None,
{
    let v = chars_of(iso);
    let parts = split_chars(&v, '-');
    if parts.len() < 3 {
        return None;
    }
    let month = match parse_u32(&parts[1]) {
        Some(m) => m,
        None => return None,
    };
    let day = match parse_u32(&parts[2]) {
        Some(d) => d,
        None => return None,
    };
    let name = match month_abbr_exec(month) {
        Some(n) => n,
        None => return None,
    };
    let mut s = owned(name);
    push_char(&mut s, ' ');
    push_u64(&mut s, day as u64);
    push_char(&mut s, ',');
    push_char(&mut s, ' ');
    push_chars(&mut s, &parts[0], 0, parts[0].len());
    assert(parts[0]@.subrange(0, parts[0]@.len() as int) =~= parts[0]@);
    assert(s@ =~= date_display(iso@).unwrap());
    Some(s)
}

/// The display date of an optional ISO date: empty when absent or unreadable.
pub open spec fn display_date_of(d: Option<String>) -> Seq<char> {
    match d {
        Some(x) => match date_display(x@) {
            Some(s) => s,
            None => Seq::empty(),
        },
        None => Seq::empty(),
    }
}

fn display_date_opt(d: &Option<String>) -> (r: String)
    ensures
        r@ == display_date_of(*d),
{
    match d {
        Some(x) => match parse_date_display(x.as_str()) {
            Some(s) => s,
            None => String::new(),
        },
        None => String::new(),
    }
}

/// Full English month name of `m`, or `"Unknown"`.
pub open spec fn month_name_spec(m: i32) -> Seq<char> {
    if m == 1 {
        "January"@
    } else if m == 2 {
        "February"@
    } else if m == 3 {
        "March"@
    } else if m == 4 {
        "April"@
    } else if m == 5 {
        "May"@
    } else if m == 6 {
        "June"@
    } else if m == 7 {
        "July"@
    } else if m == 8 {
        "August"@
    } else if m == 9 {
        "September"@
    } else if m == 10 {
        "October"@
    } else if m == 11 {
        "November"@
    } else if m == 12 {
        "December"@
    } else {
        "Unknown"@
    }
}

pub fn month_name(m: i32) -> (r: &'static str)
    ensures
        r@ == month_name_spec(m),
{
    match m {
        1 => "January",
        2 => "February",
        3 => "March",
        4 => "April",
        5 => "May",
        6 => "June",
        7 => "July",
        8 => "August",
        9 => "September",
        10 => "October",
        11 => "November",
        12 => "December",
        _ => "Unknown",
    }
}

// ── Categories ───────────────────────────────────────────────────────────────

/// Display label of a category key; unknown keys are `"General"`.
pub open spec fn category_label_spec(cat: Seq<char>) -> Seq<char> {
    if cat == "fares"@ {
        "Fares"@
    } else if cat == "delays"@ {
        "Delays"@
    } else if cat == "baggage"@ {
        "Baggage"@
    } else if cat == "accessibility"@ {
        "Accessibility"@
    } else {
        "General"@
    }
}

/// Badge classes of a category key; unknown keys get the grey badge.
pub open spec fn category_color_spec(cat: Seq<char>) -> Seq<char> {
    if cat == "fares"@ {
        "bg-green-100 text-green-800"@
    } else if cat == "delays"@ {
        "bg-red-100 text-red-800"@
    } else if cat == "baggage"@ {
        "bg-amber-100 text-amber-800"@
    } else if cat == "accessibility"@ {
        "bg-purple-100 text-purple-800"@
    } else {
        "bg-gray-100 text-gray-800"@
    }
}

pub fn category_label(cat: &str) -> (r: &'static str)
    ensures
        r@ == category_label_spec(cat@),
{
    if str_eq(cat, "fares") {
        "Fares"
    } else if str_eq(cat, "delays") {
        "Delays"
    } else if str_eq(cat, "baggage") {
        "Baggage"
    } else if str_eq(cat, "accessibility") {
        "Accessibility"
    } else {
        "General"
    }
}

pub fn category_color(cat: &str) -> (r: &'static str)
    ensures
        r@ == category_color_spec(cat@),
{
    if str_eq(cat, "fares") {
        "bg-green-100 text-green-800"
    } else if str_eq(cat, "delays") {
        "bg-red-100 text-red-800"
    } else if str_eq(cat, "baggage") {
        "bg-amber-100 text-amber-800"
    } else if str_eq(cat, "accessibility") {
        "bg-purple-100 text-purple-800"
    } else {
        "bg-gray-100 text-gray-800"
    }
}

impl ContentSummary {
    /// Short human-readable publish date, e.g. `"Jan 15, 2024"`; empty when
    /// there is none or it cannot be read.
    pub fn display_date(&self) -> (r: String)
        ensures
            r@ == display_date_of(self.publish_date),
    {
        display_date_opt(&self.publish_date)
    }

    pub fn category_label(&self) -> (r: &'static str)
        ensures
            r@ == category_label_spec(self.category@),
    {
        category_label(self.category.as_str())
    }

    pub fn category_color(&self) -> (r: &'static str)
        ensures
            r@ == category_color_spec(self.category@),
    {
        category_color(self.category.as_str())
    }
}

impl ContentArticle {
    pub fn display_date(&self) -> (r: String)
        ensures
            r@ == display_date_of(self.publish_date),
    {
        display_date_opt(&self.publish_date)
    }

    pub fn category_label(&self) -> (r: &'static str)
        ensures
            r@ == category_label_spec(self.category@),
    {
        category_label(self.category.as_str())
    }

    pub fn category_color(&self) -> (r: &'static str)
        ensures
            r@ == category_color_spec(self.category@),
    {
        category_color(self.category.as_str())
    }
}

// ── Request URLs ─────────────────────────────────────────────────────────────

/// `&name=<encoded value>` when the value is present and not empty.
pub open spec fn nonempty_param(name: Seq<char>, v: Option<Seq<char>>) -> Seq<char> {
    match v {
        Some(x) => if x.len() > 0 {
            seq!['&'] + name + seq!['='] + uri_component(x)
        } else {
            Seq::empty()
        },
        None => Seq::empty(),
    }
}

pub fn push_nonempty_param(s: &mut String, name: &str, v: Option<&str>)
    ensures
        final(s)@ == old(s)@ + nonempty_param(name@, match v {
            Some(x) => Some(x@),
            None => None,
        }),
{
    match v {
        Some(x) => {
            if !x.is_empty() {
                push_char(s, '&');
                s.append(name);
                push_char(s, '=');
                push_uri_component(s, x);
            }
        },
        None => {},
    }
    assert(s@ =~= old(s)@ + nonempty_param(name@, match v {
        Some(x) => Some(x@),
        None => None,
    }));
}

pub open spec fn opt_view(v: Option<&str>) -> Option<Seq<char>> {
    match v {
        Some(x) => Some(x@),
        None => None,
    }
}

/// URL of the content search: page and page size, then the query, category
/// and tag filters that are present and not empty, each URI-encoded.
pub open spec fn search_content_url_spec(
    q: Option<Seq<char>>,
    category: Option<Seq<char>>,
    tag: Option<Seq<char>>,
    page: int,
    per_page: int,
) -> Seq<char> {
    "/api/v1/kiosk/content?page="@ + int_digits(page) + "&per_page="@ + int_digits(per_page)
        + nonempty_param("q"@, q) + nonempty_param("category"@, category) + nonempty_param(
        "tag"@,
        tag,
    )
}

pub fn search_content_url(
    q: Option<&str>,
    category: Option<&str>,
    tag: Option<&str>,
    page: i64,
    per_page: i64,
) -> (r: String)
    ensures
        r@ == search_content_url_spec(
            opt_view(q),
            opt_view(category),
            opt_view(tag),
            page as int,
            per_page as int,
        ),
{
    let mut s = owned("/api/v1/kiosk/content?page=");
    push_i64(&mut s, page);
    s.append("&per_page=");
    push_i64(&mut s, per_page);
    push_nonempty_param(&mut s, "q", q);
    push_nonempty_param(&mut s, "category", category);
    push_nonempty_param(&mut s, "tag", tag);
    assert(s@ =~= search_content_url_spec(
        opt_view(q),
        opt_view(category),
        opt_view(tag),
        page as int,
        per_page as int,
    ));
    s
}

/// URL of one article by slug.
pub fn article_url(slug: &str) -> (r: String)
    ensures
        r@ == "/api/v1/kiosk/content/"@ + uri_component(slug@),
{
    let mut s = owned("/api/v1/kiosk/content/");
    push_uri_component(&mut s, slug);
    s
}

/// URL of the archive index, optionally for one year and one category.
pub open spec fn archive_index_url_spec(year: Option<i32>, category: Option<Seq<char>>) -> Seq<
    char,
> {
    "/api/v1/kiosk/archive?"@ + match year {
        Some(y) => "year="@ + int_digits(y as int) + seq!['&'],
        None => Seq::empty(),
    } + match category {
        Some(c) => "category="@ + uri_component(c) + seq!['&'],
        None => Seq::empty(),
    }
}

pub fn archive_index_url(year: Option<i32>, category: Option<&str>) -> (r: String)
    ensures
        r@ == archive_index_url_spec(year, opt_view(category)),
{
    let mut s = owned("/api/v1/kiosk/archive?");
    match year {
        Some(y) => {
            s.append("year=");
            push_i64(&mut s, y as i64);
            push_char(&mut s, '&');
        },
        None => {},
    }
    match category {
        Some(c) => {
            s.append("category=");
            push_uri_component(&mut s, c);
            push_char(&mut s, '&');
        },
        None => {},
    }
    assert(s@ =~= archive_index_url_spec(year, opt_view(category)));
    s
}

/// URL of the articles of one archive month.
pub open spec fn archive_articles_url_spec(
    year: i32,
    month: i32,
    category: Option<Seq<char>>,
    page: i64,
) -> Seq<char> {
    "/api/v1/kiosk/archive?year="@ + int_digits(year as int) + "&month="@ + int_digits(
        month as int,
    ) + "&page="@ + int_digits(page as int) + match category {
        Some(c) => "&category="@ + uri_component(c),
        None => Seq::empty(),
    }
}

pub fn archive_articles_url(year: i32, month: i32, category: Option<&str>, page: i64) -> (r:
    String)
    ensures
        r@ == archive_articles_url_spec(year, month, opt_view(category), page),
{
    let mut s = owned("/api/v1/kiosk/archive?year=");
    push_i64(&mut s, year as i64);
    s.append("&month=");
    push_i64(&mut s, month as i64);
    s.append("&page=");
    push_i64(&mut s, page);
    match category {
        Some(c) => {
            s.append("&category=");
            push_uri_component(&mut s, c);
        },
        None => {},
    }
    assert(s@ =~= archive_articles_url_spec(year, month, opt_view(category), page));
    s
}

/// Path of the category list with article counts.
pub const CATEGORIES_PATH: &'static str = "/api/v1/kiosk/categories";

/// Path of the top tags with article counts.
pub const TAGS_PATH: &'static str = "/api/v1/kiosk/tags";

} // verus!
