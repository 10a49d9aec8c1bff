//! The kiosk search page: its URL query and how each control changes it, the
//! request it makes, the results heading, the active filter chips and the
//! pagination window.

use vstd::prelude::*;
use crate::api::kiosk::{
    category_label, category_label_spec, nonempty_param, opt_view, push_nonempty_param, search_content_url,
    search_content_url_spec,
};
use crate::text::{int_digits, non_blank, non_blank_exec, push_char, push_i64, str_eq};

verus! {

// ── Query ────────────────────────────────────────────────────────────────────

/// The page's state, all of it in the URL query so that results can be
/// bookmarked.
#[derive(Debug, Clone, PartialEq, Default)]
pub struct SearchQuery {
    pub q: Option<String>,
    pub category: Option<String>,
    pub tag: Option<String>,
    /// City filter, matched by the search against the cities an article
    /// mentions.
    pub city: Option<String>,
    /// ISO-8601 departure lower bound, e.g. `"2026-06-01"`.
    pub departure_from: Option<String>,
    /// ISO-8601 departure upper bound.
    pub departure_to: Option<String>,
    pub page: Option<i64>,
}

/// The text of an optional string, borrowed.
fn as_opt_str(o: &Option<String>) -> (r: Option<&str>)
    ensures
        opt_view(r) == ov(*o),
{
    match o {
        Some(x) => Some(x.as_str()),
        None => None,
    }
}

/// Articles per search page.
pub const SEARCH_PER_PAGE: i64 = 12;

/// Milliseconds the text input waits before it commits.
pub const SEARCH_DEBOUNCE_MS: u32 = 300;

/// The view of an optional string.
pub open spec fn ov(o: Option<String>) -> Option<Seq<char>> {
    match o {
        Some(s) => Some(s@),
        None => None,
    }
}

/// The value of a free-text filter input: absent when empty.
pub open spec fn input_value(v: Seq<char>) -> Option<Seq<char>> {
    if v.len() == 0 {
        None
    } else {
        Some(v)
    }
}

fn input_value_exec(v: String) -> (r: Option<String>)
    ensures
        ov(r) == input_value(v@),
{
    if v.as_str().is_empty() {
        None
    } else {
        Some(v)
    }
}

impl SearchQuery {
    /// A search for a text alone (the home page's search box).
    pub fn for_text(q: String) -> (r: SearchQuery)
        ensures
            r == (SearchQuery {
                q: Some(q),
                category: None,
                tag: None,
                city: None,
                departure_from: None,
                departure_to: None,
                page: None,
            }),
    {
        SearchQuery { q: Some(q), category: None, tag: None, city: None, departure_from: None, departure_to: None, page: None }
    }

    /// A search for one category alone (a topic card).
    pub fn for_category(category: String) -> (r: SearchQuery)
        ensures
            r == (SearchQuery {
                q: None,
                category: Some(category),
                tag: None,
                city: None,
                departure_from: None,
                departure_to: None,
                page: None,
            }),
    {
        SearchQuery { q: None, category: Some(category), tag: None, city: None, departure_from: None, departure_to: None, page: None }
    }

    /// A search for one tag alone (an article's tag chip).
    pub fn for_tag(tag: String) -> (r: SearchQuery)
        ensures
            r == (SearchQuery {
                q: None,
                category: None,
                tag: Some(tag),
                city: None,
                departure_from: None,
                departure_to: None,
                page: None,
            }),
    {
        SearchQuery { q: None, category: None, tag: Some(tag), city: None, departure_from: None, departure_to: None, page: None }
    }

    /// The debounced text input commits: the query becomes the trimmed text,
    /// absent when blank, and the page resets.
    pub fn set_text(&mut self, text: &str)
        ensures
            ov(final(self).q) == non_blank(text@),
            final(self).page is None,
            final(self).category == old(self).category,
            final(self).tag == old(self).tag,
            final(self).city == old(self).city,
            final(self).departure_from == old(self).departure_from,
            final(self).departure_to == old(self).departure_to,
    {
        self.q = non_blank_exec(text);
        self.page = None;
    }

    /// The clear button: no query, first page.
    pub fn clear_text(&mut self)
        ensures
            *final(self) == (SearchQuery { q: None, page: None, ..*old(self) }),
    {
        self.q = None;
        self.page = None;
    }

    /// The city input, as typed (absent when empty); the page resets.
    pub fn set_city(&mut self, value: String)
        ensures
            ov(final(self).city) == input_value(value@),
            *final(self) == (SearchQuery { city: final(self).city, page: None, ..*old(self) }),
    {
        self.city = input_value_exec(value);
        self.page = None;
    }

    /// The departure lower bound, as typed; the page resets.
    pub fn set_departure_from(&mut self, value: String)
        ensures
            ov(final(self).departure_from) == input_value(value@),
            *final(self) == (SearchQuery {
                departure_from: final(self).departure_from,
                page: None,
                ..*old(self)
            }),
    {
        self.departure_from = input_value_exec(value);
        self.page = None;
    }

    /// The departure upper bound, as typed; the page resets.
    pub fn set_departure_to(&mut self, value: String)
        ensures
            ov(final(self).departure_to) == input_value(value@),
            *final(self) == (SearchQuery { departure_to: final(self).departure_to, page: None, ..*old(self) }),
    {
        self.departure_to = input_value_exec(value);
        self.page = None;
    }

    /// A category in the sidebar, or "All topics" (`None`); the page resets.
    pub fn set_category(&mut self, category: Option<String>)
        ensures
            *final(self) == (SearchQuery { category, page: None, ..*old(self) }),
    {
        self.category = category;
        self.page = None;
    }

    /// A tag in the sidebar or a chip's remove button; the page resets.
    pub fn set_tag(&mut self, tag: Option<String>)
        ensures
            *final(self) == (SearchQuery { tag, page: None, ..*old(self) }),
    {
        self.tag = tag;
        self.page = None;
    }

    /// A pagination button.
    pub fn set_page(&mut self, page: i64)
        ensures
            *final(self) == (SearchQuery { page: Some(page), ..*old(self) }),
    {
        self.page = Some(page);
    }

    /// The page to fetch: the query's, else the first.
    pub fn fetch_page(&self) -> (r: i64)
        ensures
            r == match self.page {
                Some(p) => p,
                None => 1,
            },
    {
        match self.page {
            Some(p) => p,
            None => 1,
        }
    }

    /// The URL of the search this query asks for: the content search for
    /// its text, category, tag and page, then the city and the departure
    /// bounds, each URI-encoded and only when present and not empty.
    pub fn request_url(&self) -> (r: String)
        ensures
            r@ == search_content_url_spec(
                ov(self.q),
                ov(self.category),
                ov(self.tag),
                match self.page {
                    Some(p) => p as int,
                    None => 1,
                },
                SEARCH_PER_PAGE as int,
            ) + nonempty_param("city"@, ov(self.city)) + nonempty_param(
                "departure_from"@,
                ov(self.departure_from),
            ) + nonempty_param("departure_to"@, ov(self.departure_to)),
    {
        let mut s = search_content_url(
            as_opt_str(&self.q),
            as_opt_str(&self.category),
            as_opt_str(&self.tag),
            self.fetch_page(),
            SEARCH_PER_PAGE,
        );
        push_nonempty_param(&mut s, "city", as_opt_str(&self.city));
        push_nonempty_param(&mut s, "departure_from", as_opt_str(&self.departure_from));
        push_nonempty_param(&mut s, "departure_to", as_opt_str(&self.departure_to));
        s
    }
}

/// What a tag in the sidebar sets: clicking the active tag clears it,
/// clicking another selects it.
pub open spec fn tag_toggle_spec(active: Option<Seq<char>>, tag: Seq<char>) -> Option<Seq<char>> {
    if active == Some(tag) {
        None
    } else {
        Some(tag)
    }
}

pub fn tag_toggle(active: Option<&str>, tag: &str) -> (r: Option<String>)
    ensures
        ov(r) == tag_toggle_spec(
            match active {
                Some(a) => Some(a@),
                None => None,
            },
            tag@,
        ),
{
    match active {
        Some(a) => {
            if str_eq(a, tag) {
                None
            } else {
                Some(tag.to_owned())
            }
        },
        None => Some(tag.to_owned()),
    }
}

/// Tags shown in the sidebar, at most.
pub const TOP_TAGS_SHOWN: usize = 20;

// ── Results ──────────────────────────────────────────────────────────────────

/// `"<text>"` in double quotes.
pub open spec fn quoted(s: Seq<char>) -> Seq<char> {
    seq!['"'] + s + seq!['"']
}

/// The heading above the results: full-text results, approximate (fuzzy)
/// matches, no results for a query, or a plain count when there is no
/// query.
pub open spec fn results_heading_spec(search_type: Option<Seq<char>>, total: i64, q: Seq<char>) -> Seq<char> {
    if search_type == Some("fts"@) {
        int_digits(total as int) + " results for "@ + quoted(q)
    } else if search_type == Some("fuzzy"@) {
        "Showing approximate matches for "@ + quoted(q) + " ("@ + int_digits(total as int)
            + " results)"@
    } else if q.len() > 0 {
        "No results for "@ + quoted(q)
    } else {
        int_digits(total as int) + " articles"@
    }
}

fn push_quoted(s: &mut String, q: &str)
    ensures
        final(s)@ == old(s)@ + quoted(q@),
{
    push_char(s, '"');
    s.append(q);
    push_char(s, '"');
    assert(s@ =~= old(s)@ + quoted(q@));
}

pub fn results_heading(search_type: Option<&str>, total: i64, q: &str) -> (r: String)
    ensures
        r@ == results_heading_spec(
            match search_type {
                Some(t) => Some(t@),
                None => None,
            },
            total,
            q@,
        ),
{
    proof {
        reveal_strlit("fts");
        reveal_strlit("fuzzy");
    }
    let is_fts = match search_type {
        Some(t) => str_eq(t, "fts"),
        None => false,
    };
    let is_fuzzy = match search_type {
        Some(t) => str_eq(t, "fuzzy"),
        None => false,
    };
    let mut s = String::new();
    if is_fts {
        push_i64(&mut s, total);
        s.append(" results for ");
        push_quoted(&mut s, q);
    } else if is_fuzzy {
        s.append("Showing approximate matches for ");
        push_quoted(&mut s, q);
        s.append(" (");
        push_i64(&mut s, total);
        s.append(" results)");
    } else if !q.is_empty() {
        s.append("No results for ");
        push_quoted(&mut s, q);
    } else {
        push_i64(&mut s, total);
        s.append(" articles");
    }
    s
}

/// The message when a page of results is empty.
pub fn no_results_message(q: &str) -> (r: String)
    ensures
        r@ == "No results for "@ + quoted(q@),
{
    let mut s = "No results for ".to_owned();
    push_quoted(&mut s, q);
    s
}

/// Whether the results are approximate matches.
pub fn is_fuzzy(search_type: Option<&str>) -> (b: bool)
    ensures
        b <==> (search_type matches Some(t) && t@ == "fuzzy"@),
{
    match search_type {
        Some(t) => str_eq(t, "fuzzy"),
        None => false,
    }
}

/// The active filter chips, in order: category (by its label), tag, city.
pub open spec fn chip_labels_spec(
    category: Option<Seq<char>>,
    tag: Option<Seq<char>>,
    city: Option<Seq<char>>,
) -> Seq<Seq<char>> {
    let a = match category {
        Some(c) => seq!["Category: "@ + category_label_spec(c)],
        None => Seq::empty(),
    };
    let b = match tag {
        Some(t) => seq!["Tag: #"@ + t],
        None => Seq::empty(),
    };
    let c = match city {
        Some(c) => seq!["City: "@ + c],
        None => Seq::empty(),
    };
    a + b + c
}

pub fn chip_labels(category: Option<&str>, tag: Option<&str>, city: Option<&str>) -> (r: Vec<String>)
    ensures
        r@.map_values(|x: String| x@) == chip_labels_spec(
            match category {
                Some(c) => Some(c@),
                None => None,
            },
            match tag {
                Some(t) => Some(t@),
                None => None,
            },
            match city {
                Some(c) => Some(c@),
                None => None,
            },
        ),
{
    let mut v: Vec<String> = Vec::new();
    match category {
        Some(c) => {
            let mut s = "Category: ".to_owned();
            s.append(category_label(c));
            v.push(s);
        },
        None => {},
    }
    let ghost n1 = v@.map_values(|x: String| x@);
    match tag {
        Some(t) => {
            let mut s = "Tag: #".to_owned();
            s.append(t);
            v.push(s);
        },
        None => {},
    }
    let ghost n2 = v@.map_values(|x: String| x@);
    match city {
        Some(c) => {
            let mut s = "City: ".to_owned();
            s.append(c);
            v.push(s);
        },
        None => {},
    }
    assert(v@.map_values(|x: String| x@) =~= chip_labels_spec(
        match category {
            Some(c) => Some(c@),
            None => None,
        },
        match tag {
            Some(t) => Some(t@),
            None => None,
        },
        match city {
            Some(c) => Some(c@),
            None => None,
        },
    ));
    v
}

// ── Pagination ───────────────────────────────────────────────────────────────

/// The page numbers shown around the current one: two on each side, kept
/// within `1..=total`.
pub open spec fn visible_pages_spec(current: int, total: int) -> Seq<i64> {
    let start = if current - 2 > 1 {
        current - 2
    } else {
        1
    };
    let end = if current + 2 < total {
        current + 2
    } else {
        total
    };
    Seq::new(if end >= start { (end - start + 1) as nat } else { 0 }, |k: int| (start + k) as i64)
}

pub fn visible_pages(current: i64, total: i64) -> (r: Vec<i64>)
    requires
        i64::MIN + 2 <= current <= i64::MAX - 2,
    ensures
        r@ == visible_pages_spec(current as int, total as int),
{
    let start = if current - 2 > 1 {
        current - 2
    } else {
        1
    };
    let end = if current + 2 < total {
        current + 2
    } else {
        total
    };
    let mut v: Vec<i64> = Vec::new();
    if start <= end {
        let mut p = start;
        while p < end
            invariant
                start <= p <= end,
                end <= current + 2,
                current + 2 <= i64::MAX,
                v@ == visible_pages_spec(current as int, total as int).take(p - start),
                start == (if current - 2 > 1 {
                    current - 2
                } else {
                    1int
                }),
                end == (if current + 2 < total {
                    current + 2
                } else {
                    total as int
                }),
            decreases end - p,
        {
            v.push(p);
            p = p + 1;
            assert(v@ =~= visible_pages_spec(current as int, total as int).take(p - start));
        }
        v.push(end);
        assert(v@ =~= visible_pages_spec(current as int, total as int));
    } else {
        assert(v@ =~= visible_pages_spec(current as int, total as int));
    }
    v
}

/// The window holds only pages `1..=total`, each within two of the current
/// page, in increasing steps of one, at most five of them, and the current
/// page itself whenever it is one of `1..=total`.
pub proof fn law_visible_pages_window(current: i64, total: i64)
    requires
        i64::MIN + 2 <= current <= i64::MAX - 2,
    ensures
        visible_pages_spec(current as int, total as int).len() <= 5,
        forall|k: int|
            0 <= k < visible_pages_spec(current as int, total as int).len() ==> {
                let p = #[trigger] visible_pages_spec(current as int, total as int)[k];
                &&& 1 <= p <= total
                &&& current - 2 <= p <= current + 2
            },
        forall|k: int|
            0 <= k < visible_pages_spec(current as int, total as int).len() - 1 ==> visible_pages_spec(
                current as int,
                total as int,
            )[k + 1] == #[trigger] visible_pages_spec(current as int, total as int)[k] + 1,
        1 <= current <= total ==> visible_pages_spec(current as int, total as int).contains(current),
{
    let v = visible_pages_spec(current as int, total as int);
    if 1 <= current <= total {
        let start = if current - 2 > 1 {
            current - 2
        } else {
            1
        };
        assert(v[current - start] == current);
    }
    assert forall|k: int| 0 <= k < v.len() implies {
        let p = #[trigger] v[k];
        &&& 1 <= p <= total
        &&& current - 2 <= p <= current + 2
    } by {
        let start = if current - 2 > 1 {
            current - 2
        } else {
            1
        };
        assert(v[k] == start + k);
    }
    assert forall|k: int| 0 <= k < v.len() - 1 implies v[k + 1] == #[trigger] v[k] + 1 by {
        let start = if current - 2 > 1 {
            current - 2
        } else {
            1
        };
        assert(v[k] == start + k);
        assert(v[k + 1] == start + k + 1);
    }
}

/// The pagination controls: first, previous, the window, next and last,
/// with the first two disabled on the first page and the last two on the
/// last page.
#[derive(Debug, Clone, PartialEq)]
pub struct Pager {
    pub prev: i64,
    pub pages: Vec<i64>,
    pub next: i64,
    pub last: i64,
    pub at_first: bool,
    pub at_last: bool,
}

pub fn pager(current: i64, total: i64) -> (r: Pager)
    requires
        i64::MIN + 2 <= current <= i64::MAX - 2,
    ensures
        r.prev == if current - 1 > 1 {
            current - 1
        } else {
            1int
        },
        r.next == if current + 1 < total {
            current + 1
        } else {
            total as int
        },
        r.pages@ == visible_pages_spec(current as int, total as int),
        r.last == total,
        r.at_first == (current == 1),
        r.at_last == (current == total),
{
    Pager {
        prev: if current - 1 > 1 {
            current - 1
        } else {
            1
        },
        pages: visible_pages(current, total),
        next: if current + 1 < total {
            current + 1
        } else {
            total
        },
        last: total,
        at_first: current == 1,
        at_last: current == total,
    }
}

/// A pagination button's classes.
pub fn page_btn_class(active: bool, disabled: bool) -> (r: &'static str)
    ensures
        disabled ==> r@ == "w-9 h-9 rounded-lg text-sm text-slate-300 cursor-not-allowed"@,
        !disabled && active ==> r@ == "w-9 h-9 rounded-lg text-sm bg-indigo-700 text-white font-bold"@,
        !disabled && !active ==> r@
            == "w-9 h-9 rounded-lg text-sm border border-slate-200 text-slate-700 hover:bg-slate-50"@,
{
    if disabled {
        "w-9 h-9 rounded-lg text-sm text-slate-300 cursor-not-allowed"
    } else if active {
        "w-9 h-9 rounded-lg text-sm bg-indigo-700 text-white font-bold"
    } else {
        "w-9 h-9 rounded-lg text-sm border border-slate-200 text-slate-700 hover:bg-slate-50"
    }
}

/// A sidebar button's classes.
pub fn sidebar_btn_class(active: bool) -> (r: &'static str)
    ensures
        active ==> r@
            == "w-full flex items-center text-left px-3 py-2 rounded-lg bg-indigo-50 text-indigo-700 font-semibold text-sm"@,
        !active ==> r@
            == "w-full flex items-center text-left px-3 py-2 rounded-lg text-slate-700 text-sm hover:bg-slate-50 transition"@,
{
    if active {
        "w-full flex items-center text-left px-3 py-2 rounded-lg bg-indigo-50 text-indigo-700 font-semibold text-sm"
    } else {
        "w-full flex items-center text-left px-3 py-2 rounded-lg text-slate-700 text-sm hover:bg-slate-50 transition"
    }
}

/// A sidebar tag's classes.
pub fn tag_btn_class(active: bool) -> (r: &'static str)
    ensures
        active ==> r@ == "text-xs rounded-full px-2.5 py-0.5 bg-indigo-600 text-white font-medium"@,
        !active ==> r@
            == "text-xs rounded-full px-2.5 py-0.5 bg-slate-100 text-slate-700 hover:bg-indigo-100 hover:text-indigo-700"@,
{
    if active {
        "text-xs rounded-full px-2.5 py-0.5 bg-indigo-600 text-white font-medium"
    } else {
        "text-xs rounded-full px-2.5 py-0.5 bg-slate-100 text-slate-700 hover:bg-indigo-100 hover:text-indigo-700"
    }
}

} // verus!
