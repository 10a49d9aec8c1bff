//! The kiosk archive: its URL query and what each control changes in it, the
//! request it makes, the year-by-year index, and the labels of the page.

use vstd::prelude::*;
use crate::api::kiosk::{
    archive_articles_url,
    archive_articles_url_spec,
    archive_index_url,
    archive_index_url_spec,
    month_name,
    month_name_spec,
    ArchiveEntry,
};
use crate::text::{int_digits, lemma_concat_cancel, lemma_int_digits_injective, push_char, push_i64};
use crate::uri::uri_component;

verus! {

// ── Query ────────────────────────────────────────────────────────────────────

/// The archive's URL query.
#[derive(Debug, Clone, PartialEq, Default)]
pub struct ArchiveQuery {
    pub year: Option<i32>,
    pub month: Option<i32>,
    pub category: Option<String>,
    pub page: Option<i64>,
}

pub open spec fn ov(o: Option<String>) -> Option<Seq<char>> {
    match o {
        Some(s) => Some(s@),
        None => None,
    }
}

/// What the archive loads for a query: a month's articles when both the year
/// and the month are chosen, else the index (of one year, or of all).
pub open spec fn fetch_url_spec(q: ArchiveQuery) -> Seq<char> {
    match (q.year, q.month) {
        (Some(y), Some(m)) => archive_articles_url_spec(
            y,
            m,
            ov(q.category),
            match q.page {
                Some(p) => p,
                None => 1,
            },
        ),
        _ => archive_index_url_spec(q.year, ov(q.category)),
    }
}

impl ArchiveQuery {
    /// A month in the index: that year and month, the category kept, the
    /// first page.
    pub fn select_month(&mut self, year: i32, month: i32)
        ensures
            *final(self) == (ArchiveQuery {
                year: Some(year),
                month: Some(month),
                page: None,
                category: old(self).category,
            }),
    {
        self.year = Some(year);
        self.month = Some(month);
        self.page = None;
    }

    /// A category in the sidebar (`None` for all topics): the year and
    /// month kept, the first page.
    pub fn select_category(&mut self, category: Option<String>)
        ensures
            *final(self) == (ArchiveQuery { category, page: None, ..*old(self) }),
    {
        self.category = category;
        self.page = None;
    }

    /// A pagination button: everything else kept.
    pub fn set_page(&mut self, page: i64)
        ensures
            *final(self) == (ArchiveQuery { page: Some(page), ..*old(self) }),
    {
        self.page = Some(page);
    }

    /// Whether the query shows a month's articles (else the index).
    pub fn shows_month(&self) -> (b: bool)
        ensures
            b <==> (self.year is Some && self.month is Some),
    {
        self.year.is_some() && self.month.is_some()
    }

    /// The URL the archive loads for this query.
    pub fn fetch_url(&self) -> (r: String)
        ensures
            r@ == fetch_url_spec(*self),
    {
        let c = match &self.category {
            Some(x) => Some(x.as_str()),
            None => None,
        };
        match (self.year, self.month) {
            (Some(y), Some(m)) => {
                let p = match self.page {
                    Some(p) => p,
                    None => 1,
                };
                archive_articles_url(y, m, c, p)
            },
            _ => archive_index_url(self.year, c),
        }
    }
}

/// The text after a month's page number: the chosen category, if any.
pub open spec fn category_tail(category: Option<Seq<char>>) -> Seq<char> {
    match category {
        Some(c) => "&category="@ + uri_component(c),
        None => Seq::empty(),
    }
}

/// Once a year and a month are chosen, the archive fetches the page the
/// query names: the URL holds `&page=` and that page's digits (just before
/// the category, if one is chosen), no page means page 1, and two pages
/// give the same URL only when they are the same page.
pub proof fn law_fetch_url_page(q: ArchiveQuery, p1: i64, p2: i64)
    requires
        q.year is Some,
        q.month is Some,
    ensures
        exists|pre: Seq<char>|
            fetch_url_spec(ArchiveQuery { page: Some(p1), ..q }) == pre + "&page="@ + int_digits(
                p1 as int,
            ) + category_tail(ov(q.category)),
        fetch_url_spec(ArchiveQuery { page: None, ..q }) == fetch_url_spec(
            ArchiveQuery { page: Some(1), ..q },
        ),
        fetch_url_spec(ArchiveQuery { page: Some(p1), ..q }) == fetch_url_spec(
            ArchiveQuery { page: Some(p2), ..q },
        ) <==> p1 == p2,
{
    let y = q.year->0;
    let m = q.month->0;
    let pre = "/api/v1/kiosk/archive?year="@ + int_digits(y as int) + "&month="@ + int_digits(
        m as int,
    );
    let x = pre + "&page="@;
    let t = category_tail(ov(q.category));
    let u1 = fetch_url_spec(ArchiveQuery { page: Some(p1), ..q });
    let u2 = fetch_url_spec(ArchiveQuery { page: Some(p2), ..q });
    assert(u1 == (x + int_digits(p1 as int)) + t);
    assert(u2 == (x + int_digits(p2 as int)) + t);
    assert(u1 == pre + "&page="@ + int_digits(p1 as int) + t);
    lemma_concat_cancel(x, int_digits(p1 as int), int_digits(p2 as int), t);
    lemma_int_digits_injective(p1 as int, p2 as int);
}

// ── Index by year ────────────────────────────────────────────────────────────

/// One year of the index, with its months.
#[derive(Debug, Clone, PartialEq)]
pub struct YearGroup {
    pub year: i32,
    pub entries: Vec<ArchiveEntry>,
}

/// The entries of the groups, one group after another.
pub open spec fn flatten_groups(gs: Seq<YearGroup>) -> Seq<ArchiveEntry>
    decreases gs.len(),
{
    if gs.len() == 0 {
        Seq::empty()
    } else {
        flatten_groups(gs.drop_last()) + gs.last().entries@
    }
}

/// Each group holds at least one entry, all of its own year, and
/// neighbouring groups are of different years.
pub open spec fn groups_by_year(gs: Seq<YearGroup>) -> bool {
    &&& forall|k: int| 0 <= k < gs.len() ==> (#[trigger] gs[k]).entries@.len() > 0
    &&& forall|k: int, j: int|
        0 <= k < gs.len() && 0 <= j < gs[k].entries@.len() ==> (#[trigger] gs[k].entries@[j]).year
            == gs[k].year
    &&& forall|k: int| 0 <= k < gs.len() - 1 ==> (#[trigger] gs[k]).year != gs[k + 1].year
}

proof fn lemma_flatten_push(gs: Seq<YearGroup>, g: YearGroup)
    ensures
        flatten_groups(gs.push(g)) == flatten_groups(gs) + g.entries@,
{
    assert(gs.push(g).drop_last() =~= gs);
}

/// The archive index grouped by year: the runs of consecutive entries of one
/// year (the backend sends them newest first), in order.
pub fn group_by_year(entries: &Vec<ArchiveEntry>) -> (r: Vec<YearGroup>)
    ensures
        flatten_groups(r@) == entries@,
        groups_by_year(r@),
{
    let mut out: Vec<YearGroup> = Vec::new();
    if entries.len() == 0 {
        assert(flatten_groups(out@) =~= entries@);
        return out;
    }
    let mut cy: i32 = entries[0].year;
    let mut cur: Vec<ArchiveEntry> = Vec::new();
    cur.push(entries[0]);
    let mut i: usize = 1;
    while i < entries.len()
        invariant
            1 <= i <= entries@.len(),
            flatten_groups(out@) + cur@ == entries@.take(i as int),
            groups_by_year(out@),
            cur@.len() > 0,
            forall|j: int| 0 <= j < cur@.len() ==> (#[trigger] cur@[j]).year == cy,
            out@.len() > 0 ==> out@.last().year != cy,
        decreases entries@.len() - i,
    {
        let e = entries[i];
        assert(entries@.take(i + 1) =~= entries@.take(i as int).push(e));
        if e.year == cy {
            cur.push(e);
            assert(flatten_groups(out@) + cur@ =~= entries@.take(i + 1));
        } else {
            let ghost old_out = out@;
            let ghost old_cur = cur@;
            let g = YearGroup { year: cy, entries: cur };
            out.push(g);
            proof {
                lemma_flatten_push(old_out, YearGroup { year: cy, entries: g.entries });
                assert(out@ == old_out.push(g));
                assert(groups_by_year(out@)) by {
                    assert forall|k: int| 0 <= k < out@.len() - 1 implies (#[trigger] out@[k]).year
                        != out@[k + 1].year by {
                        if k < old_out.len() - 1 {
                            assert(out@[k] == old_out[k] && out@[k + 1] == old_out[k + 1]);
                        }
                    }
                    assert forall|k: int, j: int|
                        0 <= k < out@.len() && 0 <= j < out@[k].entries@.len() implies (
                    #[trigger] out@[k].entries@[j]).year == out@[k].year by {
                        if k < old_out.len() {
                            assert(out@[k] == old_out[k]);
                        }
                    }
                }
            }
            cy = e.year;
            cur = Vec::new();
            cur.push(e);
            assert(flatten_groups(out@) + cur@ =~= entries@.take(i + 1));
        }
        i = i + 1;
    }
    let ghost old_out = out@;
    let g = YearGroup { year: cy, entries: cur };
    out.push(g);
    proof {
        lemma_flatten_push(old_out, g);
        assert(out@ == old_out.push(g));
        assert(entries@.take(entries@.len() as int) =~= entries@);
        assert forall|k: int| 0 <= k < out@.len() - 1 implies (#[trigger] out@[k]).year != out@[k
            + 1].year by {
            if k < old_out.len() - 1 {
                assert(out@[k] == old_out[k] && out@[k + 1] == old_out[k + 1]);
            }
        }
        assert forall|k: int, j: int|
            0 <= k < out@.len() && 0 <= j < out@[k].entries@.len() implies (
        #[trigger] out@[k].entries@[j]).year == out@[k].year by {
            if k < old_out.len() {
                assert(out@[k] == old_out[k]);
            }
        }
    }
    out
}

proof fn lemma_groups_prefix(gs: Seq<YearGroup>)
    requires
        groups_by_year(gs),
        gs.len() > 0,
    ensures
        groups_by_year(gs.drop_last()),
        flatten_groups(gs) == flatten_groups(gs.drop_last()) + gs.last().entries@,
        flatten_groups(gs).len() > 0,
{
    let p = gs.drop_last();
    assert forall|k: int| 0 <= k < p.len() implies (#[trigger] p[k]).entries@.len() > 0 by {
        assert(p[k] == gs[k]);
    }
    assert forall|k: int, j: int|
        0 <= k < p.len() && 0 <= j < p[k].entries@.len() implies (#[trigger] p[k].entries@[j]).year
        == p[k].year by {
        assert(p[k] == gs[k]);
    }
    assert forall|k: int| 0 <= k < p.len() - 1 implies (#[trigger] p[k]).year != p[k + 1].year by {
        assert(p[k] == gs[k] && p[k + 1] == gs[k + 1]);
    }
    assert(gs.last() == gs[gs.len() - 1]);
}

proof fn lemma_flatten_empty(gs: Seq<YearGroup>)
    requires
        flatten_groups(gs).len() == 0,
        groups_by_year(gs),
    ensures
        gs.len() == 0,
{
    if gs.len() > 0 {
        lemma_groups_prefix(gs);
    }
}

/// The grouping by year is unique: two lists of groups that each hold at
/// least one entry, only entries of their own year, with neighbours of
/// different years, and that hold the same entries in the same order, are
/// the same groups.
pub proof fn law_year_groups_unique(g1: Seq<YearGroup>, g2: Seq<YearGroup>)
    requires
        groups_by_year(g1),
        groups_by_year(g2),
        flatten_groups(g1) == flatten_groups(g2),
    ensures
        g1.len() == g2.len(),
        forall|i: int| 0 <= i < g1.len() ==> #[trigger] g1[i].year == g2[i].year,
        forall|i: int| 0 <= i < g1.len() ==> #[trigger] g1[i].entries@ == g2[i].entries@,
    decreases g1.len(),
{
    if g1.len() == 0 {
        lemma_flatten_empty(g2);
    } else if g2.len() == 0 {
        lemma_flatten_empty(g1);
    } else {
        lemma_groups_prefix(g1);
        lemma_groups_prefix(g2);
        let e = flatten_groups(g1);
        let n = e.len() as int;
        let (p1, l1) = (flatten_groups(g1.drop_last()), g1.last().entries@);
        let (p2, l2) = (flatten_groups(g2.drop_last()), g2.last().entries@);
        let (y1, y2) = (g1.last().year, g2.last().year);
        assert(g1.last() == g1[g1.len() - 1]);
        assert(g2.last() == g2[g2.len() - 1]);
        assert(l1[l1.len() - 1].year == y1);
        assert(l2[l2.len() - 1].year == y2);
        assert(e[n - 1] == l1[l1.len() - 1]);
        assert(e[n - 1] == l2[l2.len() - 1]);
        if l1.len() < l2.len() {
            let k = n - l1.len() - 1;
            assert(e[k] == l2[k - p2.len()]);
            assert(l2[k - p2.len()].year == y2);
            let q = g1.drop_last();
            if q.len() == 0 {
                assert(p1.len() == 0);
            } else {
                lemma_groups_prefix(q);
                assert(q.last() == q[q.len() - 1]);
                assert(q[q.len() - 1] == g1[g1.len() - 2]);
                let lq = q.last().entries@;
                assert(e[k] == p1[k]);
                assert(p1[k] == lq[lq.len() - 1]);
                assert(lq[lq.len() - 1].year == q.last().year);
                assert(g1[g1.len() - 2].year != g1[g1.len() - 1].year);
            }
            assert(false);
        } else if l2.len() < l1.len() {
            let k = n - l2.len() - 1;
            assert(e[k] == l1[k - p1.len()]);
            assert(l1[k - p1.len()].year == y1);
            let q = g2.drop_last();
            if q.len() == 0 {
                assert(p2.len() == 0);
            } else {
                lemma_groups_prefix(q);
                assert(q.last() == q[q.len() - 1]);
                assert(q[q.len() - 1] == g2[g2.len() - 2]);
                let lq = q.last().entries@;
                assert(e[k] == p2[k]);
                assert(p2[k] == lq[lq.len() - 1]);
                assert(lq[lq.len() - 1].year == q.last().year);
                assert(g2[g2.len() - 2].year != g2[g2.len() - 1].year);
            }
            assert(false);
        }
        assert(l1 =~= e.subrange(n - l1.len(), n));
        assert(l2 =~= e.subrange(n - l2.len(), n));
        assert(p1 =~= e.subrange(0, n - l1.len()));
        assert(p2 =~= e.subrange(0, n - l2.len()));
        law_year_groups_unique(g1.drop_last(), g2.drop_last());
        assert forall|i: int| 0 <= i < g1.len() implies #[trigger] g1[i].year == g2[i].year by {
            if i < g1.len() - 1 {
                assert(g1.drop_last()[i] == g1[i] && g2.drop_last()[i] == g2[i]);
            }
        }
        assert forall|i: int| 0 <= i < g1.len() implies #[trigger] g1[i].entries@ == g2[i].entries@ by {
            if i < g1.len() - 1 {
                assert(g1.drop_last()[i] == g1[i] && g2.drop_last()[i] == g2[i]);
            }
        }
    }
}

// ── Labels ───────────────────────────────────────────────────────────────────

/// `"<n> articles"`.
pub fn articles_count_label(n: i64) -> (r: String)
    ensures
        r@ == int_digits(n as int) + " articles"@,
{
    let mut s = String::new();
    push_i64(&mut s, n);
    s.append(" articles");
    s
}

/// The heading of a month's articles, `"<Month> <year>"`.
pub fn month_heading(month: i32, year: i32) -> (r: String)
    ensures
        r@ == month_name_spec(month) + seq![' '] + int_digits(year as int),
{
    let mut s = month_name(month).to_owned();
    push_char(&mut s, ' ');
    push_i64(&mut s, year as i64);
    s
}

/// The breadcrumb after Home / Archive: the year when chosen, then the
/// month's name when both are chosen.
pub open spec fn breadcrumb_spec(year: Option<i32>, month: Option<i32>) -> Seq<Seq<char>> {
    match (year, month) {
        (Some(y), Some(m)) => seq![int_digits(y as int), month_name_spec(m)],
        (Some(y), None) => seq![int_digits(y as int)],
        _ => Seq::empty(),
    }
}

pub fn breadcrumb(year: Option<i32>, month: Option<i32>) -> (r: Vec<String>)
    ensures
        r@.map_values(|x: String| x@) == breadcrumb_spec(year, month),
{
    let mut v: Vec<String> = Vec::new();
    match year {
        Some(y) => {
            let mut s = String::new();
            push_i64(&mut s, y as i64);
            v.push(s);
            match month {
                Some(m) => {
                    v.push(month_name(m).to_owned());
                },
                None => {},
            }
        },
        None => {},
    }
    assert(v@.map_values(|x: String| x@) =~= breadcrumb_spec(year, month));
    v
}

/// A sidebar button's classes.
pub fn sidebar_btn_class(active: bool) -> (r: &'static str)
    ensures
        active ==> r@
            == "w-full flex items-center text-left px-3 py-2 rounded-lg bg-blue-50 text-blue-700 font-semibold text-sm"@,
        !active ==> r@
            == "w-full flex items-center text-left px-3 py-2 rounded-lg text-gray-700 text-sm hover:bg-gray-50 transition"@,
{
    if active {
        "w-full flex items-center text-left px-3 py-2 rounded-lg bg-blue-50 text-blue-700 font-semibold text-sm"
    } else {
        "w-full flex items-center text-left px-3 py-2 rounded-lg text-gray-700 text-sm hover:bg-gray-50 transition"
    }
}

/// A pagination button's classes.
pub fn page_btn_class(active: bool, disabled: bool) -> (r: &'static str)
    ensures
        disabled ==> r@ == "w-9 h-9 rounded-lg text-sm text-gray-300 cursor-not-allowed"@,
        !disabled && active ==> r@ == "w-9 h-9 rounded-lg text-sm bg-blue-700 text-white font-bold"@,
        !disabled && !active ==> r@
            == "w-9 h-9 rounded-lg text-sm border border-gray-200 text-gray-700 hover:bg-gray-50"@,
{
    if disabled {
        "w-9 h-9 rounded-lg text-sm text-gray-300 cursor-not-allowed"
    } else if active {
        "w-9 h-9 rounded-lg text-sm bg-blue-700 text-white font-bold"
    } else {
        "w-9 h-9 rounded-lg text-sm border border-gray-200 text-gray-700 hover:bg-gray-50"
    }
}

} // verus!
