//! The kiosk home page: the topic cards with their live counts, the hero
//! search, the latest-articles request, and the article card's labels.

use vstd::prelude::*;
use crate::api::kiosk::{search_content_url, search_content_url_spec, CategoryCount};
use crate::text::{int_digits, non_blank, non_blank_exec, push_char, push_i64, str_eq};

verus! {

/// A topic card: the category key, its label and its colours.
#[derive(Debug, Clone, Copy)]
pub struct CategoryCard {
    pub key: &'static str,
    pub label: &'static str,
    pub bg: &'static str,
    pub text: &'static str,
    pub ring: &'static str,
}

/// The topic cards, in order: key, label, background, text and border.
pub open spec fn home_categories_spec() -> Seq<(Seq<char>, Seq<char>, Seq<char>, Seq<char>, Seq<char>)> {
    seq![
        ("delays"@, "Service Delays"@, "bg-red-50"@, "text-red-900"@, "border-red-200"@),
        ("fares"@, "Fares & Tickets"@, "bg-emerald-50"@, "text-emerald-900"@, "border-emerald-200"@),
        ("baggage"@, "Baggage"@, "bg-amber-50"@, "text-amber-900"@, "border-amber-200"@),
        ("accessibility"@, "Accessibility"@, "bg-violet-50"@, "text-violet-900"@, "border-violet-200"@),
        ("general"@, "General Info"@, "bg-sky-50"@, "text-sky-900"@, "border-sky-200"@),
    ]
}

pub open spec fn card_view(c: CategoryCard) -> (Seq<char>, Seq<char>, Seq<char>, Seq<char>, Seq<char>) {
    (c.key@, c.label@, c.bg@, c.text@, c.ring@)
}

pub fn home_categories() -> (r: Vec<CategoryCard>)
    ensures
        r@.map_values(|c: CategoryCard| card_view(c)) == home_categories_spec(),
{
    let v = vec![
        CategoryCard {
            key: "delays",
            label: "Service Delays",
            bg: "bg-red-50",
            text: "text-red-900",
            ring: "border-red-200",
        },
        CategoryCard {
            key: "fares",
            label: "Fares & Tickets",
            bg: "bg-emerald-50",
            text: "text-emerald-900",
            ring: "border-emerald-200",
        },
        CategoryCard {
            key: "baggage",
            label: "Baggage",
            bg: "bg-amber-50",
            text: "text-amber-900",
            ring: "border-amber-200",
        },
        CategoryCard {
            key: "accessibility",
            label: "Accessibility",
            bg: "bg-violet-50",
            text: "text-violet-900",
            ring: "border-violet-200",
        },
        CategoryCard {
            key: "general",
            label: "General Info",
            bg: "bg-sky-50",
            text: "text-sky-900",
            ring: "border-sky-200",
        },
    ];
    assert(v@.map_values(|c: CategoryCard| card_view(c)) =~= home_categories_spec());
    v
}

/// The count of the first entry for `key`, or 0 when there is none.
pub open spec fn count_for(counts: Seq<CategoryCount>, key: Seq<char>) -> i64
    decreases counts.len(),
{
    if counts.len() == 0 {
        0
    } else if counts[0].category@ == key {
        counts[0].count
    } else {
        count_for(counts.drop_first(), key)
    }
}

/// The live article count of a topic card.
pub fn category_count(counts: &Vec<CategoryCount>, key: &str) -> (r: i64)
    ensures
        r == count_for(counts@, key@),
{
    let mut i: usize = 0;
    assert(counts@.skip(0) =~= counts@);
    while i < counts.len()
        invariant
            i <= counts@.len(),
            count_for(counts@.skip(i as int), key@) == count_for(counts@, key@),
        decreases counts@.len() - i,
    {
        assert(counts@.skip(i as int).drop_first() =~= counts@.skip(i + 1));
        if str_eq(counts[i].category.as_str(), key) {
            return counts[i].count;
        }
        i = i + 1;
    }
    0
}

/// A topic card's count line, shown only when the count is positive.
pub fn card_count_label(count: i64) -> (r: Option<String>)
    ensures
        count <= 0 ==> r is None,
        count > 0 ==> (r matches Some(s) && s@ == int_digits(count as int) + " articles"@),
{
    if count > 0 {
        let mut s = String::new();
        push_i64(&mut s, count);
        s.append(" articles");
        Some(s)
    } else {
        None
    }
}

/// A topic card's class attribute.
pub open spec fn card_class_spec(c: CategoryCard) -> Seq<char> {
    "group flex flex-col items-center justify-center gap-3 p-5 rounded-2xl border-2 "@ + c.bg@
        + seq![' '] + c.ring@ + seq![' '] + c.text@
        + " min-h-[120px] text-center hover:shadow-md hover:scale-[1.02] active:scale-[0.98] transition-all cursor-pointer"@
}

pub fn card_class(c: &CategoryCard) -> (r: String)
    ensures
        r@ == card_class_spec(*c),
{
    let mut s = "group flex flex-col items-center justify-center gap-3 p-5 rounded-2xl border-2 ".to_owned();
    s.append(c.bg);
    push_char(&mut s, ' ');
    s.append(c.ring);
    push_char(&mut s, ' ');
    s.append(c.text);
    s.append(
        " min-h-[120px] text-center hover:shadow-md hover:scale-[1.02] active:scale-[0.98] transition-all cursor-pointer",
    );
    s
}

/// The hero search: the trimmed text to search for, or nothing when blank.
pub fn search_target(text: &str) -> (r: Option<String>)
    ensures
        r is None <==> non_blank(text@) is None,
        r matches Some(q) ==> non_blank(text@) == Some(q@),
{
    non_blank_exec(text)
}

/// Articles in the latest-updates strip.
pub const LATEST_COUNT: i64 = 6;

/// The request for the latest articles: the first page, unfiltered.
pub fn latest_url() -> (r: String)
    ensures
        r@ == search_content_url_spec(None, None, None, 1, LATEST_COUNT as int),
{
    search_content_url(None, None, None, 1, LATEST_COUNT)
}

/// An article card's category badge classes.
pub fn card_badge_class(color: &str) -> (r: String)
    ensures
        r@ == "inline-block text-xs font-semibold px-2.5 py-0.5 rounded-full mb-3 "@ + color@,
{
    let mut s = "inline-block text-xs font-semibold px-2.5 py-0.5 rounded-full mb-3 ".to_owned();
    s.append(color);
    s
}

} // verus!
