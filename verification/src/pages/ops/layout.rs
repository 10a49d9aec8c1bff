//! The console shell and what its pages share: the sidebar's items, and the
//! "Page n of m" controls of the listings.

use vstd::prelude::*;
use crate::text::{int_digits, push_i64};

verus! {

/// A sidebar item's classes.
pub fn nav_item_class(is_active: bool) -> (r: &'static str)
    ensures
        is_active ==> r@
            == "flex items-center gap-3 mx-2 px-3 py-2.5 rounded-lg bg-blue-50 text-blue-700 font-semibold text-sm"@,
        !is_active ==> r@
            == "flex items-center gap-3 mx-2 px-3 py-2.5 rounded-lg text-gray-700 text-sm hover:bg-gray-100 transition"@,
{
    if is_active {
        "flex items-center gap-3 mx-2 px-3 py-2.5 rounded-lg bg-blue-50 text-blue-700 font-semibold text-sm"
    } else {
        "flex items-center gap-3 mx-2 px-3 py-2.5 rounded-lg text-gray-700 text-sm hover:bg-gray-100 transition"
    }
}

/// `"Page <page> of <total>"`.
pub open spec fn page_of_spec(page: i64, total: i64) -> Seq<char> {
    "Page "@ + int_digits(page as int) + " of "@ + int_digits(total as int)
}

pub fn page_of_label(page: i64, total: i64) -> (r: String)
    ensures
        r@ == page_of_spec(page, total),
{
    let mut s = "Page ".to_owned();
    push_i64(&mut s, page);
    s.append(" of ");
    push_i64(&mut s, total);
    s
}

/// The prev/next controls under a listing.
#[derive(Debug, Clone, Copy, PartialEq, Eq, Structural)]
pub struct PageControls {
    /// Whether the controls are shown at all (more than one page).
    pub shown: bool,
    /// Whether "Prev" is offered, and leads to `page - 1`.
    pub prev: bool,
    /// Whether "Next" is offered, and leads to `page + 1`.
    pub next: bool,
}

pub fn page_controls(page: i64, total_pages: i64) -> (r: PageControls)
    ensures
        r == (PageControls { shown: total_pages > 1, prev: page > 1, next: page < total_pages }),
{
    PageControls { shown: total_pages > 1, prev: page > 1, next: page < total_pages }
}

/// The page a listing moves to: one back for "Prev", one on for "Next".
pub fn step_page(page: i64, forward: bool) -> (r: i64)
    requires
        forward ==> page < i64::MAX,
        !forward ==> page > i64::MIN,
    ensures
        r == if forward {
            page + 1
        } else {
            page - 1
        },
{
    if forward {
        page + 1
    } else {
        page - 1
    }
}

/// Offered "Prev" and "Next" keep the page within `1..=total_pages`.
pub proof fn law_page_steps_stay_in_range(page: i64, total_pages: i64)
    requires
        1 <= page <= total_pages,
    ensures
        page > 1 ==> 1 <= page - 1 <= total_pages,
        page < total_pages ==> 1 <= page + 1 <= total_pages,
{
}

} // verus!
