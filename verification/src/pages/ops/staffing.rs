//! The staffing page: who may dispatch, the shift and contractor filters,
//! the date-time label, the assignment and candidate controls, the
//! contractor toggle and the subscriptions list.

use vstd::prelude::*;
use crate::api::staffing::{
    list_contractors_path,
    list_contractors_path_spec,
    list_shifts_path,
    list_shifts_path_spec,
    SubscribeBody,
};
use crate::shared::UserRole;
use crate::text::{
    byte_len_below, byte_slice, char_index, chars_of, int_digits, is_boundary, locate_byte, push_char, push_i64,
    push_u64, nat_digits, str_eq, utf8_len,
};

verus! {

/// Admins and dispatchers may manage shifts and contractors.
pub open spec fn can_manage_staffing_spec(role: UserRole) -> bool {
    role == UserRole::Admin || role == UserRole::Dispatcher
}

pub fn can_manage_staffing(role: UserRole) -> (b: bool)
    ensures
        b == can_manage_staffing_spec(role),
{
    match role {
        UserRole::Admin | UserRole::Dispatcher => true,
        _ => false,
    }
}

// ── Date-time label ──────────────────────────────────────────────────────────

/// `s` with each `T` shown as a space.
pub open spec fn t_to_space(s: Seq<char>) -> Seq<char> {
    Seq::new(
        s.len(),
        |i: int|
            if s[i] == 'T' {
                ' '
            } else {
                s[i]
            },
    )
}

/// `"2025-06-01T08:00:00Z"` becomes `"2025-06-01 08:00"`: the first 16 bytes
/// with `T` as a space, or the text as it is when shorter.
pub open spec fn fmt_dt_short_spec(s: Seq<char>) -> Seq<char> {
    if utf8_len(s) >= 16 {
        t_to_space(byte_slice(s, 0, 16))
    } else {
        s
    }
}

pub fn fmt_dt_short(s: &str) -> (r: String)
    requires
        s@.len() <= usize::MAX / 4,
        utf8_len(s@) >= 16 ==> is_boundary(s@, 16),
    ensures
        r@ == fmt_dt_short_spec(s@),
{
    let v = chars_of(s);
    if byte_len_below(&v, 16) {
        return s.to_owned();
    }
    let (j, _) = locate_byte(&v, 16);
    assert(char_index(v@, 0) == 0) by {
        assert(v@.take(0) =~= Seq::<char>::empty());
    }
    let mut out = String::new();
    let mut i: usize = 0;
    while i < j
        invariant
            i <= j <= v@.len(),
            v@ == s@,
            out@ == t_to_space(v@.subrange(0, j as int)).take(i as int),
        decreases j - i,
    {
        if v[i] == 'T' {
            push_char(&mut out, ' ');
        } else {
            push_char(&mut out, v[i]);
        }
        i = i + 1;
        assert(out@ =~= t_to_space(v@.subrange(0, j as int)).take(i as int));
    }
    assert(out@ =~= t_to_space(v@.subrange(0, j as int)));
    out
}


// ── Filters ──────────────────────────────────────────────────────────────────

/// The shift list's filters (each empty for all) and page.
#[derive(Debug, Clone, PartialEq)]
pub struct ShiftFilters {
    pub status: String,
    pub region: String,
    pub role: String,
    pub page: i64,
}

impl ShiftFilters {
    pub fn new() -> (r: ShiftFilters)
        ensures
            r.status@.len() == 0 && r.region@.len() == 0 && r.role@.len() == 0 && r.page == 1,
    {
        ShiftFilters { status: String::new(), region: String::new(), role: String::new(), page: 1 }
    }

    pub fn set_status(&mut self, v: String)
        ensures
            *final(self) == (ShiftFilters { status: v, page: 1, ..*old(self) }),
    {
        self.status = v;
        self.page = 1;
    }

    pub fn set_region(&mut self, v: String)
        ensures
            *final(self) == (ShiftFilters { region: v, page: 1, ..*old(self) }),
    {
        self.region = v;
        self.page = 1;
    }

    pub fn set_role(&mut self, v: String)
        ensures
            *final(self) == (ShiftFilters { role: v, page: 1, ..*old(self) }),
    {
        self.role = v;
        self.page = 1;
    }

    pub fn list_path(&self) -> (r: String)
        ensures
            r@ == list_shifts_path_spec(self.status@, self.region@, self.role@, self.page),
    {
        list_shifts_path(self.status.as_str(), self.region.as_str(), self.role.as_str(), self.page)
    }
}

/// The contractor list's filters and page.
#[derive(Debug, Clone, PartialEq)]
pub struct ContractorFilters {
    pub region: String,
    pub active: Option<bool>,
    pub page: i64,
}

/// The active filter's select: `"true"`, `"false"`, or anything else for
/// all.
pub open spec fn active_filter_spec(v: Seq<char>) -> Option<bool> {
    if v == "true"@ {
        Some(true)
    } else if v == "false"@ {
        Some(false)
    } else {
        None
    }
}

pub fn parse_active_filter(v: &str) -> (r: Option<bool>)
    ensures
        r == active_filter_spec(v@),
{
    if str_eq(v, "true") {
        Some(true)
    } else if str_eq(v, "false") {
        Some(false)
    } else {
        None
    }
}

impl ContractorFilters {
    pub fn new() -> (r: ContractorFilters)
        ensures
            r.region@.len() == 0 && r.active is None && r.page == 1,
    {
        ContractorFilters { region: String::new(), active: None, page: 1 }
    }

    pub fn set_region(&mut self, v: String)
        ensures
            *final(self) == (ContractorFilters { region: v, page: 1, ..*old(self) }),
    {
        self.region = v;
        self.page = 1;
    }

    /// The active select, as chosen.
    pub fn set_active(&mut self, v: &str)
        ensures
            *final(self) == (ContractorFilters {
                active: active_filter_spec(v@),
                page: 1,
                ..*old(self)
            }),
    {
        self.active = parse_active_filter(v);
        self.page = 1;
    }

    pub fn list_path(&self) -> (r: String)
        ensures
            r@ == list_contractors_path_spec(self.region@, self.active, self.page),
    {
        list_contractors_path(self.region.as_str(), self.active, self.page)
    }
}

/// `"<n> total"`.
pub fn total_label(n: i64) -> (r: String)
    ensures
        r@ == int_digits(n as int) + " total"@,
{
    let mut s = String::new();
    push_i64(&mut s, n);
    s.append(" total");
    s
}

// ── Shift detail ─────────────────────────────────────────────────────────────

/// The region line: the region, or `"No region"`.
pub fn region_label(region: Option<&str>) -> (r: &str)
    ensures
        r@ == match region {
            Some(x) => x@,
            None => "No region"@,
        },
{
    match region {
        Some(x) => x,
        None => "No region",
    }
}

/// Accept and reject are offered on a proposed assignment, to a user who
/// may manage staffing.
pub fn can_respond(can_manage: bool, status: &str) -> (b: bool)
    ensures
        b == (can_manage && status@ == "proposed"@),
{
    can_manage && str_eq(status, "proposed")
}

/// The status an answer sets.
pub fn response_status(accept: bool) -> (r: &'static str)
    ensures
        accept ==> r@ == "accepted"@,
        !accept ==> r@ == "rejected"@,
{
    if accept {
        "accepted"
    } else {
        "rejected"
    }
}

/// The notice after a proposal, `"Proposed contractor <id>"`.
pub fn proposed_message(contractor_id: &str) -> (r: String)
    ensures
        r@ == "Proposed contractor "@ + contractor_id@,
{
    let mut s = "Proposed contractor ".to_owned();
    s.append(contractor_id);
    s
}

/// The notice after an answer, `"Assignment <status>"`.
pub fn responded_message(status: &str) -> (r: String)
    ensures
        r@ == "Assignment "@ + status@,
{
    let mut s = "Assignment ".to_owned();
    s.append(status);
    s
}

/// A candidate's rank, `"<i + 1>."`.
pub fn rank_label(i: usize) -> (r: String)
    requires
        i < u64::MAX,
    ensures
        r@ == nat_digits((i + 1) as nat) + seq!['.'],
{
    let mut s = String::new();
    push_u64(&mut s, (i as u64) + 1);
    push_char(&mut s, '.');
    s
}

/// A candidate's score, `"<score> pts"`.
pub fn score_label(score: &str) -> (r: String)
    ensures
        r@ == score@ + " pts"@,
{
    let mut s = score.to_owned();
    s.append(" pts");
    s
}

/// The matching button's text.
pub fn matching_button_label(loading: bool) -> (r: &'static str)
    ensures
        loading ==> r@ == "Running…"@,
        !loading ==> r@ == "Run Matching"@,
{
    if loading {
        "Running…"
    } else {
        "Run Matching"
    }
}

/// The subscription a dispatcher takes on a shift.
pub fn shift_subscription(shift_id: &str) -> (r: SubscribeBody)
    ensures
        r.subscriber_type@ == "dispatcher"@,
        r.target_type@ == "shift"@,
        r.target_id@ == shift_id@,
{
    SubscribeBody::new("dispatcher", "shift", shift_id)
}

/// The subscription a dispatcher drops.
pub fn dropped_subscription(target_type: &str, target_id: &str) -> (r: SubscribeBody)
    ensures
        r.subscriber_type@ == "dispatcher"@,
        r.target_type@ == target_type@,
        r.target_id@ == target_id@,
{
    SubscribeBody::new("dispatcher", target_type, target_id)
}

// ── Contractors ──────────────────────────────────────────────────────────────

/// The status dot of a contractor row.
pub fn active_dot_class(active: bool) -> (r: &'static str)
    ensures
        active ==> r@ == "inline-block w-2 h-2 rounded-full bg-emerald-500 shrink-0"@,
        !active ==> r@ == "inline-block w-2 h-2 rounded-full bg-slate-300 shrink-0"@,
{
    if active {
        "inline-block w-2 h-2 rounded-full bg-emerald-500 shrink-0"
    } else {
        "inline-block w-2 h-2 rounded-full bg-slate-300 shrink-0"
    }
}

/// The toggle on a contractor: its label and the value it sets (the
/// opposite of the current one).
pub fn active_toggle(active: bool) -> (r: (&'static str, bool))
    ensures
        r.1 == !active,
        active ==> r.0@ == "Deactivate"@,
        !active ==> r.0@ == "Activate"@,
{
    if active {
        ("Deactivate", false)
    } else {
        ("Activate", true)
    }
}

/// A shift or contractor row's classes.
pub fn staffing_row_class(selected: bool) -> (r: &'static str)
    ensures
        selected ==> r@ == "px-4 py-3 cursor-pointer bg-indigo-50 border-l-2 border-l-indigo-500 transition-colors"@,
        !selected ==> r@ == "px-4 py-3 cursor-pointer hover:bg-slate-50/60 transition-colors"@,
{
    if selected {
        "px-4 py-3 cursor-pointer bg-indigo-50 border-l-2 border-l-indigo-500 transition-colors"
    } else {
        "px-4 py-3 cursor-pointer hover:bg-slate-50/60 transition-colors"
    }
}

// ── Subscriptions ────────────────────────────────────────────────────────────

/// A subscription's target, shortened: its first 8 bytes and `"…"`.
pub fn short_target(target_id: &str) -> (r: String)
    requires
        target_id@.len() <= usize::MAX / 4,
        utf8_len(target_id@) >= 8,
        is_boundary(target_id@, 8),
    ensures
        r@ == byte_slice(target_id@, 0, 8) + "…"@,
{
    let v = chars_of(target_id);
    let (j, _) = locate_byte(&v, 8);
    assert(char_index(v@, 0) == 0) by {
        assert(v@.take(0) =~= Seq::<char>::empty());
    }
    let mut s = String::new();
    crate::text::push_chars(&mut s, &v, 0, j);
    s.append("…");
    assert(s@ =~= byte_slice(target_id@, 0, 8) + "…"@);
    s
}

} // verus!
