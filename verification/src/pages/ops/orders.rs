//! The orders and passengers page: who may act, how the search box is read,
//! which actions an order offers, the bodies those actions send, and the
//! labels of the detail panel and the passenger list.

use vstd::prelude::*;
use crate::api::ops::{
    list_orders_url,
    list_orders_url_spec,
    order_by_number_path,
    CancelBody,
    FeeOverrideBody,
    OrderItem,
    Page,
    PassengerItem,
    RefundBody,
};
use crate::shared::UserRole;
use crate::text::{
    chars_of, has_prefix, non_blank, non_blank_exec, push_char, starts_with, str_eq, trim_ws,
    trimmed,
};
use crate::uri::uri_component;

verus! {

// ── Permissions ──────────────────────────────────────────────────────────────

/// Who may act on orders, process refunds and override fees: admins,
/// operations agents and customer-service agents.
pub open spec fn can_manage_orders_spec(role: UserRole) -> bool {
    role == UserRole::Admin || role == UserRole::OpsAgent || role == UserRole::CsAgent
}

pub fn can_manage_orders(role: UserRole) -> (b: bool)
    ensures
        b == can_manage_orders_spec(role),
{
    match role {
        UserRole::Admin | UserRole::OpsAgent | UserRole::CsAgent => true,
        _ => false,
    }
}

// ── Search box ───────────────────────────────────────────────────────────────

/// How the order search box is read.
#[derive(Debug, Clone, PartialEq)]
pub enum OrderSearch {
    /// Nothing typed: the plain listing.
    All,
    /// `ORD-…`: an exact order-number lookup.
    ByNumber(String),
    /// Digits only: a passenger's phone last four.
    ByPhone(String),
    /// Anything else: a passenger's name.
    ByName(String),
}

pub open spec fn is_ascii_digit(c: char) -> bool {
    '0' <= c && c <= '9'
}

pub open spec fn all_ascii_digits(s: Seq<char>) -> bool {
    forall|i: int| 0 <= i < s.len() ==> is_ascii_digit(#[trigger] s[i])
}

/// How a text is read: empty is the plain listing; `ORD-…` a number
/// lookup; otherwise digits only are a phone search and anything else a
/// name search. Each reading carries the text as typed.
pub open spec fn reads_as(r: OrderSearch, s: Seq<char>) -> bool {
    match r {
        OrderSearch::All => s.len() == 0,
        OrderSearch::ByNumber(t) => t@ == s && s.len() > 0 && has_prefix(s, "ORD-"@),
        OrderSearch::ByPhone(t) => t@ == s && s.len() > 0 && !has_prefix(s, "ORD-"@)
            && all_ascii_digits(s),
        OrderSearch::ByName(t) => t@ == s && s.len() > 0 && !has_prefix(s, "ORD-"@)
            && !all_ascii_digits(s),
    }
}

fn all_digits_exec(s: &str) -> (b: bool)
    ensures
        b == all_ascii_digits(s@),
{
    let v = chars_of(s);
    let mut i: usize = 0;
    while i < v.len()
        invariant
            i <= v@.len(),
            v@ == s@,
            forall|k: int| 0 <= k < i ==> is_ascii_digit(#[trigger] v@[k]),
        decreases v@.len() - i,
    {
        if !('0' <= v[i] && v[i] <= '9') {
            return false;
        }
        i = i + 1;
    }
    true
}

/// Reads the search box as it is typed (not trimmed).
pub fn classify_search(search: &str) -> (r: OrderSearch)
    ensures
        reads_as(r, search@),
{
    if search.is_empty() {
        OrderSearch::All
    } else if starts_with(search, "ORD-") {
        OrderSearch::ByNumber(search.to_owned())
    } else if all_digits_exec(search) {
        OrderSearch::ByPhone(search.to_owned())
    } else {
        OrderSearch::ByName(search.to_owned())
    }
}

/// What the orders tab requests.
#[derive(Debug, Clone, PartialEq)]
pub enum OrdersRequest {
    /// The lookup of one order by number (its answer is shown as a page of
    /// one).
    ByNumber(String),
    /// A page of the listing, filtered by status and by the passenger
    /// search.
    List(String),
}

/// The passenger search that a text asks of the listing, as (name, phone
/// last four): none for an empty text, the phone for a text of digits only,
/// the name otherwise.
pub open spec fn passenger_search(s: Seq<char>) -> (Option<Seq<char>>, Option<Seq<char>>) {
    if s.len() == 0 {
        (None, None)
    } else if all_ascii_digits(s) {
        (None, Some(s))
    } else {
        (Some(s), None)
    }
}

/// The orders tab's request for a search, a status filter and a page: an
/// `ORD-` text looks the order up by number; any other text searches the
/// listing of that status by passenger, by the phone's last four digits
/// when it is all digits and by name otherwise.
pub fn orders_request(search: &str, status: &str, page: i64) -> (r: OrdersRequest)
    ensures
        has_prefix(search@, "ORD-"@) ==> (r matches OrdersRequest::ByNumber(p) && p@
            == "/api/v1/ops/orders/by-number/"@ + uri_component(search@)),
        !has_prefix(search@, "ORD-"@) ==> (r matches OrdersRequest::List(u) && u@
            == list_orders_url_spec(
            None,
            None,
            Some(status@),
            passenger_search(search@).0,
            passenger_search(search@).1,
            page,
        )),
{
    if starts_with(search, "ORD-") {
        OrdersRequest::ByNumber(order_by_number_path(search))
    } else if search.is_empty() {
        OrdersRequest::List(list_orders_url(None, None, Some(status), None, None, page))
    } else if all_digits_exec(search) {
        OrdersRequest::List(list_orders_url(None, None, Some(status), None, Some(search), page))
    } else {
        OrdersRequest::List(list_orders_url(None, None, Some(status), Some(search), None, page))
    }
}

/// An order found by number, shown as the only item of a single page.
pub fn single_order_page(o: OrderItem) -> (r: Page<OrderItem>)
    ensures
        r.items@ == seq![o],
        r.total == 1 && r.page == 1 && r.per_page == 20 && r.total_pages == 1,
{
    let mut items: Vec<OrderItem> = Vec::new();
    items.push(o);
    Page { items, total: 1, page: 1, per_page: 20, total_pages: 1 }
}

// ── Actions ──────────────────────────────────────────────────────────────────

/// The actions an order's panel can offer.
#[derive(Debug, Clone, Copy, PartialEq, Eq, Structural)]
pub enum OrderActionKind {
    Confirm,
    Cancel,
    Refund,
    FeeOverride,
    FlagDisruption,
    Rebook,
}

/// The actions offered for an order, in the panel's order: confirm a
/// pending or held order; cancel a pending, held or confirmed one; refund a
/// cancelled one; override the fee; flag a disruption when none is flagged;
/// rebook a confirmed or cancelled one. Nothing is offered to a user who may
/// not manage orders.
pub open spec fn offered_actions_spec(status: Seq<char>, disruption_flag: bool, can_manage: bool) -> Seq<
    OrderActionKind,
> {
    if !can_manage {
        Seq::empty()
    } else {
        let a = if status == "pending"@ || status == "held"@ {
            seq![OrderActionKind::Confirm]
        } else {
            Seq::empty()
        };
        let b = if status == "pending"@ || status == "held"@ || status == "confirmed"@ {
            seq![OrderActionKind::Cancel]
        } else {
            Seq::empty()
        };
        let c = if status == "cancelled"@ {
            seq![OrderActionKind::Refund]
        } else {
            Seq::empty()
        };
        let d = seq![OrderActionKind::FeeOverride];
        let e = if !disruption_flag {
            seq![OrderActionKind::FlagDisruption]
        } else {
            Seq::empty()
        };
        let f = if status == "confirmed"@ || status == "cancelled"@ {
            seq![OrderActionKind::Rebook]
        } else {
            Seq::empty()
        };
        a + b + c + d + e + f
    }
}

pub fn offered_actions(status: &str, disruption_flag: bool, can_manage: bool) -> (r: Vec<
    OrderActionKind,
>)
    ensures
        r@ == offered_actions_spec(status@, disruption_flag, can_manage),
{
    let mut v: Vec<OrderActionKind> = Vec::new();
    if !can_manage {
        return v;
    }
    let pending_or_held = str_eq(status, "pending") || str_eq(status, "held");
    let confirmed = str_eq(status, "confirmed");
    let cancelled = str_eq(status, "cancelled");
    if pending_or_held {
        v.push(OrderActionKind::Confirm);
    }
    if pending_or_held || confirmed {
        v.push(OrderActionKind::Cancel);
    }
    if cancelled {
        v.push(OrderActionKind::Refund);
    }
    v.push(OrderActionKind::FeeOverride);
    if !disruption_flag {
        v.push(OrderActionKind::FlagDisruption);
    }
    if confirmed || cancelled {
        v.push(OrderActionKind::Rebook);
    }
    assert(v@ =~= offered_actions_spec(status@, disruption_flag, can_manage));
    v
}

/// A refund is offered only for a cancelled order, and confirming only for
/// one not yet confirmed (pending or held).
pub proof fn law_offered_actions_follow_status(status: Seq<char>, disruption_flag: bool)
    ensures
        offered_actions_spec(status, disruption_flag, true).contains(OrderActionKind::Refund)
            <==> status == "cancelled"@,
        offered_actions_spec(status, disruption_flag, true).contains(OrderActionKind::Confirm)
            <==> (status == "pending"@ || status == "held"@),
        offered_actions_spec(status, disruption_flag, false).len() == 0,
{
    let s = offered_actions_spec(status, disruption_flag, true);
    if status == "cancelled"@ {
        assert(s.contains(OrderActionKind::Refund)) by {
            let i = s.len() - if disruption_flag {
                1int
            } else {
                2int
            } - 2;
            assert(s[i] == OrderActionKind::Refund);
        }
    }
    if status == "pending"@ || status == "held"@ {
        assert(s[0] == OrderActionKind::Confirm);
    }
}

/// An action is in a concatenation exactly when it is in one of the parts.
proof fn lemma_contains_concat(x: Seq<OrderActionKind>, y: Seq<OrderActionKind>, k: OrderActionKind)
    ensures
        (x + y).contains(k) <==> (x.contains(k) || y.contains(k)),
{
    if x.contains(k) {
        let i = choose|i: int| 0 <= i < x.len() && x[i] == k;
        assert((x + y)[i] == k);
    }
    if y.contains(k) {
        let i = choose|i: int| 0 <= i < y.len() && y[i] == k;
        assert((x + y)[x.len() + i] == k);
    }
    if (x + y).contains(k) {
        let i = choose|i: int| 0 <= i < (x + y).len() && (x + y)[i] == k;
        if i < x.len() {
            assert(x[i] == k);
        } else {
            assert(y[i - x.len()] == k);
        }
    }
}

/// For a user who may manage orders, each action is offered exactly in its
/// statuses: confirming a pending or held order; cancelling a pending, held
/// or confirmed one; refunding a cancelled one; overriding the fee always;
/// flagging a disruption when none is flagged; rebooking a confirmed or
/// cancelled one. Each is offered at most once.
pub proof fn law_offered_actions_by_status(status: Seq<char>, disruption_flag: bool)
    ensures
        offered_actions_spec(status, disruption_flag, true).contains(OrderActionKind::Confirm)
            <==> (status == "pending"@ || status == "held"@),
        offered_actions_spec(status, disruption_flag, true).contains(OrderActionKind::Cancel)
            <==> (status == "pending"@ || status == "held"@ || status == "confirmed"@),
        offered_actions_spec(status, disruption_flag, true).contains(OrderActionKind::Refund)
            <==> status == "cancelled"@,
        offered_actions_spec(status, disruption_flag, true).contains(
            OrderActionKind::FeeOverride,
        ),
        offered_actions_spec(status, disruption_flag, true).contains(
            OrderActionKind::FlagDisruption,
        ) <==> !disruption_flag,
        offered_actions_spec(status, disruption_flag, true).contains(OrderActionKind::Rebook)
            <==> (status == "confirmed"@ || status == "cancelled"@),
        forall|i: int, j: int|
            0 <= i < j < offered_actions_spec(status, disruption_flag, true).len() ==> #[trigger]
                offered_actions_spec(status, disruption_flag, true)[i]
                != #[trigger] offered_actions_spec(status, disruption_flag, true)[j],
{
    let p1 = status == "pending"@;
    let p2 = status == "held"@;
    let p3 = status == "confirmed"@;
    let p4 = status == "cancelled"@;
    let a = if p1 || p2 {
        seq![OrderActionKind::Confirm]
    } else {
        Seq::empty()
    };
    let b = if p1 || p2 || p3 {
        seq![OrderActionKind::Cancel]
    } else {
        Seq::empty()
    };
    let c = if p4 {
        seq![OrderActionKind::Refund]
    } else {
        Seq::empty()
    };
    let d = seq![OrderActionKind::FeeOverride];
    let e = if !disruption_flag {
        seq![OrderActionKind::FlagDisruption]
    } else {
        Seq::empty()
    };
    let f = if p3 || p4 {
        seq![OrderActionKind::Rebook]
    } else {
        Seq::empty()
    };
    let s = offered_actions_spec(status, disruption_flag, true);
    assert(s == a + b + c + d + e + f);
    let kinds = seq![
        OrderActionKind::Confirm,
        OrderActionKind::Cancel,
        OrderActionKind::Refund,
        OrderActionKind::FeeOverride,
        OrderActionKind::FlagDisruption,
        OrderActionKind::Rebook,
    ];
    assert forall|n: int| 0 <= n < 6 implies (s.contains(#[trigger] kinds[n]) <==> (a.contains(
        kinds[n],
    ) || b.contains(kinds[n]) || c.contains(kinds[n]) || d.contains(kinds[n]) || e.contains(
        kinds[n],
    ) || f.contains(kinds[n]))) by {
        let k = kinds[n];
        lemma_contains_concat(a, b, k);
        lemma_contains_concat(a + b, c, k);
        lemma_contains_concat(a + b + c, d, k);
        lemma_contains_concat(a + b + c + d, e, k);
        lemma_contains_concat(a + b + c + d + e, f, k);
    }
    assert(s.contains(kinds[0]) == s.contains(OrderActionKind::Confirm));
    assert(s.contains(kinds[1]) == s.contains(OrderActionKind::Cancel));
    assert(s.contains(kinds[2]) == s.contains(OrderActionKind::Refund));
    assert(s.contains(kinds[3]) == s.contains(OrderActionKind::FeeOverride));
    assert(s.contains(kinds[4]) == s.contains(OrderActionKind::FlagDisruption));
    assert(s.contains(kinds[5]) == s.contains(OrderActionKind::Rebook));
    assert(d[0] == OrderActionKind::FeeOverride);
    if p1 || p2 {
        assert(a[0] == OrderActionKind::Confirm);
    }
    if p1 || p2 || p3 {
        assert(b[0] == OrderActionKind::Cancel);
    }
    if p4 {
        assert(c[0] == OrderActionKind::Refund);
    }
    if !disruption_flag {
        assert(e[0] == OrderActionKind::FlagDisruption);
    }
    if p3 || p4 {
        assert(f[0] == OrderActionKind::Rebook);
    }
    // The parts hold different actions, each at most one, so no action repeats.
    let rank = |k: OrderActionKind| -> int {
        match k {
            OrderActionKind::Confirm => 0,
            OrderActionKind::Cancel => 1,
            OrderActionKind::Refund => 2,
            OrderActionKind::FeeOverride => 3,
            OrderActionKind::FlagDisruption => 4,
            OrderActionKind::Rebook => 5,
        }
    };
    assert forall|i: int, j: int| 0 <= i < j < s.len() implies rank(s[i]) < rank(s[j]) by {
        let l1 = a.len();
        let l2 = l1 + b.len();
        let l3 = l2 + c.len();
        let l4 = l3 + d.len();
        let l5 = l4 + e.len();
        assert(forall|k: int| 0 <= k < l1 ==> #[trigger] s[k] == a[k]);
        assert(forall|k: int| l1 <= k < l2 ==> #[trigger] s[k] == b[k - l1]);
        assert(forall|k: int| l2 <= k < l3 ==> #[trigger] s[k] == c[k - l2]);
        assert(forall|k: int| l3 <= k < l4 ==> #[trigger] s[k] == d[k - l3]);
        assert(forall|k: int| l4 <= k < l5 ==> #[trigger] s[k] == e[k - l4]);
        assert(forall|k: int| l5 <= k < s.len() ==> #[trigger] s[k] == f[k - l5]);
    }
}

/// A button's label.
pub open spec fn action_label_spec(k: OrderActionKind) -> Seq<char> {
    match k {
        OrderActionKind::Confirm => "Confirm"@,
        OrderActionKind::Cancel => "Cancel"@,
        OrderActionKind::Refund => "Refund"@,
        OrderActionKind::FeeOverride => "Fee Override"@,
        OrderActionKind::FlagDisruption => "Flag Disruption"@,
        OrderActionKind::Rebook => "Rebook"@,
    }
}

pub fn action_label(k: OrderActionKind) -> (r: &'static str)
    ensures
        r@ == action_label_spec(k),
{
    match k {
        OrderActionKind::Confirm => "Confirm",
        OrderActionKind::Cancel => "Cancel",
        OrderActionKind::Refund => "Refund",
        OrderActionKind::FeeOverride => "Fee Override",
        OrderActionKind::FlagDisruption => "Flag Disruption",
        OrderActionKind::Rebook => "Rebook",
    }
}

/// A button's classes: green to confirm, red to cancel, amber to refund,
/// outlined for the rest.
pub open spec fn action_btn_class_spec(k: OrderActionKind) -> Seq<char> {
    match k {
        OrderActionKind::Confirm => "inline-flex items-center gap-1 rounded-lg bg-emerald-600 px-2.5 py-1.5 text-xs font-semibold text-white hover:bg-emerald-700 transition-colors"@,
        OrderActionKind::Cancel => "inline-flex items-center gap-1 rounded-lg bg-red-600 px-2.5 py-1.5 text-xs font-semibold text-white hover:bg-red-700 transition-colors"@,
        OrderActionKind::Refund => "inline-flex items-center gap-1 rounded-lg bg-amber-600 px-2.5 py-1.5 text-xs font-semibold text-white hover:bg-amber-700 transition-colors"@,
        _ => "inline-flex items-center gap-1 rounded-lg border border-slate-300 bg-white px-2.5 py-1.5 text-xs font-semibold text-slate-700 hover:bg-slate-50 transition-colors"@,
    }
}

pub fn action_btn_class(k: OrderActionKind) -> (r: &'static str)
    ensures
        r@ == action_btn_class_spec(k),
{
    match k {
        OrderActionKind::Confirm => "inline-flex items-center gap-1 rounded-lg bg-emerald-600 px-2.5 py-1.5 text-xs font-semibold text-white hover:bg-emerald-700 transition-colors",
        OrderActionKind::Cancel => "inline-flex items-center gap-1 rounded-lg bg-red-600 px-2.5 py-1.5 text-xs font-semibold text-white hover:bg-red-700 transition-colors",
        OrderActionKind::Refund => "inline-flex items-center gap-1 rounded-lg bg-amber-600 px-2.5 py-1.5 text-xs font-semibold text-white hover:bg-amber-700 transition-colors",
        _ => "inline-flex items-center gap-1 rounded-lg border border-slate-300 bg-white px-2.5 py-1.5 text-xs font-semibold text-slate-700 hover:bg-slate-50 transition-colors",
    }
}

/// The body of a rebooking.
#[derive(Debug, Clone)]
pub struct RebookBody {
    pub new_schedule_id: String,
    pub new_seat_class_id: Option<String>,
    pub new_seat_number: Option<String>,
    pub new_fare_amount: Option<String>,
    pub reason: Option<String>,
}

/// What an action sends.
#[derive(Debug, Clone)]
pub enum ActionRequest {
    Confirm,
    Cancel(CancelBody),
    Refund(RefundBody),
    FeeOverride(FeeOverrideBody),
    FlagDisruption,
    Rebook(RebookBody),
}

/// The request of an action from the panel's form fields, each trimmed: the
/// reason and the disruption box for a cancellation, the amount for a
/// refund, the amount and the reason for a fee override, and the new
/// schedule with the reason (absent when blank) for a rebooking.
pub fn action_request(
    kind: OrderActionKind,
    reason: &str,
    amount: &str,
    disruption: bool,
    schedule: &str,
) -> (r: ActionRequest)
    ensures
        kind == OrderActionKind::Confirm ==> r is Confirm,
        kind == OrderActionKind::FlagDisruption ==> r is FlagDisruption,
        kind == OrderActionKind::Cancel ==> (r matches ActionRequest::Cancel(b) && b.reason@
            == trim_ws(reason@) && b.disruption_flag == disruption && b.refund_amount is None),
        kind == OrderActionKind::Refund ==> (r matches ActionRequest::Refund(b) && b.amount@
            == trim_ws(amount@)),
        kind == OrderActionKind::FeeOverride ==> (r matches ActionRequest::FeeOverride(b)
            && b.override_amount@ == trim_ws(amount@) && b.reason@ == trim_ws(reason@)),
        kind == OrderActionKind::Rebook ==> (r matches ActionRequest::Rebook(b) && b.new_schedule_id@
            == trim_ws(schedule@) && b.new_seat_class_id is None && b.new_seat_number is None
            && b.new_fare_amount is None && (match b.reason {
            Some(x) => non_blank(reason@) == Some(x@),
            None => non_blank(reason@) is None,
        })),
{
    match kind {
        OrderActionKind::Confirm => ActionRequest::Confirm,
        OrderActionKind::FlagDisruption => ActionRequest::FlagDisruption,
        OrderActionKind::Cancel => ActionRequest::Cancel(
            CancelBody { reason: trimmed(reason), disruption_flag: disruption, refund_amount: None },
        ),
        OrderActionKind::Refund => ActionRequest::Refund(RefundBody { amount: trimmed(amount) }),
        OrderActionKind::FeeOverride => ActionRequest::FeeOverride(
            FeeOverrideBody { override_amount: trimmed(amount), reason: trimmed(reason) },
        ),
        OrderActionKind::Rebook => ActionRequest::Rebook(
            RebookBody {
                new_schedule_id: trimmed(schedule),
                new_seat_class_id: None,
                new_seat_number: None,
                new_fare_amount: None,
                reason: non_blank_exec(reason),
            },
        ),
    }
}

/// The notice after an action other than a rebooking.
pub const ACTION_DONE: &'static str = "Action completed successfully.";

/// The notice after a rebooking, `"Rebooked → <new order number>"`.
pub fn rebooked_message(new_order_number: &str) -> (r: String)
    ensures
        r@ == "Rebooked → "@ + new_order_number@,
{
    let mut s = "Rebooked → ".to_owned();
    s.append(new_order_number);
    s
}

// ── Detail panel labels ──────────────────────────────────────────────────────

/// `"$<amount>"`.
pub fn fare_label(amount: &str) -> (r: String)
    ensures
        r@ == seq!['$'] + amount@,
{
    let mut s = String::new();
    push_char(&mut s, '$');
    s.append(amount);
    s
}

/// `"<route name> (<route code>)"`.
pub fn route_line(name: &str, code: &str) -> (r: String)
    ensures
        r@ == name@ + " ("@ + code@ + seq![')'],
{
    let mut s = name.to_owned();
    s.append(" (");
    s.append(code);
    push_char(&mut s, ')');
    s
}

/// `"Train <number>  ·  <departure>"`.
pub fn train_line(train_number: &str, departure: &str) -> (r: String)
    ensures
        r@ == "Train "@ + train_number@ + "  ·  "@ + departure@,
{
    let mut s = "Train ".to_owned();
    s.append(train_number);
    s.append("  ·  ");
    s.append(departure);
    s
}

/// `"<seat class> — <seat or —>"`.
pub fn seat_line(seat_class_name: &str, seat_number: Option<&str>) -> (r: String)
    ensures
        r@ == seat_class_name@ + " — "@ + match seat_number {
            Some(n) => n@,
            None => "—"@,
        },
{
    let mut s = seat_class_name.to_owned();
    s.append(" — ");
    match seat_number {
        Some(n) => s.append(n),
        None => s.append("—"),
    }
    s
}

// ── Passengers ───────────────────────────────────────────────────────────────

/// A passenger's personal-data status.
#[derive(Debug, Clone, Copy, PartialEq, Eq, Structural)]
pub enum PiiStatus {
    Purged,
    PurgeRequested,
    Active,
}

pub open spec fn pii_status_spec(p: PassengerItem) -> PiiStatus {
    if p.pii_purged_at is Some {
        PiiStatus::Purged
    } else if p.pii_purge_requested_at is Some {
        PiiStatus::PurgeRequested
    } else {
        PiiStatus::Active
    }
}

pub fn pii_status(p: &PassengerItem) -> (r: PiiStatus)
    ensures
        r == pii_status_spec(*p),
{
    if p.is_purged() {
        PiiStatus::Purged
    } else if p.pii_purge_requested_at.is_some() {
        PiiStatus::PurgeRequested
    } else {
        PiiStatus::Active
    }
}

/// What the actions cell of a passenger row shows.
#[derive(Debug, Clone, Copy, PartialEq, Eq, Structural)]
pub enum PurgeCell {
    /// No actions column for this user.
    Hidden,
    /// "Requested", right after this user asked.
    JustRequested,
    /// The "Request PII purge" button.
    Button,
    /// Nothing to do: purged or already requested.
    Empty,
}

pub open spec fn purge_cell_spec(can_manage: bool, just_requested: bool, status: PiiStatus) -> PurgeCell {
    if !can_manage {
        PurgeCell::Hidden
    } else if just_requested {
        PurgeCell::JustRequested
    } else if status == PiiStatus::Active {
        PurgeCell::Button
    } else {
        PurgeCell::Empty
    }
}

pub fn purge_cell(can_manage: bool, just_requested: bool, status: PiiStatus) -> (r: PurgeCell)
    ensures
        r == purge_cell_spec(can_manage, just_requested, status),
{
    if !can_manage {
        PurgeCell::Hidden
    } else if just_requested {
        PurgeCell::JustRequested
    } else if status == PiiStatus::Active {
        PurgeCell::Button
    } else {
        PurgeCell::Empty
    }
}

// ── Tabs and rows ────────────────────────────────────────────────────────────

/// A tab button's classes.
pub fn tab_btn_class(active: bool) -> (r: &'static str)
    ensures
        active ==> r@
            == "px-4 py-2.5 text-sm font-medium text-indigo-700 border-b-2 border-indigo-600 transition-colors"@,
        !active ==> r@
            == "px-4 py-2.5 text-sm font-medium text-slate-500 hover:text-slate-800 border-b-2 border-transparent transition-colors"@,
{
    if active {
        "px-4 py-2.5 text-sm font-medium text-indigo-700 border-b-2 border-indigo-600 transition-colors"
    } else {
        "px-4 py-2.5 text-sm font-medium text-slate-500 hover:text-slate-800 border-b-2 border-transparent transition-colors"
    }
}

/// An order row's classes.
pub fn order_row_class(selected: bool) -> (r: &'static str)
    ensures
        selected ==> r@ == "bg-indigo-50 cursor-pointer border-l-2 border-l-indigo-500"@,
        !selected ==> r@ == "cursor-pointer hover:bg-slate-50/60 transition-colors"@,
{
    if selected {
        "bg-indigo-50 cursor-pointer border-l-2 border-l-indigo-500"
    } else {
        "cursor-pointer hover:bg-slate-50/60 transition-colors"
    }
}

} // verus!
