//! What the shared UI pieces decide: the colours and label of a status
//! badge, the class strings of inputs and buttons, and the stack of toast
//! notifications (rendering is done outside the library).

use vstd::prelude::*;
use crate::text::{chars_of, push_char, str_eq};

verus! {

// ── Status badge ─────────────────────────────────────────────────────────────

/// Statuses shown green.
pub open spec fn is_positive_status(s: Seq<char>) -> bool {
    s == "approved"@ || s == "confirmed"@ || s == "active"@ || s == "on_time"@ || s == "accepted"@
        || s == "completed"@
}

/// Statuses shown amber.
pub open spec fn is_waiting_status(s: Seq<char>) -> bool {
    s == "pending"@ || s == "proposed"@ || s == "open"@ || s == "held"@
}

/// Statuses shown red.
pub open spec fn is_negative_status(s: Seq<char>) -> bool {
    s == "rejected"@ || s == "cancelled"@ || s == "expired"@ || s == "failed"@
}

/// The background and text colour classes of a status badge.
pub open spec fn badge_colors_spec(s: Seq<char>) -> (Seq<char>, Seq<char>) {
    if is_positive_status(s) {
        ("bg-emerald-100"@, "text-emerald-800"@)
    } else if is_waiting_status(s) {
        ("bg-amber-100"@, "text-amber-800"@)
    } else if is_negative_status(s) {
        ("bg-red-100"@, "text-red-700"@)
    } else if s == "delayed"@ {
        ("bg-orange-100"@, "text-orange-800"@)
    } else if s == "assigned"@ {
        ("bg-indigo-100"@, "text-indigo-800"@)
    } else if s == "running"@ || s == "in_progress"@ {
        ("bg-sky-100"@, "text-sky-800"@)
    } else {
        ("bg-slate-100"@, "text-slate-700"@)
    }
}

fn any_eq(s: &str, a: &str, b: &str, c: &str, d: &str) -> (r: bool)
    ensures
        r <==> (s@ == a@ || s@ == b@ || s@ == c@ || s@ == d@),
{
    str_eq(s, a) || str_eq(s, b) || str_eq(s, c) || str_eq(s, d)
}

/// The colours of a status badge, from the status as the database writes it.
pub fn badge_colors(status: &str) -> (r: (&'static str, &'static str))
    ensures
        (r.0@, r.1@) == badge_colors_spec(status@),
{
    if any_eq(status, "approved", "confirmed", "active", "on_time") || any_eq(
        status,
        "accepted",
        "completed",
        "completed",
        "completed",
    ) {
        ("bg-emerald-100", "text-emerald-800")
    } else if any_eq(status, "pending", "proposed", "open", "held") {
        ("bg-amber-100", "text-amber-800")
    } else if any_eq(status, "rejected", "cancelled", "expired", "failed") {
        ("bg-red-100", "text-red-700")
    } else if str_eq(status, "delayed") {
        ("bg-orange-100", "text-orange-800")
    } else if str_eq(status, "assigned") {
        ("bg-indigo-100", "text-indigo-800")
    } else if str_eq(status, "running") || str_eq(status, "in_progress") {
        ("bg-sky-100", "text-sky-800")
    } else {
        ("bg-slate-100", "text-slate-700")
    }
}

/// The badge's class attribute.
pub open spec fn badge_class_spec(s: Seq<char>) -> Seq<char> {
    "inline-flex items-center rounded-full px-2.5 py-0.5 text-xs font-medium "@
        + badge_colors_spec(s).0 + seq![' '] + badge_colors_spec(s).1
}

pub fn badge_class(status: &str) -> (r: String)
    ensures
        r@ == badge_class_spec(status@),
{
    let (bg, text) = badge_colors(status);
    let mut s = "inline-flex items-center rounded-full px-2.5 py-0.5 text-xs font-medium ".to_owned();
    s.append(bg);
    push_char(&mut s, ' ');
    s.append(text);
    s
}

/// The badge's text: the status with each `_` shown as a space.
pub open spec fn badge_label_spec(s: Seq<char>) -> Seq<char> {
    Seq::new(
        s.len(),
        |i: int|
            if s[i] == '_' {
                ' '
            } else {
                s[i]
            },
    )
}

pub fn badge_label(status: &str) -> (r: String)
    ensures
        r@ == badge_label_spec(status@),
{
    let v = chars_of(status);
    let mut s = String::new();
    let mut i: usize = 0;
    while i < v.len()
        invariant
            i <= v@.len(),
            v@ == status@,
            s@ == badge_label_spec(v@).take(i as int),
        decreases v.len() - i,
    {
        let c = v[i];
        if c == '_' {
            push_char(&mut s, ' ');
        } else {
            push_char(&mut s, c);
        }
        assert(s@ =~= badge_label_spec(v@).take(i + 1));
        i = i + 1;
    }
    assert(s@ =~= badge_label_spec(status@));
    s
}

// ── Class strings ────────────────────────────────────────────────────────────

pub fn input_cls() -> (r: &'static str)
    ensures
        r@ == "block w-full rounded-lg border border-slate-300 bg-white px-3 py-2 text-sm text-slate-900 placeholder-slate-400 shadow-sm focus:border-indigo-500 focus:outline-none focus:ring-2 focus:ring-indigo-500/20 disabled:bg-slate-50 disabled:text-slate-400"@,
{
    "block w-full rounded-lg border border-slate-300 bg-white px-3 py-2 text-sm text-slate-900 placeholder-slate-400 shadow-sm focus:border-indigo-500 focus:outline-none focus:ring-2 focus:ring-indigo-500/20 disabled:bg-slate-50 disabled:text-slate-400"
}

pub fn select_cls() -> (r: &'static str)
    ensures
        r@ == "block rounded-lg border border-slate-300 bg-white px-3 py-2 text-sm text-slate-900 shadow-sm focus:border-indigo-500 focus:outline-none focus:ring-2 focus:ring-indigo-500/20"@,
{
    "block rounded-lg border border-slate-300 bg-white px-3 py-2 text-sm text-slate-900 shadow-sm focus:border-indigo-500 focus:outline-none focus:ring-2 focus:ring-indigo-500/20"
}

pub fn btn_primary() -> (r: &'static str)
    ensures
        r@ == "inline-flex items-center gap-1.5 rounded-lg bg-indigo-600 px-3.5 py-2 text-sm font-semibold text-white shadow-sm hover:bg-indigo-700 active:bg-indigo-800 focus-visible:outline focus-visible:outline-2 focus-visible:outline-offset-2 focus-visible:outline-indigo-600 disabled:opacity-50 transition-colors"@,
{
    "inline-flex items-center gap-1.5 rounded-lg bg-indigo-600 px-3.5 py-2 text-sm font-semibold text-white shadow-sm hover:bg-indigo-700 active:bg-indigo-800 focus-visible:outline focus-visible:outline-2 focus-visible:outline-offset-2 focus-visible:outline-indigo-600 disabled:opacity-50 transition-colors"
}

pub fn btn_secondary() -> (r: &'static str)
    ensures
        r@ == "inline-flex items-center gap-1.5 rounded-lg border border-slate-300 bg-white px-3.5 py-2 text-sm font-semibold text-slate-700 shadow-sm hover:bg-slate-50 active:bg-slate-100 transition-colors disabled:opacity-50"@,
{
    "inline-flex items-center gap-1.5 rounded-lg border border-slate-300 bg-white px-3.5 py-2 text-sm font-semibold text-slate-700 shadow-sm hover:bg-slate-50 active:bg-slate-100 transition-colors disabled:opacity-50"
}

pub fn btn_danger() -> (r: &'static str)
    ensures
        r@ == "inline-flex items-center gap-1.5 rounded-lg bg-red-600 px-3.5 py-2 text-sm font-semibold text-white shadow-sm hover:bg-red-700 active:bg-red-800 disabled:opacity-50 transition-colors"@,
{
    "inline-flex items-center gap-1.5 rounded-lg bg-red-600 px-3.5 py-2 text-sm font-semibold text-white shadow-sm hover:bg-red-700 active:bg-red-800 disabled:opacity-50 transition-colors"
}

pub fn btn_ghost() -> (r: &'static str)
    ensures
        r@ == "inline-flex items-center gap-1.5 rounded-lg px-3 py-1.5 text-sm font-medium text-slate-600 hover:bg-slate-100 active:bg-slate-200 transition-colors"@,
{
    "inline-flex items-center gap-1.5 rounded-lg px-3 py-1.5 text-sm font-medium text-slate-600 hover:bg-slate-100 active:bg-slate-200 transition-colors"
}

// ── Toasts ───────────────────────────────────────────────────────────────────

#[derive(Debug, Clone, Copy, PartialEq, Eq, Structural)]
pub enum ToastKind {
    Success,
    Error,
    Warning,
    Info,
}

#[derive(Debug, Clone, PartialEq)]
pub struct ToastItem {
    pub id: u32,
    pub message: String,
    pub kind: ToastKind,
}

/// Milliseconds after which a toast dismisses itself.
pub const TOAST_TIMEOUT_MS: u32 = 4000;

/// The toasts without those of id `id`, in order.
pub open spec fn without_id(s: Seq<ToastItem>, id: u32) -> Seq<ToastItem>
    decreases s.len(),
{
    if s.len() == 0 {
        s
    } else if s.last().id == id {
        without_id(s.drop_last(), id)
    } else {
        without_id(s.drop_last(), id).push(s.last())
    }
}

/// No toast of `s` has id `id`.
pub open spec fn id_absent(s: Seq<ToastItem>, id: u32) -> bool {
    forall|i: int| 0 <= i < s.len() ==> #[trigger] s[i].id != id
}

pub proof fn lemma_without_absent(s: Seq<ToastItem>, id: u32)
    requires
        id_absent(s, id),
    ensures
        without_id(s, id) == s,
    decreases s.len(),
{
    if s.len() > 0 {
        assert(s.last().id != id);
        lemma_without_absent(s.drop_last(), id);
        assert(s.drop_last().push(s.last()) =~= s);
    }
}

pub proof fn lemma_without_push(s: Seq<ToastItem>, t: ToastItem, id: u32)
    ensures
        without_id(s.push(t), id) == if t.id == id {
            without_id(s, id)
        } else {
            without_id(s, id).push(t)
        },
{
    assert(s.push(t).drop_last() =~= s);
}

/// Each toast left by `without_id` is one of the toasts it was given.
pub proof fn lemma_without_members(s: Seq<ToastItem>, id: u32)
    ensures
        forall|a: int|
            0 <= a < without_id(s, id).len() ==> exists|b: int|
                0 <= b < s.len() && #[trigger] without_id(s, id)[a] == s[b],
    decreases s.len(),
{
    if s.len() > 0 {
        let p = s.drop_last();
        lemma_without_members(p, id);
        let w = without_id(s, id);
        assert forall|a: int| 0 <= a < w.len() implies exists|b: int|
            0 <= b < s.len() && #[trigger] w[a] == s[b] by {
            if a < without_id(p, id).len() {
                let b = choose|b: int| 0 <= b < p.len() && without_id(p, id)[a] == p[b];
                assert(w[a] == s[b]);
            } else {
                assert(w[a] == s[s.len() - 1]);
            }
        }
    }
}

/// `without_id` keeps ids bounded and increasing.
pub proof fn lemma_without_ordered(s: Seq<ToastItem>, id: u32, n: u32)
    requires
        forall|i: int| 0 <= i < s.len() ==> #[trigger] s[i].id <= n,
        forall|i: int, j: int| 0 <= i < j < s.len() ==> #[trigger] s[i].id < #[trigger] s[j].id,
    ensures
        forall|i: int| 0 <= i < without_id(s, id).len() ==> #[trigger] without_id(s, id)[i].id <= n,
        forall|i: int, j: int|
            0 <= i < j < without_id(s, id).len() ==> #[trigger] without_id(s, id)[i].id
                < #[trigger] without_id(s, id)[j].id,
    decreases s.len(),
{
    lemma_without_members(s, id);
    if s.len() > 0 {
        let p = s.drop_last();
        lemma_without_ordered(p, id, n);
        lemma_without_members(p, id);
        let w = without_id(s, id);
        let wp = without_id(p, id);
        assert forall|i: int, j: int| 0 <= i < j < w.len() implies #[trigger] w[i].id < #[trigger] w[j].id by {
            if j < wp.len() {
                assert(w[i] == wp[i] && w[j] == wp[j]);
            } else {
                let b = choose|b: int| 0 <= b < p.len() && wp[i] == p[b];
                assert(w[i] == s[b]);
                assert(w[j] == s[s.len() - 1]);
            }
        }
        assert forall|i: int| 0 <= i < w.len() implies #[trigger] w[i].id <= n by {
            let b = choose|b: int| 0 <= b < s.len() && w[i] == s[b];
        }
    }
}

/// The stack of toasts on screen, oldest first, with the last id handed out.
pub struct ToastQueue {
    items: Vec<ToastItem>,
    next_id: u32,
}

impl View for ToastQueue {
    type V = Seq<ToastItem>;

    closed spec fn view(&self) -> Seq<ToastItem> {
        self.items@
    }
}

impl ToastQueue {
    /// The last id handed out (0 before the first toast).
    pub closed spec fn last_id(&self) -> u32 {
        self.next_id
    }

    /// Every toast's id is at most the last one handed out, and ids increase
    /// from oldest to newest.
    pub closed spec fn wf(&self) -> bool {
        &&& forall|i: int| 0 <= i < self.items@.len() ==> #[trigger] self.items@[i].id <= self.next_id
        &&& forall|i: int, j: int|
            0 <= i < j < self.items@.len() ==> #[trigger] self.items@[i].id < #[trigger] self.items@[j].id
    }

    pub proof fn lemma_wf_ids(&self)
        requires
            self.wf(),
        ensures
            forall|i: int| 0 <= i < self@.len() ==> #[trigger] self@[i].id <= self.last_id(),
            forall|i: int, j: int|
                0 <= i < j < self@.len() ==> #[trigger] self@[i].id < #[trigger] self@[j].id,
    {
    }

    pub fn new() -> (q: ToastQueue)
        ensures
            q.wf(),
            q@ == Seq::<ToastItem>::empty(),
            q.last_id() == 0,
    {
        ToastQueue { items: Vec::new(), next_id: 0 }
    }

    /// The last id handed out.
    pub fn last_issued(&self) -> (r: u32)
        ensures
            r == self.last_id(),
    {
        self.next_id
    }

    /// The toasts on screen, oldest first.
    pub fn items(&self) -> (r: &Vec<ToastItem>)
        ensures
            r@ == self@,
    {
        &self.items
    }

    /// Shows a new toast under the next id, which it returns.
    pub fn push(&mut self, message: String, kind: ToastKind) -> (id: u32)
        requires
            old(self).wf(),
            old(self).last_id() < u32::MAX,
        ensures
            final(self).wf(),
            id == old(self).last_id() + 1,
            final(self).last_id() == id,
            final(self)@ == old(self)@.push(ToastItem { id, message, kind }),
    {
        let id = self.next_id + 1;
        self.next_id = id;
        self.items.push(ToastItem { id, message, kind });
        id
    }

    /// Closes the toasts of id `id` (by hand or when their time is up).
    pub fn dismiss(&mut self, id: u32)
        requires
            old(self).wf(),
        ensures
            final(self).wf(),
            final(self).last_id() == old(self).last_id(),
            final(self)@ == without_id(old(self)@, id),
    {
        let ghost s = self.items@;
        let ghost n = self.next_id;
        let len0 = self.items.len();
        assert(s.len() == len0);
        let mut i: usize = 0;
        let mut k: usize = 0;
        while i < self.items.len()
            invariant
                self.next_id == n,
                k <= s.len(),
                i <= k,
                self.items@ == without_id(s.take(k as int), id) + s.skip(k as int),
                i == without_id(s.take(k as int), id).len(),
                self.items@.len() == i + s.len() - k,
                s.len() <= usize::MAX,
            decreases s.len() - k,
        {
            proof {
                assert(s.take(k + 1) =~= s.take(k as int).push(s[k as int]));
                lemma_without_push(s.take(k as int), s[k as int], id);
                assert(s.skip(k as int) =~= seq![s[k as int]] + s.skip(k + 1));
            }
            if self.items[i].id == id {
                self.items.remove(i);
                proof {
                    assert(self.items@ =~= without_id(s.take(k + 1), id) + s.skip(k + 1));
                }
            } else {
                i = i + 1;
                proof {
                    assert(self.items@ =~= without_id(s.take(k + 1), id) + s.skip(k + 1));
                }
            }
            k = k + 1;
        }
        proof {
            assert(s.take(s.len() as int) =~= s);
            assert(s.skip(s.len() as int) =~= Seq::<ToastItem>::empty());
            assert(self.items@ =~= without_id(s, id));
            lemma_without_ordered(s, id, n);
        }
    }
}

/// Dismissing a toast right after showing it leaves the stack as it was.
pub proof fn law_dismiss_undoes_push(q: ToastQueue, t: ToastItem)
    requires
        q.wf(),
        t.id > q.last_id(),
    ensures
        without_id(q@.push(t), t.id) == q@,
{
    q.lemma_wf_ids();
    lemma_without_push(q@, t, t.id);
    lemma_without_absent(q@, t.id);
}

/// The border and icon colour of a toast.
pub open spec fn toast_colors_spec(k: ToastKind) -> (Seq<char>, Seq<char>) {
    match k {
        ToastKind::Success => ("border-l-emerald-500"@, "text-emerald-500"@),
        ToastKind::Error => ("border-l-red-500"@, "text-red-500"@),
        ToastKind::Warning => ("border-l-amber-500"@, "text-amber-500"@),
        ToastKind::Info => ("border-l-sky-500"@, "text-sky-500"@),
    }
}

pub fn toast_colors(k: ToastKind) -> (r: (&'static str, &'static str))
    ensures
        (r.0@, r.1@) == toast_colors_spec(k),
{
    match k {
        ToastKind::Success => ("border-l-emerald-500", "text-emerald-500"),
        ToastKind::Error => ("border-l-red-500", "text-red-500"),
        ToastKind::Warning => ("border-l-amber-500", "text-amber-500"),
        ToastKind::Info => ("border-l-sky-500", "text-sky-500"),
    }
}

/// The class attribute of a toast.
pub open spec fn toast_class_spec(k: ToastKind) -> Seq<char> {
    "pointer-events-auto flex items-start gap-3 rounded-lg border border-slate-200 border-l-4 "@
        + toast_colors_spec(k).0
        + " bg-white pl-3 pr-4 py-3 shadow-panel min-w-[300px] max-w-sm animate-fade-in"@
}

pub fn toast_class(k: ToastKind) -> (r: String)
    ensures
        r@ == toast_class_spec(k),
{
    let (border, _) = toast_colors(k);
    let mut s = "pointer-events-auto flex items-start gap-3 rounded-lg border border-slate-200 border-l-4 ".to_owned();
    s.append(border);
    s.append(" bg-white pl-3 pr-4 py-3 shadow-panel min-w-[300px] max-w-sm animate-fade-in");
    s
}

} // verus!
