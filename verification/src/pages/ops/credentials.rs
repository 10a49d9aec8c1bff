//! The credentials page: who may approve, the detail panel's tabs, the
//! listing's request and pages, the review notice and the audit entries'
//! colours (the forms' checks are with the credential types).

use vstd::prelude::*;
use crate::api::credentials::{list_credentials_path, list_credentials_path_spec};
use crate::shared::UserRole;
use crate::text::{
    byte_slice, char_index, chars_of, int_digits, is_boundary, locate_byte, push_chars, push_i64,
    str_eq, utf8_len,
};

verus! {

/// Admins and dispatchers may review credentials.
pub open spec fn can_approve_spec(role: UserRole) -> bool {
    role == UserRole::Admin || role == UserRole::Dispatcher
}

pub fn can_approve(role: UserRole) -> (b: bool)
    ensures
        b == can_approve_spec(role),
{
    match role {
        UserRole::Admin | UserRole::Dispatcher => true,
        _ => false,
    }
}

/// The detail panel's tabs.
#[derive(Debug, Clone, Copy, PartialEq, Eq, Structural)]
pub enum CredentialTab {
    Info,
    Review,
    Esign,
    Audit,
}

/// The tabs shown: Review only to a user who may approve.
pub open spec fn tabs_spec(can_approve: bool) -> Seq<CredentialTab> {
    if can_approve {
        seq![CredentialTab::Info, CredentialTab::Review, CredentialTab::Esign, CredentialTab::Audit]
    } else {
        seq![CredentialTab::Info, CredentialTab::Esign, CredentialTab::Audit]
    }
}

pub fn tabs(can_approve: bool) -> (r: Vec<CredentialTab>)
    ensures
        r@ == tabs_spec(can_approve),
{
    let r = if can_approve {
        vec![CredentialTab::Info, CredentialTab::Review, CredentialTab::Esign, CredentialTab::Audit]
    } else {
        vec![CredentialTab::Info, CredentialTab::Esign, CredentialTab::Audit]
    };
    assert(r@ =~= tabs_spec(can_approve));
    r
}

pub open spec fn tab_label_spec(t: CredentialTab) -> Seq<char> {
    match t {
        CredentialTab::Info => "Info"@,
        CredentialTab::Review => "Review"@,
        CredentialTab::Esign => "E-sign"@,
        CredentialTab::Audit => "Audit"@,
    }
}

pub fn tab_label(t: CredentialTab) -> (r: &'static str)
    ensures
        r@ == tab_label_spec(t),
{
    match t {
        CredentialTab::Info => "Info",
        CredentialTab::Review => "Review",
        CredentialTab::Esign => "E-sign",
        CredentialTab::Audit => "Audit",
    }
}

/// A tab's classes.
pub fn tab_class(active: bool) -> (r: &'static str)
    ensures
        active ==> r@
            == "px-3 py-2 text-xs font-medium text-indigo-700 border-b-2 border-indigo-600 transition-colors"@,
        !active ==> r@
            == "px-3 py-2 text-xs font-medium text-slate-500 border-b-2 border-transparent hover:text-slate-800 transition-colors"@,
{
    if active {
        "px-3 py-2 text-xs font-medium text-indigo-700 border-b-2 border-indigo-600 transition-colors"
    } else {
        "px-3 py-2 text-xs font-medium text-slate-500 border-b-2 border-transparent hover:text-slate-800 transition-colors"
    }
}

/// What the Review tab shows.
#[derive(Debug, Clone, Copy, PartialEq, Eq, Structural)]
pub enum ReviewView {
    /// Not the Review tab, or a user who may not approve.
    Hidden,
    /// The note that only pending credentials can be reviewed.
    NotPending,
    /// The review form.
    Form,
}

/// The note on a credential that is no longer pending.
pub const ONLY_PENDING: &'static str = "Only pending credentials can be reviewed.";

/// The review form is shown on the Review tab, to a user who may approve,
/// for a pending credential; on another credential the tab shows a note.
pub fn review_view(tab: CredentialTab, can_approve: bool, status: &str) -> (r: ReviewView)
    ensures
        r == if !(tab == CredentialTab::Review && can_approve) {
            ReviewView::Hidden
        } else if status@ == "pending"@ {
            ReviewView::Form
        } else {
            ReviewView::NotPending
        },
{
    if !(tab == CredentialTab::Review && can_approve) {
        ReviewView::Hidden
    } else if str_eq(status, "pending") {
        ReviewView::Form
    } else {
        ReviewView::NotPending
    }
}

/// The listing's request: the status filter when one is chosen, any
/// contractor, 20 per page.
pub fn list_path(status_filter: &str, page: i64) -> (r: String)
    ensures
        r@ == list_credentials_path_spec(
            None,
            if status_filter@.len() == 0 {
                None
            } else {
                Some(status_filter@)
            },
            page,
        ),
{
    if status_filter.is_empty() {
        list_credentials_path(None, None, page)
    } else {
        list_credentials_path(None, Some(status_filter), page)
    }
}

/// `"<n> credential(s) total"`.
pub fn total_label(n: i64) -> (r: String)
    ensures
        r@ == int_digits(n as int) + " credential(s) total"@,
{
    let mut s = String::new();
    push_i64(&mut s, n);
    s.append(" credential(s) total");
    s
}

/// `"Page <page> / <total pages>"`.
pub fn page_label(page: i64, total_pages: i64) -> (r: String)
    ensures
        r@ == "Page "@ + int_digits(page as int) + " / "@ + int_digits(total_pages as int),
{
    let mut s = "Page ".to_owned();
    push_i64(&mut s, page);
    s.append(" / ");
    push_i64(&mut s, total_pages);
    s
}

/// The notice after a review, `"Credential <status>."`.
pub fn reviewed_message(status: &str) -> (r: String)
    ensures
        r@ == "Credential "@ + status@ + "."@,
{
    let mut s = "Credential ".to_owned();
    s.append(status);
    s.append(".");
    s
}

/// The colours of an audit entry's action.
pub open spec fn audit_action_color_spec(action: Seq<char>) -> Seq<char> {
    if action == "approved"@ {
        "text-emerald-700 bg-emerald-50"@
    } else if action == "rejected"@ {
        "text-red-700 bg-red-50"@
    } else if action == "esigned"@ {
        "text-indigo-700 bg-indigo-50"@
    } else if action == "uploaded"@ {
        "text-sky-700 bg-sky-50"@
    } else {
        "text-slate-600 bg-slate-50"@
    }
}

pub fn audit_action_color(action: &str) -> (r: &'static str)
    ensures
        r@ == audit_action_color_spec(action@),
{
    if str_eq(action, "approved") {
        "text-emerald-700 bg-emerald-50"
    } else if str_eq(action, "rejected") {
        "text-red-700 bg-red-50"
    } else if str_eq(action, "esigned") {
        "text-indigo-700 bg-indigo-50"
    } else if str_eq(action, "uploaded") {
        "text-sky-700 bg-sky-50"
    } else {
        "text-slate-600 bg-slate-50"
    }
}

/// A credential's fingerprint, shortened for the detail panel: its first 16
/// bytes and `"…"`. The cut is at byte 16, so a fingerprint shorter than 16
/// bytes, or with no character boundary there, has no such label.
pub fn fingerprint_label(fingerprint: &str) -> (r: String)
    requires
        fingerprint@.len() <= usize::MAX / 4,
        utf8_len(fingerprint@) >= 16,
        is_boundary(fingerprint@, 16),
    ensures
        r@ == byte_slice(fingerprint@, 0, 16) + "…"@,
{
    let v = chars_of(fingerprint);
    let (j, _) = locate_byte(&v, 16);
    assert(char_index(v@, 0) == 0) by {
        assert(v@.take(0) =~= Seq::<char>::empty());
    }
    let mut s = String::new();
    push_chars(&mut s, &v, 0, j);
    s.append("…");
    assert(s@ =~= byte_slice(fingerprint@, 0, 16) + "…"@);
    s
}

} // verus!
