use railops::api::LoginResponse;
use railops::auth::{guard, AuthAction, AuthState, AuthStatus, CurrentUser, GuardView, SessionWrite};
use railops::components::{
    badge_class, badge_colors, badge_label, btn_primary, toast_class, toast_colors, ToastKind,
    ToastQueue, TOAST_TIMEOUT_MS,
};
use railops::shared::UserRole;

fn user(full: Option<&str>) -> CurrentUser {
    CurrentUser {
        id: "u1".to_owned(),
        username: "jdoe".to_owned(),
        role: UserRole::Dispatcher,
        full_name: full.map(|s| s.to_owned()),
    }
}

#[test]
fn current_user_labels() {
    assert_eq!(user(Some("Jane Doe")).display_name(), "Jane Doe");
    assert_eq!(user(None).display_name(), "jdoe");
    assert_eq!(user(None).role_label(), "Dispatcher");
    let mut u = user(None);
    u.role = UserRole::CsAgent;
    assert_eq!(u.role_label(), "Customer Service");
    u.role = UserRole::Admin;
    assert_eq!(u.role_label(), "Administrator");
}

#[test]
fn auth_state_from_storage() {
    let s = AuthState::from_stored_token(Some("t1".to_owned()));
    assert_eq!(s.status, AuthStatus::Loading);
    assert_eq!(s.token, Some("t1".to_owned()));
    assert!(!s.is_authenticated());
    let n = AuthState::from_stored_token(None);
    assert_eq!(n.status, AuthStatus::Unauthenticated);
    assert!(n.token.is_none());
    assert!(n.current_user().is_none());
}

#[test]
fn auth_sign_in_then_out() {
    let s = AuthState::from_stored_token(None);
    let (signed, write) = s.reduce(AuthAction::SetUser { token: "tk".to_owned(), user: user(None) });
    assert_eq!(write, SessionWrite::Save);
    assert!(signed.is_authenticated());
    assert_eq!(signed.current_user().unwrap().username, "jdoe");
    assert_eq!(signed.token, Some("tk".to_owned()));
    assert_eq!(guard(&signed.status), GuardView::Content);
    let (out, w2) = signed.reduce(AuthAction::Logout);
    assert_eq!(w2, SessionWrite::Clear);
    assert!(!out.is_authenticated());
    assert!(out.token.is_none());
    assert_eq!(guard(&out.status), GuardView::RedirectToLogin);
    let (cleared, w3) = signed.reduce(AuthAction::ClearSession);
    assert_eq!(w3, SessionWrite::Clear);
    assert_eq!(cleared.status, AuthStatus::Unauthenticated);
}

#[test]
fn auth_guard_while_loading() {
    assert_eq!(guard(&AuthStatus::Loading), GuardView::Verifying);
}

#[test]
fn login_response_becomes_sign_in() {
    let resp = LoginResponse { token: "abc".to_owned(), user: user(Some("J")), expires_at: "x".to_owned() };
    let (s, w) = AuthState::from_stored_token(None).reduce(resp.into_action());
    assert_eq!(w, SessionWrite::Save);
    assert_eq!(s.token, Some("abc".to_owned()));
    assert_eq!(s.current_user().unwrap().display_name(), "J");
}

#[test]
fn status_badge_mapping() {
    assert_eq!(badge_colors("approved"), ("bg-emerald-100", "text-emerald-800"));
    assert_eq!(badge_colors("completed"), ("bg-emerald-100", "text-emerald-800"));
    assert_eq!(badge_colors("held"), ("bg-amber-100", "text-amber-800"));
    assert_eq!(badge_colors("failed"), ("bg-red-100", "text-red-700"));
    assert_eq!(badge_colors("delayed"), ("bg-orange-100", "text-orange-800"));
    assert_eq!(badge_colors("assigned"), ("bg-indigo-100", "text-indigo-800"));
    assert_eq!(badge_colors("in_progress"), ("bg-sky-100", "text-sky-800"));
    assert_eq!(badge_colors("Approved"), ("bg-slate-100", "text-slate-700"));
    assert_eq!(
        badge_class("on_time"),
        "inline-flex items-center rounded-full px-2.5 py-0.5 text-xs font-medium bg-emerald-100 text-emerald-800"
    );
    assert_eq!(badge_label("in_progress"), "in progress");
    assert_eq!(badge_label("on_time_now"), "on time now");
    assert!(btn_primary().starts_with("inline-flex items-center gap-1.5 rounded-lg bg-indigo-600"));
}

#[test]
fn toast_queue_push_and_dismiss() {
    let mut q = ToastQueue::new();
    let a = q.push("Saved".to_owned(), ToastKind::Success);
    let b = q.push("Oops".to_owned(), ToastKind::Error);
    let c = q.push("FYI".to_owned(), ToastKind::Info);
    assert_eq!((a, b, c), (1, 2, 3));
    q.dismiss(b);
    let ids: Vec<u32> = q.items().iter().map(|t| t.id).collect();
    assert_eq!(ids, vec![1, 3]);
    assert_eq!(q.items()[1].message, "FYI");
    q.dismiss(42);
    assert_eq!(q.items().len(), 2);
    let d = q.push("again".to_owned(), ToastKind::Warning);
    assert_eq!(d, 4);
    q.dismiss(d);
    let ids: Vec<u32> = q.items().iter().map(|t| t.id).collect();
    assert_eq!(ids, vec![1, 3]);
    assert_eq!(TOAST_TIMEOUT_MS, 4000);
}

#[test]
fn toast_styles() {
    assert_eq!(toast_colors(ToastKind::Warning), ("border-l-amber-500", "text-amber-500"));
    assert_eq!(
        toast_class(ToastKind::Error),
        "pointer-events-auto flex items-start gap-3 rounded-lg border border-slate-200 border-l-4 border-l-red-500 bg-white pl-3 pr-4 py-3 shadow-panel min-w-[300px] max-w-sm animate-fade-in"
    );
}
