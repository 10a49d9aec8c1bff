//! The console's session: who is signed in, with which token, and how each
//! sign-in or sign-out changes the session and what it writes to the tab's
//! session storage (the storage itself is I/O outside the library).

use vstd::prelude::*;
use crate::shared::UserRole;

verus! {

/// The signed-in user, as the backend's `/me` describes it.
#[derive(Debug, Clone, PartialEq)]
pub struct CurrentUser {
    pub id: String,
    pub username: String,
    pub role: UserRole,
    pub full_name: Option<String>,
}

/// The name shown for a user: the full name when known, else the username.
pub open spec fn display_name_spec(u: CurrentUser) -> Seq<char> {
    match u.full_name {
        Some(f) => f@,
        None => u.username@,
    }
}

/// The label of a role in the console.
pub open spec fn role_label_spec(r: UserRole) -> Seq<char> {
    match r {
        UserRole::Admin => "Administrator"@,
        UserRole::OpsAgent => "Operations Agent"@,
        UserRole::CsAgent => "Customer Service"@,
        UserRole::Dispatcher => "Dispatcher"@,
        UserRole::Kiosk => "Kiosk"@,
    }
}

impl CurrentUser {
    pub fn display_name(&self) -> (r: &str)
        ensures
            r@ == display_name_spec(*self),
    {
        match &self.full_name {
            Some(f) => f.as_str(),
            None => self.username.as_str(),
        }
    }

    pub fn role_label(&self) -> (r: &'static str)
        ensures
            r@ == role_label_spec(self.role),
    {
        match self.role {
            UserRole::Admin => "Administrator",
            UserRole::OpsAgent => "Operations Agent",
            UserRole::CsAgent => "Customer Service",
            UserRole::Dispatcher => "Dispatcher",
            UserRole::Kiosk => "Kiosk",
        }
    }
}

#[derive(Debug, Clone, PartialEq)]
pub enum AuthStatus {
    /// A stored token is being verified with `/me`.
    Loading,
    Authenticated(CurrentUser),
    Unauthenticated,
}

#[derive(Debug, Clone, PartialEq)]
pub struct AuthState {
    pub status: AuthStatus,
    pub token: Option<String>,
}

/// Session-storage key of the token.
pub const TOKEN_KEY: &'static str = "railops_token";

/// Session-storage key of the user.
pub const USER_KEY: &'static str = "railops_user";

/// The state on first render, from the token found in session storage.
pub open spec fn load_spec(stored: Option<Seq<char>>) -> (AuthStatus, Option<Seq<char>>) {
    match stored {
        Some(t) => (AuthStatus::Loading, Some(t)),
        None => (AuthStatus::Unauthenticated, None),
    }
}

/// The view of an optional string.
pub open spec fn opt_str(o: Option<String>) -> Option<Seq<char>> {
    match o {
        Some(s) => Some(s@),
        None => None,
    }
}

/// The user of a signed-in status.
pub open spec fn user_of(s: AuthStatus) -> Option<CurrentUser> {
    match s {
        AuthStatus::Authenticated(u) => Some(u),
        _ => None,
    }
}

impl AuthState {
    /// The state on first render: verifying the stored token if there is one,
    /// else signed out.
    pub fn from_stored_token(stored: Option<String>) -> (r: AuthState)
        ensures
            (r.status, opt_str(r.token)) == load_spec(opt_str(stored)),
    {
        match stored {
            Some(t) => AuthState { status: AuthStatus::Loading, token: Some(t) },
            None => AuthState { status: AuthStatus::Unauthenticated, token: None },
        }
    }

    pub fn is_authenticated(&self) -> (b: bool)
        ensures
            b <==> self.status is Authenticated,
    {
        match self.status {
            AuthStatus::Authenticated(_) => true,
            _ => false,
        }
    }

    pub fn current_user(&self) -> (r: Option<&CurrentUser>)
        ensures
            match r {
                Some(u) => user_of(self.status) == Some(*u),
                None => user_of(self.status) is None,
            },
    {
        match &self.status {
            AuthStatus::Authenticated(u) => Some(u),
            _ => None,
        }
    }
}

/// What changes the session.
#[derive(Debug, Clone)]
pub enum AuthAction {
    /// After a successful `/login` or `/me`.
    SetUser { token: String, user: CurrentUser },
    /// The stored token failed verification.
    ClearSession,
    /// An explicit sign-out.
    Logout,
}

/// What a change writes to session storage.
#[derive(Debug, Clone, Copy, PartialEq, Eq, Structural)]
pub enum SessionWrite {
    /// Store the new state's token under `TOKEN_KEY` and its user under
    /// `USER_KEY`.
    Save,
    /// Delete both keys.
    Clear,
}

/// The state after an action, and what it writes: a user and token replace
/// the session whatever it was; a cleared session or a sign-out leaves it
/// signed out with no token.
pub open spec fn reduce_spec(a: AuthAction) -> (AuthStatus, Option<Seq<char>>) {
    match a {
        AuthAction::SetUser { token, user } => (AuthStatus::Authenticated(user), Some(token@)),
        _ => (AuthStatus::Unauthenticated, None),
    }
}

pub open spec fn write_spec(a: AuthAction) -> SessionWrite {
    match a {
        AuthAction::SetUser { .. } => SessionWrite::Save,
        _ => SessionWrite::Clear,
    }
}

impl AuthState {
    /// The next state for `action`, with the storage write it calls for.
    pub fn reduce(&self, action: AuthAction) -> (r: (AuthState, SessionWrite))
        ensures
            (r.0.status, opt_str(r.0.token)) == reduce_spec(action),
            r.1 == write_spec(action),
    {
        match action {
            AuthAction::SetUser { token, user } => (
                AuthState { status: AuthStatus::Authenticated(user), token: Some(token) },
                SessionWrite::Save,
            ),
            _ => (AuthState { status: AuthStatus::Unauthenticated, token: None }, SessionWrite::Clear),
        }
    }
}

/// A sign-in makes its user the session's user and keeps its token, and is
/// saved to storage; a failed verification or a sign-out leaves no user and
/// no token, and clears storage. Neither depends on the state before.
pub proof fn law_reduce_sets_session(a: AuthAction)
    ensures
        a matches AuthAction::SetUser { token, user } ==> user_of(reduce_spec(a).0) == Some(user)
            && reduce_spec(a).1 == Some(token@) && write_spec(a) == SessionWrite::Save,
        !(a is SetUser) ==> user_of(reduce_spec(a).0) is None && reduce_spec(a).1 is None
            && write_spec(a) == SessionWrite::Clear,
{
}

/// What a staff-only route shows.
#[derive(Debug, Clone, Copy, PartialEq, Eq, Structural)]
pub enum GuardView {
    /// "Verifying session…" while a stored token is checked.
    Verifying,
    /// A redirect to the login page.
    RedirectToLogin,
    /// The protected content.
    Content,
}

pub open spec fn guard_spec(s: AuthStatus) -> GuardView {
    match s {
        AuthStatus::Loading => GuardView::Verifying,
        AuthStatus::Unauthenticated => GuardView::RedirectToLogin,
        AuthStatus::Authenticated(_) => GuardView::Content,
    }
}

/// The guard on staff-only routes.
pub fn guard(status: &AuthStatus) -> (r: GuardView)
    ensures
        r == guard_spec(*status),
{
    match status {
        AuthStatus::Loading => GuardView::Verifying,
        AuthStatus::Unauthenticated => GuardView::RedirectToLogin,
        AuthStatus::Authenticated(_) => GuardView::Content,
    }
}

/// Protected content is shown exactly when a user is signed in.
pub proof fn law_guard_shows_only_signed_in(s: AuthStatus)
    ensures
        guard_spec(s) == GuardView::Content <==> user_of(s) is Some,
{
}

} // verus!
