//! The login page's checks before the request goes out.

use vstd::prelude::*;
use crate::shared::rules::MIN_PASSWORD_LEN;
use crate::text::{byte_len_below, chars_of, nat_digits, push_u64, trim_ws, trimmed, utf8_len};

verus! {

pub const CREDENTIALS_REQUIRED: &'static str = "Username and password are required.";

/// `"Password must be at least <n> characters."`.
pub open spec fn password_too_short_message(n: nat) -> Seq<char> {
    "Password must be at least "@ + nat_digits(n) + " characters."@
}

/// Why the form is refused, if it is: a blank username or an empty password
/// first, then a password shorter than the minimum (counted in UTF-8 bytes,
/// as `str::len` counts).
pub open spec fn login_error_spec(username: Seq<char>, password: Seq<char>) -> Option<Seq<char>> {
    if trim_ws(username).len() == 0 || password.len() == 0 {
        Some(CREDENTIALS_REQUIRED@)
    } else if utf8_len(password) < MIN_PASSWORD_LEN {
        Some(password_too_short_message(MIN_PASSWORD_LEN as nat))
    } else {
        None
    }
}

/// The client-side check of the login form; `None` lets the login proceed
/// with the username and password as typed.
pub fn login_error(username: &str, password: &str) -> (r: Option<String>)
    requires
        password@.len() <= usize::MAX / 4,
    ensures
        match r {
            Some(m) => login_error_spec(username@, password@) == Some(m@),
            None => login_error_spec(username@, password@) is None,
        },
{
    let u = trimmed(username);
    if u.as_str().is_empty() || password.is_empty() {
        return Some(CREDENTIALS_REQUIRED.to_owned());
    }
    let pv = chars_of(password);
    if byte_len_below(&pv, MIN_PASSWORD_LEN) {
        let mut s = "Password must be at least ".to_owned();
        push_u64(&mut s, MIN_PASSWORD_LEN as u64);
        s.append(" characters.");
        return Some(s);
    }
    None
}

} // verus!
