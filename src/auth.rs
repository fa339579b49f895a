use vstd::prelude::*;
use crate::error::FetchError;
use crate::page::text_of;

verus! {

/// The marker around the CSRF token in the landing page; group 1 is the token.
pub const CSRF_PATTERN: &'static str = "\"csrf-token\" content=\"(.+)\"";

/// The text of capture group 1 in the leftmost match of `pattern` in
/// `haystack`, or none where nothing matches or the pattern is invalid.
pub uninterp spec fn regex_first_group(pattern: Seq<char>, haystack: Seq<char>) -> Option<
    Seq<char>,
>;

/// `s` without its leading and trailing whitespace.
pub uninterp spec fn trimmed(s: Seq<char>) -> Seq<char>;

/// Relies on regex::Regex::new, Regex::captures and Captures::get: compile
/// `pattern`, find its leftmost match in `haystack`, and take group 1.
#[verifier::external_body]
fn first_group(pattern: &str, haystack: &str) -> (r: Option<String>)
    ensures
        text_of(r) == regex_first_group(pattern@, haystack@),
{
    let re = match regex::Regex::new(pattern) {
        Ok(re) => re,
        Err(_) => return None,
    };
    let caps = re.captures(haystack)?;
    let group = caps.get(1)?;
    Some(group.as_str().to_string())
}

/// Relies on str::trim: leading and trailing whitespace removed.
#[verifier::external_body]
fn trim_line(s: &str) -> (r: String)
    ensures
        r@ == trimmed(s@),
        s@.len() == 0 ==> r@.len() == 0,
{
    s.trim().to_string()
}

/// The CSRF token from what the marker search found: the token itself, or
/// `TokenNotFound` where the landing page held no marker.
pub fn token_from_capture(capture: Option<String>) -> (r: Result<String, FetchError>)
    ensures
        match capture {
            Some(t) => r matches Ok(u) && u@ == t@,
            None => r == Err::<String, FetchError>(FetchError::TokenNotFound),
        },
{
    match capture {
        Some(t) => Ok(t),
        None => Err(FetchError::TokenNotFound),
    }
}

/// Finds the CSRF token in the landing page.
pub fn extract_csrf_token(page: &str) -> (r: Result<String, FetchError>)
    ensures
        match regex_first_group(CSRF_PATTERN@, page@) {
            Some(t) => r matches Ok(u) && u@ == t,
            None => r == Err::<String, FetchError>(FetchError::TokenNotFound),
        },
{
    let capture = first_group(CSRF_PATTERN, page);
    token_from_capture(capture)
}

/// The fields of the login form.
pub struct LoginForm {
    pub email: String,
    pub password: String,
}

/// The login form from the line the user typed and the password.
pub fn login_form(user_line: &str, password: String) -> (r: LoginForm)
    ensures
        r.email@ == trimmed(user_line@),
        r.password@ == password@,
{
    LoginForm { email: trim_line(user_line), password }
}

/// Whether an HTTP status code is a success (2xx).
pub open spec fn is_success_status(status: u16) -> bool {
    200 <= status <= 299
}

/// The login step's verdict on the status of the login response.
pub fn check_login(status: u16) -> (r: Result<(), FetchError>)
    ensures
        is_success_status(status) ==> r is Ok,
        !is_success_status(status) ==> r == Err::<(), FetchError>(FetchError::LoginFailure),
{
    if 200 <= status && status <= 299 {
        Ok(())
    } else {
        Err(FetchError::LoginFailure)
    }
}

/// The listing step's verdict on the status of the listing response.
pub fn check_listing(status: u16) -> (r: Result<(), FetchError>)
    ensures
        is_success_status(status) ==> r is Ok,
        !is_success_status(status) ==> r == Err::<(), FetchError>(FetchError::ListingFailure),
{
    if 200 <= status && status <= 299 {
        Ok(())
    } else {
        Err(FetchError::ListingFailure)
    }
}

} // verus!
