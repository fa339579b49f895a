use vstd::prelude::*;

verus! {

/// The service that hosts the team's notes.
pub const SERVER_URL: &'static str = "https://hackmd.io";

/// The landing page, which carries the CSRF token.
pub fn landing_url() -> (r: String)
    ensures
        r@ == SERVER_URL@,
{
    String::from_str(SERVER_URL)
}

/// The endpoint that takes the login form.
pub fn login_url() -> (r: String)
    ensures
        r@ == SERVER_URL@ + "/login"@,
{
    String::from_str(SERVER_URL).concat("/login")
}

/// The endpoint that lists a team's documents.
pub fn listing_url(team: &str) -> (r: String)
    ensures
        r@ == SERVER_URL@ + "/api/overview/team/"@ + team@,
{
    String::from_str(SERVER_URL).concat("/api/overview/team/").concat(team)
}

/// The endpoint that gives one document's raw text.
pub fn download_url(id: &str) -> (r: String)
    ensures
        r@ == SERVER_URL@ + "/"@ + id@ + "/download"@,
{
    String::from_str(SERVER_URL).concat("/").concat(id).concat("/download")
}

} // verus!
