use hackmd_db::auth::{
    check_listing, check_login, extract_csrf_token, login_form, token_from_capture, CSRF_PATTERN,
};
use hackmd_db::config::{plan_run, RunMode};
use hackmd_db::endpoints::{download_url, landing_url, listing_url, login_url, SERVER_URL};
use hackmd_db::error::{FetchError, UserInputError};

fn missing_arg(r: Result<RunMode, UserInputError>) -> Option<String> {
    match r {
        Err(UserInputError::MissingArgument { arg }) => Some(arg),
        Ok(_) => None,
    }
}

#[test]
fn empty_database_path_is_refused_in_every_mode() {
    for update in [false, true] {
        for exists in [false, true] {
            for team in [None, Some("rust".to_string())] {
                let r = plan_run("", team, update, exists);
                assert_eq!(missing_arg(r), Some("database".to_string()));
            }
        }
    }
}

#[test]
fn build_without_team_names_the_team_option() {
    let r = plan_run("hackmd.json", None, false, false);
    assert_eq!(missing_arg(r), Some("team".to_string()));
    let r = plan_run("hackmd.json", None, true, true);
    assert_eq!(missing_arg(r), Some("team".to_string()));
}

#[test]
fn existing_snapshot_is_loaded_without_team() {
    let r = plan_run("hackmd.json", None, false, true);
    assert!(matches!(r, Ok(RunMode::Load)));
}

#[test]
fn update_flag_forces_a_build() {
    let r = plan_run("hackmd.json", Some("rust".to_string()), true, true);
    match r {
        Ok(RunMode::Build { team }) => assert_eq!(team, "rust"),
        _ => panic!("expected a build"),
    }
    let r = plan_run("hackmd.json", Some("rust".to_string()), false, false);
    assert!(matches!(r, Ok(RunMode::Build { .. })));
}

#[test]
fn missing_argument_message_names_the_option() {
    let e = UserInputError::MissingArgument { arg: "team".to_string() };
    assert_eq!(e.message(), "Missing required argument: --team");
}

#[test]
fn endpoint_addresses() {
    assert_eq!(SERVER_URL, "https://hackmd.io");
    assert_eq!(landing_url(), "https://hackmd.io");
    assert_eq!(login_url(), "https://hackmd.io/login");
    assert_eq!(listing_url("rust"), "https://hackmd.io/api/overview/team/rust");
    assert_eq!(download_url("abc123"), "https://hackmd.io/abc123/download");
}

#[test]
fn csrf_token_is_found_in_the_landing_page() {
    let page = "<html>\n<meta name=\"csrf-token\" content=\"tok-42_x\">\n<body></body>";
    assert_eq!(extract_csrf_token(page), Ok("tok-42_x".to_string()));
}

#[test]
fn csrf_token_missing_is_an_error() {
    let page = "<html><meta name=\"description\" content=\"notes\"></html>";
    assert_eq!(extract_csrf_token(page), Err(FetchError::TokenNotFound));
    assert_eq!(extract_csrf_token(""), Err(FetchError::TokenNotFound));
}

#[test]
fn csrf_pattern_is_the_meta_marker() {
    assert_eq!(CSRF_PATTERN, "\"csrf-token\" content=\"(.+)\"");
}

#[test]
fn token_from_capture_cases() {
    assert_eq!(token_from_capture(Some("t".to_string())), Ok("t".to_string()));
    assert_eq!(token_from_capture(None), Err(FetchError::TokenNotFound));
}

#[test]
fn login_form_trims_the_user_line() {
    let f = login_form("  alice@example.com\n", "s3cret ".to_string());
    assert_eq!(f.email, "alice@example.com");
    assert_eq!(f.password, "s3cret ");
}

#[test]
fn login_status_verdicts() {
    assert_eq!(check_login(200), Ok(()));
    assert_eq!(check_login(204), Ok(()));
    assert_eq!(check_login(299), Ok(()));
    assert_eq!(check_login(302), Err(FetchError::LoginFailure));
    assert_eq!(check_login(401), Err(FetchError::LoginFailure));
    assert_eq!(check_login(199), Err(FetchError::LoginFailure));
}

#[test]
fn listing_status_verdicts() {
    assert_eq!(check_listing(200), Ok(()));
    assert_eq!(check_listing(404), Err(FetchError::ListingFailure));
    assert_eq!(check_listing(503), Err(FetchError::ListingFailure));
}
