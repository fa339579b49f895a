use hackmd_db::crawl::{Action, Crawl, Phase};
use hackmd_db::download::{DownloadQueue, MAX_CONCURRENT};
use hackmd_db::error::FetchError;
use hackmd_db::page::Page;

fn listing(n: usize) -> Vec<Page> {
    (0..n)
        .map(|i| Page::new(format!("id{}", i), format!("Title {}", i), format!("2024-01-{:02}", i % 28 + 1)))
        .collect()
}

/// Runs a queue to the end, finishing the most recently started download
/// first, and failing the pages in `failing`.
fn run_queue(n: usize, failing: &[usize]) -> Vec<Page> {
    let mut q = DownloadQueue::new(listing(n));
    assert_eq!(q.len(), n);
    let mut outstanding: Vec<usize> = Vec::new();
    loop {
        while let Some(i) = q.start_next() {
            outstanding.push(i);
            assert!(q.in_flight() <= MAX_CONCURRENT);
        }
        assert!(q.in_flight() <= MAX_CONCURRENT);
        match outstanding.pop() {
            Some(i) => {
                assert!(q.is_in_flight(i));
                let body = if failing.contains(&i) { None } else { Some(format!("body of {}", i)) };
                q.complete(i, body);
                assert!(!q.is_in_flight(i));
            }
            None => break,
        }
    }
    assert!(q.is_finished());
    q.into_pages()
}

#[test]
fn empty_listing_finishes_at_once() {
    let mut q = DownloadQueue::new(Vec::new());
    assert_eq!(q.start_next(), None);
    assert!(q.is_finished());
    assert!(q.into_pages().is_empty());
}

#[test]
fn single_page_is_downloaded() {
    let pages = run_queue(1, &[]);
    assert_eq!(pages.len(), 1);
    assert_eq!(pages[0].id, "id0");
    assert_eq!(pages[0].content.as_deref(), Some("body of 0"));
}

#[test]
fn at_most_five_downloads_are_outstanding() {
    let mut q = DownloadQueue::new(listing(100));
    for expected in 0..5 {
        assert_eq!(q.start_next(), Some(expected));
    }
    assert_eq!(q.in_flight(), 5);
    assert_eq!(q.start_next(), None);
    q.complete(2, Some("x".to_string()));
    assert_eq!(q.in_flight(), 4);
    assert_eq!(q.start_next(), Some(5));
    assert_eq!(q.start_next(), None);
}

#[test]
fn order_is_kept_whatever_the_completion_order() {
    let pages = run_queue(100, &[]);
    assert_eq!(pages.len(), 100);
    for (i, p) in pages.iter().enumerate() {
        assert_eq!(p.id, format!("id{}", i));
        assert_eq!(p.title, format!("Title {}", i));
        assert_eq!(p.lastchange_at, format!("2024-01-{:02}", i % 28 + 1));
        assert_eq!(p.content, Some(format!("body of {}", i)));
    }
}

#[test]
fn failed_download_leaves_only_its_page_empty() {
    let pages = run_queue(10, &[4]);
    assert_eq!(pages.len(), 10);
    for (i, p) in pages.iter().enumerate() {
        if i == 4 {
            assert_eq!(p.content, None);
        } else {
            assert_eq!(p.content, Some(format!("body of {}", i)));
        }
    }
}

#[test]
fn listing_content_is_dropped() {
    let mut page = Page::new("a".to_string(), "A".to_string(), "t".to_string());
    page.content = Some("stale".to_string());
    let mut q = DownloadQueue::new(vec![page]);
    assert_eq!(q.page(0).content, None);
    assert_eq!(q.start_next(), Some(0));
    q.complete(0, None);
    let pages = q.into_pages();
    assert_eq!(pages[0].content, None);
}

const LANDING: &str = "<head><meta name=\"csrf-token\" content=\"abc\"></head>";

fn logged_in(team: &str) -> Crawl {
    let (mut c, a) = Crawl::start(team.to_string());
    assert!(matches!(a, Action::Get { ref url } if url == "https://hackmd.io"));
    assert_eq!(c.current_phase(), Phase::FetchToken);
    assert!(matches!(c.on_landing_page(LANDING), Action::PromptCredentials));
    match c.on_credentials("bob@example.com\n", "pw".to_string()) {
        Action::PostLogin { url, token, form } => {
            assert_eq!(url, "https://hackmd.io/login");
            assert_eq!(token, "abc");
            assert_eq!(form.email, "bob@example.com");
            assert_eq!(form.password, "pw");
        }
        _ => panic!("expected the login request"),
    }
    match c.on_login_status(200) {
        Action::Get { url } => assert_eq!(url, format!("https://hackmd.io/api/overview/team/{}", team)),
        _ => panic!("expected the listing request"),
    }
    assert_eq!(c.current_phase(), Phase::Listing);
    c
}

#[test]
fn crawl_runs_the_steps_in_order() {
    let mut c = logged_in("rust");
    let mut outstanding: Vec<usize> = Vec::new();
    let mut action = c.on_listing(200, listing(12));
    loop {
        match action {
            Action::Download { index, url } => {
                assert_eq!(url, format!("https://hackmd.io/id{}/download", index));
                outstanding.push(index);
                assert!(outstanding.len() <= 5);
                action = c.next_download();
            }
            Action::Wait => {
                let i = outstanding.remove(0);
                assert!(c.is_in_flight(i));
                let body = if i == 7 { None } else { Some(format!("text {}", i)) };
                action = c.on_downloaded(i, body);
            }
            Action::Finished => break,
            _ => panic!("unexpected action"),
        }
    }
    assert_eq!(c.current_phase(), Phase::Done);
    let pages = c.into_pages();
    assert_eq!(pages.len(), 12);
    for (i, p) in pages.iter().enumerate() {
        assert_eq!(p.id, format!("id{}", i));
        if i == 7 {
            assert_eq!(p.content, None);
        } else {
            assert_eq!(p.content, Some(format!("text {}", i)));
        }
    }
}

#[test]
fn crawl_of_empty_team_finishes() {
    let mut c = logged_in("empty");
    assert!(matches!(c.on_listing(200, Vec::new()), Action::Finished));
    assert!(c.into_pages().is_empty());
}

#[test]
fn crawl_fails_without_token() {
    let (mut c, _) = Crawl::start("rust".to_string());
    match c.on_landing_page("<html></html>") {
        Action::Fail { error } => assert_eq!(error, FetchError::TokenNotFound),
        _ => panic!("expected a failure"),
    }
    assert_eq!(c.current_phase(), Phase::Failed);
}

#[test]
fn crawl_fails_on_rejected_login() {
    let (mut c, _) = Crawl::start("rust".to_string());
    c.on_landing_page(LANDING);
    c.on_credentials("bob", "bad".to_string());
    match c.on_login_status(401) {
        Action::Fail { error } => assert_eq!(error, FetchError::LoginFailure),
        _ => panic!("expected a failure"),
    }
    assert_eq!(c.current_phase(), Phase::Failed);
}

#[test]
fn crawl_fails_on_listing_error() {
    let mut c = logged_in("rust");
    match c.on_listing(500, listing(3)) {
        Action::Fail { error } => assert_eq!(error, FetchError::ListingFailure),
        _ => panic!("expected a failure"),
    }
    assert_eq!(c.current_phase(), Phase::Failed);
}
