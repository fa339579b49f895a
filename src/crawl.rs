use vstd::prelude::*;
use crate::auth::{
    CSRF_PATTERN,
    LoginForm,
    check_listing,
    check_login,
    extract_csrf_token,
    is_success_status,
    login_form,
    regex_first_group,
    trimmed,
};
use crate::download::{DownloadQueue, Slot};
use crate::endpoints::{SERVER_URL, download_url, landing_url, listing_url, login_url};
use crate::error::FetchError;
use crate::page::{Page, key_of, text_of};

verus! {

/// The steps of a crawl, in the only order they can happen.
#[derive(PartialEq, Eq, Structural, Clone, Copy, Debug)]
pub enum Phase {
    FetchToken,
    AwaitCredentials,
    Login,
    Listing,
    Downloading,
    Done,
    Failed,
}

/// What the crawl asks its driver to do next.
pub enum Action {
    /// Send a GET request to `url` and report the answer.
    Get { url: String },
    /// Ask the user for a user name line and a password.
    PromptCredentials,
    /// Post the login form to `url`, with the CSRF token as a header.
    PostLogin { url: String, token: String, form: LoginForm },
    /// Download the raw text at `url` for the page at `index`.
    Download { index: usize, url: String },
    /// Wait for an outstanding download to finish.
    Wait,
    /// Every download has finished: the pages are ready.
    Finished,
    /// A mandatory step failed: the crawl is over.
    Fail { error: FetchError },
}

/// One crawl of a team: the authenticated fetch pipeline as a state machine.
/// Each step is taken only after the one before it succeeded; a failure of a
/// mandatory step ends the crawl, a failed download only leaves its page
/// without content.
pub struct Crawl {
    phase: Phase,
    team: String,
    token: String,
    queue: DownloadQueue,
}

impl Crawl {
    pub closed spec fn phase(&self) -> Phase {
        self.phase
    }

    pub closed spec fn team(&self) -> Seq<char> {
        self.team@
    }

    /// The CSRF token, once the landing page gave one.
    pub closed spec fn token(&self) -> Seq<char> {
        self.token@
    }

    /// The downloads, once the listing came.
    pub closed spec fn queue(&self) -> DownloadQueue {
        self.queue
    }

    pub closed spec fn wf(&self) -> bool {
        &&& self.queue.wf()
        &&& self.phase == Phase::Done ==> forall|j: int|
            0 <= j < self.queue.listing().len() ==> self.queue.spec_slots()[j] == Slot::Done
    }

    /// A crawl of `team`; its first step fetches the landing page.
    pub fn start(team: String) -> (r: (Crawl, Action))
        ensures
            r.0.wf(),
            r.0.phase() == Phase::FetchToken,
            r.0.team() == team@,
            r.1 matches Action::Get { url } && url@ == SERVER_URL@,
    {
        let crawl = Crawl {
            phase: Phase::FetchToken,
            team,
            token: String::new(),
            queue: DownloadQueue::new(Vec::new()),
        };
        (crawl, Action::Get { url: landing_url() })
    }

    /// Takes the landing page: with a token the user is asked to log in,
    /// without one the crawl fails.
    pub fn on_landing_page(&mut self, body: &str) -> (r: Action)
        requires
            old(self).wf(),
            old(self).phase() == Phase::FetchToken,
        ensures
            final(self).wf(),
            final(self).team() == old(self).team(),
            match regex_first_group(CSRF_PATTERN@, body@) {
                Some(t) => {
                    &&& final(self).phase() == Phase::AwaitCredentials
                    &&& final(self).token() == t
                    &&& r is PromptCredentials
                },
                None => {
                    &&& final(self).phase() == Phase::Failed
                    &&& r matches Action::Fail { error } && error == FetchError::TokenNotFound
                },
            },
    {
        match extract_csrf_token(body) {
            Ok(t) => {
                self.token = t;
                self.phase = Phase::AwaitCredentials;
                Action::PromptCredentials
            },
            Err(error) => {
                self.phase = Phase::Failed;
                Action::Fail { error }
            },
        }
    }

    /// Takes the credentials and asks for the login request.
    pub fn on_credentials(&mut self, user_line: &str, password: String) -> (r: Action)
        requires
            old(self).wf(),
            old(self).phase() == Phase::AwaitCredentials,
        ensures
            final(self).wf(),
            final(self).team() == old(self).team(),
            final(self).token() == old(self).token(),
            final(self).phase() == Phase::Login,
            match r {
                Action::PostLogin { url, token, form } => {
                    &&& url@ == SERVER_URL@ + "/login"@
                    &&& token@ == old(self).token()
                    &&& form.email@ == trimmed(user_line@)
                    &&& form.password@ == password@
                },
                _ => false,
            },
    {
        self.phase = Phase::Login;
        let form = login_form(user_line, password);
        Action::PostLogin { url: login_url(), token: self.token.clone(), form }
    }

    /// Takes the status of the login answer: on success the team listing is
    /// asked for, otherwise the crawl fails.
    pub fn on_login_status(&mut self, status: u16) -> (r: Action)
        requires
            old(self).wf(),
            old(self).phase() == Phase::Login,
        ensures
            final(self).wf(),
            final(self).team() == old(self).team(),
            is_success_status(status) ==> final(self).phase() == Phase::Listing && (r matches Action::Get { url } && url@ == SERVER_URL@ + "/api/overview/team/"@ + old(self).team()),
            !is_success_status(status) ==> final(self).phase() == Phase::Failed && (r matches Action::Fail { error } && error == FetchError::LoginFailure),
    {
        match check_login(status) {
            Ok(()) => {
                self.phase = Phase::Listing;
                Action::Get { url: listing_url(self.team.as_str()) }
            },
            Err(error) => {
                self.phase = Phase::Failed;
                Action::Fail { error }
            },
        }
    }

    /// Takes the listing answer: its status and the pages it held, in its
    /// order. On success the downloads begin; otherwise the crawl fails.
    pub fn on_listing(&mut self, status: u16, pages: Vec<Page>) -> (r: Action)
        requires
            old(self).wf(),
            old(self).phase() == Phase::Listing,
        ensures
            final(self).wf(),
            !is_success_status(status) ==> final(self).phase() == Phase::Failed && (r matches Action::Fail { error } && error == FetchError::ListingFailure),
            is_success_status(status) ==> {
                &&& final(self).queue().listing().len() == pages@.len()
                &&& forall|i: int|
                    0 <= i < pages@.len() ==> final(self).queue().listing()[i] == key_of(
                        #[trigger] pages@[i],
                    )
                &&& pages@.len() == 0 ==> final(self).phase() == Phase::Done && r is Finished
                &&& pages@.len() > 0 ==> final(self).phase() == Phase::Downloading && (r matches Action::Download { index, url } && index == 0 && url@ == SERVER_URL@ + "/"@ + pages@[0].id@ + "/download"@)
            },
    {
        match check_listing(status) {
            Ok(()) => {
                let ghost given = pages@;
                self.queue = DownloadQueue::new(pages);
                self.phase = Phase::Downloading;
                proof {
                    if given.len() > 0 {
                        assert(self.queue.spec_slots()[0] == Slot::Waiting);
                        assert(self.queue.listing()[0] == key_of(given[0]));
                    }
                }
                self.next_download()
            },
            Err(error) => {
                self.phase = Phase::Failed;
                Action::Fail { error }
            },
        }
    }

    /// Starts the next download if a slot is free, reports that all are
    /// finished, or asks to wait for one that is outstanding.
    pub fn next_download(&mut self) -> (r: Action)
        requires
            old(self).wf(),
            old(self).phase() == Phase::Downloading,
        ensures
            final(self).wf(),
            final(self).queue().listing() == old(self).queue().listing(),
            final(self).queue().fetched() == old(self).queue().fetched(),
            final(self).queue().spec_pages() == old(self).queue().spec_pages(),
            match r {
                Action::Download { index, url } => {
                    &&& final(self).phase() == Phase::Downloading
                    &&& old(self).queue().spec_in_flight() < crate::download::MAX_CONCURRENT
                    &&& index < old(self).queue().listing().len()
                    &&& old(self).queue().spec_slots()[index as int] == Slot::Waiting
                    &&& forall|j: int|
                        0 <= j < index ==> old(self).queue().spec_slots()[j] != Slot::Waiting
                    &&& final(self).queue().spec_slots() == old(self).queue().spec_slots().update(
                        index as int,
                        Slot::InFlight,
                    )
                    &&& url@ == SERVER_URL@ + "/"@ + old(self).queue().listing()[index as int].0
                        + "/download"@
                },
                Action::Wait => {
                    &&& final(self).phase() == Phase::Downloading
                    &&& final(self).queue().spec_slots() == old(self).queue().spec_slots()
                    &&& final(self).queue().spec_in_flight() == old(self).queue().spec_in_flight()
                    &&& old(self).queue().spec_in_flight() > 0
                },
                Action::Finished => {
                    &&& final(self).phase() == Phase::Done
                    &&& final(self).queue().spec_slots() == old(self).queue().spec_slots()
                    &&& final(self).queue().spec_in_flight() == old(self).queue().spec_in_flight()
                },
                _ => false,
            },
    {
        match self.queue.start_next() {
            Some(index) => {
                let url = download_url(self.queue.page(index).id.as_str());
                Action::Download { index, url }
            },
            None => {
                if self.queue.is_finished() {
                    self.phase = Phase::Done;
                    Action::Finished
                } else {
                    proof {
                        if self.queue.spec_in_flight() == 0 {
                            crate::download::lemma_no_in_flight_contra(&self.queue);
                        }
                    }
                    Action::Wait
                }
            },
        }
    }

    /// Takes the end of the download of the page at `index`: its text, or
    /// `None` where it failed after its retries. Only that page changes, and
    /// the crawl goes on either way.
    pub fn on_downloaded(&mut self, index: usize, body: Option<String>) -> (r: Action)
        requires
            old(self).wf(),
            old(self).phase() == Phase::Downloading,
            index < old(self).queue().listing().len(),
            old(self).queue().spec_slots()[index as int] == Slot::InFlight,
        ensures
            final(self).wf(),
            final(self).queue().listing() == old(self).queue().listing(),
            final(self).queue().fetched() == old(self).queue().fetched().update(
                index as int,
                text_of(body),
            ),
            text_of(final(self).queue().spec_pages()[index as int].content) == text_of(body),
            forall|j: int|
                0 <= j < old(self).queue().listing().len() && j != index ==> final(self).queue().spec_pages()[j]
                    == old(self).queue().spec_pages()[j],
            r is Download || r is Wait || r is Finished,
            r is Finished <==> final(self).phase() == Phase::Done,
            !(r is Finished) ==> final(self).phase() == Phase::Downloading,
    {
        proof {
            crate::download::lemma_listing_order_kept(&self.queue);
        }
        self.queue.complete(index, body);
        self.next_download()
    }

    /// The current step.
    pub fn current_phase(&self) -> (r: Phase)
        ensures
            r == self.phase(),
    {
        self.phase
    }

    /// Whether the download of the page at `index` is outstanding.
    pub fn is_in_flight(&self, index: usize) -> (r: bool)
        requires
            self.wf(),
        ensures
            r == (index < self.queue().listing().len() && self.queue().spec_slots()[index as int]
                == Slot::InFlight),
    {
        self.queue.is_in_flight(index)
    }

    /// The pages of a finished crawl: the listing's pages in its order, each
    /// with the text its download brought, or none where it failed.
    pub fn into_pages(self) -> (r: Vec<Page>)
        requires
            self.wf(),
            self.phase() == Phase::Done,
        ensures
            r@.len() == self.queue().listing().len(),
            forall|j: int|
                0 <= j < r@.len() ==> key_of(#[trigger] r@[j]) == self.queue().listing()[j],
            forall|j: int|
                0 <= j < r@.len() ==> #[trigger] text_of(r@[j].content) == self.queue().fetched()[j],
    {
        self.queue.into_pages()
    }
}

} // verus!
