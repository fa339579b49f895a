use vstd::prelude::*;
use crate::page::{Page, PageKey, key_of, text_of};

verus! {

/// The most downloads that may be outstanding at once.
pub const MAX_CONCURRENT: usize = 5;

/// Where one page's download stands.
#[derive(PartialEq, Eq, Structural, Clone, Copy, Debug)]
pub enum Slot {
    Waiting,
    InFlight,
    Done,
}

/// The number of slots that are in flight.
pub open spec fn in_flight_count(s: Seq<Slot>) -> nat
    decreases s.len(),
{
    if s.len() == 0 {
        0
    } else {
        in_flight_count(s.drop_last()) + if s.last() == Slot::InFlight {
            1nat
        } else {
            0nat
        }
    }
}

proof fn lemma_count_update(s: Seq<Slot>, i: int, v: Slot)
    requires
        0 <= i < s.len(),
    ensures
        in_flight_count(s.update(i, v)) + (if s[i] == Slot::InFlight {
            1int
        } else {
            0int
        }) == in_flight_count(s) + (if v == Slot::InFlight {
            1int
        } else {
            0int
        }),
    decreases s.len(),
{
    let t = s.update(i, v);
    if i == s.len() - 1 {
        assert(t.drop_last() =~= s.drop_last());
    } else {
        assert(t.drop_last() =~= s.drop_last().update(i, v));
        lemma_count_update(s.drop_last(), i, v);
    }
}

proof fn lemma_count_zero(s: Seq<Slot>)
    requires
        in_flight_count(s) == 0,
    ensures
        forall|i: int| 0 <= i < s.len() ==> s[i] != Slot::InFlight,
    decreases s.len(),
{
    if s.len() > 0 {
        lemma_count_zero(s.drop_last());
        assert forall|i: int| 0 <= i < s.len() implies s[i] != Slot::InFlight by {
            if i < s.len() - 1 {
                assert(s[i] == s.drop_last()[i]);
            }
        }
    }
}

/// The pages of a team listing and the state of their downloads.
///
/// Downloads are started in listing order, at most `MAX_CONCURRENT` at a time,
/// and may finish in any order; each result is written back to the page it was
/// started for, so the pages keep the listing's order and fields whatever the
/// timing. A failed download leaves its page without content.
pub struct DownloadQueue {
    pages: Vec<Page>,
    slots: Vec<Slot>,
    next: usize,
    in_flight: usize,
    listing: Ghost<Seq<PageKey>>,
    fetched: Ghost<Seq<Option<Seq<char>>>>,
}

impl DownloadQueue {
    /// The pages as they stand now.
    pub closed spec fn spec_pages(&self) -> Seq<Page> {
        self.pages@
    }

    /// Where each page's download stands.
    pub closed spec fn spec_slots(&self) -> Seq<Slot> {
        self.slots@
    }

    /// The listing fields of each page, in listing order, as the queue was made.
    pub closed spec fn listing(&self) -> Seq<PageKey> {
        self.listing@
    }

    /// What each finished download brought: its text, or nothing on failure.
    pub closed spec fn fetched(&self) -> Seq<Option<Seq<char>>> {
        self.fetched@
    }

    /// The number of downloads started and not yet finished.
    pub closed spec fn spec_in_flight(&self) -> nat {
        self.in_flight as nat
    }

    pub closed spec fn wf(&self) -> bool {
        let n = self.pages@.len();
        &&& self.slots@.len() == n
        &&& self.listing@.len() == n
        &&& self.fetched@.len() == n
        &&& self.next <= n
        &&& self.in_flight as nat == in_flight_count(self.slots@)
        &&& self.in_flight <= MAX_CONCURRENT
        &&& forall|i: int| 0 <= i < n ==> (i < self.next <==> self.slots@[i] != Slot::Waiting)
        &&& forall|i: int| 0 <= i < n ==> key_of(#[trigger] self.pages@[i]) == self.listing@[i]
        &&& forall|i: int|
            0 <= i < n ==> #[trigger] text_of(self.pages@[i].content) == if self.slots@[i]
                == Slot::Done {
                self.fetched@[i]
            } else {
                None
            }
    }

    /// A queue over the pages of a listing, none of them started; any content
    /// that the listing carried is dropped.
    pub fn new(listing: Vec<Page>) -> (r: DownloadQueue)
        ensures
            r.wf(),
            r.listing().len() == listing@.len(),
            forall|i: int| 0 <= i < listing@.len() ==> r.listing()[i] == key_of(#[trigger] listing@[i]),
            forall|i: int| 0 <= i < listing@.len() ==> r.spec_slots()[i] == Slot::Waiting,
            r.spec_in_flight() == 0,
            r.spec_pages().len() == listing@.len(),
            forall|i: int| 0 <= i < listing@.len() ==> (#[trigger] r.spec_pages()[i]).content is None,
            forall|i: int| 0 <= i < listing@.len() ==> (#[trigger] r.fetched()[i]) is None,
    {
        let mut pages: Vec<Page> = Vec::new();
        let mut slots: Vec<Slot> = Vec::new();
        let ghost given = listing@;
        let ghost mut fetched: Seq<Option<Seq<char>>> = Seq::empty();
        let mut i: usize = 0;
        let n = listing.len();
        while i < n
            invariant
                n == given.len(),
                listing@ == given,
                i <= n,
                pages@.len() == i,
                slots@.len() == i,
                fetched.len() == i,
                forall|j: int| 0 <= j < i ==> (#[trigger] fetched[j]) is None,
                in_flight_count(slots@) == 0,
                forall|j: int| 0 <= j < i ==> slots@[j] == Slot::Waiting,
                forall|j: int| 0 <= j < i ==> key_of(#[trigger] pages@[j]) == key_of(given[j]),
                forall|j: int| 0 <= j < i ==> (#[trigger] pages@[j]).content is None,
            decreases n - i,
        {
            let p = &listing[i];
            pages.push(
                Page {
                    id: p.id.clone(),
                    title: p.title.clone(),
                    lastchange_at: p.lastchange_at.clone(),
                    content: None,
                },
            );
            proof {
                assert(slots@.push(Slot::Waiting).drop_last() =~= slots@);
            }
            slots.push(Slot::Waiting);
            proof {
                fetched = fetched.push(None);
            }
            i = i + 1;
        }
        DownloadQueue {
            pages,
            slots,
            next: 0,
            in_flight: 0,
            listing: Ghost(Seq::new(n as nat, |j: int| key_of(given[j]))),
            fetched: Ghost(fetched),
        }
    }

    /// The number of pages in the listing.
    pub fn len(&self) -> (r: usize)
        requires
            self.wf(),
        ensures
            r == self.listing().len(),
    {
        self.pages.len()
    }

    /// The number of downloads started and not yet finished.
    pub fn in_flight(&self) -> (r: usize)
        requires
            self.wf(),
        ensures
            r == self.spec_in_flight(),
    {
        self.in_flight
    }

    /// The page at `index`, as it stands now.
    pub fn page(&self, index: usize) -> (r: &Page)
        requires
            self.wf(),
            index < self.listing().len(),
        ensures
            *r == self.spec_pages()[index as int],
            key_of(*r) == self.listing()[index as int],
    {
        &self.pages[index]
    }

    /// Whether the download of the page at `index` was started and has not finished.
    pub fn is_in_flight(&self, index: usize) -> (r: bool)
        requires
            self.wf(),
        ensures
            r == (index < self.listing().len() && self.spec_slots()[index as int]
                == Slot::InFlight),
    {
        index < self.slots.len() && self.slots[index] == Slot::InFlight
    }

    /// Starts the next waiting download, in listing order, when fewer than
    /// `MAX_CONCURRENT` are outstanding; returns the index of its page.
    pub fn start_next(&mut self) -> (r: Option<usize>)
        requires
            old(self).wf(),
        ensures
            final(self).wf(),
            final(self).listing() == old(self).listing(),
            final(self).fetched() == old(self).fetched(),
            final(self).spec_pages() == old(self).spec_pages(),
            match r {
                Some(i) => {
                    &&& old(self).spec_in_flight() < MAX_CONCURRENT
                    &&& i < old(self).listing().len()
                    &&& old(self).spec_slots()[i as int] == Slot::Waiting
                    &&& forall|j: int|
                        0 <= j < i ==> old(self).spec_slots()[j] != Slot::Waiting
                    &&& final(self).spec_slots() == old(self).spec_slots().update(
                        i as int,
                        Slot::InFlight,
                    )
                    &&& final(self).spec_in_flight() == old(self).spec_in_flight() + 1
                },
                None => {
                    &&& (old(self).spec_in_flight() == MAX_CONCURRENT || forall|j: int|
                        0 <= j < old(self).listing().len() ==> old(self).spec_slots()[j]
                            != Slot::Waiting)
                    &&& final(self).spec_slots() == old(self).spec_slots()
                    &&& final(self).spec_in_flight() == old(self).spec_in_flight()
                },
            },
    {
        if self.in_flight < MAX_CONCURRENT && self.next < self.pages.len() {
            let i = self.next;
            proof {
                lemma_count_update(self.slots@, i as int, Slot::InFlight);
            }
            self.slots.set(i, Slot::InFlight);
            self.next = i + 1;
            self.in_flight = self.in_flight + 1;
            Some(i)
        } else {
            None
        }
    }

    /// Records the end of the download of the page at `index`: its text, or
    /// `None` where it failed. Only that page changes.
    pub fn complete(&mut self, index: usize, body: Option<String>)
        requires
            old(self).wf(),
            index < old(self).listing().len(),
            old(self).spec_slots()[index as int] == Slot::InFlight,
        ensures
            final(self).wf(),
            final(self).listing() == old(self).listing(),
            final(self).fetched() == old(self).fetched().update(index as int, text_of(body)),
            final(self).spec_slots() == old(self).spec_slots().update(index as int, Slot::Done),
            final(self).spec_in_flight() + 1 == old(self).spec_in_flight(),
            final(self).spec_pages().len() == old(self).spec_pages().len(),
            text_of(final(self).spec_pages()[index as int].content) == text_of(body),
            forall|j: int|
                0 <= j < old(self).spec_pages().len() && j != index ==> final(self).spec_pages()[j]
                    == old(self).spec_pages()[j],
    {
        proof {
            lemma_count_update(self.slots@, index as int, Slot::Done);
        }
        self.slots.set(index, Slot::Done);
        self.in_flight = self.in_flight - 1;
        let ghost body_text = text_of(body);
        let old_page = &self.pages[index];
        let updated = Page {
            id: old_page.id.clone(),
            title: old_page.title.clone(),
            lastchange_at: old_page.lastchange_at.clone(),
            content: body,
        };
        self.pages.set(index, updated);
        self.fetched = Ghost(self.fetched@.update(index as int, body_text));
    }

    /// Whether every download was started and has finished.
    pub fn is_finished(&self) -> (r: bool)
        requires
            self.wf(),
        ensures
            r == forall|j: int| 0 <= j < self.listing().len() ==> self.spec_slots()[j] == Slot::Done,
    {
        proof {
            if self.in_flight == 0 {
                lemma_count_zero(self.slots@);
            }
            if self.next < self.pages.len() {
                assert(self.slots@[self.next as int] == Slot::Waiting);
            }
            if self.in_flight > 0 {
                if forall|j: int| 0 <= j < self.listing().len() ==> self.slots@[j] == Slot::Done {
                    lemma_no_in_flight(self.slots@);
                }
            }
        }
        self.next == self.pages.len() && self.in_flight == 0
    }

    /// The pages, once every download has finished: the listing's pages in its
    /// order, each with the text its download brought or none where it failed.
    pub fn into_pages(self) -> (r: Vec<Page>)
        requires
            self.wf(),
            forall|j: int| 0 <= j < self.listing().len() ==> self.spec_slots()[j] == Slot::Done,
        ensures
            r@.len() == self.listing().len(),
            forall|j: int| 0 <= j < r@.len() ==> key_of(#[trigger] r@[j]) == self.listing()[j],
            forall|j: int|
                0 <= j < r@.len() ==> #[trigger] text_of(r@[j].content) == self.fetched()[j],
    {
        proof {
            assert forall|j: int| 0 <= j < self.pages@.len() implies #[trigger] text_of(
                self.pages@[j].content,
            ) == self.fetched@[j] by {
                assert(self.spec_slots()[j] == Slot::Done);
            }
        }
        self.pages
    }
}

pub(crate) proof fn lemma_no_in_flight(s: Seq<Slot>)
    requires
        forall|j: int| 0 <= j < s.len() ==> s[j] != Slot::InFlight,
    ensures
        in_flight_count(s) == 0,
    decreases s.len(),
{
    if s.len() > 0 {
        lemma_no_in_flight(s.drop_last());
    }
}

/// However the downloads are interleaved and in whatever order they finish,
/// no more than `MAX_CONCURRENT` of them are ever outstanding.
pub proof fn lemma_in_flight_bounded(q: &DownloadQueue)
    requires
        q.wf(),
    ensures
        q.spec_in_flight() == in_flight_count(q.spec_slots()),
        in_flight_count(q.spec_slots()) <= MAX_CONCURRENT,
{
}

/// In every state the queue holds exactly the listing's pages, in the
/// listing's order and with its fields, whatever order downloads finished in.
pub proof fn lemma_listing_order_kept(q: &DownloadQueue)
    requires
        q.wf(),
    ensures
        q.spec_pages().len() == q.listing().len(),
        forall|i: int| 0 <= i < q.listing().len() ==> key_of(#[trigger] q.spec_pages()[i]) == q.listing()[i],
{
}

/// Once every download has finished, a page has content exactly when its own
/// download succeeded, and then the text that download brought; a failed
/// download leaves only its own page without content.
pub proof fn lemma_content_follows_downloads(q: &DownloadQueue)
    requires
        q.wf(),
        forall|i: int| 0 <= i < q.listing().len() ==> q.spec_slots()[i] == Slot::Done,
    ensures
        forall|i: int|
            0 <= i < q.listing().len() ==> #[trigger] text_of(q.spec_pages()[i].content)
                == q.fetched()[i],
        forall|i: int|
            0 <= i < q.listing().len() ==> ((#[trigger] q.spec_pages()[i]).content is Some <==> q.fetched()[i] is Some),
{
    assert forall|i: int| 0 <= i < q.listing().len() implies #[trigger] text_of(
        q.spec_pages()[i].content,
    ) == q.fetched()[i] by {
        assert(q.spec_slots()[i] == Slot::Done);
    }
    assert forall|i: int| 0 <= i < q.listing().len() implies ((#[trigger] q.spec_pages()[i]).content is Some <==> q.fetched()[i] is Some) by {
        assert(text_of(q.spec_pages()[i].content) == q.fetched()[i]);
    }
}

pub(crate) proof fn lemma_no_in_flight_contra(q: &DownloadQueue)
    requires
        q.wf(),
        q.spec_in_flight() == 0,
        forall|j: int| 0 <= j < q.listing().len() ==> q.spec_slots()[j] != Slot::Waiting,
    ensures
        forall|j: int| 0 <= j < q.listing().len() ==> q.spec_slots()[j] == Slot::Done,
{
    lemma_count_zero(q.slots@);
}

} // verus!
