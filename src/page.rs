use vstd::prelude::*;

verus! {

/// One document of the team: its listing fields and, once downloaded, its text.
pub struct Page {
    pub id: String,
    pub title: String,
    pub lastchange_at: String,
    pub content: Option<String>,
}

/// The listing fields of a page, which identify it and fix its place.
pub type PageKey = (Seq<char>, Seq<char>, Seq<char>);

pub open spec fn key_of(p: Page) -> PageKey {
    (p.id@, p.title@, p.lastchange_at@)
}

pub open spec fn text_of(o: Option<String>) -> Option<Seq<char>> {
    match o {
        Some(s) => Some(s@),
        None => None,
    }
}

impl Page {
    /// A page as the listing gives it, with no content yet.
    pub fn new(id: String, title: String, lastchange_at: String) -> (r: Page)
        ensures
            r.id@ == id@,
            r.title@ == title@,
            r.lastchange_at@ == lastchange_at@,
            r.content is None,
    {
        Page { id, title, lastchange_at, content: None }
    }
}

} // verus!
