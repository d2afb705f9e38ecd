//! Paging through a Soniox storage listing: each page is requested with the
//! cursor the previous page returned, within a page budget and an item cap,
//! and a cursor the server repeats ends the listing with an error instead of
//! looping.
use vstd::prelude::*;
use crate::shortcuts::StringSet;
use crate::stt::SttError;
use crate::text::{chars_of, string_of};

verus! {

broadcast use vstd::string::group_string_axioms;

/// Pages one listing may request.
pub const MAX_LIST_PAGES: u64 = 100;

/// Records (decoded or not) one listing may return.
pub const MAX_LISTED_ITEMS: u64 = 100_000;

/// The `next_page_cursor` of a page: absent or `null`, a string (empty
/// means the last page), or anything else.
#[derive(Debug, Clone, PartialEq, Eq)]
pub enum NextCursor {
    Absent,
    Text(String),
    Invalid,
}

/// The progress of one listing.
pub struct PageListing {
    pages: u64,
    decoded: u64,
    skipped: u64,
    cursor: Option<String>,
    seen: StringSet,
}

impl PageListing {
    /// Pages requested so far.
    pub closed spec fn pages(&self) -> nat {
        self.pages as nat
    }

    /// Records decoded so far.
    pub closed spec fn decoded(&self) -> nat {
        self.decoded as nat
    }

    /// Records that did not decode so far.
    pub closed spec fn skipped_count(&self) -> nat {
        self.skipped as nat
    }

    /// The cursor the next page is requested with.
    pub closed spec fn cursor(&self) -> Option<Seq<char>> {
        match self.cursor {
            Some(c) => Some(c@),
            None => None,
        }
    }

    /// The cursors the server has handed out.
    pub closed spec fn seen(&self) -> Set<Seq<char>> {
        self.seen.set()
    }

    /// Within the page budget and the item cap.
    pub closed spec fn wf(&self) -> bool {
        &&& self.seen.wf()
        &&& self.pages <= MAX_LIST_PAGES
        &&& self.decoded + self.skipped <= MAX_LISTED_ITEMS
    }

    /// A listing that has requested nothing yet.
    pub fn new() -> (r: Self)
        ensures
            r.wf(),
            r.pages() == 0,
            r.decoded() == 0,
            r.skipped_count() == 0,
            r.cursor() is None,
            r.seen() == Set::<Seq<char>>::empty(),
    {
        PageListing { pages: 0, decoded: 0, skipped: 0, cursor: None, seen: StringSet::new() }
    }

    /// Records that did not decode (the caller treats their reference
    /// state as unknown).
    pub fn skipped(&self) -> (r: u64)
        ensures
            r == self.skipped_count(),
    {
        self.skipped
    }

    /// Starts the next page: its cursor (`None` for the first page). Fails
    /// once the page budget is spent or the item cap is reached.
    pub fn begin_page(&mut self) -> (r: Result<Option<String>, SttError>)
        requires
            old(self).wf(),
        ensures
            r is Err <==> (old(self).pages() + 1 > MAX_LIST_PAGES || old(self).decoded() + old(self).skipped_count()
                >= MAX_LISTED_ITEMS),
            r is Err ==> r == Err::<Option<String>, SttError>(SttError::BadResponse),
            r matches Ok(c) ==> match c {
                Some(s) => old(self).cursor() == Some(s@),
                None => old(self).cursor() is None,
            },
            r is Ok ==> final(self).wf() && final(self).pages() == old(self).pages() + 1 && final(self).decoded()
                == old(self).decoded() && final(self).skipped_count() == old(self).skipped_count()
                && final(self).cursor() == old(self).cursor() && final(self).seen() == old(self).seen(),
    {
        if self.pages + 1 > MAX_LIST_PAGES || self.decoded + self.skipped >= MAX_LISTED_ITEMS {
            return Err(SttError::BadResponse);
        }
        self.pages = self.pages + 1;
        match &self.cursor {
            Some(c) => Ok(Some(string_of(&chars_of(c.as_str())))),
            None => Ok(None),
        }
    }

    /// Ends a page that held `decoded` records that decoded and `skipped`
    /// that did not, and named `next` as its next cursor. `Ok(true)` asks
    /// for another page; `Ok(false)` ends the listing. Fails when the item
    /// cap is passed, the cursor is malformed, or the server repeats a
    /// cursor.
    pub fn end_page(&mut self, decoded: u64, skipped: u64, next: NextCursor) -> (r: Result<bool, SttError>)
        requires
            old(self).wf(),
            old(self).decoded() + old(self).skipped_count() < MAX_LISTED_ITEMS,
        ensures
            r is Err ==> r == Err::<bool, SttError>(SttError::BadResponse),
            old(self).decoded() + old(self).skipped_count() + decoded + skipped > MAX_LISTED_ITEMS ==> r is Err,
            old(self).decoded() + old(self).skipped_count() + decoded + skipped <= MAX_LISTED_ITEMS ==> match next {
                NextCursor::Invalid => r is Err,
                NextCursor::Absent => r == Ok::<bool, SttError>(false) && final(self).cursor() is None,
                NextCursor::Text(c) => if c@.len() == 0 {
                    r == Ok::<bool, SttError>(false) && final(self).cursor() is None
                } else if old(self).seen().contains(c@) {
                    r is Err
                } else {
                    r == Ok::<bool, SttError>(true) && final(self).cursor() == Some(c@) && final(self).seen()
                        == old(self).seen().insert(c@)
                },
            },
            r is Ok ==> final(self).wf() && final(self).pages() == old(self).pages() && final(self).decoded()
                == old(self).decoded() + decoded && final(self).skipped_count() == old(self).skipped_count()
                + skipped,
            r == Ok::<bool, SttError>(false) ==> final(self).seen() == old(self).seen(),
    {
        if decoded > MAX_LISTED_ITEMS || skipped > MAX_LISTED_ITEMS || self.decoded + self.skipped + decoded + skipped
            > MAX_LISTED_ITEMS {
            return Err(SttError::BadResponse);
        }
        self.decoded = self.decoded + decoded;
        self.skipped = self.skipped + skipped;
        match next {
            NextCursor::Invalid => Err(SttError::BadResponse),
            NextCursor::Absent => {
                self.cursor = None;
                Ok(false)
            },
            NextCursor::Text(c) => {
                if c.unicode_len() == 0 {
                    self.cursor = None;
                    return Ok(false);
                }
                if !self.seen.insert(c.as_str()) {
                    return Err(SttError::BadResponse);
                }
                self.cursor = Some(c);
                Ok(true)
            },
        }
    }
}

/// A listing never requests more than `MAX_LIST_PAGES` pages: every
/// operation keeps the page count within the budget (and `begin_page`
/// refuses a request beyond it).
pub proof fn law_listing_page_budget(l: PageListing)
    requires
        l.wf(),
    ensures
        l.pages() <= MAX_LIST_PAGES,
{
}

} // verus!
