//! Listing all versions of an image, page by page.
//!
//! An [`Enumeration`] says which page to ask for. Its driver sends the request
//! and hands back what came of it; the first empty page ends the listing.

use crate::request::RequestError;
use crate::version::Version;
use vstd::prelude::*;

verus! {

/// Where the listing of an image's versions stands.
#[derive(Debug)]
pub enum Enumeration {
    /// Page `page` is to be asked for; `versions` holds the pages before it.
    Requesting { page: i32, versions: Vec<Version> },
    /// An empty page came: these are all the versions.
    Complete(Vec<Version>),
    /// A request failed, and the listing with it.
    Failed(RequestError),
}

/// An [`Enumeration`] with its versions as a sequence.
pub enum EnumerationView {
    Requesting { page: int, versions: Seq<Version> },
    Complete(Seq<Version>),
    Failed(RequestError),
}

impl View for Enumeration {
    type V = EnumerationView;

    open spec fn view(&self) -> EnumerationView {
        match *self {
            Enumeration::Requesting { page, versions } => EnumerationView::Requesting {
                page: page as int,
                versions: versions@,
            },
            Enumeration::Complete(versions) => EnumerationView::Complete(versions@),
            Enumeration::Failed(error) => EnumerationView::Failed(error),
        }
    }
}

/// What came of a page request: the versions on the page, or an error.
pub type PageReply = Result<Seq<Version>, RequestError>;

/// A page reply with its versions as a sequence.
pub open spec fn reply_view(reply: Result<Vec<Version>, RequestError>) -> PageReply {
    match reply {
        Ok(versions) => Ok(versions@),
        Err(error) => Err(error),
    }
}

/// The listing before anything was asked for: page 1 is next.
pub open spec fn start() -> EnumerationView {
    EnumerationView::Requesting { page: 1, versions: Seq::empty() }
}

/// The state that follows `state` when the page it asked for draws `reply`.
///
/// A page with versions is appended and the next page is asked for. An empty
/// page completes the listing with what was gathered. An error ends the
/// listing, and nothing of what was gathered is kept. A listing that has ended
/// stays as it is.
pub open spec fn next(state: EnumerationView, reply: PageReply) -> EnumerationView {
    match state {
        EnumerationView::Requesting { page, versions } => match reply {
            Err(error) => EnumerationView::Failed(error),
            Ok(fetched) => if fetched.len() == 0 {
                EnumerationView::Complete(versions)
            } else {
                EnumerationView::Requesting { page: page + 1, versions: versions + fetched }
            },
        },
        _ => state,
    }
}

/// What driving a listing amounts to: the state it was left in, and how many
/// pages were asked for.
pub struct Listing {
    pub end: EnumerationView,
    pub requests: nat,
}

/// Drives `state` as far as it goes against a server that answers the page
/// requests, in the order in which they are sent, with `replies`.
///
/// A listing that still asks for a page when the replies run out is left in
/// that state.
pub open spec fn drive(state: EnumerationView, replies: Seq<PageReply>) -> Listing
    decreases replies.len(),
{
    if state is Requesting && replies.len() > 0 {
        let rest = drive(next(state, replies[0]), replies.drop_first());
        Listing { requests: rest.requests + 1, ..rest }
    } else {
        Listing { end: state, requests: 0 }
    }
}

/// The replies of a server that has exactly these pages to give.
pub open spec fn served(pages: Seq<Seq<Version>>) -> Seq<PageReply> {
    pages.map_values(|page: Seq<Version>| Ok::<Seq<Version>, RequestError>(page))
}

/// As long as pages with versions come, each costs one request, its versions
/// are appended in order, and the page after it is asked for.
pub proof fn lemma_pages_are_gathered(
    page: int,
    versions: Seq<Version>,
    pages: Seq<Seq<Version>>,
    then: Seq<PageReply>,
)
    requires
        forall|i: int| 0 <= i < pages.len() ==> (#[trigger] pages[i]).len() > 0,
    ensures
        ({
            let whole = drive(
                EnumerationView::Requesting { page, versions },
                served(pages) + then,
            );
            let rest = drive(
                EnumerationView::Requesting {
                    page: page + pages.len(),
                    versions: versions + pages.flatten(),
                },
                then,
            );
            &&& whole.end == rest.end
            &&& whole.requests == rest.requests + pages.len()
        }),
    decreases pages.len(),
{
    let replies = served(pages) + then;
    if pages.len() > 0 {
        let state = EnumerationView::Requesting { page, versions };
        let tail = pages.drop_first();
        assert(replies.drop_first() =~= served(tail) + then);
        assert(next(state, replies[0]) == EnumerationView::Requesting {
            page: page + 1,
            versions: versions + pages[0],
        });
        assert(forall|i: int| 0 <= i < tail.len() ==> (#[trigger] tail[i]).len() > 0);
        lemma_pages_are_gathered(page + 1, versions + pages[0], tail, then);
        assert((versions + pages[0]) + tail.flatten() =~= versions + pages.flatten());
    }
}

/// The first empty page completes the listing: it holds the versions of all
/// pages before it, in order, and one request was sent for each of those pages
/// and one for the empty page. What the server would have answered after that
/// is never asked for.
pub proof fn lemma_listing_ends_at_first_empty_page(
    pages: Seq<Seq<Version>>,
    then: Seq<PageReply>,
)
    requires
        forall|i: int| 0 <= i < pages.len() ==> (#[trigger] pages[i]).len() > 0,
    ensures
        drive(start(), served(pages) + seq![Ok::<Seq<Version>, RequestError>(Seq::empty())] + then)
            == (Listing {
            end: EnumerationView::Complete(pages.flatten()),
            requests: pages.len() + 1,
        }),
{
    let last = seq![Ok::<Seq<Version>, RequestError>(Seq::empty())] + then;
    lemma_pages_are_gathered(1, Seq::empty(), pages, last);
    assert(served(pages) + seq![Ok::<Seq<Version>, RequestError>(Seq::empty())] + then =~= served(
        pages,
    ) + last);
    lemma_last_page(
        EnumerationView::Requesting { page: 1 + pages.len() as int, versions: pages.flatten() },
        last,
    );
}

/// The first failed request ends the listing with its error: nothing of the
/// pages before it is handed out, and nothing is asked for after it.
pub proof fn lemma_listing_fails_at_first_error(
    pages: Seq<Seq<Version>>,
    error: RequestError,
    then: Seq<PageReply>,
)
    requires
        forall|i: int| 0 <= i < pages.len() ==> (#[trigger] pages[i]).len() > 0,
    ensures
        drive(start(), served(pages) + seq![Err::<Seq<Version>, RequestError>(error)] + then) == (
        Listing { end: EnumerationView::Failed(error), requests: pages.len() + 1 }),
{
    let last = seq![Err::<Seq<Version>, RequestError>(error)] + then;
    lemma_pages_are_gathered(1, Seq::empty(), pages, last);
    assert(served(pages) + seq![Err::<Seq<Version>, RequestError>(error)] + then =~= served(pages)
        + last);
    lemma_last_page(
        EnumerationView::Requesting { page: 1 + pages.len() as int, versions: pages.flatten() },
        last,
    );
}

/// A reply that ends the listing is the last one that is asked for.
proof fn lemma_last_page(state: EnumerationView, replies: Seq<PageReply>)
    requires
        state is Requesting,
        replies.len() > 0,
        !(next(state, replies[0]) is Requesting),
    ensures
        drive(state, replies) == (Listing { end: next(state, replies[0]), requests: 1 }),
{
    assert(drive(next(state, replies[0]), replies.drop_first()).requests == 0);
}

impl Enumeration {
    /// The listing before anything was asked for.
    pub fn new() -> (state: Enumeration)
        ensures
            state@ == start(),
    {
        Enumeration::Requesting { page: 1, versions: Vec::new() }
    }

    /// Moves on by the reply to the page that was asked for.
    ///
    /// The page counter must have room for one more page.
    pub fn step(self, reply: Result<Vec<Version>, RequestError>) -> (state: Enumeration)
        requires
            self matches Enumeration::Requesting { page, .. } ==> page < i32::MAX,
        ensures
            state@ == next(self@, reply_view(reply)),
    {
        match self {
            Enumeration::Requesting { page, mut versions } => match reply {
                Err(error) => Enumeration::Failed(error),
                Ok(mut fetched) => {
                    if fetched.len() == 0 {
                        Enumeration::Complete(versions)
                    } else {
                        versions.append(&mut fetched);
                        Enumeration::Requesting { page: page + 1, versions }
                    }
                },
            },
            ended => ended,
        }
    }
}

} // verus!
