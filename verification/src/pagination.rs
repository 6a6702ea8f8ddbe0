//! Paginated collections: following the `next` link of each page until there
//! is none, and concatenating the results in page order.
//!
//! The [`Pager`] decides which request comes next; the program around the
//! library sends it and hands the decoded page back.

use vstd::prelude::*;
use crate::http::{json_content, request_headers, token_text, Method, Request};
use crate::text::optional_text;
use crate::token::Token;

verus! {

/// One page of a collection, as the backend wraps it.
#[derive(Debug, Clone, PartialEq, Eq)]
pub struct Page<T> {
    pub count: usize,
    pub next: Option<String>,
    pub previous: Option<String>,
    pub results: Vec<T>,
}

/// The mathematical value of a [`Page`].
pub struct PageView<T> {
    pub count: usize,
    pub next: Option<Seq<char>>,
    pub previous: Option<Seq<char>>,
    pub results: Seq<T>,
}

impl<T> View for Page<T> {
    type V = PageView<T>;

    open spec fn view(&self) -> PageView<T> {
        PageView {
            count: self.count,
            next: optional_text(self.next),
            previous: optional_text(self.previous),
            results: self.results@,
        }
    }
}

/// The state of one paginated fetch.
pub struct PagerView<T> {
    /// The results gathered so far, in page order.
    pub items: Seq<T>,
    /// How many pages were fetched.
    pub issued: nat,
    /// How many pages may be fetched at most.
    pub limit: nat,
    /// Where the next page is: the first path at the start, then the `next`
    /// link of the page fetched last.
    pub link: Option<Seq<char>>,
}

impl<T> PagerView<T> {
    /// The state before the first request.
    pub open spec fn start(first: Seq<char>, limit: nat) -> PagerView<T> {
        PagerView { items: Seq::empty(), issued: 0, limit, link: Some(first) }
    }

    /// The target of the request that is to be issued now; `None` once the
    /// fetch is over.
    pub open spec fn pending(self) -> Option<Seq<char>> {
        if self.issued < self.limit {
            self.link
        } else {
            None
        }
    }

    /// Whether the fetch is over.
    pub open spec fn finished(self) -> bool {
        self.pending() is None
    }

    /// Whether the fetch ended at the limit with a further page still linked.
    pub open spec fn truncated(self) -> bool {
        self.issued >= self.limit && self.link is Some
    }

    /// The state after `page` answered the pending request. A page that
    /// answers no request changes nothing.
    pub open spec fn accept(self, page: PageView<T>) -> PagerView<T> {
        if self.pending() is Some {
            PagerView {
                items: self.items + page.results,
                issued: self.issued + 1,
                limit: self.limit,
                link: page.next,
            }
        } else {
            self
        }
    }

    /// The state after each of `pages` answered a request, in order.
    pub open spec fn accept_all(self, pages: Seq<PageView<T>>) -> PagerView<T>
        decreases pages.len(),
    {
        if pages.len() == 0 {
            self
        } else {
            self.accept(pages.first()).accept_all(pages.drop_first())
        }
    }
}

/// The results of a list of pages, concatenated in page order.
pub open spec fn concatenated<T>(pages: Seq<PageView<T>>) -> Seq<T>
    decreases pages.len(),
{
    if pages.len() == 0 {
        Seq::empty()
    } else {
        pages.first().results + concatenated(pages.drop_first())
    }
}

/// Whether `pages` is a chain that a well-behaved backend serves: every page
/// but the last links a next one, and the last links none.
pub open spec fn is_chain<T>(pages: Seq<PageView<T>>) -> bool {
    &&& pages.len() > 0
    &&& forall|i: int| 0 <= i < pages.len() - 1 ==> (#[trigger] pages[i]).next is Some
    &&& pages.last().next is None
}

/// Materialises a paginated collection, one page at a time.
#[derive(Debug)]
pub struct Pager<T> {
    items: Vec<T>,
    issued: usize,
    limit: usize,
    link: Option<String>,
}

impl<T> View for Pager<T> {
    type V = PagerView<T>;

    closed spec fn view(&self) -> PagerView<T> {
        PagerView {
            items: self.items@,
            issued: self.issued as nat,
            limit: self.limit as nat,
            link: optional_text(self.link),
        }
    }
}

impl<T> Pager<T> {
    /// A fetch that starts at `first_path` and follows at most `limit` pages.
    pub fn new(first_path: &str, limit: usize) -> (pager: Self)
        ensures
            pager@ == PagerView::<T>::start(first_path@, limit as nat),
    {
        Pager { items: Vec::new(), issued: 0, limit, link: Some(first_path.to_owned()) }
    }

    /// The target of the request that is to be issued now: the first path, or
    /// the `next` link of the page before. `None` once the fetch is over.
    pub fn pending(&self) -> (target: Option<&str>)
        ensures
            match target {
                Some(text) => self@.pending() == Some(text@),
                None => self@.pending() is None,
            },
    {
        if self.issued < self.limit {
            match &self.link {
                Some(text) => Some(text.as_str()),
                None => None,
            }
        } else {
            None
        }
    }

    /// The request that is to be issued now. The first goes to the first path
    /// on the backend at `base`; each later one goes to the `next` link as the
    /// backend gave it.
    pub fn request(&self, base: &str, bearer: Option<&Token>) -> (request: Option<Request>)
        ensures
            match request {
                Some(get) => {
                    &&& self@.pending() is Some
                    &&& get.method == Method::Get
                    &&& get.url@ == if self@.issued == 0 {
                        base@ + self@.pending()->0
                    } else {
                        self@.pending()->0
                    }
                    &&& get.body is None
                    &&& get@.headers == request_headers(json_content(), token_text(bearer))
                },
                None => self@.pending() is None,
            },
    {
        match self.pending() {
            Some(target) => {
                let origin = if self.issued == 0 {
                    base
                } else {
                    ""
                };
                proof {
                    reveal_strlit("");
                }
                Some(Request::get(origin, target, bearer))
            },
            None => None,
        }
    }

    /// Takes the page that answered the pending request: its results go
    /// behind those gathered so far, and its `next` link is where the fetch
    /// goes on. Returns whether a request was pending; a page that answers
    /// none is dropped.
    pub fn accept(&mut self, page: Page<T>) -> (taken: bool)
        ensures
            taken == old(self)@.pending() is Some,
            final(self)@ == old(self)@.accept(page@),
    {
        if self.issued < self.limit && self.link.is_some() {
            let mut page = page;
            self.items.append(&mut page.results);
            self.issued = self.issued + 1;
            self.link = page.next;
            true
        } else {
            false
        }
    }

    /// Whether the fetch is over: the last page linked no further one, or the
    /// limit is reached.
    pub fn is_finished(&self) -> (finished: bool)
        ensures
            finished == self@.finished(),
    {
        !(self.issued < self.limit && self.link.is_some())
    }

    /// Whether the fetch stopped at the limit although a further page was
    /// linked, so that the results are not the whole collection.
    pub fn is_truncated(&self) -> (truncated: bool)
        ensures
            truncated == self@.truncated(),
    {
        self.issued >= self.limit && self.link.is_some()
    }

    /// How many pages were fetched.
    pub fn pages_fetched(&self) -> (issued: usize)
        ensures
            issued == self@.issued,
    {
        self.issued
    }

    /// The results gathered so far, in page order.
    pub fn into_items(self) -> (items: Vec<T>)
        ensures
            items@ == self@.items,
    {
        self.items
    }
}

/// However many pages come back, and whatever they link, no more than `limit`
/// of them are fetched: a backend whose links form a cycle cannot keep the
/// client busy for ever.
pub proof fn lemma_fetch_is_bounded<T>(state: PagerView<T>, pages: Seq<PageView<T>>)
    requires
        state.issued <= state.limit,
    ensures
        state.accept_all(pages).issued <= state.limit,
        state.accept_all(pages).limit == state.limit,
    decreases pages.len(),
{
    if pages.len() > 0 {
        lemma_fetch_is_bounded(state.accept(pages.first()), pages.drop_first());
    }
}

/// From a state with a request pending, a chain of pages that fits under the
/// limit is taken whole: its results follow those gathered before, in page
/// order, one request is issued per page, and the fetch is then over.
pub proof fn lemma_chain_is_followed<T>(state: PagerView<T>, pages: Seq<PageView<T>>)
    requires
        is_chain(pages),
        state.link is Some,
        state.issued + pages.len() <= state.limit,
    ensures
        state.accept_all(pages).items == state.items + concatenated(pages),
        state.accept_all(pages).issued == state.issued + pages.len(),
        state.accept_all(pages).finished(),
        !state.accept_all(pages).truncated(),
    decreases pages.len(),
{
    let after = state.accept(pages.first());
    let rest = pages.drop_first();
    if rest.len() == 0 {
        assert(concatenated(rest) =~= Seq::<T>::empty());
    } else {
        assert(is_chain(rest)) by {
            assert forall|i: int| 0 <= i < rest.len() - 1 implies (#[trigger] rest[i]).next is Some by {
                assert(rest[i] == pages[i + 1]);
            }
        }
        lemma_chain_is_followed(after, rest);
    }
}

/// Fetching a whole collection: started at any first path, a chain of pages
/// that fits under the limit yields exactly the concatenation of the pages'
/// results, in page order, with one request per page.
pub proof fn lemma_fetch_all_collects<T>(first: Seq<char>, limit: nat, pages: Seq<PageView<T>>)
    requires
        is_chain(pages),
        pages.len() <= limit,
    ensures
        PagerView::<T>::start(first, limit).accept_all(pages).items == concatenated(pages),
        PagerView::<T>::start(first, limit).accept_all(pages).issued == pages.len(),
        PagerView::<T>::start(first, limit).accept_all(pages).finished(),
        !PagerView::<T>::start(first, limit).accept_all(pages).truncated(),
{
    let state = PagerView::<T>::start(first, limit);
    lemma_chain_is_followed(state, pages);
}

} // verus!
