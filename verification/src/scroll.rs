//! The scroll-pagination state machine: owns cursor, page buffer, buffer
//! position and counters, decides when a first or a continuation page must
//! be fetched, installs fetched pages, and detects exhaustion.
//!
//! The machine never performs a fetch itself: [`Scroll::advance`] hands out a
//! [`FetchRequest`] describing the HTTP POST to make, and the caller feeds
//! the parsed response back through [`Scroll::apply_page`].

use vstd::prelude::*;
use vstd::string::*;
use crate::auth::AuthString;

verus! {

/// Total hit count reported by the server.
#[derive(Debug, Clone, PartialEq, Eq, Structural)]
pub struct SearchHitsTotal {
    pub value: u32,
}

/// One page of results: the raw document values and the total hit count.
#[derive(Debug)]
pub struct SearchHitsMetadata {
    pub hits: Vec<String>,
    pub total: SearchHitsTotal,
}

/// A parsed scroll response: the (possibly new) cursor and the page.
#[derive(Debug)]
pub struct SearchResponse {
    pub scroll_id: String,
    pub hits: SearchHitsMetadata,
}

/// Description of the HTTP POST the caller must perform next.
#[derive(Debug)]
pub struct FetchRequest {
    /// Where to POST.
    pub endpoint: String,
    /// The request body.
    pub body: String,
    /// True for the initial search, false for a continuation.
    pub initial: bool,
    /// Number of this fetch, starting at 1; for diagnostics.
    pub page_number: u32,
}

/// Outcome of one `advance` step.
#[derive(Debug)]
pub enum Advance {
    /// The next document, taken from the current page buffer.
    Item(String),
    /// A page must be fetched and fed back through `apply_page`.
    Fetch(FetchRequest),
    /// The result set is exhausted; every later step returns this again.
    End,
}

/// Endpoint of the initial search: `{host}/{index}/_search?scroll=1m`.
pub open spec fn initial_endpoint(host: Seq<char>, index: Seq<char>) -> Seq<char> {
    host + "/"@ + index + "/_search?scroll=1m"@
}

/// Endpoint of a continuation fetch: `{host}/_search/scroll`.
pub open spec fn continuation_endpoint(host: Seq<char>) -> Seq<char> {
    host + "/_search/scroll"@
}

/// Body of a continuation fetch: `{"scroll":"1m","scroll_id":"<cursor>"}`.
pub open spec fn continuation_body(cursor: Seq<char>) -> Seq<char> {
    "{\"scroll\":\"1m\",\"scroll_id\":\""@ + cursor + "\"}"@
}

/// The scroll session state.
#[derive(Debug)]
pub struct Scroll {
    /// Base URL of the search cluster.
    pub host: String,
    /// Target index name.
    pub index: String,
    /// Optional credential, rendered into an authorization header by the caller.
    pub auth: Option<AuthString>,
    /// The search request body, sent on the initial fetch.
    pub query_body: String,
    /// Total hit count reported by the first page; informational.
    pub result_size: u32,
    /// Number of fetches requested so far.
    pub page_number: u32,
    /// Index of the next unread item in the page buffer.
    pub buffer_pointer: usize,
    /// The server-side scroll cursor; absent before the first page arrives.
    pub scroll_pointer: Option<String>,
    /// The current page of raw document values.
    pub scroll_buffer: Vec<String>,
    /// True once a fetched page came back empty; terminal.
    pub exhausted: bool,
}

impl Scroll {
    /// Session well-formedness: the buffer position never passes the buffer.
    pub open spec fn inv(self) -> bool {
        self.buffer_pointer <= self.scroll_buffer.len()
    }

    /// A fetch is needed exactly when the session is not exhausted and the
    /// buffer position has caught up to the buffer length.
    pub open spec fn needs_fetch(self) -> bool {
        !self.exhausted && self.buffer_pointer >= self.scroll_buffer.len()
    }

    /// A fresh session: no cursor, no buffer, nothing fetched, not exhausted.
    pub fn new(host: String, index: String, auth: Option<AuthString>, query_body: String) -> (r:
        Scroll)
        ensures
            r.host == host,
            r.index == index,
            r.auth == auth,
            r.query_body == query_body,
            r.result_size == 0,
            r.page_number == 0,
            r.buffer_pointer == 0,
            r.scroll_pointer is None,
            r.scroll_buffer@ == Seq::<String>::empty(),
            !r.exhausted,
            r.inv(),
    {
        Scroll {
            host,
            index,
            auth,
            query_body,
            result_size: 0,
            page_number: 0,
            buffer_pointer: 0,
            scroll_pointer: None,
            scroll_buffer: Vec::new(),
            exhausted: false,
        }
    }

    /// The one externally driven transition.
    ///
    /// Once exhausted, every call returns `End` and changes nothing, so no
    /// further fetch is ever requested. While an unread item remains in the
    /// page buffer it is returned and the position moves forward by one.
    /// Otherwise a fetch is requested: the very first fetch (and only it)
    /// targets the initial-search endpoint with the stored query body,
    /// whatever value the cursor field happens to hold; every later fetch
    /// targets the continuation endpoint with a body naming the cursor.
    pub fn advance(&mut self) -> (r: Advance)
        requires
            old(self).inv(),
            old(self).needs_fetch() ==> old(self).page_number < u32::MAX,
            (old(self).needs_fetch() && old(self).page_number > 0) ==> old(
                self,
            ).scroll_pointer is Some,
        ensures
            final(self).inv(),
            (r is End <==> old(self).exhausted),
            old(self).exhausted ==> *final(self) == *old(self),
            (!old(self).exhausted && old(self).buffer_pointer < old(self).scroll_buffer.len())
                ==> ({
                &&& r matches Advance::Item(doc) && doc == old(self).scroll_buffer@[old(
                    self,
                ).buffer_pointer as int]
                &&& *final(self) == (Scroll {
                    buffer_pointer: (old(self).buffer_pointer + 1) as usize,
                    ..*old(self)
                })
            }),
            old(self).needs_fetch() ==> ({
                &&& *final(self) == (Scroll {
                    page_number: (old(self).page_number + 1) as u32,
                    ..*old(self)
                })
                &&& r matches Advance::Fetch(req) && ({
                    &&& req.page_number == old(self).page_number + 1
                    &&& req.initial == (old(self).page_number == 0)
                    &&& (old(self).page_number == 0 ==> req.endpoint@ == initial_endpoint(
                        old(self).host@,
                        old(self).index@,
                    ) && req.body@ == old(self).query_body@)
                    &&& (old(self).page_number > 0 ==> req.endpoint@ == continuation_endpoint(
                        old(self).host@,
                    ) && req.body@ == continuation_body(old(self).scroll_pointer->Some_0@))
                })
            }),
    {
        if self.exhausted {
            return Advance::End;
        }
        if self.buffer_pointer < self.scroll_buffer.len() {
            let doc = self.scroll_buffer[self.buffer_pointer].clone();
            self.buffer_pointer = self.buffer_pointer + 1;
            return Advance::Item(doc);
        }
        self.page_number = self.page_number + 1;
        if self.page_number == 1 {
            let mut endpoint = self.host.clone();
            endpoint.append("/");
            endpoint.append(self.index.as_str());
            endpoint.append("/_search?scroll=1m");
            proof {
                assert(endpoint@ =~= initial_endpoint(self.host@, self.index@));
            }
            let body = self.query_body.clone();
            Advance::Fetch(
                FetchRequest { endpoint, body, initial: true, page_number: self.page_number },
            )
        } else {
            let cursor: String = match &self.scroll_pointer {
                Some(c) => c.clone(),
                None => vstd::pervasive::unreached(),
            };
            let mut endpoint = self.host.clone();
            endpoint.append("/_search/scroll");
            proof {
                assert(endpoint@ =~= continuation_endpoint(self.host@));
            }
            let mut body = String::from_str("{\"scroll\":\"1m\",\"scroll_id\":\"");
            body.append(cursor.as_str());
            body.append("\"}");
            proof {
                assert(body@ =~= continuation_body(cursor@));
            }
            Advance::Fetch(
                FetchRequest { endpoint, body, initial: false, page_number: self.page_number },
            )
        }
    }

    /// Installs a fetched page: the buffer is replaced wholesale, the buffer
    /// position resets to 0, the cursor takes the reported scroll id, and the
    /// session is exhausted exactly when the page is empty. The expected
    /// total is recorded from the first page only (no cursor held yet) and
    /// ignored thereafter. Host, index, credential, query and page counter
    /// are untouched.
    pub fn apply_page(&mut self, page: SearchResponse)
        requires
            old(self).inv(),
        ensures
            final(self).inv(),
            final(self).scroll_buffer == page.hits.hits,
            final(self).buffer_pointer == 0,
            final(self).scroll_pointer == Some(page.scroll_id),
            final(self).exhausted == (page.hits.hits@.len() == 0),
            old(self).scroll_pointer is None ==> final(self).result_size == page.hits.total.value,
            old(self).scroll_pointer is Some ==> final(self).result_size == old(self).result_size,
            final(self).host == old(self).host,
            final(self).index == old(self).index,
            final(self).auth == old(self).auth,
            final(self).query_body == old(self).query_body,
            final(self).page_number == old(self).page_number,
    {
        let SearchResponse { scroll_id, hits } = page;
        let SearchHitsMetadata { hits, total } = hits;
        if self.scroll_pointer.is_none() {
            self.result_size = total.value;
        }
        self.scroll_buffer = hits;
        self.exhausted = self.scroll_buffer.len() == 0;
        self.scroll_pointer = Some(scroll_id);
        self.buffer_pointer = 0;
    }
}

/// Builds a fresh scroll session over the given host, index, credential and
/// query body.
pub fn scroll(host: String, index: String, auth: Option<AuthString>, query_body: String) -> (r:
    Scroll)
    ensures
        r.host == host,
        r.index == index,
        r.auth == auth,
        r.query_body == query_body,
        r.result_size == 0,
        r.page_number == 0,
        r.buffer_pointer == 0,
        r.scroll_pointer is None,
        r.scroll_buffer@ == Seq::<String>::empty(),
        !r.exhausted,
        r.inv(),
{
    Scroll::new(host, index, auth, query_body)
}

} // verus!
