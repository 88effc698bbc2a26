//! The auto-paginating state machine: it turns page-based search into one
//! ordered item sequence, hiding page boundaries.
//!
//! The machine itself performs no I/O. A driver asks it what to do next with
//! `poll_next`; when the answer is `Fetch`, the driver performs the request
//! and hands the outcome back through `feed_page` or `feed_error`, then
//! polls again. Both a blocking iterator and a suspending stream are thin
//! adapters over these three calls, so the two cannot diverge. One instance
//! must be driven by one owner at a time; concurrent pulls on the same
//! instance are out of contract.
//!
//! The first request is a probe with the limit forced to one: the backing
//! service has been observed to report a wrong total when the first request
//! asks for a large page, so the authoritative total is learned from a
//! limit-one request, and the configured limit is used from the second
//! request on.

use std::collections::VecDeque;

use vstd::prelude::*;

use crate::params::ProjectSearchParams;
use crate::response::{Error, PaginatedResponse};

verus! {

/// What a driver should do after one poll: hand the item out, report the
/// error, perform the described fetch and feed the outcome back, or stop.
pub enum PollResult<T> {
    Item(T),
    Failed(Error),
    Fetch(String),
    Finished,
}

/// The paginator over items of type `T`. It owns a private copy of the
/// search parameters, whose offset it advances; a FIFO buffer of items
/// received but not yet handed out; the total once the server has reported
/// it; and the error state.
pub struct SearchResultsPaginator<T> {
    /// Private copy of the parameters; `offset` is always present and
    /// advances as items arrive. `limit` stays as configured: the probe uses
    /// a copy with limit one.
    pub params: ProjectSearchParams,
    /// Items received from the server and not yet handed out, in arrival
    /// order.
    pub buffer: VecDeque<T>,
    /// The server-reported total, immutable once observed.
    pub total_hits: Option<usize>,
    /// An error received and not yet handed out.
    pub pending_error: Option<Error>,
    /// Whether an error has been handed out; terminal.
    pub errored: bool,
    /// The offset the paginator started at.
    pub init_offset: Ghost<nat>,
    /// How many items have been handed out.
    pub yielded: Ghost<nat>,
}

impl<T> SearchResultsPaginator<T> {
    /// The current offset: the index of the next item to fetch.
    pub open spec fn offset(self) -> nat {
        match self.params.offset {
            Some(o) => o as nat,
            None => 0,
        }
    }

    /// Structural invariant: the offset equals the initial offset plus every
    /// item received, handed out or still buffered.
    pub open spec fn wf(self) -> bool {
        &&& self.params.offset is Some
        &&& self.offset() == self.init_offset@ + self.yielded@ + self.buffer@.len()
        &&& self.errored ==> self.pending_error is None
    }

    /// Whether `post` holds exactly the state `pre` held, the buffer
    /// compared by its contents.
    pub open spec fn unchanged(pre: Self, post: Self) -> bool {
        &&& post.params == pre.params
        &&& post.buffer@ == pre.buffer@
        &&& post.total_hits == pre.total_hits
        &&& post.pending_error == pre.pending_error
        &&& post.errored == pre.errored
        &&& post.yielded == pre.yielded
        &&& post.init_offset == pre.init_offset
    }

    /// Whether the next poll would have to fetch a page: no terminal or
    /// pending error, an empty buffer, and either no total yet (the probe is
    /// still owed) or items left on the server.
    pub open spec fn spec_needs_fetch(self) -> bool {
        &&& !self.errored
        &&& self.pending_error is None
        &&& self.buffer@.len() == 0
        &&& match self.total_hits {
            None => true,
            Some(t) => self.offset() < t,
        }
    }

    /// The parameters of the next request: the probe forces limit one until
    /// the total is known; afterwards the configured parameters are used as
    /// they stand.
    pub open spec fn spec_request(self) -> ProjectSearchParams {
        if self.total_hits is None {
            ProjectSearchParams {
                query: self.params.query,
                facets: self.params.facets,
                index: self.params.index,
                offset: self.params.offset,
                limit: Some(1usize),
                filters: self.params.filters,
            }
        } else {
            self.params
        }
    }

    /// Creates a paginator over `params`. A missing offset starts at zero;
    /// nothing else of the parameters is touched.
    pub fn new(params: ProjectSearchParams) -> (r: Self)
        ensures
            r.wf(),
            r.params.offset == (if params.offset is Some {
                params.offset
            } else {
                Some(0usize)
            }),
            r.params.query == params.query,
            r.params.facets == params.facets,
            r.params.index == params.index,
            r.params.limit == params.limit,
            r.params.filters == params.filters,
            r.total_hits is None,
            r.buffer@.len() == 0,
            r.pending_error is None,
            !r.errored,
            r.yielded@ == 0,
            r.init_offset@ == r.offset(),
            r.spec_needs_fetch(),
    {
        let mut params = params;
        if params.offset.is_none() {
            params.offset = Some(0);
        }
        let ghost init = match params.offset {
            Some(o) => o as nat,
            None => 0,
        };
        SearchResultsPaginator {
            params,
            buffer: VecDeque::new(),
            total_hits: None,
            pending_error: None,
            errored: false,
            init_offset: Ghost(init),
            yielded: Ghost(0nat),
        }
    }

    /// A conservative size hint: zero items are always safe to expect, and
    /// the upper bound is unknown until the first page has arrived.
    pub fn size_hint(&self) -> (r: (usize, Option<usize>))
        ensures
            r.0 == 0usize,
            r.1 == self.total_hits,
    {
        (0, self.total_hits)
    }

    /// Hands the machine the outcome of the fetch it asked for. The total is
    /// adopted only the first time; the hits join the buffer in arrival
    /// order; the offset advances by the number of items received — not by
    /// the nominal limit, so a short final page is handled correctly.
    pub fn feed_page(&mut self, page: PaginatedResponse<T>)
        requires
            old(self).wf(),
            old(self).spec_needs_fetch(),
            old(self).offset() + page.hits@.len() <= usize::MAX,
        ensures
            final(self).wf(),
            final(self).total_hits == (if old(self).total_hits is Some {
                old(self).total_hits
            } else {
                Some(page.total_hits)
            }),
            final(self).buffer@ == page.hits@,
            final(self).offset() == old(self).offset() + page.hits@.len(),
            final(self).pending_error is None,
            !final(self).errored,
            final(self).yielded == old(self).yielded,
            final(self).init_offset == old(self).init_offset,
            final(self).params.query == old(self).params.query,
            final(self).params.facets == old(self).params.facets,
            final(self).params.index == old(self).params.index,
            final(self).params.limit == old(self).params.limit,
            final(self).params.filters == old(self).params.filters,
    {
        if self.total_hits.is_none() {
            self.total_hits = Some(page.total_hits);
        }
        let mut hits = page.hits;
        let received = hits.len();
        let ghost self0 = *self;
        let ghost hits0 = hits@;
        while hits.len() > 0
            invariant
                self.buffer@ + hits@ == self0.buffer@ + hits0,
                self.params == self0.params,
                self.total_hits == self0.total_hits,
                self.pending_error == self0.pending_error,
                self.errored == self0.errored,
                self.yielded == self0.yielded,
                self.init_offset == self0.init_offset,
            decreases hits@.len(),
        {
            let item = hits.remove(0);
            self.buffer.push_back(item);
            proof {
                assert(self.buffer@ + hits@ =~= self0.buffer@ + hits0);
            }
        }
        proof {
            assert(self.buffer@ =~= self.buffer@ + hits@);
            assert(self.buffer@ =~= hits0);
        }
        let offset = match self.params.offset {
            Some(o) => o,
            None => 0,
        };
        self.params.offset = Some(offset + received);
    }

    /// Hands the machine the failure of the fetch it asked for. The error
    /// waits to be handed out exactly once by the next poll.
    pub fn feed_error(&mut self, error: Error)
        requires
            old(self).wf(),
            old(self).spec_needs_fetch(),
        ensures
            final(self).wf(),
            final(self).pending_error == Some(error),
            !final(self).errored,
            final(self).buffer == old(self).buffer,
            final(self).total_hits == old(self).total_hits,
            final(self).params == old(self).params,
            final(self).yielded == old(self).yielded,
            final(self).init_offset == old(self).init_offset,
            !final(self).spec_needs_fetch(),
    {
        self.pending_error = Some(error);
    }

    /// One pull. In a terminal state nothing happens; a pending error is
    /// handed out exactly once and ends the sequence; a buffered item is
    /// handed out without any network need; an exhausted sequence finishes;
    /// otherwise the machine asks its driver to fetch.
    pub fn poll_next(&mut self) -> (r: PollResult<T>)
        requires
            old(self).wf(),
        ensures
            final(self).wf(),
            old(self).errored ==> (r is Finished && Self::unchanged(*old(self), *final(self))),
            !old(self).errored ==> (old(self).pending_error matches Some(e) ==> (r
                matches PollResult::Failed(e2) && e2 == e && final(self).errored
                && final(self).pending_error is None
                && final(self).buffer@ == old(self).buffer@
                && final(self).total_hits == old(self).total_hits
                && final(self).params == old(self).params
                && final(self).yielded == old(self).yielded)),
            !old(self).errored && old(self).pending_error is None && old(self).buffer@.len() > 0
                ==> (r matches PollResult::Item(it) && it == old(self).buffer@[0]
                && final(self).buffer@ == old(self).buffer@.drop_first()
                && final(self).yielded@ == old(self).yielded@ + 1
                && final(self).errored == old(self).errored
                && final(self).pending_error is None
                && final(self).total_hits == old(self).total_hits
                && final(self).params == old(self).params),
            !old(self).errored && old(self).pending_error is None && old(self).buffer@.len() == 0
                && !old(self).spec_needs_fetch() ==> (r is Finished && Self::unchanged(
                *old(self),
                *final(self),
            )),
            old(self).spec_needs_fetch() ==> (r matches PollResult::Fetch(q) && q@
                == crate::query_string::query_string_chars(old(self).spec_request())
                && Self::unchanged(*old(self), *final(self))),
    {
        if self.errored {
            return PollResult::Finished;
        }
        match self.pending_error.take() {
            Some(e) => {
                self.errored = true;
                return PollResult::Failed(e);
            },
            None => {},
        }
        match self.buffer.pop_front() {
            Some(item) => {
                self.yielded = Ghost(self.yielded@ + 1);
                return PollResult::Item(item);
            },
            None => {},
        }
        let offset = match self.params.offset {
            Some(o) => o,
            None => 0,
        };
        match self.total_hits {
            Some(t) => {
                if offset >= t {
                    return PollResult::Finished;
                }
            },
            None => {},
        }
        let saved = self.params.limit;
        if self.total_hits.is_none() {
            self.params.limit = Some(1);
        }
        let query = self.params.to_query_string();
        self.params.limit = saved;
        PollResult::Fetch(query)
    }
}

/// Law: a paginator whose probe reported a total of zero is exhausted on
/// the spot: the buffer is empty, no item will ever be handed out, and no
/// second request is due — the probe stays the only request issued.
pub proof fn lemma_zero_total_is_exhausted<T>(s: SearchResultsPaginator<T>)
    requires
        s.wf(),
        !s.errored,
        s.pending_error is None,
        s.buffer@.len() == 0,
        s.total_hits == Some(0usize),
    ensures
        !s.spec_needs_fetch(),
{
}

/// Law: the error states are terminal for the network. While an error waits
/// to be handed out, and forever after it has been handed out, no fetch is
/// due: a failed paginator issues no further requests, and `poll_next`
/// yields the error exactly once and then only `Finished`.
pub proof fn lemma_error_is_terminal<T>(s: SearchResultsPaginator<T>)
    requires
        s.errored || s.pending_error is Some,
    ensures
        !s.spec_needs_fetch(),
{
}

} // verus!
