//! The pagination walk, as an explicit state machine.
//!
//! The walk holds the accumulator, the current cursor and the per-page
//! retry counter. The surrounding runtime owns the outside work: it
//! performs each issued `Request`, sleeps each issued backoff, and hands
//! the outcome back; every decision in between is made — and verified —
//! here. `begin` yields the first request; `on_outcome` consumes what one
//! attempt produced and yields the next action; `on_slept` re-issues the
//! request after a backoff. The walk ends in `Finished` with the JSON
//! array of all accumulated events, or in `Failed` with the terminal
//! error, discarding the accumulation.

use vstd::prelude::*;

use crate::page::Page;
use crate::page::json_array_text;
use crate::page::parse_page;
use crate::page::render_events;
use crate::page::spec_has_more;
use crate::query::Request;
use crate::query::build_request;
use crate::query::opt_view;
use crate::query::spec_url;
use crate::retry::Cause;
use crate::retry::Class;
use crate::retry::FetchError;
use crate::retry::MAX_RETRIES;
use crate::retry::Outcome;
use crate::retry::classify;
use crate::retry::spec_class;

verus! {

/// Where the walk stands.
pub enum Phase {
    /// A request for the current cursor is outstanding.
    Fetching,
    /// A backoff sleep is outstanding.
    Backoff,
    /// The walk ended, in success or in failure.
    Done,
}

/// The walk's state: what the request is made of (slug, filter, key), the
/// accumulated events, the cursor carried from the previous page, and the
/// retry counter of the current page fetch.
pub struct Session {
    pub slug: String,
    pub event_type: Option<String>,
    pub api_key: Option<String>,
    pub events: Vec<serde_json::Value>,
    pub cursor: Option<String>,
    pub retries: u8,
    pub phase: Phase,
}

/// What the runtime is to do next.
pub enum Action {
    /// Issue this request, then hand the outcome to `on_outcome`.
    Request(Request),
    /// Report the retry, sleep `secs` seconds, then call `on_slept`;
    /// this is retry `attempt` of `MAX_RETRIES`, for the given cause.
    Sleep { secs: u64, attempt: u8, cause: Cause },
    /// The walk is complete: the JSON array of all accumulated events.
    Finished(String),
    /// The walk failed; nothing of the accumulation survives.
    Failed(FetchError),
}

impl Session {
    /// The state invariant: the retry counter stays within the budget,
    /// and a held cursor is never empty.
    pub open spec fn wf(self) -> bool {
        &&& self.retries <= MAX_RETRIES
        &&& (self.cursor matches Some(c) ==> c@.len() > 0)
    }

    /// The walk's identity: the request ingredients never change.
    pub open spec fn same_target(self, other: Session) -> bool {
        &&& self.slug == other.slug
        &&& self.event_type == other.event_type
        &&& self.api_key == other.api_key
    }
}

/// What holds after a fetched page, with events `page_events` and cursor
/// `next`, is applied to the walk `pre`: the page's events are appended,
/// in order, to the accumulator; with a non-empty cursor the walk carries
/// it into the next request and resets the retry counter; without one the
/// walk finishes with the serialized accumulation.
pub open spec fn page_applied(
    pre: Session,
    page_events: Seq<serde_json::Value>,
    next: Option<Seq<char>>,
    post: Session,
    a: Action,
) -> bool {
    &&& post.events@ == pre.events@ + page_events
    &&& pre.same_target(post)
    &&& if spec_has_more(next) {
        &&& post.phase is Fetching
        &&& post.retries == 0
        &&& opt_view(post.cursor) == next
        &&& a matches Action::Request(req) && req.url@ == spec_url(
            pre.slug@,
            opt_view(pre.event_type),
            next,
        ) && opt_view(req.api_key) == opt_view(pre.api_key)
    } else {
        &&& post.phase is Done
        &&& a matches Action::Finished(text) && text@ == json_array_text(post.events@)
    }
}

/// What holds after the body of a 2xx response is consumed: a body that
/// serde_json does not parse fails the walk with the serialization error,
/// touching nothing else; a body that parses has exactly the page it
/// denotes — `asset_events` when an array, `next` when a string — applied
/// to the walk.
pub open spec fn success_applied(pre: Session, body: Seq<char>, post: Session, a: Action) -> bool {
    if !crate::page::json_ok(body) {
        &&& a == Action::Failed(FetchError::Serialization)
        &&& post.phase is Done
        &&& post.events@ == pre.events@
        &&& pre.same_target(post)
    } else {
        page_applied(
            pre,
            crate::page::events_of_body(crate::page::json_value_of(body)),
            crate::page::next_of_body(crate::page::json_value_of(body)),
            post,
            a,
        )
    }
}

/// Starts a walk: an empty accumulator, no cursor, a fresh retry budget,
/// and the request for the first page.
pub fn begin(slug: String, event_type: Option<String>, api_key: Option<String>) -> (r: (
    Session,
    Request,
))
    ensures
        r.0.wf(),
        r.0.phase is Fetching,
        r.0.slug == slug,
        r.0.event_type == event_type,
        r.0.api_key == api_key,
        r.0.events@ == Seq::<serde_json::Value>::empty(),
        r.0.cursor is None,
        r.0.retries == 0,
        r.1.url@ == spec_url(slug@, opt_view(event_type), None),
        opt_view(r.1.api_key) == opt_view(api_key),
{
    let s = Session {
        slug,
        event_type,
        api_key,
        events: Vec::new(),
        cursor: None,
        retries: 0,
        phase: Phase::Fetching,
    };
    let req = build_request(&s.slug, &s.event_type, &s.cursor, &s.api_key);
    (s, req)
}

impl Session {
    /// Applies one fetched page: appends its events and either carries
    /// the cursor into the next request or finishes the walk.
    pub fn on_page(&mut self, page: Page) -> (a: Action)
        requires
            old(self).wf(),
            old(self).phase is Fetching,
        ensures
            final(self).wf(),
            page_applied(*old(self), page.events@, opt_view(page.next), *final(self), a),
    {
        let mut page = page;
        self.events.append(&mut page.events);
        match page.next {
            Some(c) => {
                if !c.as_str().is_empty() {
                    self.cursor = Some(c);
                    self.retries = 0;
                    let req = build_request(
                        &self.slug,
                        &self.event_type,
                        &self.cursor,
                        &self.api_key,
                    );
                    Action::Request(req)
                } else {
                    self.phase = Phase::Done;
                    let text = render_events(&self.events);
                    Action::Finished(text)
                }
            },
            None => {
                self.phase = Phase::Done;
                let text = render_events(&self.events);
                Action::Finished(text)
            },
        }
    }

    /// Consumes what one attempt produced. A 2xx body is parsed and its
    /// page applied; a retryable outcome spends one retry and issues a
    /// backoff until the budget is gone, and then fails; any other status
    /// fails at once. Failure changes nothing but the phase: the walk's
    /// result is all events or none.
    pub fn on_outcome(&mut self, o: Outcome) -> (a: Action)
        requires
            old(self).wf(),
            old(self).phase is Fetching,
        ensures
            final(self).wf(),
            old(self).same_target(*final(self)),
            spec_class(o) matches Class::Retry { secs, cause } ==> {
                &&& final(self).events@ == old(self).events@
                &&& final(self).cursor == old(self).cursor
                &&& if old(self).retries < MAX_RETRIES {
                    &&& a == Action::Sleep {
                        secs,
                        attempt: (old(self).retries + 1) as u8,
                        cause,
                    }
                    &&& final(self).phase is Backoff
                    &&& final(self).retries == old(self).retries + 1
                } else {
                    &&& a == Action::Failed(FetchError::RetriesExhausted(cause))
                    &&& final(self).phase is Done
                }
            },
            spec_class(o) matches Class::Fatal(status) ==> {
                &&& a == Action::Failed(FetchError::NonRetryable(status))
                &&& final(self).phase is Done
                &&& final(self).events@ == old(self).events@
            },
            spec_class(o) matches Class::Success(body) ==> success_applied(
                *old(self),
                body@,
                *final(self),
                a,
            ),
    {
        match classify(o) {
            Class::Success(body) => {
                match parse_page(body.as_str()) {
                    Some(page) => {
                        let ghost pre = *self;
                        let ghost page_events = page.events@;
                        let ghost next = opt_view(page.next);
                        let a = self.on_page(page);
                        proof {
                            assert(page_applied(pre, page_events, next, *self, a));
                        }
                        a
                    },
                    None => {
                        self.phase = Phase::Done;
                        Action::Failed(FetchError::Serialization)
                    },
                }
            },
            Class::Retry { secs, cause } => {
                if self.retries < MAX_RETRIES {
                    self.retries = self.retries + 1;
                    self.phase = Phase::Backoff;
                    Action::Sleep { secs, attempt: self.retries, cause }
                } else {
                    self.phase = Phase::Done;
                    Action::Failed(FetchError::RetriesExhausted(cause))
                }
            },
            Class::Fatal(status) => {
                self.phase = Phase::Done;
                Action::Failed(FetchError::NonRetryable(status))
            },
        }
    }

    /// Ends a backoff: the same page's request is issued again, with the
    /// accumulator, cursor and retry count untouched.
    pub fn on_slept(&mut self) -> (req: Request)
        requires
            old(self).wf(),
            old(self).phase is Backoff,
        ensures
            final(self).wf(),
            old(self).same_target(*final(self)),
            final(self).phase is Fetching,
            final(self).events@ == old(self).events@,
            final(self).cursor == old(self).cursor,
            final(self).retries == old(self).retries,
            req.url@ == spec_url(
                old(self).slug@,
                opt_view(old(self).event_type),
                opt_view(old(self).cursor),
            ),
            opt_view(req.api_key) == opt_view(old(self).api_key),
    {
        self.phase = Phase::Fetching;
        build_request(&self.slug, &self.event_type, &self.cursor, &self.api_key)
    }
}

} // verus!
