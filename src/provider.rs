use vstd::prelude::*;

use crate::decimal::Decimal;
use crate::error::ExchangeRateError;
use crate::rates::{is_lookup_of, is_not_found, RateTable};

verus! {

/// Resolves rates from an HTTP service that returns, for one base currency, the
/// table of its rates to all others, and keeps the last table it fetched, with
/// that base, as a snapshot to answer from when the service cannot be reached.
/// A snapshot that records another base does not answer.
///
/// The decisions stand here; the caller performs each `Action` (a request, a
/// write or a read of the snapshot) and reports what happened as an `Event`.
pub struct ApiExchangeRateProvider {
    pub base_url: String,
    /// How many requests one resolution may make before it turns to the snapshot.
    pub max_attempts: u32,
}

/// What the caller is asked to do next.
pub enum Action {
    /// Send one GET request to this URL and decode its body as a rate table.
    Fetch(String),
    /// Overwrite the snapshot with this table and the base it records.
    Persist(RateTable),
    /// Read and decode the snapshot.
    ReadSnapshot,
    /// The resolution is over, with this answer.
    Finish(Result<Decimal, ExchangeRateError>),
}

/// What happened when the caller performed an `Action`.
pub enum Event {
    /// The request succeeded and its body decoded to this table.
    Fetched(RateTable),
    /// The request succeeded but its body could not be decoded.
    DecodeFailed(String),
    /// The request did not reach the service.
    FetchFailed(String),
    /// The snapshot was written.
    Persisted,
    /// Writing the snapshot failed.
    PersistFailed(String),
    /// The snapshot was read and decoded to this table.
    SnapshotLoaded(RateTable),
    /// The snapshot is missing, unreadable or malformed.
    SnapshotFailed(String),
}

/// Where a resolution stands.
pub enum Resolution {
    /// A request is out; this many have been made so far.
    Fetching(u32),
    /// The fetched table is being saved; this answer is given once it is.
    Persisting(Result<Decimal, ExchangeRateError>),
    /// The snapshot is being read.
    ReadingSnapshot,
    /// Nothing is left to do.
    Done,
}

impl Resolution {
    /// The events that can answer the action of this state.
    pub open spec fn expects(&self, e: &Event) -> bool {
        match self {
            Resolution::Fetching(_) => e is Fetched || e is DecodeFailed || e is FetchFailed,
            Resolution::Persisting(_) => e is Persisted || e is PersistFailed,
            Resolution::ReadingSnapshot => e is SnapshotLoaded || e is SnapshotFailed,
            Resolution::Done => false,
        }
    }

    /// Whether `e` answers the action of this state.
    pub fn accepts(&self, e: &Event) -> (r: bool)
        ensures
            r == self.expects(e),
    {
        match self {
            Resolution::Fetching(_) => match e {
                Event::Fetched(_) | Event::DecodeFailed(_) | Event::FetchFailed(_) => true,
                _ => false,
            },
            Resolution::Persisting(_) => match e {
                Event::Persisted | Event::PersistFailed(_) => true,
                _ => false,
            },
            Resolution::ReadingSnapshot => match e {
                Event::SnapshotLoaded(_) | Event::SnapshotFailed(_) => true,
                _ => false,
            },
            Resolution::Done => false,
        }
    }
}

/// The snapshot records a base currency other than `from`, so its rates do
/// not answer for `from`.
pub open spec fn snapshot_base_differs(t: RateTable, from: Seq<char>) -> bool {
    t.base_code() matches Some(b) && b != from
}

/// `a` finishes with exactly the error `e`.
pub open spec fn finishes_with(a: Action, e: ExchangeRateError) -> bool {
    a == Action::Finish(Err(e))
}

impl ApiExchangeRateProvider {
    /// The URL of the table of rates for base currency `from`.
    pub open spec fn url_of(&self, from: Seq<char>) -> Seq<char> {
        self.base_url@ + "/latest/"@ + from
    }

    /// A provider for the service at `api_url` that makes one request per resolution.
    pub fn new(api_url: &str) -> (r: Self)
        ensures
            r.base_url@ == api_url@,
            r.max_attempts == 1,
    {
        ApiExchangeRateProvider { base_url: api_url.to_string(), max_attempts: 1 }
    }

    /// Builds the request URL `{base_url}/latest/{from}`.
    pub fn request_url(&self, from: &str) -> (r: String)
        ensures
            r@ == self.url_of(from@),
    {
        let mut url = self.base_url.clone();
        url.append("/latest/");
        url.append(from);
        url
    }

    /// How a resolution of a rate with base `from` begins.
    pub fn start(&self, from: &str) -> (r: (Resolution, Action))
        ensures
            self.max_attempts == 0 ==> r.0 is Done && (r.1 matches Action::Finish(
                Err(ExchangeRateError::NetworkExhausted(_)),
            )),
            self.max_attempts > 0 ==> r.0 == Resolution::Fetching(1) && (r.1 matches Action::Fetch(
                url,
            ) && url@ == self.url_of(from@)),
    {
        if self.max_attempts == 0 {
            (
                Resolution::Done,
                Action::Finish(
                    Err(ExchangeRateError::NetworkExhausted("Exceeded maximum retries".to_string())),
                ),
            )
        } else {
            (Resolution::Fetching(1), Action::Fetch(self.request_url(from)))
        }
    }

    /// The state and action that follow `event` in a resolution of `from -> to`.
    pub open spec fn is_step(
        &self,
        from: Seq<char>,
        to: Seq<char>,
        state: Resolution,
        event: Event,
        next: Resolution,
        action: Action,
    ) -> bool {
        match (state, event) {
            (Resolution::Fetching(_), Event::Fetched(t)) => {
                &&& next matches Resolution::Persisting(answer) && is_lookup_of(answer, t@, from, to)
                &&& action matches Action::Persist(saved) && saved@ == t@ && saved.base_code()
                    == Some(from)
            },
            (Resolution::Fetching(_), Event::DecodeFailed(d)) => {
                &&& next == Resolution::Done
                &&& finishes_with(action, ExchangeRateError::RequestFailed(d))
            },
            (Resolution::Fetching(n), Event::FetchFailed(_)) => if n >= self.max_attempts {
                next == Resolution::ReadingSnapshot && action == Action::ReadSnapshot
            } else {
                &&& next == Resolution::Fetching((n + 1) as u32)
                &&& action matches Action::Fetch(url) && url@ == self.url_of(from)
            },
            (Resolution::Persisting(answer), Event::Persisted) => {
                next == Resolution::Done && action == Action::Finish(answer)
            },
            (Resolution::Persisting(_), Event::PersistFailed(d)) => {
                &&& next == Resolution::Done
                &&& finishes_with(action, ExchangeRateError::IoFailed(d))
            },
            (Resolution::ReadingSnapshot, Event::SnapshotLoaded(t)) => {
                &&& next == Resolution::Done
                &&& action matches Action::Finish(answer) && if snapshot_base_differs(t, from) {
                    is_not_found(answer, from, to)
                } else {
                    is_lookup_of(answer, t@, from, to)
                }
            },
            (Resolution::ReadingSnapshot, Event::SnapshotFailed(d)) => {
                &&& next == Resolution::Done
                &&& finishes_with(action, ExchangeRateError::IoFailed(d))
            },
            _ => false,
        }
    }

    /// Advances a resolution of `from -> to` by one event.
    pub fn step(&self, from: &str, to: &str, state: Resolution, event: Event) -> (r: (
        Resolution,
        Action,
    ))
        requires
            state.expects(&event),
        ensures
            self.is_step(from@, to@, state, event, r.0, r.1),
    {
        match state {
            Resolution::Fetching(n) => match event {
                Event::Fetched(t) => {
                    let answer = t.lookup(from, to);
                    let mut saved = t;
                    saved.set_base(from);
                    (Resolution::Persisting(answer), Action::Persist(saved))
                },
                Event::DecodeFailed(d) => (
                    Resolution::Done,
                    Action::Finish(Err(ExchangeRateError::RequestFailed(d))),
                ),
                Event::FetchFailed(_) => {
                    if n >= self.max_attempts {
                        (Resolution::ReadingSnapshot, Action::ReadSnapshot)
                    } else {
                        (Resolution::Fetching(n + 1), Action::Fetch(self.request_url(from)))
                    }
                },
                _ => unreached(),
            },
            Resolution::Persisting(answer) => match event {
                Event::Persisted => (Resolution::Done, Action::Finish(answer)),
                Event::PersistFailed(d) => (
                    Resolution::Done,
                    Action::Finish(Err(ExchangeRateError::IoFailed(d))),
                ),
                _ => unreached(),
            },
            Resolution::ReadingSnapshot => match event {
                Event::SnapshotLoaded(t) => {
                    let asked = from.to_string();
                    let answer = match t.base() {
                        Some(b) => if b == asked {
                            t.lookup(from, to)
                        } else {
                            Err(ExchangeRateError::RateNotFound(asked, to.to_string()))
                        },
                        None => t.lookup(from, to),
                    };
                    (Resolution::Done, Action::Finish(answer))
                },
                Event::SnapshotFailed(d) => (
                    Resolution::Done,
                    Action::Finish(Err(ExchangeRateError::IoFailed(d))),
                ),
                _ => unreached(),
            },
            Resolution::Done => unreached(),
        }
    }
}

/// A table saved by a successful fetch for base `from` answers a later
/// resolution for the same base that falls back to the snapshot: when the
/// snapshot reads back what was saved, the rate of `to2` is the one the fetched
/// table held.
pub proof fn lemma_snapshot_round_trip(
    p: ApiExchangeRateProvider,
    from: Seq<char>,
    to1: Seq<char>,
    n: u32,
    fetched: RateTable,
    next1: Resolution,
    persist: Action,
    to2: Seq<char>,
    loaded: RateTable,
    next2: Resolution,
    finish: Action,
)
    requires
        p.is_step(from, to1, Resolution::Fetching(n), Event::Fetched(fetched), next1, persist),
        persist matches Action::Persist(saved) && loaded@ == saved@ && loaded.base_code()
            == saved.base_code(),
        p.is_step(from, to2, Resolution::ReadingSnapshot, Event::SnapshotLoaded(loaded), next2, finish),
    ensures
        finish matches Action::Finish(answer) && is_lookup_of(answer, fetched@, from, to2),
{
}

/// A snapshot saved for one base does not answer for another: the
/// resolution ends with `RateNotFound(from2, to2)`.
pub proof fn lemma_snapshot_other_base(
    p: ApiExchangeRateProvider,
    from1: Seq<char>,
    to1: Seq<char>,
    n: u32,
    fetched: RateTable,
    next1: Resolution,
    persist: Action,
    from2: Seq<char>,
    to2: Seq<char>,
    loaded: RateTable,
    next2: Resolution,
    finish: Action,
)
    requires
        p.is_step(from1, to1, Resolution::Fetching(n), Event::Fetched(fetched), next1, persist),
        persist matches Action::Persist(saved) && loaded@ == saved@ && loaded.base_code()
            == saved.base_code(),
        from2 != from1,
        p.is_step(
            from2,
            to2,
            Resolution::ReadingSnapshot,
            Event::SnapshotLoaded(loaded),
            next2,
            finish,
        ),
    ensures
        finish matches Action::Finish(answer) && is_not_found(answer, from2, to2),
{
}

/// When the request fails and the snapshot holds rates for base `from` (or
/// records no base), the answer is the snapshot's rate of `to`, or
/// `RateNotFound(from, to)` when it has none.
pub proof fn lemma_fallback_answers_from_snapshot(
    p: ApiExchangeRateProvider,
    from: Seq<char>,
    to: Seq<char>,
    n: u32,
    failure: String,
    next1: Resolution,
    read: Action,
    snapshot: RateTable,
    next2: Resolution,
    finish: Action,
)
    requires
        n >= p.max_attempts,
        p.is_step(from, to, Resolution::Fetching(n), Event::FetchFailed(failure), next1, read),
        snapshot.base_code() is None || snapshot.base_code() == Some(from),
        p.is_step(from, to, next1, Event::SnapshotLoaded(snapshot), next2, finish),
    ensures
        read == Action::ReadSnapshot,
        finish matches Action::Finish(answer) && is_lookup_of(answer, snapshot@, from, to),
{
}

/// A snapshot that cannot be read or decoded ends the resolution with
/// `IoFailed`, carrying the reason.
pub proof fn lemma_unreadable_snapshot_fails(
    p: ApiExchangeRateProvider,
    from: Seq<char>,
    to: Seq<char>,
    reason: String,
    next: Resolution,
    finish: Action,
)
    requires
        p.is_step(from, to, Resolution::ReadingSnapshot, Event::SnapshotFailed(reason), next, finish),
    ensures
        next == Resolution::Done,
        finish == Action::Finish(Err(ExchangeRateError::IoFailed(reason))),
{
}

} // verus!
