//! The decisions of a bounded-time probe: a request races a timer, and the
//! first of them to report decides the outcome.

use vstd::prelude::*;
use crate::outcome::{UrlState, UrlStateView};
use crate::resolve::ResolvedUrl;

verus! {

/// What one of the two racing tasks of a probe reports.
#[derive(Clone, Copy, Debug, PartialEq, Eq, Structural)]
pub enum ProbeEvent {
    /// The request completed with this HTTP status.
    Responded(u16),
    /// The request could not complete (DNS, refused, reset, TLS, ...).
    Failed,
    /// The timer ran out.
    Elapsed,
}

/// The status that counts as reachable; every other one is a bad status.
pub const STATUS_OK: u16 = 200;

/// The classification that one event gives for `url`.
pub open spec fn outcome_of(url: Seq<char>, e: ProbeEvent) -> UrlStateView {
    match e {
        ProbeEvent::Responded(code) => if code == STATUS_OK {
            UrlStateView::Accessible(url)
        } else {
            UrlStateView::BadStatus(url, code)
        },
        ProbeEvent::Failed => UrlStateView::ConnectionFailed(url),
        ProbeEvent::Elapsed => UrlStateView::TimedOut(url),
    }
}

/// What a probe of `url` reports once `arrived` have come in, in that order:
/// the outcome of the first arrival, or nothing while none has come.
pub open spec fn race_outcome(url: Seq<char>, arrived: Seq<ProbeEvent>) -> Option<UrlStateView> {
    if arrived.len() == 0 {
        None
    } else {
        Some(outcome_of(url, arrived[0]))
    }
}

/// Classifies the event that decided a probe of `url`.
pub fn classify(url: ResolvedUrl, e: ProbeEvent) -> (r: UrlState)
    ensures
        r@ == outcome_of(url@, e),
{
    match e {
        ProbeEvent::Responded(code) => if code == STATUS_OK {
            UrlState::Accessible(url)
        } else {
            UrlState::BadStatus(url, code)
        },
        ProbeEvent::Failed => UrlState::ConnectionFailed(url),
        ProbeEvent::Elapsed => UrlState::TimedOut(url),
    }
}

/// One probe of one URL, as the receiving side sees it: events come in from
/// the request and the timer, and exactly the first one is reported.
pub struct Race {
    pending: Option<ResolvedUrl>,
    url: Ghost<Seq<char>>,
    arrived: Ghost<Seq<ProbeEvent>>,
}

impl Race {
    /// The URL being probed.
    pub closed spec fn url(&self) -> Seq<char> {
        self.url@
    }

    /// The events received so far, in order of arrival.
    pub closed spec fn arrived(&self) -> Seq<ProbeEvent> {
        self.arrived@
    }

    /// The URL waits to be reported exactly while no event has arrived.
    pub closed spec fn wf(&self) -> bool {
        match self.pending {
            Some(u) => u@ == self.url@ && self.arrived@.len() == 0,
            None => self.arrived@.len() > 0,
        }
    }

    /// A race for `url` that nothing has reported to yet.
    pub fn new(url: ResolvedUrl) -> (r: Race)
        ensures
            r.wf(),
            r.url() == url@,
            r.arrived() == Seq::<ProbeEvent>::empty(),
    {
        Race { pending: Some(url), url: Ghost(url@), arrived: Ghost(Seq::empty()) }
    }

    /// Whether an event has arrived, and so the outcome is settled.
    pub fn is_decided(&self) -> (r: bool)
        requires
            self.wf(),
        ensures
            r == (self.arrived().len() > 0),
    {
        self.pending.is_none()
    }

    /// Takes in the next event to arrive. The first one is reported, as the
    /// outcome of the race; every later one is discarded.
    pub fn on_event(&mut self, e: ProbeEvent) -> (r: Option<UrlState>)
        requires
            old(self).wf(),
        ensures
            final(self).wf(),
            final(self).url() == old(self).url(),
            final(self).arrived() == old(self).arrived().push(e),
            r is Some <==> old(self).arrived().len() == 0,
            r matches Some(s) ==> Some(s@) == race_outcome(final(self).url(), final(self).arrived()),
    {
        let first = self.pending.take();
        proof {
            self.arrived@ = self.arrived@.push(e);
        }
        match first {
            Some(u) => Some(classify(u, e)),
            None => None,
        }
    }
}

/// A response with status 200 before the timer makes the link reachable.
pub proof fn lemma_ok_is_accessible(url: Seq<char>, later: Seq<ProbeEvent>)
    ensures
        race_outcome(url, seq![ProbeEvent::Responded(STATUS_OK)] + later) == Some(
            UrlStateView::Accessible(url),
        ),
{
}

/// A response with any other status before the timer is a bad status, and
/// carries that status.
pub proof fn lemma_other_status_is_bad(url: Seq<char>, code: u16, later: Seq<ProbeEvent>)
    requires
        code != STATUS_OK,
    ensures
        race_outcome(url, seq![ProbeEvent::Responded(code)] + later) == Some(
            UrlStateView::BadStatus(url, code),
        ),
{
}

/// A request that fails before the timer is a failed connection.
pub proof fn lemma_failure_is_connection_failed(url: Seq<char>, later: Seq<ProbeEvent>)
    ensures
        race_outcome(url, seq![ProbeEvent::Failed] + later) == Some(
            UrlStateView::ConnectionFailed(url),
        ),
{
}

/// A timer that runs out before the request completes times the probe out,
/// whatever the request reports later.
pub proof fn lemma_elapsed_is_timed_out(url: Seq<char>, later: Seq<ProbeEvent>)
    ensures
        race_outcome(url, seq![ProbeEvent::Elapsed] + later) == Some(UrlStateView::TimedOut(url)),
{
}

/// Two probes of one URL whose first arrivals agree report the same outcome,
/// whatever arrives after.
pub proof fn lemma_same_first_arrival_same_outcome(
    url: Seq<char>,
    a: Seq<ProbeEvent>,
    b: Seq<ProbeEvent>,
)
    requires
        a.len() > 0,
        b.len() > 0,
        a[0] == b[0],
    ensures
        race_outcome(url, a) == race_outcome(url, b),
        race_outcome(url, a) is Some,
{
}

} // verus!
