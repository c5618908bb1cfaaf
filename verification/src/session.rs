//! The per-cycle update session: one rendered request per hostname variant,
//! walked strictly in order, aborting on the first failure.
//!
//! The session owns no socket.  Its caller asks for the next request text,
//! transmits it over its own connection, reports back whether the handshake
//! and write succeeded, and pauses for the configured inter-request delay
//! after each success before asking again.

use vstd::prelude::*;

verus! {

/// The abstract state of a session: the request texts, how many were handed
/// out and answered, and whether one of them failed.
pub struct SessionView {
    /// The request text per hostname variant, in the configured order.
    pub reqs: Seq<Seq<char>>,
    /// How many requests were transmitted and had their result recorded.
    pub sent: nat,
    /// Whether the last recorded result was a failure.
    pub failed: bool,
}

/// A session still has requests to send: nothing failed yet and hostnames
/// remain.
pub open spec fn in_progress(v: SessionView) -> bool {
    !v.failed && v.sent < v.reqs.len()
}

/// A session ended with every hostname updated.
pub open spec fn succeeded(v: SessionView) -> bool {
    !v.failed && v.sent == v.reqs.len()
}

/// Recording one transmission result: one more request is accounted for, and
/// a failure marks the session failed.
pub open spec fn step(v: SessionView, ok: bool) -> SessionView {
    SessionView { reqs: v.reqs, sent: v.sent + 1, failed: !ok }
}

/// Driving a session with a stream of per-request results, stopping when the
/// session is no longer in progress.  This is exactly what a caller of
/// `next_request` / `record_result` does.
pub open spec fn run(v: SessionView, outcomes: Seq<bool>) -> SessionView
    decreases outcomes.len(),
{
    if outcomes.len() == 0 || !in_progress(v) {
        v
    } else {
        run(step(v, outcomes[0]), outcomes.skip(1))
    }
}

/// The requests a driver sees during a run, in the order `next_request`
/// hands them out: the request at the current index before each recorded
/// result, until the session leaves progress.
pub open spec fn observed(v: SessionView, outcomes: Seq<bool>) -> Seq<Seq<char>>
    decreases outcomes.len(),
{
    if outcomes.len() == 0 || !in_progress(v) {
        Seq::empty()
    } else {
        seq![v.reqs[v.sent as int]] + observed(step(v, outcomes[0]), outcomes.skip(1))
    }
}

/// One update cycle's session over the rendered requests.
pub struct UpdateSession {
    requests: Vec<String>,
    sent: usize,
    failed: bool,
}

impl View for UpdateSession {
    type V = SessionView;

    closed spec fn view(&self) -> SessionView {
        SessionView {
            reqs: self.requests@.map(|i: int, r: String| r@),
            sent: self.sent as nat,
            failed: self.failed,
        }
    }
}

impl UpdateSession {
    /// The session accounts for every request handed out.
    pub open spec fn wf(&self) -> bool {
        self@.sent <= self@.reqs.len()
    }

    /// Starts a session over the rendered requests, one per hostname variant,
    /// in the configured order.
    pub fn new(requests: Vec<String>) -> (s: Self)
        ensures
            s.wf(),
            s@.reqs == requests@.map(|i: int, r: String| r@),
            s@.sent == 0,
            !s@.failed,
    {
        UpdateSession { requests, sent: 0, failed: false }
    }

    /// The next request to transmit: the one for the first hostname not yet
    /// updated, or `None` once the session failed or finished.  No request
    /// past a failure is ever handed out.
    pub fn next_request(&self) -> (r: Option<&String>)
        requires
            self.wf(),
        ensures
            match r {
                Some(q) => in_progress(self@) && q@ == self@.reqs[self@.sent as int],
                None => !in_progress(self@),
            },
    {
        if self.failed || self.sent >= self.requests.len() {
            None
        } else {
            Some(&self.requests[self.sent])
        }
    }

    /// Whether a result may still be recorded.
    pub fn is_in_progress(&self) -> (r: bool)
        requires
            self.wf(),
        ensures
            r == in_progress(self@),
    {
        !self.failed && self.sent < self.requests.len()
    }

    /// Records the transmission result of the request last handed out.
    /// Returns whether the caller owes the inter-request delay before asking
    /// again: after every success, so that consecutive hostname updates stand
    /// a full delay apart; a failure ends the session and owes none.
    pub fn record_result(&mut self, ok: bool) -> (pause: bool)
        requires
            old(self).wf(),
            in_progress(old(self)@),
        ensures
            final (self).wf(),
            final (self)@ == step(old(self)@, ok),
            pause == ok,
    {
        let n: usize = self.requests.len();
        assert(self.sent < n);
        self.sent = self.sent + 1;
        self.failed = !ok;
        assert(self@.reqs =~= old(self)@.reqs);
        assert(self@ =~= step(old(self)@, ok));
        ok
    }

    /// How many requests were transmitted in this session.
    pub fn sent_count(&self) -> (r: usize)
        ensures
            r == self@.sent,
    {
        self.sent
    }

    /// Whether the whole hostname sequence was updated successfully.
    pub fn did_succeed(&self) -> (r: bool)
        requires
            self.wf(),
        ensures
            r == succeeded(self@),
    {
        !self.failed && self.sent == self.requests.len()
    }
}

/// A session driven to its end with every transmission succeeding sends one
/// request per remaining hostname, in exactly the configured order — the
/// requests observed are the session's request sequence itself — and ends
/// successful.
pub proof fn lemma_run_all_success(v: SessionView, outcomes: Seq<bool>)
    requires
        !v.failed,
        v.sent <= v.reqs.len(),
        outcomes.len() == v.reqs.len() - v.sent,
        forall|i: int| 0 <= i < outcomes.len() ==> outcomes[i],
    ensures
        run(v, outcomes) == (SessionView { reqs: v.reqs, sent: v.reqs.len(), failed: false }),
        succeeded(run(v, outcomes)),
        observed(v, outcomes) == v.reqs.skip(v.sent as int),
    decreases outcomes.len(),
{
    if outcomes.len() == 0 {
        assert(run(v, outcomes) =~= SessionView { reqs: v.reqs, sent: v.reqs.len(), failed: false });
        assert(observed(v, outcomes) =~= v.reqs.skip(v.sent as int));
    } else {
        assert(outcomes[0]);
        lemma_run_all_success(step(v, true), outcomes.skip(1));
        assert(observed(v, outcomes) =~= v.reqs.skip(v.sent as int));
    }
}

/// A session whose k-th transmission (counting from zero) fails after k
/// successes sends exactly k + 1 requests — precisely the requests of the
/// hostnames at indices 0 through k, in order — and ends failed, so no later
/// hostname is ever contacted.
pub proof fn lemma_run_stops_at_failure(v: SessionView, outcomes: Seq<bool>, k: int)
    requires
        !v.failed,
        0 <= k < outcomes.len(),
        v.sent + k < v.reqs.len(),
        !outcomes[k],
        forall|j: int| 0 <= j < k ==> outcomes[j],
    ensures
        run(v, outcomes) == (SessionView { reqs: v.reqs, sent: (v.sent + k + 1) as nat, failed: true }),
        !succeeded(run(v, outcomes)),
        observed(v, outcomes) == v.reqs.subrange(v.sent as int, v.sent as int + k + 1),
    decreases k,
{
    if k == 0 {
        let v1 = step(v, false);
        assert(!outcomes[0]);
        assert(!in_progress(v1));
        assert(run(v1, outcomes.skip(1)) == v1);
        assert(observed(v1, outcomes.skip(1)) =~= Seq::<Seq<char>>::empty());
        assert(observed(v, outcomes) == seq![v.reqs[v.sent as int]] + observed(
            v1,
            outcomes.skip(1),
        ));
        assert(observed(v, outcomes) =~= v.reqs.subrange(v.sent as int, v.sent as int + 1));
    } else {
        assert(outcomes[0]);
        let v1 = step(v, true);
        let rest = outcomes.skip(1);
        assert(rest[k - 1] == outcomes[k]);
        assert(forall|j: int| 0 <= j < k - 1 ==> rest[j] == outcomes[j + 1]);
        lemma_run_stops_at_failure(v1, rest, k - 1);
        assert(observed(v, outcomes) =~= v.reqs.subrange(v.sent as int, v.sent as int + k + 1));
    }
}

} // verus!
