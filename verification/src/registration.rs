//! The two-phase asynchronous registration state machine shared by every
//! resource kind (publications, subscriptions, destinations).
//!
//! Registering a resource yields a pending token; the transport resolves it
//! asynchronously. The driving shell performs one bounded native poll per
//! `poll_ready` call while the registration is still pending and hands the
//! outcome in as an [`AsyncPoll`] event; once the registration is `Ready` no
//! further native poll is consumed. `Closed` is terminal and reached only by
//! an explicit close request.

use vstd::prelude::*;

verus! {

/// Outcome of one bounded native poll on a pending registration token, as
/// reported by the transport: still in progress, complete (carrying the live
/// resource's parameters), or a transport fault.
pub enum AsyncPoll<T> {
    InProgress,
    Complete(T),
    Fault,
}

/// Lifecycle of one registered resource: `Pending` until the transport
/// resolves the registration, then `Ready` (carrying the live parameters),
/// and `Closed` after an explicit close request.
pub enum Lifecycle<T> {
    Pending,
    Ready(T),
    Closed,
}

/// Administrative failures: a fault reported by the transport while resolving
/// a registration, an operation on an already-closed resource, or a
/// data-plane operation attempted on a resource whose registration is still
/// pending.
#[derive(Clone, Copy, Debug, PartialEq, Eq, Structural)]
pub enum AdminError {
    TransportFault,
    ResourceClosed,
    NotReady,
}

/// How one `poll_ready` call moves the lifecycle: a pending registration
/// follows the native outcome; a ready one stays ready untouched; a closed
/// one stays closed.
pub open spec fn step_state<T>(s: Lifecycle<T>, native: AsyncPoll<T>) -> Lifecycle<T> {
    match s {
        Lifecycle::Pending => match native {
            AsyncPoll::InProgress => Lifecycle::Pending,
            AsyncPoll::Complete(t) => Lifecycle::Ready(t),
            AsyncPoll::Fault => Lifecycle::Pending,
        },
        Lifecycle::Ready(t) => Lifecycle::Ready(t),
        Lifecycle::Closed => Lifecycle::Closed,
    }
}

/// How many bounded native polls one `poll_ready` call consumes: exactly one
/// while the registration is pending, none otherwise.
pub open spec fn step_polls<T>(s: Lifecycle<T>, polls: nat) -> nat {
    if s is Pending {
        polls + 1
    } else {
        polls
    }
}

/// What one `poll_ready` call returns: `Ok(false)` while still pending,
/// `Ok(true)` once resolved, and an error on a transport fault or on a
/// closed resource.
pub open spec fn step_result<T>(s: Lifecycle<T>, native: AsyncPoll<T>) -> Result<
    bool,
    AdminError,
> {
    match s {
        Lifecycle::Pending => match native {
            AsyncPoll::InProgress => Ok(false),
            AsyncPoll::Complete(t) => Ok(true),
            AsyncPoll::Fault => Err(AdminError::TransportFault),
        },
        Lifecycle::Ready(t) => Ok(true),
        Lifecycle::Closed => Err(AdminError::ResourceClosed),
    }
}

/// The lifecycle after a whole sequence of `poll_ready` calls, applied in
/// order.
pub open spec fn run<T>(s: Lifecycle<T>, events: Seq<AsyncPoll<T>>) -> Lifecycle<T>
    decreases events.len(),
{
    if events.len() == 0 {
        s
    } else {
        step_state(run(s, events.drop_last()), events.last())
    }
}

/// The native-poll count after a whole sequence of `poll_ready` calls.
pub open spec fn run_polls<T>(s: Lifecycle<T>, polls: nat, events: Seq<AsyncPoll<T>>) -> nat
    decreases events.len(),
{
    if events.len() == 0 {
        polls
    } else {
        step_polls(run(s, events.drop_last()), run_polls(s, polls, events.drop_last()))
    }
}

/// One in-flight registration: the pending token obtained from the transport,
/// identified by its stable registration id, advanced by feeding native poll
/// outcomes to `poll_ready`.
pub struct Registration<T> {
    pub(crate) state: Lifecycle<T>,
    pub(crate) registration_id: i64,
    pub(crate) native_polls: Ghost<nat>,
}

impl<T> Registration<T> {
    /// The current lifecycle state.
    pub closed spec fn lifecycle(self) -> Lifecycle<T> {
        self.state
    }

    /// The registration id the transport issued for this operation.
    pub closed spec fn id(self) -> i64 {
        self.registration_id
    }

    /// How many bounded native polls this registration has consumed.
    pub closed spec fn polls(self) -> nat {
        self.native_polls@
    }

    pub open spec fn is_pending(self) -> bool {
        self.lifecycle() is Pending
    }

    pub open spec fn is_ready(self) -> bool {
        self.lifecycle() is Ready
    }

    pub open spec fn is_closed(self) -> bool {
        self.lifecycle() is Closed
    }

    /// A fresh registration: pending, no native poll consumed yet.
    pub fn new(registration_id: i64) -> (r: Self)
        ensures
            r.is_pending(),
            r.id() == registration_id,
            r.polls() == 0,
    {
        Registration { state: Lifecycle::Pending, registration_id, native_polls: Ghost(0) }
    }

    /// The registration id, stable from pending through ready through closed.
    pub fn registration_id(&self) -> (r: i64)
        ensures
            r == self.id(),
    {
        self.registration_id
    }

    /// Whether the registration has resolved to a live resource.
    pub fn ready(&self) -> (r: bool)
        ensures
            r == self.is_ready(),
    {
        match &self.state {
            Lifecycle::Ready(_) => true,
            _ => false,
        }
    }

    /// Whether the registration has been closed for good.
    pub fn terminated(&self) -> (r: bool)
        ensures
            r == self.is_closed(),
    {
        match &self.state {
            Lifecycle::Closed => true,
            _ => false,
        }
    }

    /// The live parameters, present exactly when the registration is ready.
    pub fn live(&self) -> (r: Option<&T>)
        ensures
            match r {
                Some(t) => self.lifecycle() matches Lifecycle::Ready(v) && *t == v,
                None => !self.is_ready(),
            },
    {
        match &self.state {
            Lifecycle::Ready(t) => Some(t),
            _ => None,
        }
    }

    /// Advance the state machine by one poll. While pending, `native` is the
    /// outcome of the one bounded native poll the caller performed for this
    /// call and is consumed; once ready, the call is a no-op that reports
    /// readiness without consuming anything; on a closed registration it
    /// fails with the closed condition.
    pub fn poll_ready(&mut self, native: AsyncPoll<T>) -> (r: Result<bool, AdminError>)
        ensures
            final(self).lifecycle() == step_state(old(self).lifecycle(), native),
            final(self).polls() == step_polls(old(self).lifecycle(), old(self).polls()),
            final(self).id() == old(self).id(),
            r == step_result(old(self).lifecycle(), native),
    {
        if let Lifecycle::Ready(_) = &self.state {
            return Ok(true);
        }
        if let Lifecycle::Closed = &self.state {
            return Err(AdminError::ResourceClosed);
        }
        self.native_polls = Ghost(self.native_polls@ + 1);
        match native {
            AsyncPoll::InProgress => Ok(false),
            AsyncPoll::Complete(t) => {
                self.state = Lifecycle::Ready(t);
                Ok(true)
            },
            AsyncPoll::Fault => Err(AdminError::TransportFault),
        }
    }

    /// Explicit close request: the one way into the terminal `Closed` state,
    /// idempotent, from any state.
    pub fn close(&mut self)
        ensures
            final(self).is_closed(),
            final(self).id() == old(self).id(),
            final(self).polls() == old(self).polls(),
    {
        self.state = Lifecycle::Closed;
    }
}

/// A registration still pending resolves only through the native poll
/// reporting completion: as long as every bounded poll reports "in progress",
/// any number of `poll_ready` calls leaves it pending, each consumes exactly
/// one bounded native poll, and no other state is touched.
pub proof fn lemma_pending_polls_are_pure<T>(
    s: Lifecycle<T>,
    polls: nat,
    events: Seq<AsyncPoll<T>>,
)
    requires
        s is Pending,
        forall|i: int| 0 <= i < events.len() ==> events[i] is InProgress,
    ensures
        run(s, events) is Pending,
        run_polls(s, polls, events) == polls + events.len(),
        forall|i: int| 0 <= i < events.len() ==> run(s, events.take(i)) is Pending,
        forall|i: int| 0 <= i < events.len() ==> step_result(
            run(s, events.take(i)),
            events[i],
        ) == Ok::<bool, AdminError>(false),
    decreases events.len(),
{
    if events.len() > 0 {
        let head = events.drop_last();
        assert(forall|i: int| 0 <= i < head.len() ==> head[i] is InProgress);
        lemma_pending_polls_are_pure(s, polls, head);
        assert(events.last() is InProgress);
    }
    assert forall|i: int| 0 <= i < events.len() implies run(s, events.take(i)) is Pending by {
        let prefix = events.take(i);
        assert(forall|j: int| 0 <= j < prefix.len() ==> prefix[j] is InProgress);
        lemma_pending_polls_are_pure(s, polls, prefix);
    }
}

/// Once a registration is ready, polling is idempotent: whatever the native
/// layer might report, any number of further `poll_ready` calls returns the
/// ready status, leaves the state untouched, and consumes no native poll.
pub proof fn lemma_ready_is_stable<T>(s: Lifecycle<T>, polls: nat, events: Seq<AsyncPoll<T>>)
    requires
        s is Ready,
    ensures
        run(s, events) == s,
        run_polls(s, polls, events) == polls,
        forall|i: int| 0 <= i < events.len() ==> step_result(
            run(s, events.take(i)),
            events[i],
        ) == Ok::<bool, AdminError>(true),
    decreases events.len(),
{
    if events.len() > 0 {
        lemma_ready_is_stable(s, polls, events.drop_last());
    }
    assert forall|i: int|
        0 <= i < events.len() implies step_result(run(s, events.take(i)), events[i])
        == Ok::<bool, AdminError>(true) by {
        let prefix = events.take(i);
        lemma_ready_is_stable(s, polls, prefix);
    }
}

/// The terminal state is never entered spontaneously: no poll outcome moves a
/// registration into `Closed`; only the explicit close request does.
pub proof fn lemma_closed_only_by_request<T>(s: Lifecycle<T>, native: AsyncPoll<T>)
    ensures
        step_state(s, native) is Closed <==> s is Closed,
{
}

} // verus!
