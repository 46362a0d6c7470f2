//! The bounded receive-retry schedule, as a state machine: the caller
//! performs each receive and hands back what it gave.
use vstd::prelude::*;
use crate::decode::{decode_response, decoded};
use crate::message::{Error, Response, NATPMP_MAX_ATTEMPS};

verus! {

/// What one receive from the transport gave.
#[derive(Clone, Copy, Debug)]
pub enum RecvEvent {
    /// The receive failed (a timeout or an I/O error).
    Failed,
    /// A datagram arrived; this is the receive area it was read into.
    Received([u8; 16]),
}

/// What the schedule asks for next.
#[derive(Clone, Copy, Debug)]
pub enum RecvStep {
    /// Receive once more.
    Receive,
    /// Stop, with this outcome.
    Done(Result<Response, Error>),
}

/// State of the receive loop: how many receives have failed so far.
///
/// The schedule adds no delay and no backoff between attempts: how long each
/// one waits is left to the transport's own timeout.
#[derive(Debug)]
pub struct RecvRetry {
    failures: u32,
}

/// The state after a failed receive, counted up to the maximum.
pub open spec fn failures_after(failed: nat) -> nat {
    if failed < NATPMP_MAX_ATTEMPS {
        failed + 1
    } else {
        failed
    }
}

/// One transition: the failure count and the step after `event`, when
/// `failed` receives had failed before it.
pub open spec fn step(failed: nat, event: RecvEvent) -> (nat, RecvStep) {
    match event {
        RecvEvent::Received(buf) => (failed, RecvStep::Done(decoded(buf@))),
        RecvEvent::Failed => {
            let f = failures_after(failed);
            if f < NATPMP_MAX_ATTEMPS {
                (f, RecvStep::Receive)
            } else {
                (f, RecvStep::Done(Err(Error::NATPMP_ERR_RECVFROM)))
            }
        },
    }
}

/// The outcome of the loop and the number of receives it made, when it
/// starts with `failed` failures and its receives give `events` in order;
/// `None` where the events run out before it stops.
pub open spec fn run(failed: nat, events: Seq<RecvEvent>) -> Option<(Result<Response, Error>, nat)>
    decreases events.len(),
{
    if events.len() == 0 {
        None
    } else {
        let (f, s) = step(failed, events[0]);
        match s {
            RecvStep::Done(r) => Some((r, 1nat)),
            RecvStep::Receive => match run(f, events.drop_first()) {
                Some((r, n)) => Some((r, n + 1)),
                None => None,
            },
        }
    }
}

impl RecvRetry {
    /// Number of receives that have failed so far.
    pub closed spec fn failed(&self) -> nat {
        self.failures as nat
    }

    /// A fresh loop, whose first step is to receive.
    pub fn new() -> (r: RecvRetry)
        ensures
            r.failed() == 0,
    {
        RecvRetry { failures: 0 }
    }

    /// Takes in what a receive gave and says what to do next: a datagram
    /// ends the loop with its decoding; a failure asks for another receive
    /// until the maximum number of attempts has failed.
    pub fn on_event(&mut self, event: RecvEvent) -> (s: RecvStep)
        ensures
            (final(self).failed(), s) == step(old(self).failed(), event),
    {
        match event {
            RecvEvent::Received(buf) => RecvStep::Done(decode_response(&buf)),
            RecvEvent::Failed => {
                if self.failures < NATPMP_MAX_ATTEMPS {
                    self.failures = self.failures + 1;
                }
                if self.failures < NATPMP_MAX_ATTEMPS {
                    RecvStep::Receive
                } else {
                    RecvStep::Done(Err(Error::NATPMP_ERR_RECVFROM))
                }
            },
        }
    }
}

proof fn lemma_run_until_success(failed: nat, events: Seq<RecvEvent>, k: nat)
    requires
        failed + k < NATPMP_MAX_ATTEMPS,
        k < events.len(),
        forall|i: int| 0 <= i < k ==> events[i] is Failed,
        events[k as int] is Received,
    ensures
        run(failed, events) == Some((decoded(events[k as int]->Received_0@), k + 1)),
    decreases k,
{
    if k > 0 {
        let rest = events.drop_first();
        assert forall|i: int| 0 <= i < k - 1 implies rest[i] is Failed by {
            assert(rest[i] == events[i + 1]);
        }
        assert(rest[k - 1] == events[k as int]);
        lemma_run_until_success(failed + 1, rest, (k - 1) as nat);
    }
}

proof fn lemma_run_until_exhausted(failed: nat, events: Seq<RecvEvent>)
    requires
        failed < NATPMP_MAX_ATTEMPS,
        NATPMP_MAX_ATTEMPS - failed <= events.len(),
        forall|i: int| 0 <= i < NATPMP_MAX_ATTEMPS - failed ==> events[i] is Failed,
    ensures
        run(failed, events) == Some((
            Err::<Response, Error>(Error::NATPMP_ERR_RECVFROM),
            (NATPMP_MAX_ATTEMPS - failed) as nat,
        )),
    decreases NATPMP_MAX_ATTEMPS - failed,
{
    assert(events[0] is Failed);
    if failed + 1 < NATPMP_MAX_ATTEMPS {
        let rest = events.drop_first();
        assert forall|i: int| 0 <= i < NATPMP_MAX_ATTEMPS - (failed + 1) implies rest[i] is Failed by {
            assert(rest[i] == events[i + 1]);
        }
        lemma_run_until_exhausted(failed + 1, rest);
    }
}

/// When every receive fails, the loop makes the maximum number of attempts
/// and then fails with a receive error.
pub proof fn lemma_retry_exhausted(events: Seq<RecvEvent>)
    requires
        NATPMP_MAX_ATTEMPS <= events.len(),
        forall|i: int| 0 <= i < NATPMP_MAX_ATTEMPS ==> events[i] is Failed,
    ensures
        run(0, events) == Some((
            Err::<Response, Error>(Error::NATPMP_ERR_RECVFROM),
            NATPMP_MAX_ATTEMPS as nat,
        )),
{
    lemma_run_until_exhausted(0, events);
}

/// When the receive numbered `k` (from 0) is the first to succeed and comes
/// within the maximum number of attempts, the loop returns the decoding of
/// that datagram, error or not, and makes no receive after it.
pub proof fn lemma_retry_first_success(events: Seq<RecvEvent>, k: nat)
    requires
        k < NATPMP_MAX_ATTEMPS,
        k < events.len(),
        forall|i: int| 0 <= i < k ==> events[i] is Failed,
        events[k as int] is Received,
    ensures
        run(0, events) == Some((decoded(events[k as int]->Received_0@), k + 1)),
{
    lemma_run_until_success(0, events, k);
}

} // verus!
