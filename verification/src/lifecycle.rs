//! The one-time-initialization protocol of the process-wide facade: however
//! many call sites request the facade, the underlying native initialization
//! runs exactly once, on the first request.
//!
//! The tracker is the explicit one-time primitive; a caller asks it before
//! initializing and obeys its answer. [`lemma_init_once`] states the
//! exactly-once guarantee over any number of requests.

use vstd::prelude::*;

verus! {

/// Phase of the process-wide initialization.
#[derive(Clone, Copy, Debug, PartialEq, Eq, Structural)]
pub enum InitPhase {
    /// No request has been made yet; the native library is untouched.
    Idle,
    /// A request has been made; the native initialization has run.
    Done,
}

/// The explicit one-time-initialization primitive: answers "must the native
/// initialization run now?" for each request for the process-wide facade.
pub struct InitTracker {
    pub phase: InitPhase,
}

impl InitTracker {
    /// A tracker for a process that has not initialized yet.
    pub fn new() -> (r: InitTracker)
        ensures
            r.phase == InitPhase::Idle,
    {
        InitTracker { phase: InitPhase::Idle }
    }

    /// Records one request for the facade. True exactly on the first
    /// request, when the caller must perform the native initialization;
    /// afterwards the already-initialized facade is to be reused.
    pub fn request(&mut self) -> (must_init: bool)
        ensures
            must_init == (old(self).phase == InitPhase::Idle),
            final(self).phase == InitPhase::Done,
    {
        let first = match self.phase {
            InitPhase::Idle => true,
            InitPhase::Done => false,
        };
        self.phase = InitPhase::Done;
        first
    }
}

/// How many of `requests` consecutive requests, starting from the given
/// phase, answer "initialize now": the count of native initialization calls
/// a sequence of first-accesses performs.
pub open spec fn inits_performed(start: InitPhase, requests: nat) -> nat
    decreases requests,
{
    if requests == 0 {
        0
    } else {
        (if start == InitPhase::Idle {
            1nat
        } else {
            0nat
        }) + inits_performed(InitPhase::Done, (requests - 1) as nat)
    }
}

/// Initialization is idempotent under repeated first-access: however many
/// requests are made for the facade, exactly one underlying native
/// initialization call is performed - by the first request - and an
/// already-initialized process performs none.
pub proof fn lemma_init_once(requests: nat)
    requires
        requests >= 1,
    ensures
        inits_performed(InitPhase::Idle, requests) == 1,
        inits_performed(InitPhase::Done, requests) == 0,
    decreases requests,
{
    if requests == 1 {
        assert(inits_performed(InitPhase::Idle, 1) == 1 + inits_performed(InitPhase::Done, 0));
        assert(inits_performed(InitPhase::Done, 1) == 0 + inits_performed(InitPhase::Done, 0));
        assert(inits_performed(InitPhase::Done, 0) == 0);
    } else {
        lemma_init_once((requests - 1) as nat);
        assert(inits_performed(InitPhase::Idle, requests) == 1 + inits_performed(
            InitPhase::Done,
            (requests - 1) as nat,
        ));
        assert(inits_performed(InitPhase::Done, requests) == 0 + inits_performed(
            InitPhase::Done,
            (requests - 1) as nat,
        ));
    }
}

} // verus!
