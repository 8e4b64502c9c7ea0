//! The connection to the TEE service. A context is created from the outcome
//! of the native open-context request and records how many sessions were
//! opened and closed against it, so the balance of the lifecycle can be
//! stated and proved.

use vstd::prelude::*;

use crate::error::{Error, Result, TEEC_SUCCESS};

verus! {

/// One connection to the TEE service.
pub struct Context {
    sessions_opened: u64,
    sessions_closed: u64,
}

impl Context {
    /// How many successful session opens this context has issued.
    pub closed spec fn spec_sessions_opened(&self) -> u64 {
        self.sessions_opened
    }

    /// How many session closes this context has issued.
    pub closed spec fn spec_sessions_closed(&self) -> u64 {
        self.sessions_closed
    }

    /// Builds the context from the status the native open-context request
    /// returned: success yields a fresh connection with no sessions yet,
    /// and every other status is a connection error carrying that code.
    pub fn open(status: u32) -> (r: Result<Context>)
        ensures
            match r {
                Ok(c) => status == TEEC_SUCCESS && c.spec_sessions_opened() == 0
                    && c.spec_sessions_closed() == 0,
                Err(e) => status != TEEC_SUCCESS && e == (Error::ConnectionError { code: status }),
            },
    {
        if status == TEEC_SUCCESS {
            Ok(Context { sessions_opened: 0, sessions_closed: 0 })
        } else {
            Err(Error::ConnectionError { code: status })
        }
    }

    /// Records one successful session open.
    pub(crate) fn note_session_opened(&mut self)
        requires
            old(self).spec_sessions_opened() < u64::MAX,
        ensures
            final(self).spec_sessions_opened() == old(self).spec_sessions_opened() + 1,
            final(self).spec_sessions_closed() == old(self).spec_sessions_closed(),
    {
        self.sessions_opened = self.sessions_opened + 1;
    }

    /// Records one session close.
    pub(crate) fn note_session_closed(&mut self)
        requires
            old(self).spec_sessions_closed() < u64::MAX,
        ensures
            final(self).spec_sessions_closed() == old(self).spec_sessions_closed() + 1,
            final(self).spec_sessions_opened() == old(self).spec_sessions_opened(),
    {
        self.sessions_closed = self.sessions_closed + 1;
    }

    pub fn sessions_opened(&self) -> (r: u64)
        ensures
            r == self.spec_sessions_opened(),
    {
        self.sessions_opened
    }

    pub fn sessions_closed(&self) -> (r: u64)
        ensures
            r == self.spec_sessions_closed(),
    {
        self.sessions_closed
    }
}

/// The counters after one more session lifecycle: one successful open
/// followed by the close that releasing the session issues.
pub open spec fn spec_after_lifecycle(opened: nat, closed: nat) -> (nat, nat) {
    (opened + 1, closed + 1)
}

/// The counters after n whole session lifecycles.
pub open spec fn spec_after_lifecycles(opened: nat, closed: nat, n: nat) -> (nat, nat)
    decreases n,
{
    if n == 0 {
        (opened, closed)
    } else {
        let prev = spec_after_lifecycles(opened, closed, (n - 1) as nat);
        spec_after_lifecycle(prev.0, prev.1)
    }
}

/// Constructing and releasing n sessions issues exactly n opens and n
/// closes: each lifecycle is the pair of counter steps that `Session::new`
/// states on success and `Session::close` states on an open session, and
/// invoking commands in between never moves either counter.
pub proof fn lemma_balanced_lifecycles(opened: nat, closed: nat, n: nat)
    ensures
        spec_after_lifecycles(opened, closed, n).0 == opened + n,
        spec_after_lifecycles(opened, closed, n).1 == closed + n,
    decreases n,
{
    if n > 0 {
        lemma_balanced_lifecycles(opened, closed, (n - 1) as nat);
    }
}

} // verus!
