//! The execution engine and its access discipline.
//!
//! Each client facade privately owns one engine for its whole lifetime. The
//! engine offers a single primitive: run one asynchronous operation to
//! completion and return its result, blocking the calling thread. The model
//! enforces the two rules the facade is built on:
//!
//! * **exclusivity** — at most one operation is ever in flight; an ordinary
//!   facade call needs the engine idle, and leaves it idle;
//! * **borrow extension** — a streaming handle returned from a call keeps the
//!   right to re-enter the same engine after that call returns. The right is
//!   an exclusive lease, identified by a token; while a lease is out, only
//!   its holder may drive the engine, and an ordinary call may not run. A
//!   released token is stale forever: tokens are issued in strictly
//!   increasing order and never reused.

use vstd::prelude::*;

verus! {

/// A facade's private scheduler: drives asynchronous operations to
/// completion, one at a time.
pub struct Engine {
    granted: Option<u64>,
    next_token: u64,
    ops_completed: Ghost<nat>,
}

impl Engine {
    /// The token of the live lease, if a streaming handle holds one.
    pub closed spec fn granted(self) -> Option<u64> {
        self.granted
    }

    /// The token the next lease will carry.
    pub closed spec fn next_token(self) -> u64 {
        self.next_token
    }

    /// How many operations the engine has driven to completion.
    pub closed spec fn ops_completed(self) -> nat {
        self.ops_completed@
    }

    /// No live lease: an ordinary blocking call may enter.
    pub open spec fn idle(self) -> bool {
        self.granted() is None
    }

    /// Every token ever issued, live or stale, is below `next_token`.
    pub open spec fn wf(self) -> bool {
        self.granted() matches Some(t) ==> t < self.next_token()
    }

    /// A fresh, idle engine.
    pub fn new() -> (engine: Engine)
        ensures
            engine.wf(),
            engine.idle(),
            engine.next_token() == 0,
            engine.ops_completed() == 0,
    {
        Engine { granted: None, next_token: 0, ops_completed: Ghost(0) }
    }

    /// Run one asynchronous operation to completion on the calling thread.
    /// The engine must be idle — no two operations ever overlap — and is
    /// idle again when the call returns.
    pub fn run_blocking(&mut self)
        requires
            old(self).wf(),
            old(self).idle(),
        ensures
            final(self).wf(),
            final(self).idle(),
            final(self).next_token() == old(self).next_token(),
            final(self).ops_completed() == old(self).ops_completed() + 1,
    {
        self.ops_completed = Ghost(self.ops_completed@ + 1);
    }

    /// Grant a streaming handle the exclusive right to keep driving this
    /// engine after the producing call returns. Only one lease is ever out.
    pub fn lease(&mut self) -> (token: u64)
        requires
            old(self).wf(),
            old(self).idle(),
            old(self).next_token() < u64::MAX,
        ensures
            final(self).wf(),
            final(self).granted() == Some(token),
            token == old(self).next_token(),
            final(self).next_token() == old(self).next_token() + 1,
            final(self).ops_completed() == old(self).ops_completed(),
    {
        let token = self.next_token;
        self.next_token = self.next_token + 1;
        self.granted = Some(token);
        token
    }

    /// One blocking advance by the streaming handle holding the lease.
    /// Only the live token drives: a stale or foreign token is refused.
    pub fn drive(&mut self, token: u64)
        requires
            old(self).wf(),
            old(self).granted() == Some(token),
        ensures
            final(self).wf(),
            final(self).granted() == old(self).granted(),
            final(self).next_token() == old(self).next_token(),
            final(self).ops_completed() == old(self).ops_completed() + 1,
    {
        self.ops_completed = Ghost(self.ops_completed@ + 1);
    }

    /// End the lease: the handle's access right is gone, the engine is idle.
    pub fn release(&mut self, token: u64)
        requires
            old(self).wf(),
            old(self).granted() == Some(token),
        ensures
            final(self).wf(),
            final(self).idle(),
            final(self).next_token() == old(self).next_token(),
            final(self).ops_completed() == old(self).ops_completed(),
    {
        self.granted = None;
    }
}

/// At most one access right is ever live: any two tokens the engine honours
/// at one moment are the same token.
pub proof fn lemma_single_access_right(engine: Engine, t1: u64, t2: u64)
    requires
        engine.granted() == Some(t1),
        engine.granted() == Some(t2),
    ensures
        t1 == t2,
{
}

/// Tokens are never reused: every lease carries the engine's horizon as its
/// token and raises the horizon, so a token issued under an earlier horizon
/// can never come out of a later lease — a released right stays released.
pub proof fn lemma_tokens_never_reused(stale: u64, horizon: u64, fresh: u64)
    requires
        stale < horizon,
        fresh >= horizon,
    ensures
        fresh != stale,
{
}

} // verus!
