//! The bounded connection pool, as the counting discipline the core relies
//! on.
//!
//! The pool owns a fixed number of store sessions; an operation checks one
//! out for its own duration and is guaranteed to return it on every exit
//! path. This model captures exactly the bookkeeping that discipline needs:
//! the configured capacity and the number of sessions currently checked out,
//! with the invariant that the latter never exceeds the former. Establishing
//! real sessions, waiting, and timeouts are the driver's work and stay at the
//! boundary; in this model a pool with no free session answers `PoolExhausted`
//! at once, since within one operation no other holder can return one.

use crate::error::RepoError;
use vstd::prelude::*;

verus! {

/// Witness of one checked-out session. The holder owns it exclusively until
/// handing it back through [`Pool::release`]; it is never shared between two
/// in-flight operations.
#[derive(Debug)]
pub struct Connection {
    marker: (),
}

/// A bounded set of reusable store sessions, counted rather than held: the
/// sessions themselves live with the driver at the boundary.
#[derive(Debug)]
pub struct Pool {
    pub capacity: usize,
    pub checked_out: usize,
}

impl Pool {
    /// The pool invariant: simultaneously checked-out sessions never exceed
    /// the configured maximum.
    pub open spec fn wf(self) -> bool {
        self.checked_out <= self.capacity
    }

    /// A pool sized by configuration, with nothing checked out yet. Sizing is
    /// fixed here once: exceeding it later makes acquisitions fail, never
    /// makes the pool grow.
    pub fn new(capacity: usize) -> (p: Pool)
        ensures
            p.capacity == capacity,
            p.checked_out == 0,
            p.wf(),
    {
        Pool { capacity, checked_out: 0 }
    }

    /// Checks one session out. Succeeds exactly when a session is free;
    /// a full pool answers `PoolExhausted` and is left unchanged.
    pub fn acquire(&mut self) -> (r: Result<Connection, RepoError>)
        requires
            old(self).wf(),
        ensures
            final(self).wf(),
            final(self).capacity == old(self).capacity,
            r is Ok <==> old(self).checked_out < old(self).capacity,
            r is Ok ==> final(self).checked_out == old(self).checked_out + 1,
            r matches Err(e) ==> e == RepoError::PoolExhausted && *final(self) == *old(self),
    {
        if self.checked_out < self.capacity {
            self.checked_out = self.checked_out + 1;
            Ok(Connection { marker: () })
        } else {
            Err(RepoError::PoolExhausted)
        }
    }

    /// Hands a checked-out session back. The session is consumed: after the
    /// call the former holder has no way to use it again.
    pub fn release(&mut self, conn: Connection)
        requires
            old(self).wf(),
            old(self).checked_out >= 1,
        ensures
            final(self).capacity == old(self).capacity,
            final(self).checked_out == old(self).checked_out - 1,
            final(self).wf(),
    {
        let Connection { marker: _ } = conn;
        self.checked_out = self.checked_out - 1;
    }
}

/// However many acquisitions have succeeded, a well-formed pool never has
/// more sessions checked out than its configured capacity. `acquire` and
/// `release` each preserve well-formedness, so this holds in every reachable
/// state.
pub proof fn lemma_checked_out_bounded(p: Pool)
    requires
        p.wf(),
    ensures
        p.checked_out <= p.capacity,
{
}

} // verus!
