//! Accounting of the bounded connection pool that mediates all store
//! access: how many connections are leased out and how many are held idle
//! in reserve, under a ceiling on concurrently open connections and on the
//! idle reserve.
//!
//! The pool hands the ledger operations their leases; a request that finds
//! the pool exhausted when its acquisition wait elapses fails with
//! [`Error::ResourceBusy`] rather than queuing indefinitely — the system's
//! sole backpressure mechanism.

use vstd::prelude::*;

use crate::error_codes::Error;

verus! {

/// `MAX_OPEN_CONNECTIONS` represents the maximum number of open connections
/// to the store, leased and idle together.
pub const MAX_OPEN_CONNECTIONS: u64 = 150;

/// `MAX_IDLE_CONNECTIONS` denotes the maximum number of idle connections
/// held in reserve.
pub const MAX_IDLE_CONNECTIONS: u64 = 25;

/// How many seconds a lease acquisition may wait before it fails with
/// [`Error::ResourceBusy`].
pub const GET_TIMEOUT_SECS: u64 = 15;

/// The connection accounting of the pool: `leased` connections are out with
/// callers, `idle` connections are open and waiting in reserve.
#[derive(Clone, Copy, Debug, PartialEq, Eq, Structural)]
pub struct PoolState {
    pub leased: u64,
    pub idle: u64,
}

impl PoolState {
    /// The pool's resource bounds: never more than `MAX_OPEN_CONNECTIONS`
    /// connections open in total, never more than `MAX_IDLE_CONNECTIONS`
    /// idle in reserve.
    pub open spec fn wf(self) -> bool {
        &&& self.leased + self.idle <= MAX_OPEN_CONNECTIONS
        &&& self.idle <= MAX_IDLE_CONNECTIONS
    }

    /// A fresh pool with no connections open.
    pub fn new() -> (pool: PoolState)
        ensures
            pool.wf(),
            pool.leased == 0,
            pool.idle == 0,
    {
        PoolState { leased: 0, idle: 0 }
    }

    /// One lease acquisition at the moment its wait elapses: an idle
    /// connection is reused if one is in reserve, a new connection is opened
    /// if the pool is below its ceiling, and otherwise the acquisition fails
    /// with [`Error::ResourceBusy`] and the pool is left as it was.
    pub fn acquire(&mut self) -> (r: Result<(), Error>)
        requires
            old(self).wf(),
        ensures
            final(self).wf(),
            old(self).idle > 0 ==> r is Ok
                && final(self).leased == old(self).leased + 1
                && final(self).idle == old(self).idle - 1,
            old(self).idle == 0 && old(self).leased < MAX_OPEN_CONNECTIONS ==> r is Ok
                && final(self).leased == old(self).leased + 1
                && final(self).idle == 0,
            old(self).idle == 0 && old(self).leased >= MAX_OPEN_CONNECTIONS ==> (
                r == Err::<(), Error>(Error::ResourceBusy) && *final(self) == *old(self)
            ),
            r is Ok <==> old(self).leased + old(self).idle < MAX_OPEN_CONNECTIONS || old(self).idle > 0,
    {
        if self.idle > 0 {
            self.idle = self.idle - 1;
            self.leased = self.leased + 1;
            Ok(())
        } else if self.leased < MAX_OPEN_CONNECTIONS {
            self.leased = self.leased + 1;
            Ok(())
        } else {
            Err(Error::ResourceBusy)
        }
    }

    /// Returning a lease: the connection joins the idle reserve if the
    /// reserve is below its cap, and is closed otherwise.
    pub fn release(&mut self)
        requires
            old(self).wf(),
            old(self).leased > 0,
        ensures
            final(self).wf(),
            final(self).leased == old(self).leased - 1,
            old(self).idle < MAX_IDLE_CONNECTIONS ==> final(self).idle == old(self).idle + 1,
            old(self).idle >= MAX_IDLE_CONNECTIONS ==> final(self).idle == old(self).idle,
    {
        self.leased = self.leased - 1;
        if self.idle < MAX_IDLE_CONNECTIONS {
            self.idle = self.idle + 1;
        }
    }
}

} // verus!
