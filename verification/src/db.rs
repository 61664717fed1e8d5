//! The service's store handle: the ledger store behind the bounded
//! connection pool. Every operation acquires one lease, works against the
//! store, and releases the lease; an operation that finds the pool
//! exhausted fails with [`Error::ResourceBusy`] and touches nothing.

use vstd::prelude::*;

use crate::accounts::User;
use crate::error_codes::Error;
use crate::ledger::Ledger;
use crate::pool::{PoolState, MAX_OPEN_CONNECTIONS};
use crate::protocol::MAX_WINDOW_SIZE;
use crate::transactions::Transaction;

verus! {

/// The store handle every request goes through: the connection pool's
/// accounting and the ledger store it guards.
pub struct Database {
    pool: PoolState,
    store: Ledger,
}

impl Database {
    /// The pool's connection accounting.
    pub closed spec fn pool_view(self) -> PoolState {
        self.pool
    }

    /// The ledger store.
    pub closed spec fn store_view(self) -> Ledger {
        self.store
    }

    /// Well-formedness of both halves: the pool within its bounds, the
    /// account table sorted and unique.
    pub open spec fn wf(self) -> bool {
        &&& self.pool_view().wf()
        &&& self.store_view().wf()
    }

    /// Whether a lease can be had: an idle connection waits in reserve, or
    /// the pool is below its ceiling.
    pub open spec fn lease_available(self) -> bool {
        ||| self.pool_view().idle > 0
        ||| self.pool_view().leased + self.pool_view().idle < MAX_OPEN_CONNECTIONS
    }

    /// The pool after one acquire/release round trip: reusing an idle
    /// connection leaves the pool as it was; opening a fresh one parks it
    /// in the reserve afterwards.
    pub open spec fn pool_after_lease(p: PoolState) -> PoolState {
        if p.idle > 0 {
            p
        } else {
            (PoolState { leased: p.leased, idle: (p.idle + 1) as u64 })
        }
    }

    /// A fresh handle: an empty pool in front of an empty store.
    pub fn new() -> (db: Database)
        ensures
            db.wf(),
            db.pool_view() == (PoolState { leased: 0, idle: 0 }),
            db.store_view().accounts_view() == Seq::<User>::empty(),
            db.store_view().records_view() == Seq::<Transaction>::empty(),
    {
        Database { pool: PoolState::new(), store: Ledger::new() }
    }

    /// Reads one account by identifier, or the whole table when no
    /// identifier is given, under one lease.
    pub fn get_account_info(&mut self, id: Option<u64>) -> (r: Result<Vec<User>, Error>)
        requires
            old(self).wf(),
        ensures
            final(self).wf(),
            final(self).store_view() == old(self).store_view(),
            !old(self).lease_available() ==> r == Err::<Vec<User>, Error>(Error::ResourceBusy)
                && *final(self) == *old(self),
            old(self).lease_available() ==> {
                &&& final(self).pool_view() == Database::pool_after_lease(old(self).pool_view())
                &&& (r is Ok <==> old(self).store_view().query_spec(id) is Ok)
                &&& (r matches Ok(v) ==> v@ == old(self).store_view().query_spec(id)->Ok_0)
                &&& (r matches Err(e) ==> Err::<Seq<User>, Error>(e) == old(
                    self,
                ).store_view().query_spec(id))
            },
    {
        if let Err(busy) = self.pool.acquire() {
            return Err(busy);
        }
        let r = self.store.get_account_info(id);
        self.pool.release();
        r
    }

    /// Creates one account under one lease; a taken identifier draws
    /// [`Error::AccountExists`] and mutates nothing.
    pub fn create_account(&mut self, user: User) -> (r: Result<String, Error>)
        requires
            old(self).wf(),
        ensures
            final(self).wf(),
            !old(self).lease_available() ==> r == Err::<String, Error>(Error::ResourceBusy)
                && *final(self) == *old(self),
            old(self).lease_available() ==> {
                &&& final(self).pool_view() == Database::pool_after_lease(old(self).pool_view())
                &&& (old(self).store_view().spec_has(user.id) ==> r == Err::<String, Error>(
                    Error::AccountExists,
                ) && final(self).store_view() == old(self).store_view())
                &&& (!old(self).store_view().spec_has(user.id) ==> r is Ok && old(
                    self,
                ).store_view().creation_effect(final(self).store_view(), user))
                &&& (r is Ok ==> r->Ok_0@ == "Account created successfully"@)
            },
    {
        if let Err(busy) = self.pool.acquire() {
            return Err(busy);
        }
        let r = self.store.create_account(user);
        self.pool.release();
        r
    }

    /// Looks an account up and answers its balance, under one lease.
    pub fn check_existence_of_user(&mut self, user_id: u64) -> (r: Result<u64, Error>)
        requires
            old(self).wf(),
        ensures
            final(self).wf(),
            final(self).store_view() == old(self).store_view(),
            !old(self).lease_available() ==> r == Err::<u64, Error>(Error::ResourceBusy)
                && *final(self) == *old(self),
            old(self).lease_available() ==> final(self).pool_view() == Database::pool_after_lease(
                old(self).pool_view(),
            ) && r == old(self).store_view().existence_spec(user_id),
    {
        if let Err(busy) = self.pool.acquire() {
            return Err(busy);
        }
        let r = self.store.check_existence_of_user(user_id);
        self.pool.release();
        r
    }

    /// Reads the most recent `limit` ledger rows under one lease. A zero
    /// or over-cap limit is rejected before any lease is taken.
    pub fn get_tx(&mut self, limit: usize) -> (r: Result<Vec<Transaction>, Error>)
        requires
            old(self).wf(),
        ensures
            final(self).wf(),
            final(self).store_view() == old(self).store_view(),
            !(1 <= limit <= MAX_WINDOW_SIZE) ==> r == Err::<Vec<Transaction>, Error>(
                Error::WindowLimitExceeded,
            ) && *final(self) == *old(self),
            1 <= limit <= MAX_WINDOW_SIZE && !old(self).lease_available() ==> r == Err::<
                Vec<Transaction>,
                Error,
            >(Error::ResourceBusy) && *final(self) == *old(self),
            1 <= limit <= MAX_WINDOW_SIZE && old(self).lease_available() ==> {
                &&& final(self).pool_view() == Database::pool_after_lease(old(self).pool_view())
                &&& (r is Ok <==> old(self).store_view().window_spec(limit as int) is Ok)
                &&& (r matches Ok(v) ==> v@ == old(self).store_view().window_spec(
                    limit as int,
                )->Ok_0)
                &&& (r matches Err(e) ==> Err::<Seq<Transaction>, Error>(e) == old(
                    self,
                ).store_view().window_spec(limit as int))
            },
    {
        if limit == 0 || (limit as u64) > MAX_WINDOW_SIZE {
            return Err(Error::WindowLimitExceeded);
        }
        if let Err(busy) = self.pool.acquire() {
            return Err(busy);
        }
        let r = self.store.get_tx(limit);
        self.pool.release();
        r
    }

    /// One balance transfer under one lease: the protocol's checks in
    /// order, then the atomic debit/credit/ledger-append. Every failure —
    /// the pool's included — leaves the store exactly as it was.
    pub fn post_tx(&mut self, tx: Transaction) -> (r: Result<String, Error>)
        requires
            old(self).wf(),
        ensures
            final(self).wf(),
            !old(self).lease_available() ==> r == Err::<String, Error>(Error::ResourceBusy)
                && *final(self) == *old(self),
            old(self).lease_available() ==> {
                &&& final(self).pool_view() == Database::pool_after_lease(old(self).pool_view())
                &&& (r is Ok <==> old(self).store_view().transfer_admissible(tx))
                &&& (r is Err ==> final(self).store_view() == old(self).store_view() && r == Err::<
                    String,
                    Error,
                >(old(self).store_view().transfer_rejection(tx)))
                &&& (r is Ok ==> old(self).store_view().transfer_effect(
                    final(self).store_view(),
                    tx,
                ))
                &&& (r is Ok ==> r->Ok_0@ == "Balance transfer completed."@)
            },
    {
        if let Err(busy) = self.pool.acquire() {
            return Err(busy);
        }
        let r = self.store.post_tx(tx);
        self.pool.release();
        r
    }
}

} // verus!
