//! Admission to the bounded pool of worker threads.

use vstd::prelude::*;

verus! {

/// What a pool is, for the contracts: how many workers it may have, and how
/// many of them are running an operation.
pub struct PoolView {
    pub limit: nat,
    pub active: nat,
}

/// The book-keeping of the worker pool: it admits a blocking operation while
/// a worker is free and refuses it otherwise. The threads themselves live
/// with whoever runs the driver.
#[derive(Debug)]
pub struct AsyncifyPool {
    limit: usize,
    active: usize,
}

impl View for AsyncifyPool {
    type V = PoolView;

    closed spec fn view(&self) -> PoolView {
        PoolView { limit: self.limit as nat, active: self.active as nat }
    }
}

impl AsyncifyPool {
    /// No more workers are busy than the pool may have.
    pub open spec fn wf(&self) -> bool {
        self@.active <= self@.limit
    }

    pub fn new(thread_limit: usize) -> (pool: AsyncifyPool)
        ensures
            pool@.limit == thread_limit,
            pool@.active == 0,
            pool.wf(),
    {
        AsyncifyPool { limit: thread_limit, active: 0 }
    }

    pub fn thread_limit(&self) -> (limit: usize)
        ensures
            limit == self@.limit,
    {
        self.limit
    }

    pub fn active(&self) -> (active: usize)
        ensures
            active == self@.active,
    {
        self.active
    }

    /// Takes a worker for one operation if one is free.
    pub fn dispatch(&mut self) -> (accepted: bool)
        ensures
            accepted == (old(self)@.active < old(self)@.limit),
            final(self)@.limit == old(self)@.limit,
            final(self)@.active == if accepted {
                old(self)@.active + 1
            } else {
                old(self)@.active
            },
    {
        if self.active < self.limit {
            self.active = self.active + 1;
            true
        } else {
            false
        }
    }

    /// Gives back the worker of an operation that has run to its end.
    pub fn release(&mut self)
        ensures
            final(self)@.limit == old(self)@.limit,
            final(self)@.active == if old(self)@.active > 0 {
                old(self)@.active - 1
            } else {
                0
            },
    {
        if self.active > 0 {
            self.active = self.active - 1;
        }
    }
}

/// The configuration a driver is created from.
#[derive(Clone, Copy, Debug, PartialEq, Eq, Structural)]
pub struct ProactorBuilder {
    pub thread_pool_limit: usize,
}

impl ProactorBuilder {
    /// A configuration with room for 256 worker threads.
    pub fn new() -> (builder: ProactorBuilder)
        ensures
            builder.thread_pool_limit == 256,
    {
        ProactorBuilder { thread_pool_limit: 256 }
    }

    /// The same configuration with another bound on the worker threads.
    pub fn thread_pool_limit(self, value: usize) -> (builder: ProactorBuilder)
        ensures
            builder.thread_pool_limit == value,
    {
        ProactorBuilder { thread_pool_limit: value }
    }

    /// An idle pool of the configured size.
    pub fn create_or_get_thread_pool(&self) -> (pool: AsyncifyPool)
        ensures
            pool@.limit == self.thread_pool_limit,
            pool@.active == 0,
            pool.wf(),
    {
        AsyncifyPool::new(self.thread_pool_limit)
    }
}

} // verus!
