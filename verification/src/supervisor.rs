//! Supervision of a fixed pool of dispatcher workers.
//!
//! The pool has one slot per worker; slots are persistent and keep their
//! index for the life of the pool. The supervision loop polls each slot's
//! readiness channel and decides: a disconnected channel means the worker
//! died and the slot is respawned in place; a message after readiness is
//! unexpected and only reported; silence means the slot is healthy. Restarts
//! are unbounded, with no backoff, and never disturb any other slot.
//!
//! This module holds the decisions; driving threads, channels and the
//! 500 ms poll cadence is the caller's affair.

use vstd::prelude::*;

verus! {

/// One observation of a worker slot's readiness channel.
#[derive(Clone, Copy, Debug, PartialEq, Eq, Structural)]
pub enum WorkerSignal {
    /// The channel's sender is gone: the worker thread died.
    Disconnected,
    /// The worker sent something after readiness.
    Message,
    /// Nothing to report.
    Empty,
}

/// What the supervision loop must do for a slot after an observation.
#[derive(Clone, Copy, Debug, PartialEq, Eq, Structural)]
pub enum SupervisorAction {
    /// Spawn a replacement worker into the same slot.
    Respawn,
    /// Report the unexpected message; the worker stays.
    ReportUnexpected,
    /// Leave the slot alone.
    Idle,
}

/// The generation that replaces `g` when a slot is respawned.
pub open spec fn next_generation(g: u64) -> u64 {
    if g == u64::MAX {
        0
    } else {
        (g + 1) as u64
    }
}

/// A fixed pool of worker slots. Each slot records the generation of the
/// worker occupying it: the generation changes exactly when the slot is
/// respawned, so distinct generations in one slot are distinct workers.
pub struct Supervisor {
    workers: Vec<u64>,
}

impl View for Supervisor {
    type V = Seq<u64>;

    closed spec fn view(&self) -> Seq<u64> {
        self.workers@
    }
}

impl Supervisor {
    /// A supervisor with no worker slots yet.
    pub fn new() -> (r: Supervisor)
        ensures
            r@.len() == 0,
    {
        Supervisor { workers: Vec::new() }
    }

    /// How many worker slots the pool has.
    pub fn worker_count(&self) -> (n: usize)
        ensures
            n == self@.len(),
    {
        self.workers.len()
    }

    /// The generation of the worker occupying `worker_id`.
    pub fn generation(&self, worker_id: usize) -> (g: u64)
        requires
            worker_id < self@.len(),
        ensures
            g == self@[worker_id as int],
    {
        self.workers[worker_id]
    }

    /// Occupies a slot: an existing slot is overwritten in place with the
    /// next generation — never removed, so every other slot keeps its index
    /// and its occupant — and the slot one past the end is appended.
    pub fn spawn_worker(&mut self, worker_id: usize)
        requires
            worker_id <= old(self)@.len(),
            worker_id == old(self)@.len() ==> old(self)@.len() < usize::MAX,
        ensures
            worker_id < old(self)@.len() ==> final(self)@
                == old(self)@.update(worker_id as int, next_generation(old(self)@[worker_id as int])),
            worker_id == old(self)@.len() ==> final(self)@ == old(self)@.push(0u64),
    {
        if worker_id < self.workers.len() {
            let g = self.workers[worker_id];
            let fresh = if g == u64::MAX {
                0
            } else {
                g + 1
            };
            self.workers.set(worker_id, fresh);
        } else {
            self.workers.push(0);
        }
    }

    /// Starts the pool: fills `worker_count` slots, each with its first
    /// worker.
    pub fn start(&mut self, worker_count: usize)
        requires
            old(self)@.len() == 0,
        ensures
            final(self)@.len() == worker_count,
            forall|i: int| 0 <= i < worker_count ==> final(self)@[i] == 0u64,
    {
        let mut i: usize = 0;
        while i < worker_count
            invariant
                i <= worker_count,
                self@.len() == i,
                forall|j: int| 0 <= j < i ==> self@[j] == 0u64,
            decreases worker_count - i,
        {
            self.spawn_worker(i);
            i = i + 1;
        }
    }

    /// One supervision decision for one slot: a disconnected readiness
    /// channel respawns that slot in place; anything else leaves the pool
    /// untouched.
    pub fn step(&mut self, worker_id: usize, signal: WorkerSignal) -> (a: SupervisorAction)
        requires
            worker_id < old(self)@.len(),
        ensures
            final(self)@.len() == old(self)@.len(),
            signal == WorkerSignal::Disconnected ==> a == SupervisorAction::Respawn
                && final(self)@ == old(self)@.update(
                worker_id as int,
                next_generation(old(self)@[worker_id as int]),
            ),
            signal == WorkerSignal::Message ==> a == SupervisorAction::ReportUnexpected
                && final(self)@ == old(self)@,
            signal == WorkerSignal::Empty ==> a == SupervisorAction::Idle
                && final(self)@ == old(self)@,
    {
        match signal {
            WorkerSignal::Disconnected => {
                self.spawn_worker(worker_id);
                SupervisorAction::Respawn
            },
            WorkerSignal::Message => SupervisorAction::ReportUnexpected,
            WorkerSignal::Empty => SupervisorAction::Idle,
        }
    }
}

/// A respawn replaces exactly the dead slot: the pool size is unchanged, the
/// slot holds a worker distinct from the one that died, and every other slot
/// keeps its occupant.
pub proof fn lemma_respawn_replaces_one_slot(workers: Seq<u64>, worker_id: int)
    requires
        0 <= worker_id < workers.len(),
    ensures
        ({
            let after = workers.update(worker_id, next_generation(workers[worker_id]));
            &&& after.len() == workers.len()
            &&& after[worker_id] != workers[worker_id]
            &&& forall|i: int| 0 <= i < workers.len() && i != worker_id
                ==> after[i] == workers[i]
        }),
{
}

} // verus!
