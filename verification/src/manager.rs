//! The pool: a fixed number of workers, a slot table that says which of them
//! are in use, and the dispatch of queries onto free ones.
//!
//! The slot table and each worker's record stand behind a lock of their own
//! and are shared by all callers. What a call finds there is therefore
//! decided while the lock is held, by [`reserve_first_free`] and by the
//! methods of [`Worker`]; the contracts here say what holds of every outcome.

use crate::error::PoolError;
use crate::error::PoolErrorView;
use crate::guard::SlotTable;
use crate::guard::UsingGuard;
use crate::sync::enter;
use crate::sync::held;
use crate::sync::new_lock;
use crate::worker::first_query_stage;
use crate::worker::first_start_stage;
use crate::worker::next_stage;
use crate::worker::Event;
use crate::worker::Outcome;
use crate::worker::OutcomeView;
use crate::worker::Stage;
use crate::worker::StageView;
use crate::worker::Worker;
use std::sync::Mutex;
use vstd::prelude::*;

verus! {

/// A pool of workers that all run the same program.
pub struct WorkerManager {
    using_flags: SlotTable,
    workers: Vec<Mutex<Worker>>,
    python_executable: String,
    worker_py: String,
}

/// A query in flight: the ticket for one worker, and the stage that the call
/// on that worker has reached. Dropping it gives the worker back to the pool,
/// wherever the call stands.
pub struct Dispatch<'a> {
    guard: UsingGuard<'a>,
    worker: &'a Mutex<Worker>,
    stage: Stage,
}

/// The start-up of the pool in progress: the worker whose ready handshake is
/// under way, and the stage that it has reached.
pub struct Startup {
    worker: usize,
    stage: Stage,
}

/// Where the start-up stands after the handshake of worker `worker` reached
/// `stage`: it moves on to the next worker where that handshake succeeded and
/// a worker is left, and stays where it is otherwise. The second component
/// says whether it moved on.
pub open spec fn startup_target(count: nat, worker: nat, stage: StageView) -> (nat, bool) {
    if stage == StageView::Done(OutcomeView::Started) && worker + 1 < count {
        ((worker + 1) as nat, true)
    } else {
        (worker, false)
    }
}

impl<'a> Dispatch<'a> {
    /// The slot, and with it the worker, that the query holds.
    pub closed spec fn slot(&self) -> usize {
        self.guard.index()
    }

    /// The stage that the call has reached.
    pub closed spec fn at(&self) -> StageView {
        self.stage@
    }

    /// The record, behind its lock, of the worker that the call works on.
    pub closed spec fn record(&self) -> Mutex<Worker> {
        *self.worker
    }

    /// The slot, and with it the worker, that the query holds.
    pub fn get_locked_idx(&self) -> (idx: usize)
        ensures
            idx == self.slot(),
    {
        self.guard.get_locked_idx()
    }

    /// The stage that the call has reached: what the driver does next.
    pub fn stage(&self) -> (stage: &Stage)
        ensures
            stage@ == self.at(),
    {
        &self.stage
    }

    /// Takes the call to its next stage, given what the driver reports. The
    /// worker stays the same.
    pub fn advance(self, event: Event) -> (next: Dispatch<'a>)
        ensures
            next.slot() == self.slot(),
            next.record() == self.record(),
            next.at() == next_stage(self.at(), event@),
    {
        let Dispatch { guard, worker, stage } = self;
        let mut entered = enter(worker);
        let record = held(&mut entered);
        let stage = record.advance(stage, event);
        Dispatch { guard, worker, stage }
    }

    /// Ends the call, gives the slot back and hands out the stage that the
    /// call had reached.
    pub fn finish(self) -> (stage: Stage)
        ensures
            stage@ == self.at(),
    {
        let Dispatch { guard: _, worker: _, stage } = self;
        stage
    }
}

impl Startup {
    /// The worker whose handshake is under way.
    pub closed spec fn current(&self) -> usize {
        self.worker
    }

    /// The stage that the handshake has reached.
    pub closed spec fn at(&self) -> StageView {
        self.stage@
    }

    /// The worker whose handshake is under way.
    pub fn worker(&self) -> (worker: usize)
        ensures
            worker == self.current(),
    {
        self.worker
    }

    /// The stage that the handshake has reached: what the driver does next.
    /// Once it is `Done`, the start-up is over: with `Started` every worker
    /// has announced itself, with a failure the pool must not go into
    /// service.
    pub fn stage(&self) -> (stage: &Stage)
        ensures
            stage@ == self.at(),
    {
        &self.stage
    }

    /// Ends the start-up and hands out the stage that it had reached.
    pub fn finish(self) -> (stage: Stage)
        ensures
            stage@ == self.at(),
    {
        self.stage
    }
}

impl WorkerManager {
    /// The table has one slot for each worker.
    #[verifier::type_invariant]
    spec fn one_slot_per_worker(self) -> bool {
        self.using_flags.capacity() == self.workers@.len()
    }

    /// The number of workers.
    pub closed spec fn capacity(&self) -> nat {
        self.workers@.len()
    }

    /// The record, behind its lock, of worker `i`.
    pub closed spec fn record_at(&self, i: int) -> Mutex<Worker> {
        self.workers@[i]
    }

    /// The program that every worker is launched as.
    pub closed spec fn program(&self) -> Seq<char> {
        self.python_executable@
    }

    /// The one argument that every worker is launched with.
    pub closed spec fn script(&self) -> Seq<char> {
        self.worker_py@
    }

    /// A pool of `worker_count` workers, each launched as `python_executable`
    /// with `worker_py` as its one argument. Every slot is free, and no
    /// worker has started.
    pub fn new(worker_count: usize, python_executable: &str, worker_py: &str) -> (pool:
        WorkerManager)
        ensures
            pool.capacity() == worker_count,
            pool.program() == python_executable@,
            pool.script() == worker_py@,
    {
        let using_flags = SlotTable::new(worker_count);
        let mut args: Vec<String> = Vec::new();
        args.push(worker_py.to_owned());
        let mut workers: Vec<Mutex<Worker>> = Vec::new();
        let mut i: usize = 0;
        while i < worker_count
            invariant
                i <= worker_count,
                workers@.len() == i,
            decreases worker_count - i,
        {
            workers.push(new_lock(Worker::new(python_executable, args.as_slice())));
            i = i + 1;
        }
        WorkerManager {
            using_flags,
            workers,
            python_executable: python_executable.to_owned(),
            worker_py: worker_py.to_owned(),
        }
    }

    /// The program that every worker is launched as.
    pub fn python_executable(&self) -> (program: &str)
        ensures
            program@ == self.program(),
    {
        self.python_executable.as_str()
    }

    /// The one argument that every worker is launched with.
    pub fn worker_py(&self) -> (script: &str)
        ensures
            script@ == self.script(),
    {
        self.worker_py.as_str()
    }

    /// The number of workers.
    pub fn worker_count(&self) -> (count: usize)
        ensures
            count == self.capacity(),
    {
        self.workers.len()
    }

    /// The number of the pool's slots that are occupied at the moment of the
    /// call: never more than it has workers. The table is shared, so the
    /// count holds only while its lock is held; [`SlotTable::occupancy`]
    /// takes it there.
    pub fn occupancy(&self) -> (count: usize)
        ensures
            count <= self.capacity(),
    {
        proof {
            use_type_invariant(self);
        }
        self.using_flags.occupancy()
    }

    /// Begins the start-up: the ready handshake of every worker, in order.
    /// A pool without workers has started at once.
    pub fn wait_for_all_start(&mut self) -> (startup: Startup)
        ensures
            startup.current() == 0,
            final(self).capacity() == old(self).capacity(),
            final(self).program() == old(self).program(),
            final(self).script() == old(self).script(),
            old(self).capacity() == 0 ==> startup.at() == StageView::Done(OutcomeView::Started),
            old(self).capacity() > 0 ==> startup.at() == first_start_stage(true) || startup.at()
                == first_start_stage(false),
    {
        if self.workers.len() == 0 {
            Startup { worker: 0, stage: Stage::Done(Outcome::Started) }
        } else {
            let mut entered = enter(&self.workers[0]);
            let record = held(&mut entered);
            Startup { worker: 0, stage: record.wait_to_start() }
        }
    }

    /// Takes the start-up one step on, given what the driver reports of the
    /// worker whose handshake is under way. When that handshake succeeds,
    /// the next worker's begins; the first failure ends the start-up.
    pub fn continue_start(&mut self, startup: Startup, event: Event) -> (next: Startup)
        ensures
            final(self).capacity() == old(self).capacity(),
            final(self).program() == old(self).program(),
            final(self).script() == old(self).script(),
            startup.current() >= old(self).capacity() ==> next.current() == startup.current()
                && next.at() == StageView::Done(
                OutcomeView::Failed(PoolErrorView::UnexpectedEvent),
            ),
            startup.current() < old(self).capacity() ==> {
                let reached = next_stage(startup.at(), event@);
                let target = startup_target(old(self).capacity(), startup.current() as nat, reached);
                &&& next.current() == target.0
                &&& !target.1 ==> next.at() == reached
                &&& target.1 ==> next.at() == first_start_stage(true) || next.at()
                    == first_start_stage(false)
            },
    {
        let Startup { worker, stage } = startup;
        let count = self.workers.len();
        if worker >= count {
            return Startup {
                worker,
                stage: Stage::Done(Outcome::Failed(PoolError::UnexpectedEvent)),
            };
        }
        let reached = {
            let mut entered = enter(&self.workers[worker]);
            let record = held(&mut entered);
            record.advance(stage, event)
        };
        let moved_on = match &reached {
            Stage::Done(Outcome::Started) => worker + 1 < count,
            _ => false,
        };
        if moved_on {
            let mut entered = enter(&self.workers[worker + 1]);
            let record = held(&mut entered);
            Startup { worker: worker + 1, stage: record.wait_to_start() }
        } else {
            Startup { worker, stage: reached }
        }
    }

    /// Begins a query for the holder of `guard`, on the worker of the
    /// ticket's slot and on no other. The ticket goes into the dispatch. A
    /// ticket whose slot names no worker of this pool is refused with
    /// `NoSlotAvailable` and given back.
    pub fn begin_on<'a>(&'a self, guard: UsingGuard<'a>, query: &str) -> (call: Result<
        Dispatch<'a>,
        PoolError,
    >)
        ensures
            match call {
                Ok(dispatch) => {
                    &&& guard.index() < self.capacity()
                    &&& dispatch.slot() == guard.index()
                    &&& dispatch.record() == self.record_at(guard.index() as int)
                    &&& dispatch.at() == first_query_stage(true, query@) || dispatch.at()
                        == first_query_stage(false, query@)
                },
                Err(error) => error is NoSlotAvailable && guard.index() >= self.capacity(),
            },
    {
        let idx = guard.get_locked_idx();
        if idx >= self.workers.len() {
            return Err(PoolError::NoSlotAvailable);
        }
        let worker = &self.workers[idx];
        let stage = {
            let mut entered = enter(worker);
            let record = held(&mut entered);
            record.query(query)
        };
        Ok(Dispatch { guard, worker, stage })
    }

    /// Dispatches a query: reserves the first free slot and begins the query
    /// on that slot's worker. It never waits for a slot; where none is free
    /// it fails at once with `NoSlotAvailable`.
    pub fn run_query(&self, query: &str) -> (call: Result<Dispatch<'_>, PoolError>)
        ensures
            match call {
                Ok(dispatch) => {
                    &&& dispatch.slot() < self.capacity()
                    &&& dispatch.record() == self.record_at(dispatch.slot() as int)
                    &&& dispatch.at() == first_query_stage(true, query@) || dispatch.at()
                        == first_query_stage(false, query@)
                },
                Err(error) => error is NoSlotAvailable || error is LockPoisoned,
            },
    {
        match UsingGuard::new(&self.using_flags) {
            Err(error) => Err(error),
            Ok(guard) => self.begin_on(guard, query),
        }
    }
}

} // verus!
