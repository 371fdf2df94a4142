//! The life of the pool as a run of events, and what holds after every run.
//!
//! Each event stands for one call of the manager: the pool after the event
//! is the pool that the call leaves behind. Beside the pool the model counts,
//! for each process, the calls placed on it that have not ended yet; the
//! manager itself keeps no such count.
//!
//! A run is valid where the program around the manager keeps to its part:
//! it registers a worker under the id of a process that is not in the pool
//! and has no call under way, and it reports the end of a dispatch only for a
//! process on which a call is under way. Setting a status by hand with
//! `set_worker_status` is an operator's doing and no event of a run: what is
//! proved here holds of pools whose statuses only the dispatches change.

use vstd::prelude::*;
use crate::config::PoolConfig;
use crate::manager::{
    after_claim, after_finish, claimed_status, has_room, released_status, Handle, Outcome,
};
use crate::registry::{
    after_insert, first_idle, has_pid, index_of, insert_accepted, lemma_first_idle_none,
    lemma_index_of_unique, lemma_push, lemma_remove, lemma_with_status, status_of, unique_pids,
    Entry,
};
use crate::worker::WorkerStatus;

verus! {

/// One call of the manager.
pub enum PoolEvent<C> {
    /// `register_worker`: a worker was started and taken in.
    Register(Handle<C>),
    /// `adopt_worker`: a worker was started for a waiting dispatch and claimed.
    Adopt(Handle<C>),
    /// `begin_dispatch`: a dispatch asked for a worker.
    Begin,
    /// `finish_dispatch`: the dispatch on a process ended.
    Finish(u32, Outcome),
    /// `kill_worker`: the earliest idle worker was retired.
    Kill,
}

/// The pool, and for each process the number of calls under way on it.
pub struct PoolModel<C> {
    pub entries: Seq<Entry<C>>,
    pub calls: Map<u32, nat>,
}

impl<C> PoolModel<C> {
    /// The number of calls under way on process `pid`.
    pub open spec fn outstanding(self, pid: u32) -> nat {
        if self.calls.contains_key(pid) {
            self.calls[pid]
        } else {
            0
        }
    }

    /// The model with one more call under way on process `pid`.
    pub open spec fn placed(self, pid: u32) -> Self {
        PoolModel { entries: self.entries, calls: self.calls.insert(pid, self.outstanding(pid) + 1) }
    }

    /// The model with one call fewer under way on process `pid`.
    pub open spec fn ended(self, pid: u32) -> Self {
        PoolModel {
            entries: self.entries,
            calls: self.calls.insert(pid, (self.outstanding(pid) - 1) as nat),
        }
    }

    /// The model with another pool.
    pub open spec fn with_entries(self, entries: Seq<Entry<C>>) -> Self {
        PoolModel { entries, calls: self.calls }
    }
}

/// The model before anything has happened.
pub open spec fn initial<C>() -> PoolModel<C> {
    PoolModel { entries: Seq::empty(), calls: Map::empty() }
}

/// Whether the program may let `event` happen in the state `m`.
pub open spec fn permitted<C>(m: PoolModel<C>, event: PoolEvent<C>) -> bool {
    match event {
        PoolEvent::Register(h) => !has_pid(m.entries, h.pid) && m.outstanding(h.pid) == 0,
        PoolEvent::Adopt(h) => !has_pid(m.entries, h.pid) && m.outstanding(h.pid) == 0,
        PoolEvent::Begin => true,
        PoolEvent::Finish(pid, _) => m.outstanding(pid) > 0,
        PoolEvent::Kill => true,
    }
}

/// The state after `event`.
pub open spec fn step<C>(m: PoolModel<C>, config: PoolConfig, event: PoolEvent<C>) -> PoolModel<C> {
    let capacity = config.max_workers as nat;
    match event {
        PoolEvent::Register(h) => m.with_entries(
            after_insert(m.entries, capacity, h, WorkerStatus::Idle),
        ),
        PoolEvent::Adopt(h) => {
            let taken = m.with_entries(
                after_insert(m.entries, capacity, h, claimed_status(config)),
            );
            if insert_accepted(m.entries, capacity, h.pid) {
                taken.placed(h.pid)
            } else {
                taken
            }
        },
        PoolEvent::Begin => match first_idle(m.entries) {
            Some(i) => m.with_entries(after_claim(m.entries, config)).placed(
                m.entries[i].handle.pid,
            ),
            None => m,
        },
        PoolEvent::Finish(pid, outcome) => m.with_entries(
            after_finish(m.entries, config, pid, outcome),
        ).ended(pid),
        PoolEvent::Kill => match first_idle(m.entries) {
            Some(i) => m.with_entries(m.entries.remove(i)),
            None => m,
        },
    }
}

/// The state after the events of `run`, from an empty pool.
pub open spec fn state_after<C>(config: PoolConfig, run: Seq<PoolEvent<C>>) -> PoolModel<C>
    decreases run.len(),
{
    if run.len() == 0 {
        initial()
    } else {
        step(state_after(config, run.drop_last()), config, run.last())
    }
}

/// Whether every event of `run` was permitted when it happened.
pub open spec fn valid_run<C>(config: PoolConfig, run: Seq<PoolEvent<C>>) -> bool
    decreases run.len(),
{
    if run.len() == 0 {
        true
    } else {
        &&& valid_run(config, run.drop_last())
        &&& permitted(state_after(config, run.drop_last()), run.last())
    }
}

/// What every valid run keeps.
pub open spec fn sound<C>(m: PoolModel<C>, config: PoolConfig) -> bool {
    &&& unique_pids(m.entries)
    &&& m.entries.len() <= config.max_workers
    &&& config.fast_workers ==> forall|i: int|
        0 <= i < m.entries.len() ==> m.entries[i].status == WorkerStatus::Idle
    &&& !config.fast_workers ==> serialised(m)
}

/// No process has more than one call under way, and a process with a call
/// under way is marked as working.
pub open spec fn serialised<C>(m: PoolModel<C>) -> bool {
    forall|pid: u32|
        m.outstanding(pid) <= 1 && (m.outstanding(pid) == 1 ==> status_of(m.entries, pid) == Some(
            WorkerStatus::Working,
        ))
}

/// A step that changes the calls of one process at most, and leaves the
/// status of every other process with a call under way as it was, keeps the
/// calls serialised if it does so for that one process.
proof fn lemma_serialised_after<C>(m: PoolModel<C>, next: PoolModel<C>, touched: u32)
    requires
        serialised(m),
        next.calls == m.calls || exists|n: nat| next.calls == m.calls.insert(touched, n),
        next.outstanding(touched) <= 1,
        next.outstanding(touched) == 1 ==> status_of(next.entries, touched) == Some(
            WorkerStatus::Working,
        ),
        forall|pid: u32|
            pid != touched && m.outstanding(pid) == 1 ==> status_of(next.entries, pid)
                == status_of(m.entries, pid),
    ensures
        serialised(next),
{
    assert forall|pid: u32|
        next.outstanding(pid) <= 1 && (next.outstanding(pid) == 1 ==> status_of(next.entries, pid)
            == Some(WorkerStatus::Working)) by {
        if pid != touched {
            assert(next.outstanding(pid) == m.outstanding(pid));
        }
    }
}

proof fn lemma_insert_sound<C>(
    m: PoolModel<C>,
    config: PoolConfig,
    handle: Handle<C>,
    status: WorkerStatus,
)
    requires
        sound(m, config),
        !has_pid(m.entries, handle.pid),
        m.outstanding(handle.pid) == 0,
        config.fast_workers ==> status == WorkerStatus::Idle,
    ensures
        ({
            let after = after_insert(m.entries, config.max_workers as nat, handle, status);
            &&& unique_pids(after)
            &&& after.len() <= config.max_workers
            &&& config.fast_workers ==> forall|i: int|
                0 <= i < after.len() ==> after[i].status == WorkerStatus::Idle
            &&& forall|pid: u32|
                pid != handle.pid ==> status_of(after, pid) == status_of(m.entries, pid)
            &&& insert_accepted(m.entries, config.max_workers as nat, handle.pid) ==> status_of(
                after,
                handle.pid,
            ) == Some(status)
        }),
{
    if m.entries.len() + 1 <= config.max_workers {
        lemma_push(m.entries, Entry { handle, status });
    }
}

proof fn lemma_step_sound<C>(m: PoolModel<C>, config: PoolConfig, event: PoolEvent<C>)
    requires
        sound(m, config),
        permitted(m, event),
    ensures
        sound(step(m, config, event), config),
{
    let next = step(m, config, event);
    match event {
        PoolEvent::Register(h) => {
            lemma_insert_sound(m, config, h, WorkerStatus::Idle);
            if !config.fast_workers {
                lemma_serialised_after(m, next, h.pid);
            }
        },
        PoolEvent::Adopt(h) => {
            lemma_insert_sound(m, config, h, claimed_status(config));
            if !config.fast_workers {
                lemma_serialised_after(m, next, h.pid);
            }
        },
        PoolEvent::Begin => {
            lemma_first_idle_none(m.entries);
            match first_idle(m.entries) {
                Some(i) => {
                    let picked = m.entries[i].handle.pid;
                    lemma_index_of_unique(m.entries, i);
                    if !config.fast_workers {
                        lemma_with_status(m.entries, i, WorkerStatus::Working);
                        assert(status_of(m.entries, picked) == Some(WorkerStatus::Idle));
                        assert(m.outstanding(picked) == 0);
                        lemma_serialised_after(m, next, picked);
                    }
                },
                None => {},
            }
        },
        PoolEvent::Finish(pid, outcome) => {
            if has_pid(m.entries, pid) {
                let i = index_of(m.entries, pid);
                if config.spot_workers {
                    lemma_remove(m.entries, i);
                } else if !config.fast_workers {
                    lemma_with_status(m.entries, i, released_status(outcome));
                }
            }
            if !config.fast_workers {
                lemma_serialised_after(m, next, pid);
            }
        },
        PoolEvent::Kill => {
            lemma_first_idle_none(m.entries);
            match first_idle(m.entries) {
                Some(i) => {
                    lemma_remove(m.entries, i);
                    lemma_index_of_unique(m.entries, i);
                    if !config.fast_workers {
                        let gone = m.entries[i].handle.pid;
                        assert(status_of(m.entries, gone) == Some(WorkerStatus::Idle));
                        assert(m.outstanding(gone) == 0);
                        lemma_serialised_after(m, next, gone);
                    }
                },
                None => {},
            }
        },
    }
}

/// Every valid run ends in a sound state.
pub proof fn lemma_run_sound<C>(config: PoolConfig, run: Seq<PoolEvent<C>>)
    requires
        valid_run(config, run),
    ensures
        sound(state_after(config, run), config),
    decreases run.len(),
{
    if run.len() == 0 {
        assert forall|pid: u32| initial::<C>().outstanding(pid) == 0 by {}
    } else {
        lemma_run_sound(config, run.drop_last());
        lemma_step_sound(state_after(config, run.drop_last()), config, run.last());
    }
}

/// At no time does the pool hold more workers than the policy allows, nor
/// two entries for one process.
pub proof fn lemma_pool_within_capacity<C>(config: PoolConfig, run: Seq<PoolEvent<C>>)
    requires
        valid_run(config, run),
    ensures
        state_after(config, run).entries.len() <= config.max_workers,
        unique_pids(state_after(config, run).entries),
{
    lemma_run_sound(config, run);
}

/// Unless workers are fast, no worker ever has more than one call under
/// way, and a worker with a call under way is marked as working.
pub proof fn lemma_one_call_per_worker<C>(config: PoolConfig, run: Seq<PoolEvent<C>>, pid: u32)
    requires
        valid_run(config, run),
        !config.fast_workers,
    ensures
        state_after(config, run).outstanding(pid) <= 1,
        state_after(config, run).outstanding(pid) == 1 ==> status_of(
            state_after(config, run).entries,
            pid,
        ) == Some(WorkerStatus::Working),
{
    lemma_run_sound(config, run);
}

/// When a dispatch has ended with a result or with a failure of the model,
/// its worker is idle, unless workers are retired after one dispatch.
pub proof fn lemma_released_worker_idle<C>(
    config: PoolConfig,
    run: Seq<PoolEvent<C>>,
    pid: u32,
    outcome: Outcome,
)
    requires
        valid_run(config, run.push(PoolEvent::Finish(pid, outcome))),
        outcome != Outcome::RpcFailure,
        !config.spot_workers,
    ensures
        has_pid(state_after(config, run.push(PoolEvent::Finish(pid, outcome))).entries, pid)
            ==> status_of(
            state_after(config, run.push(PoolEvent::Finish(pid, outcome))).entries,
            pid,
        ) == Some(WorkerStatus::Idle),
        !config.fast_workers ==> has_pid(
            state_after(config, run.push(PoolEvent::Finish(pid, outcome))).entries,
            pid,
        ),
{
    let full = run.push(PoolEvent::Finish(pid, outcome));
    assert(full.drop_last() =~= run);
    assert(full.last() == PoolEvent::<C>::Finish(pid, outcome));
    lemma_run_sound(config, run);
    let before = state_after(config, run);
    let after = state_after(config, full);
    assert(after == step(before, config, PoolEvent::Finish(pid, outcome)));
    if config.fast_workers {
        if has_pid(before.entries, pid) {
            let i = index_of(before.entries, pid);
            lemma_index_of_unique(before.entries, i);
        }
    } else {
        assert(before.outstanding(pid) == 1);
        let i = index_of(before.entries, pid);
        lemma_with_status(before.entries, i, released_status(outcome));
    }
}

/// With fast workers, and unless workers are retired after one dispatch,
/// neither the begin nor the end of a dispatch changes the pool: every
/// worker stays idle, however many dispatches run on it at once.
pub proof fn lemma_fast_workers_keep_pool<C>(
    config: PoolConfig,
    run: Seq<PoolEvent<C>>,
    pid: u32,
    outcome: Outcome,
)
    requires
        valid_run(config, run),
        config.fast_workers,
        !config.spot_workers,
    ensures
        after_claim(state_after(config, run).entries, config) == state_after(config, run).entries,
        after_finish(state_after(config, run).entries, config, pid, outcome) == state_after(
            config,
            run,
        ).entries,
        forall|i: int|
            0 <= i < state_after(config, run).entries.len() ==> state_after(
                config,
                run,
            ).entries[i].status == WorkerStatus::Idle,
{
    lemma_run_sound(config, run);
}

/// A pool that is full refuses one more worker.
pub proof fn lemma_full_pool_refuses<C>(entries: Seq<Entry<C>>, config: PoolConfig, handle: Handle<C>)
    requires
        entries.len() == config.max_workers,
        !has_pid(entries, handle.pid),
    ensures
        !has_room(entries, config),
        !insert_accepted(entries, config.max_workers as nat, handle.pid),
        after_insert(entries, config.max_workers as nat, handle, WorkerStatus::Idle) == entries,
{
}

/// The pool after the workers of `handles` were registered one after
/// another, each as `register_worker` leaves it.
pub open spec fn after_registering<C>(
    entries: Seq<Entry<C>>,
    capacity: nat,
    handles: Seq<Handle<C>>,
) -> Seq<Entry<C>>
    decreases handles.len(),
{
    if handles.len() == 0 {
        entries
    } else {
        after_insert(
            after_registering(entries, capacity, handles.drop_last()),
            capacity,
            handles.last(),
            WorkerStatus::Idle,
        )
    }
}

/// The workers of `handles` belong to processes that differ from one
/// another and from those of the pool.
pub open spec fn fresh<C>(entries: Seq<Entry<C>>, handles: Seq<Handle<C>>) -> bool {
    &&& forall|i: int, j: int|
        0 <= i < j < handles.len() ==> handles[i].pid != handles[j].pid
    &&& forall|i: int, j: int|
        0 <= i < handles.len() && 0 <= j < entries.len() ==> handles[i].pid
            != entries[j].handle.pid
}

/// The first `count` workers of `handles` as idle entries.
pub open spec fn idle_entries<C>(handles: Seq<Handle<C>>, count: int) -> Seq<Entry<C>> {
    Seq::new(count as nat, |i: int| Entry { handle: handles[i], status: WorkerStatus::Idle })
}

/// How many of `wanted` new workers a pool of `len` workers takes in.
pub open spec fn taken_in(len: nat, capacity: nat, wanted: nat) -> int {
    if len + wanted <= capacity {
        wanted as int
    } else {
        capacity - len
    }
}

/// Registering any number of new workers fills the pool up to its
/// capacity and no further: the workers that fit are taken in idle, in their
/// order, and the others are left out.
pub proof fn lemma_registering_fills<C>(
    entries: Seq<Entry<C>>,
    capacity: nat,
    handles: Seq<Handle<C>>,
)
    requires
        unique_pids(entries),
        entries.len() <= capacity,
        fresh(entries, handles),
    ensures
        after_registering(entries, capacity, handles) == entries + idle_entries(
            handles,
            taken_in(entries.len(), capacity, handles.len()),
        ),
        after_registering(entries, capacity, handles).len() <= capacity,
        unique_pids(after_registering(entries, capacity, handles)),
        handles.len() > 0 ==> (insert_accepted(
            after_registering(entries, capacity, handles.drop_last()),
            capacity,
            handles.last().pid,
        ) <==> entries.len() + handles.len() <= capacity),
    decreases handles.len(),
{
    let k = entries.len();
    let n = handles.len();
    if n == 0 {
        assert(entries + idle_entries(handles, 0) =~= entries);
    } else {
        let before = handles.drop_last();
        let last = handles.last();
        lemma_registering_fills(entries, capacity, before);
        let prev = after_registering(entries, capacity, before);
        let t = taken_in(k, capacity, before.len());
        assert(prev == entries + idle_entries(before, t));
        assert(!has_pid(prev, last.pid)) by {
            if has_pid(prev, last.pid) {
                let j = index_of(prev, last.pid);
                if j < k {
                    assert(prev[j] == entries[j]);
                    assert(handles[n - 1].pid != entries[j].handle.pid);
                } else {
                    assert(prev[j].handle == before[j - k]);
                    assert(handles[j - k].pid != handles[n - 1].pid);
                }
            }
        }
        let next = after_registering(entries, capacity, handles);
        if prev.len() + 1 <= capacity {
            lemma_push(prev, Entry { handle: last, status: WorkerStatus::Idle });
            assert(next =~= entries + idle_entries(handles, t + 1));
        }
        assert(next =~= entries + idle_entries(handles, taken_in(k, capacity, n)));
    }
}

/// A pool that starts empty and is warmed with as many new workers as it
/// may hold is full, with every worker idle; one more worker is refused.
pub proof fn lemma_prewarm_to_capacity<C>(
    capacity: nat,
    handles: Seq<Handle<C>>,
    extra: Handle<C>,
)
    requires
        handles.len() == capacity,
        fresh(Seq::<Entry<C>>::empty(), handles.push(extra)),
    ensures
        after_registering(Seq::<Entry<C>>::empty(), capacity, handles).len() == capacity,
        forall|i: int|
            0 <= i < capacity ==> after_registering(Seq::<Entry<C>>::empty(), capacity, handles)[i]
                == (Entry { handle: handles[i], status: WorkerStatus::Idle }),
        !insert_accepted(
            after_registering(Seq::<Entry<C>>::empty(), capacity, handles),
            capacity,
            extra.pid,
        ),
        after_registering(Seq::<Entry<C>>::empty(), capacity, handles.push(extra))
            == after_registering(Seq::<Entry<C>>::empty(), capacity, handles),
{
    let empty = Seq::<Entry<C>>::empty();
    let more = handles.push(extra);
    assert(more.drop_last() =~= handles);
    assert(more.last() == extra);
    assert(fresh(empty, handles)) by {
        assert forall|i: int, j: int| 0 <= i < j < handles.len() implies handles[i].pid
            != handles[j].pid by {
            assert(more[i] == handles[i] && more[j] == handles[j]);
        }
    }
    lemma_registering_fills(empty, capacity, handles);
    lemma_registering_fills(empty, capacity, more);
}

} // verus!
