//! The pool of workers: each live worker with its status, in the order in
//! which the workers were taken in.
//!
//! A worker is known by the id of its process. The registry never holds two
//! entries for one process, and never more entries than its capacity.
//!
//! The workers are kept in a hash map under the id of their process. Beside
//! the map the registry keeps the ids in the order in which the workers came,
//! so that the choice among idle workers does not hang on the order of the
//! map.

use vstd::prelude::*;
use std::collections::HashMap;
use crate::error::ManagerError;
use crate::manager::{Handle, PartialHandle};
use crate::worker::WorkerStatus;

verus! {

/// One worker of the pool.
#[derive(Debug)]
pub struct Entry<C> {
    pub handle: Handle<C>,
    pub status: WorkerStatus,
}

/// Whether some entry belongs to the process `pid`.
pub open spec fn has_pid<C>(entries: Seq<Entry<C>>, pid: u32) -> bool {
    exists|i: int| 0 <= i < entries.len() && entries[i].handle.pid == pid
}

/// The place of the entry that belongs to the process `pid`.
pub open spec fn index_of<C>(entries: Seq<Entry<C>>, pid: u32) -> int {
    choose|i: int| 0 <= i < entries.len() && entries[i].handle.pid == pid
}

/// No process has two entries.
pub open spec fn unique_pids<C>(entries: Seq<Entry<C>>) -> bool {
    forall|i: int, j: int|
        0 <= i < j < entries.len() ==> entries[i].handle.pid != entries[j].handle.pid
}

/// `i` is the place of the earliest entry that is idle.
pub open spec fn is_first_idle<C>(entries: Seq<Entry<C>>, i: int) -> bool {
    &&& 0 <= i < entries.len()
    &&& entries[i].status == WorkerStatus::Idle
    &&& forall|j: int| 0 <= j < i ==> entries[j].status != WorkerStatus::Idle
}

/// The place of the earliest idle entry, if any entry is idle.
pub open spec fn first_idle<C>(entries: Seq<Entry<C>>) -> Option<int> {
    if exists|i: int| is_first_idle(entries, i) {
        Some(choose|i: int| is_first_idle(entries, i))
    } else {
        None
    }
}

/// No entry is idle.
pub open spec fn none_idle<C>(entries: Seq<Entry<C>>) -> bool {
    forall|i: int| 0 <= i < entries.len() ==> entries[i].status != WorkerStatus::Idle
}

/// The entries with the status at place `i` replaced.
pub open spec fn with_status<C>(entries: Seq<Entry<C>>, i: int, status: WorkerStatus) -> Seq<
    Entry<C>,
> {
    entries.update(i, Entry { handle: entries[i].handle, status })
}

/// The status of the process `pid`, if it has an entry.
pub open spec fn status_of<C>(entries: Seq<Entry<C>>, pid: u32) -> Option<WorkerStatus> {
    if has_pid(entries, pid) {
        Some(entries[index_of(entries, pid)].status)
    } else {
        None
    }
}

/// Whether a pool that may hold `capacity` workers takes in a worker of process `pid`.
pub open spec fn insert_accepted<C>(entries: Seq<Entry<C>>, capacity: nat, pid: u32) -> bool {
    has_pid(entries, pid) || entries.len() + 1 <= capacity
}

/// The pool after it was asked to take in `handle` with `status`: a worker
/// whose process has an entry takes that entry's place, a new one is added
/// at the end if the pool has room, and is left out if it has none.
pub open spec fn after_insert<C>(
    entries: Seq<Entry<C>>,
    capacity: nat,
    handle: Handle<C>,
    status: WorkerStatus,
) -> Seq<Entry<C>> {
    if has_pid(entries, handle.pid) {
        entries.update(index_of(entries, handle.pid), Entry { handle, status })
    } else if entries.len() + 1 <= capacity {
        entries.push(Entry { handle, status })
    } else {
        entries
    }
}

/// In a pool without doubles, the entry of a process is found at one place only.
pub proof fn lemma_index_of_unique<C>(entries: Seq<Entry<C>>, i: int)
    requires
        unique_pids(entries),
        0 <= i < entries.len(),
    ensures
        has_pid(entries, entries[i].handle.pid),
        index_of(entries, entries[i].handle.pid) == i,
{
    let pid = entries[i].handle.pid;
    let k = index_of(entries, pid);
    assert(0 <= k < entries.len() && entries[k].handle.pid == pid);
    if k < i {
        assert(entries[k].handle.pid != entries[i].handle.pid);
    } else if i < k {
        assert(entries[i].handle.pid != entries[k].handle.pid);
    }
}

/// Replacing a status changes the status of that one process and nothing else.
pub proof fn lemma_with_status<C>(entries: Seq<Entry<C>>, i: int, status: WorkerStatus)
    requires
        unique_pids(entries),
        0 <= i < entries.len(),
    ensures
        unique_pids(with_status(entries, i, status)),
        with_status(entries, i, status).len() == entries.len(),
        forall|pid: u32|
            has_pid(with_status(entries, i, status), pid) == has_pid(entries, pid),
        forall|pid: u32|
            status_of(with_status(entries, i, status), pid) == if pid == entries[i].handle.pid {
                Some(status)
            } else {
                status_of(entries, pid)
            },
{
    let after = with_status(entries, i, status);
    assert forall|k: int| 0 <= k < entries.len() implies #[trigger] after[k].handle.pid
        == entries[k].handle.pid by {}
    assert forall|pid: u32| has_pid(after, pid) == has_pid(entries, pid) && status_of(after, pid)
        == if pid == entries[i].handle.pid {
        Some(status)
    } else {
        status_of(entries, pid)
    } by {
        if has_pid(entries, pid) {
            let k = index_of(entries, pid);
            assert(after[k].handle.pid == pid);
            lemma_index_of_unique(after, k);
            lemma_index_of_unique(entries, i);
        } else {
            if has_pid(after, pid) {
                let k = index_of(after, pid);
                assert(entries[k].handle.pid == pid);
            }
        }
    }
}

/// Adding a worker of a new process adds that process and changes nothing else.
pub proof fn lemma_push<C>(entries: Seq<Entry<C>>, entry: Entry<C>)
    requires
        unique_pids(entries),
        !has_pid(entries, entry.handle.pid),
    ensures
        unique_pids(entries.push(entry)),
        forall|pid: u32|
            has_pid(entries.push(entry), pid) == (has_pid(entries, pid) || pid
                == entry.handle.pid),
        forall|pid: u32|
            status_of(entries.push(entry), pid) == if pid == entry.handle.pid {
                Some(entry.status)
            } else {
                status_of(entries, pid)
            },
{
    let after = entries.push(entry);
    let n = entries.len() as int;
    assert forall|k: int| 0 <= k < n implies #[trigger] after[k] == entries[k] by {}
    assert(after[n] == entry);
    assert forall|a: int, b: int| 0 <= a < b < after.len() implies after[a].handle.pid
        != after[b].handle.pid by {
        if b == n {
            assert(entries[a].handle.pid == after[a].handle.pid);
        }
    }
    assert forall|pid: u32| has_pid(after, pid) == (has_pid(entries, pid) || pid
        == entry.handle.pid) && status_of(after, pid) == if pid == entry.handle.pid {
        Some(entry.status)
    } else {
        status_of(entries, pid)
    } by {
        if pid == entry.handle.pid {
            lemma_index_of_unique(after, n);
        } else if has_pid(entries, pid) {
            let k = index_of(entries, pid);
            assert(after[k].handle.pid == pid);
            lemma_index_of_unique(after, k);
        } else {
            if has_pid(after, pid) {
                let k = index_of(after, pid);
                assert(k < n);
                assert(entries[k].handle.pid == pid);
            }
        }
    }
}

/// Taking an entry out removes that process and changes nothing else.
pub proof fn lemma_remove<C>(entries: Seq<Entry<C>>, i: int)
    requires
        unique_pids(entries),
        0 <= i < entries.len(),
    ensures
        unique_pids(entries.remove(i)),
        entries.remove(i).len() == entries.len() - 1,
        forall|pid: u32|
            has_pid(entries.remove(i), pid) == (has_pid(entries, pid) && pid
                != entries[i].handle.pid),
        forall|pid: u32|
            status_of(entries.remove(i), pid) == if pid == entries[i].handle.pid {
                None
            } else {
                status_of(entries, pid)
            },
{
    let after = entries.remove(i);
    assert forall|k: int| 0 <= k < after.len() implies #[trigger] after[k] == if k < i {
        entries[k]
    } else {
        entries[k + 1]
    } by {}
    assert forall|a: int, b: int| 0 <= a < b < after.len() implies after[a].handle.pid
        != after[b].handle.pid by {
        let a0 = if a < i { a } else { a + 1 };
        let b0 = if b < i { b } else { b + 1 };
        assert(entries[a0].handle.pid != entries[b0].handle.pid);
    }
    assert forall|pid: u32| has_pid(after, pid) == (has_pid(entries, pid) && pid
        != entries[i].handle.pid) && status_of(after, pid) == if pid == entries[i].handle.pid {
        None
    } else {
        status_of(entries, pid)
    } by {
        lemma_index_of_unique(entries, i);
        if has_pid(after, pid) {
            let k = index_of(after, pid);
            let k0 = if k < i { k } else { k + 1 };
            assert(entries[k0].handle.pid == pid);
            lemma_index_of_unique(entries, k0);
            lemma_index_of_unique(after, k);
        } else if has_pid(entries, pid) && pid != entries[i].handle.pid {
            let k0 = index_of(entries, pid);
            let k = if k0 < i { k0 } else { k0 - 1 };
            assert(after[k].handle.pid == pid);
        }
    }
}

/// The earliest idle entry is the only place that `is_first_idle` accepts.
pub proof fn lemma_first_idle_unique<C>(entries: Seq<Entry<C>>, i: int)
    requires
        is_first_idle(entries, i),
    ensures
        first_idle(entries) == Some(i),
{
    let k = choose|k: int| is_first_idle(entries, k);
    assert(is_first_idle(entries, k));
    if k < i {
        assert(entries[k].status != WorkerStatus::Idle);
    } else if i < k {
        assert(entries[i].status != WorkerStatus::Idle);
    }
}

/// Where no entry is idle there is no earliest idle entry, and the other way round.
pub proof fn lemma_first_idle_none<C>(entries: Seq<Entry<C>>)
    ensures
        first_idle(entries) is None <==> none_idle(entries),
{
    if none_idle(entries) {
        assert forall|i: int| !is_first_idle(entries, i) by {}
    } else {
        let w = choose|i: int| 0 <= i < entries.len() && entries[i].status == WorkerStatus::Idle;
        lemma_earliest_idle_exists(entries, w);
    }
}

/// An idle entry at `w` means that an earliest idle entry exists at or before `w`.
proof fn lemma_earliest_idle_exists<C>(entries: Seq<Entry<C>>, w: int)
    requires
        0 <= w < entries.len(),
        entries[w].status == WorkerStatus::Idle,
    ensures
        exists|i: int| 0 <= i <= w && is_first_idle(entries, i),
    decreases w,
{
    if exists|j: int| 0 <= j < w && entries[j].status == WorkerStatus::Idle {
        let j = choose|j: int| 0 <= j < w && entries[j].status == WorkerStatus::Idle;
        lemma_earliest_idle_exists(entries, j);
    } else {
        assert(is_first_idle(entries, w));
    }
}

/// The pool that a map of workers and the order of their processes stand for.
spec fn pool_of<C>(workers: Map<u32, Entry<C>>, order: Seq<u32>) -> Seq<Entry<C>> {
    Seq::new(order.len(), |i: int| workers[order[i]])
}

/// The order names every worker of the map once, and each worker is kept
/// under the id of its own process.
spec fn linked<C>(workers: Map<u32, Entry<C>>, order: Seq<u32>) -> bool {
    &&& forall|i: int, j: int| 0 <= i < j < order.len() ==> order[i] != order[j]
    &&& forall|i: int|
        0 <= i < order.len() ==> workers.contains_key(#[trigger] order[i])
            && workers[order[i]].handle.pid == order[i]
    &&& forall|pid: u32| #[trigger]
        workers.contains_key(pid) ==> exists|i: int| 0 <= i < order.len() && order[i] == pid
}

/// What the map and the order say of the pool that they stand for.
proof fn lemma_linked_pool<C>(workers: Map<u32, Entry<C>>, order: Seq<u32>)
    requires
        linked(workers, order),
    ensures
        unique_pids(pool_of(workers, order)),
        pool_of(workers, order).len() == order.len(),
        forall|pid: u32| has_pid(pool_of(workers, order), pid) == workers.contains_key(pid),
        forall|pid: u32| #[trigger]
            workers.contains_key(pid) ==> pool_of(workers, order)[index_of(
                pool_of(workers, order),
                pid,
            )] == workers[pid],
        forall|i: int|
            0 <= i < order.len() ==> index_of(pool_of(workers, order), #[trigger] order[i]) == i,
{
    let pool = pool_of(workers, order);
    assert forall|i: int| 0 <= i < order.len() implies #[trigger] pool[i].handle.pid
        == order[i] by {}
    assert forall|i: int| 0 <= i < order.len() implies index_of(pool, #[trigger] order[i])
        == i by {
        lemma_index_of_unique(pool, i);
    }
    assert forall|pid: u32| has_pid(pool, pid) == workers.contains_key(pid) by {
        if has_pid(pool, pid) {
            let k = index_of(pool, pid);
            assert(pool[k].handle.pid == order[k]);
        }
        if workers.contains_key(pid) {
            let i = choose|i: int| 0 <= i < order.len() && order[i] == pid;
            assert(pool[i].handle.pid == pid);
        }
    }
    assert forall|pid: u32| #[trigger] workers.contains_key(pid) implies pool[index_of(pool, pid)]
        == workers[pid] by {
        let i = choose|i: int| 0 <= i < order.len() && order[i] == pid;
        assert(index_of(pool, order[i]) == i);
    }
}

/// A worker that takes the place of the one of its process.
proof fn lemma_linked_replace<C>(workers: Map<u32, Entry<C>>, order: Seq<u32>, entry: Entry<C>)
    requires
        linked(workers, order),
        workers.contains_key(entry.handle.pid),
    ensures
        linked(workers.insert(entry.handle.pid, entry), order),
        pool_of(workers.insert(entry.handle.pid, entry), order) == pool_of(workers, order).update(
            index_of(pool_of(workers, order), entry.handle.pid),
            entry,
        ),
{
    let pid = entry.handle.pid;
    let after = workers.insert(pid, entry);
    lemma_linked_pool(workers, order);
    assert forall|p: u32| #[trigger] after.contains_key(p) implies exists|i: int|
        0 <= i < order.len() && order[i] == p by {
        assert(workers.contains_key(p));
    }
    let at = index_of(pool_of(workers, order), pid);
    assert forall|k: int| 0 <= k < order.len() implies #[trigger] pool_of(after, order)[k]
        == pool_of(workers, order).update(at, entry)[k] by {
        if order[k] == pid {
            assert(index_of(pool_of(workers, order), order[k]) == k);
        }
    }
    assert(pool_of(after, order) =~= pool_of(workers, order).update(at, entry));
}

/// A worker of a new process that is added at the end.
proof fn lemma_linked_push<C>(workers: Map<u32, Entry<C>>, order: Seq<u32>, entry: Entry<C>)
    requires
        linked(workers, order),
        !workers.contains_key(entry.handle.pid),
    ensures
        linked(workers.insert(entry.handle.pid, entry), order.push(entry.handle.pid)),
        pool_of(workers.insert(entry.handle.pid, entry), order.push(entry.handle.pid)) == pool_of(
            workers,
            order,
        ).push(entry),
{
    let pid = entry.handle.pid;
    let after = workers.insert(pid, entry);
    let longer = order.push(pid);
    let n = order.len() as int;
    assert forall|i: int| 0 <= i < n implies #[trigger] longer[i] == order[i] && order[i]
        != pid by {
        assert(workers.contains_key(order[i]));
    }
    assert(longer[n] == pid);
    assert forall|i: int| 0 <= i < longer.len() implies after.contains_key(#[trigger] longer[i])
        && after[longer[i]].handle.pid == longer[i] by {
        if i < n {
            assert(longer[i] == order[i]);
        }
    }
    assert forall|p: u32| #[trigger] after.contains_key(p) implies exists|i: int|
        0 <= i < longer.len() && longer[i] == p by {
        if p == pid {
            assert(longer[n] == p);
        } else {
            assert(workers.contains_key(p));
            let i = choose|i: int| 0 <= i < order.len() && order[i] == p;
            assert(longer[i] == p);
        }
    }
    assert forall|k: int| 0 <= k < longer.len() implies #[trigger] pool_of(after, longer)[k]
        == pool_of(workers, order).push(entry)[k] by {
        if k < n {
            assert(longer[k] == order[k]);
        }
    }
    assert(pool_of(after, longer) =~= pool_of(workers, order).push(entry));
}

/// A worker that is taken out.
proof fn lemma_linked_remove<C>(workers: Map<u32, Entry<C>>, order: Seq<u32>, i: int)
    requires
        linked(workers, order),
        0 <= i < order.len(),
    ensures
        linked(workers.remove(order[i]), order.remove(i)),
        pool_of(workers.remove(order[i]), order.remove(i)) == pool_of(workers, order).remove(i),
{
    let pid = order[i];
    let after = workers.remove(pid);
    let shorter = order.remove(i);
    assert forall|k: int| 0 <= k < shorter.len() implies #[trigger] shorter[k] == (if k < i {
        order[k]
    } else {
        order[k + 1]
    }) && shorter[k] != pid by {
        let k0 = if k < i { k } else { k + 1 };
        assert(order[k0] != order[i]);
    }
    assert forall|a: int, b: int| 0 <= a < b < shorter.len() implies shorter[a] != shorter[b] by {
        let a0 = if a < i { a } else { a + 1 };
        let b0 = if b < i { b } else { b + 1 };
        assert(order[a0] != order[b0]);
        assert(shorter[a] == order[a0]);
        assert(shorter[b] == order[b0]);
    }
    assert forall|k: int| 0 <= k < shorter.len() implies after.contains_key(#[trigger] shorter[k])
        && after[shorter[k]].handle.pid == shorter[k] by {
        let k0 = if k < i { k } else { k + 1 };
        assert(shorter[k] == order[k0]);
        assert(workers.contains_key(order[k0]));
    }
    assert forall|p: u32| #[trigger] after.contains_key(p) implies exists|k: int|
        0 <= k < shorter.len() && shorter[k] == p by {
        assert(workers.contains_key(p));
        let k0 = choose|k0: int| 0 <= k0 < order.len() && order[k0] == p;
        let k = if k0 < i { k0 } else { k0 - 1 };
        assert(shorter[k] == p);
    }
    assert forall|k: int| 0 <= k < shorter.len() implies #[trigger] pool_of(after, shorter)[k]
        == pool_of(workers, order).remove(i)[k] by {
        let k0 = if k < i { k } else { k + 1 };
        assert(shorter[k] == order[k0]);
    }
    assert(pool_of(after, shorter) =~= pool_of(workers, order).remove(i));
}

/// The workers by the id of their process, and the ids in the order in
/// which the workers were taken in.
#[derive(Debug)]
struct Slots<C> {
    workers: HashMap<u32, Entry<C>>,
    order: Vec<u32>,
}

/// The pool of workers with their statuses.
#[derive(Debug)]
pub struct Registry<C> {
    slots: Slots<C>,
    capacity: usize,
}

impl<C> View for Registry<C> {
    type V = Seq<Entry<C>>;

    closed spec fn view(&self) -> Seq<Entry<C>> {
        pool_of(self.slots.workers@, self.slots.order@)
    }
}

impl<C> Registry<C> {
    /// The largest number of workers that the pool may hold.
    pub closed spec fn max_workers(&self) -> nat {
        self.capacity as nat
    }

    /// The map holds the workers of the pool and no others, each under the
    /// id of its process.
    pub closed spec fn keyed(&self) -> bool {
        linked(self.slots.workers@, self.slots.order@)
    }

    /// What every registry keeps: it is within its capacity, no process has
    /// two entries, and its map holds the workers of the pool.
    #[verifier::type_invariant]
    pub open spec fn wf(&self) -> bool {
        &&& self@.len() <= self.max_workers()
        &&& unique_pids(self@)
        &&& self.keyed()
    }

    /// An empty pool that may grow to `capacity` workers.
    pub fn new(capacity: usize) -> (r: Self)
        ensures
            r@ == Seq::<Entry<C>>::empty(),
            r.max_workers() == capacity,
    {
        let slots = Slots { workers: HashMap::new(), order: Vec::new() };
        assert(pool_of(slots.workers@, slots.order@) =~= Seq::<Entry<C>>::empty());
        Registry { slots, capacity }
    }

    /// The number of workers in the pool, which is never beyond its
    /// capacity.
    pub fn len(&self) -> (n: usize)
        ensures
            n == self@.len(),
            n <= self.max_workers(),
            unique_pids(self@),
    {
        proof {
            use_type_invariant(self);
        }
        self.slots.order.len()
    }

    /// The largest number of workers that the pool may hold.
    pub fn capacity(&self) -> (n: usize)
        ensures
            n == self.max_workers(),
    {
        self.capacity
    }

    /// Whether one more worker would exceed the capacity.
    pub fn is_full(&self) -> (r: bool)
        ensures
            r == (self@.len() + 1 > self.max_workers()),
    {
        self.slots.order.len() >= self.capacity
    }

    /// Takes the workers out for a change, leaving the pool empty until
    /// they are put back.
    fn take_slots(&mut self) -> (slots: Slots<C>)
        ensures
            slots == old(self).slots,
            final(self)@ == Seq::<Entry<C>>::empty(),
            final(self).max_workers() == old(self).max_workers(),
    {
        let mut slots = Slots { workers: HashMap::new(), order: Vec::new() };
        assert(pool_of(slots.workers@, slots.order@) =~= Seq::<Entry<C>>::empty());
        std::mem::swap(&mut slots, &mut self.slots);
        slots
    }

    /// The place of the entry of process `pid`.
    fn position(&self, pid: u32) -> (r: Option<usize>)
        ensures
            match r {
                Some(i) => {
                    &&& has_pid(self@, pid)
                    &&& i == index_of(self@, pid)
                    &&& i < self.slots.order@.len()
                    &&& self.slots.order@[i as int] == pid
                },
                None => !has_pid(self@, pid),
            },
    {
        proof {
            use_type_invariant(self);
            lemma_linked_pool(self.slots.workers@, self.slots.order@);
        }
        let mut i: usize = 0;
        while i < self.slots.order.len()
            invariant
                0 <= i <= self.slots.order@.len(),
                linked(self.slots.workers@, self.slots.order@),
                forall|k: int| 0 <= k < i ==> self.slots.order@[k] != pid,
            decreases self.slots.order@.len() - i,
        {
            if self.slots.order[i] == pid {
                proof {
                    lemma_linked_pool(self.slots.workers@, self.slots.order@);
                }
                return Some(i);
            }
            i += 1;
        }
        proof {
            if self.slots.workers@.contains_key(pid) {
                let k = choose|k: int|
                    0 <= k < self.slots.order@.len() && self.slots.order@[k] == pid;
                assert(self.slots.order@[k] != pid);
            }
        }
        None
    }

    /// Whether the process `pid` has an entry.
    pub fn contains(&self, pid: u32) -> (r: bool)
        ensures
            r == has_pid(self@, pid),
    {
        proof {
            use_type_invariant(self);
            lemma_linked_pool(self.slots.workers@, self.slots.order@);
        }
        self.slots.workers.contains_key(&pid)
    }

    /// The entry of the process `pid`.
    pub fn get(&self, pid: u32) -> (r: Option<&Entry<C>>)
        ensures
            match r {
                Some(e) => has_pid(self@, pid) && *e == self@[index_of(self@, pid)],
                None => !has_pid(self@, pid),
            },
    {
        proof {
            use_type_invariant(self);
            lemma_linked_pool(self.slots.workers@, self.slots.order@);
        }
        self.slots.workers.get(&pid)
    }

    /// The status of the process `pid`.
    pub fn status(&self, pid: u32) -> (r: Option<WorkerStatus>)
        ensures
            r == status_of(self@, pid),
    {
        match self.get(pid) {
            Some(e) => Some(e.status),
            None => None,
        }
    }

    /// Takes a worker into the pool.
    ///
    /// A worker whose process already has an entry takes that entry's place,
    /// so the pool does not grow. A new worker is added at the end, and is
    /// refused if the pool is at its capacity.
    pub fn insert(&mut self, handle: Handle<C>, status: WorkerStatus) -> (r: Result<
        (),
        ManagerError,
    >)
        ensures
            final(self).max_workers() == old(self).max_workers(),
            final(self)@ == after_insert(old(self)@, old(self).max_workers(), handle, status),
            r == if insert_accepted(old(self)@, old(self).max_workers(), handle.pid) {
                Ok::<(), ManagerError>(())
            } else {
                Err(ManagerError::CapacityExceeded)
            },
    {
        proof {
            use_type_invariant(&*self);
            lemma_linked_pool(self.slots.workers@, self.slots.order@);
        }
        let pid = handle.pid;
        let known = self.slots.workers.contains_key(&pid);
        if !known && self.slots.order.len() >= self.capacity {
            return Err(ManagerError::CapacityExceeded);
        }
        let mut slots = self.take_slots();
        let entry = Entry { handle, status };
        proof {
            if known {
                lemma_linked_replace(slots.workers@, slots.order@, entry);
                lemma_linked_pool(slots.workers@.insert(pid, entry), slots.order@);
            } else {
                lemma_linked_push(slots.workers@, slots.order@, entry);
                lemma_linked_pool(slots.workers@.insert(pid, entry), slots.order@.push(pid));
            }
        }
        slots.workers.insert(pid, entry);
        if !known {
            slots.order.push(pid);
        }
        self.slots = slots;
        Ok(())
    }

    /// Takes the entry of process `pid` out of the pool and hands it back.
    pub fn remove(&mut self, pid: u32) -> (r: Option<Entry<C>>)
        ensures
            final(self).max_workers() == old(self).max_workers(),
            match r {
                Some(e) => {
                    &&& has_pid(old(self)@, pid)
                    &&& e == old(self)@[index_of(old(self)@, pid)]
                    &&& final(self)@ == old(self)@.remove(index_of(old(self)@, pid))
                },
                None => !has_pid(old(self)@, pid) && final(self)@ == old(self)@,
            },
    {
        proof {
            use_type_invariant(&*self);
            lemma_linked_pool(self.slots.workers@, self.slots.order@);
        }
        match self.position(pid) {
            Some(i) => {
                let mut slots = self.take_slots();
                proof {
                    lemma_linked_remove(slots.workers@, slots.order@, i as int);
                    lemma_linked_pool(slots.workers@.remove(pid), slots.order@.remove(i as int));
                }
                slots.order.remove(i);
                let entry = slots.workers.remove(&pid);
                self.slots = slots;
                entry
            },
            None => None,
        }
    }

    /// Sets the status of process `pid`; `false` if it has no entry.
    pub fn set_status(&mut self, pid: u32, status: WorkerStatus) -> (found: bool)
        ensures
            final(self).max_workers() == old(self).max_workers(),
            found == has_pid(old(self)@, pid),
            final(self)@ == if found {
                with_status(old(self)@, index_of(old(self)@, pid), status)
            } else {
                old(self)@
            },
    {
        proof {
            use_type_invariant(&*self);
            lemma_linked_pool(self.slots.workers@, self.slots.order@);
        }
        if !self.slots.workers.contains_key(&pid) {
            return false;
        }
        let mut slots = self.take_slots();
        let ghost before = slots.workers@;
        match slots.workers.remove(&pid) {
            Some(e) => {
                let entry = Entry { handle: e.handle, status };
                proof {
                    lemma_linked_replace(before, slots.order@, entry);
                    lemma_linked_pool(before.insert(pid, entry), slots.order@);
                    assert(before.remove(pid).insert(pid, entry) =~= before.insert(pid, entry));
                }
                slots.workers.insert(pid, entry);
            },
            None => {},
        }
        self.slots = slots;
        true
    }

    /// The earliest worker taken in that is idle.
    pub fn find_idle(&self) -> (r: Option<&Handle<C>>)
        ensures
            match r {
                Some(h) => first_idle(self@) is Some && *h == self@[first_idle(self@).unwrap()].handle,
                None => first_idle(self@) is None,
            },
    {
        proof {
            use_type_invariant(self);
        }
        let mut i: usize = 0;
        while i < self.slots.order.len()
            invariant
                0 <= i <= self.slots.order@.len(),
                linked(self.slots.workers@, self.slots.order@),
                self@ == pool_of(self.slots.workers@, self.slots.order@),
                forall|k: int| 0 <= k < i ==> self@[k].status != WorkerStatus::Idle,
            decreases self.slots.order@.len() - i,
        {
            let pid = self.slots.order[i];
            match self.slots.workers.get(&pid) {
                Some(e) => {
                    if e.status.is_dispatchable() {
                        proof {
                            lemma_first_idle_unique(self@, i as int);
                        }
                        return Some(&e.handle);
                    }
                },
                None => {},
            }
            i += 1;
        }
        proof {
            lemma_first_idle_none(self@);
        }
        None
    }

    /// Every worker's identity with its status, in the order of the pool.
    pub fn snapshot_status(&self) -> (r: Vec<(PartialHandle, WorkerStatus)>)
        ensures
            r@.len() == self@.len(),
            forall|i: int|
                0 <= i < self@.len() ==> r@[i] == (self@[i].handle.identity(), self@[i].status),
    {
        proof {
            use_type_invariant(self);
        }
        let mut out: Vec<(PartialHandle, WorkerStatus)> = Vec::new();
        let mut i: usize = 0;
        while i < self.slots.order.len()
            invariant
                0 <= i <= self.slots.order@.len(),
                linked(self.slots.workers@, self.slots.order@),
                self@ == pool_of(self.slots.workers@, self.slots.order@),
                out@.len() == i,
                forall|k: int|
                    0 <= k < i ==> out@[k] == (self@[k].handle.identity(), self@[k].status),
            decreases self.slots.order@.len() - i,
        {
            let pid = self.slots.order[i];
            match self.slots.workers.get(&pid) {
                Some(e) => {
                    out.push((e.handle.partial(), e.status));
                },
                None => {
                    assert(self.slots.workers@.contains_key(self.slots.order@[i as int]));
                },
            }
            i += 1;
        }
        out
    }

    /// Every worker's identity, in the order of the pool.
    pub fn snapshot_partial(&self) -> (r: Vec<PartialHandle>)
        ensures
            r@.len() == self@.len(),
            forall|i: int| 0 <= i < self@.len() ==> r@[i] == self@[i].handle.identity(),
    {
        let all = self.snapshot_status();
        let mut out: Vec<PartialHandle> = Vec::new();
        let mut i: usize = 0;
        while i < all.len()
            invariant
                0 <= i <= all@.len(),
                all@.len() == self@.len(),
                forall|k: int|
                    0 <= k < all@.len() ==> all@[k] == (self@[k].handle.identity(), self@[k].status),
                out@.len() == i,
                forall|k: int| 0 <= k < i ==> out@[k] == self@[k].handle.identity(),
            decreases all@.len() - i,
        {
            out.push(all[i].0);
            i += 1;
        }
        out
    }
}

} // verus!
