//! The manager of the pool: it admits new workers, picks the worker for
//! each dispatch, takes the worker back when the dispatch is over, and
//! retires workers.
//!
//! The manager decides and keeps the books. The program around it does what
//! was decided (starts the process, places the call, sends the signal) and
//! reports back what came of it.

use vstd::prelude::*;
use vstd::std_specs::cmp::PartialEqSpecImpl;
use crate::config::{Config, PoolConfig, PROBE_BACKOFF_MS};
use crate::error::ManagerError;
use crate::registry::{
    after_insert, first_idle, has_pid, index_of, insert_accepted, lemma_first_idle_none,
    lemma_index_of_unique, unique_pids, with_status, Entry, Registry,
};
use crate::rpc;
use crate::task::{Inference, InferenceType, TimedInference};
use crate::util::{decimal, join, to_decimal};
use crate::worker::WorkerStatus;

verus! {

/// What identifies a worker to the outside: its process and its port.
#[derive(Debug, Clone, Copy, PartialEq, Eq, Hash, Structural)]
pub struct PartialHandle {
    pub port: u16,
    pub pid: u32,
}

impl PartialHandle {
    /// How the worker is named in listings.
    pub open spec fn label(self) -> Seq<char> {
        "Handle { port: "@ + decimal(self.port as nat) + ", pid: "@ + decimal(self.pid as nat)
            + " }"@
    }

    /// How the worker is named in listings.
    pub fn describe(&self) -> (s: String)
        ensures
            s@ == self.label(),
    {
        let port = to_decimal(self.port as u64);
        let pid = to_decimal(self.pid as u64);
        let s = join("Handle { port: ", port.as_str());
        let s = join(s.as_str(), ", pid: ");
        let s = join(s.as_str(), pid.as_str());
        join(s.as_str(), " }")
    }
}

/// A live worker: its identity and the channel over which it is reached.
///
/// The channel takes no part in comparing handles, so that a handle whose
/// channel was reopened still equals the one it replaces.
#[derive(Debug, Clone)]
pub struct Handle<C> {
    pub port: u16,
    pub pid: u32,
    pub channel: C,
}

impl<C> Handle<C> {
    /// The identity of the worker, without the channel.
    pub open spec fn identity(self) -> PartialHandle {
        PartialHandle { port: self.port, pid: self.pid }
    }

    /// The identity of the worker, without the channel.
    pub fn partial(&self) -> (p: PartialHandle)
        ensures
            p == self.identity(),
    {
        PartialHandle { port: self.port, pid: self.pid }
    }
}

impl<C> PartialEq for Handle<C> {
    fn eq(&self, other: &Self) -> (r: bool) {
        self.port == other.port && self.pid == other.pid
    }
}

impl<C> PartialEqSpecImpl for Handle<C> {
    open spec fn obeys_eq_spec() -> bool {
        true
    }

    open spec fn eq_spec(&self, other: &Self) -> bool {
        self.port == other.port && self.pid == other.pid
    }
}

/// `Hash::hash` of std for `u16`: feeds the number to the hasher. Nothing is
/// claimed of the hasher afterwards.
pub assume_specification<H: std::hash::Hasher>[ <u16 as std::hash::Hash>::hash ](
    value: &u16,
    state: &mut H,
)
;

/// `Hash::hash` of std for `u32`: feeds the number to the hasher. Nothing is
/// claimed of the hasher afterwards.
pub assume_specification<H: std::hash::Hasher>[ <u32 as std::hash::Hash>::hash ](
    value: &u32,
    state: &mut H,
)
;

impl<C> std::hash::Hash for Handle<C> {
    /// Hashes the port and the process, and not the channel.
    fn hash<H: std::hash::Hasher>(&self, state: &mut H) {
        self.port.hash(state);
        self.pid.hash(state);
    }
}

impl<C> Eq for Handle<C> {

}

/// What the manager decided for a dispatch.
#[derive(Debug, Clone, Copy, PartialEq, Eq, Structural)]
pub enum Dispatch {
    /// Place the call on this worker; it has been claimed for the caller.
    Run(PartialHandle),
    /// No worker is idle and the pool may grow: start a worker, then hand
    /// it to `adopt_worker`.
    Spawn,
}

/// How a dispatch ended.
#[derive(Debug, Clone, Copy, PartialEq, Eq, Structural)]
pub enum Outcome {
    /// The worker answered with a result.
    Success,
    /// The worker answered that its model failed.
    InferenceFailure,
    /// The channel to the worker failed.
    RpcFailure,
}

/// What to do after an attempt to reach a new worker.
#[derive(Debug, Clone, Copy, PartialEq, Eq, Structural)]
pub enum ProbeStep {
    /// The worker is reachable: register it.
    Ready,
    /// Wait this many milliseconds, then try again.
    Retry(u64),
}

/// What the manager needs to start a worker process and to reach it.
#[derive(Debug, Clone, PartialEq, Eq)]
pub struct SpawnPlan {
    /// The executable of the process.
    pub binary: String,
    /// The arguments of the process: the port, the configuration file, the
    /// model file.
    pub args: Vec<String>,
    /// The name of the environment variable that hands the log filter to
    /// the process.
    pub env_name: String,
    /// The log filter.
    pub env_value: String,
    /// The file that takes the standard output of the process.
    pub out_log: String,
    /// The file that takes the standard error of the process.
    pub err_log: String,
    /// The address at which the worker is probed and called.
    pub endpoint: String,
}

/// The name of a log file of the worker on `port`, started at second `now`.
pub open spec fn log_name(port: u16, now: u64, suffix: Seq<char>) -> Seq<char> {
    "./logs/worker_"@ + decimal(port as nat) + "_"@ + decimal(now as nat) + suffix
}

/// The address at which the worker on `port` is reached.
pub open spec fn endpoint_of(port: u16) -> Seq<char> {
    "http://[::1]:"@ + decimal(port as nat)
}

/// Whether a status code is one under which a worker itself ends a call.
pub open spec fn from_worker(code: i32) -> bool {
    code == rpc::STATUS_FAILED_PRECONDITION || code == rpc::STATUS_INVALID_ARGUMENT
}

/// How a dispatch ended, told from what came back from the call: an answer
/// counts as a result if it holds the part that the task's type calls for; a
/// status of the worker's own, like an answer without that part, is a
/// failure of the inference; any other status is a failure of the channel.
pub open spec fn reply_outcome(ty: InferenceType, reply: rpc::Reply) -> Outcome {
    match reply {
        rpc::Reply::Answer(w) => if Inference::readable(ty, w) {
            Outcome::Success
        } else {
            Outcome::InferenceFailure
        },
        rpc::Reply::Failed(status) => if from_worker(status.code) {
            Outcome::InferenceFailure
        } else {
            Outcome::RpcFailure
        },
    }
}

/// Reads what came back from the call that served a task of type `ty`: how
/// the dispatch ended, and the result or the error for the client.
pub fn read_reply(ty: InferenceType, reply: rpc::Reply) -> (r: (
    Outcome,
    Result<TimedInference, ManagerError>,
))
    ensures
        r.0 == reply_outcome(ty, reply),
        match reply {
            rpc::Reply::Answer(w) => match r.1 {
                Ok(timed) => {
                    &&& Inference::readable(ty, w)
                    &&& timed.inference.read_from(ty, w)
                    &&& timed.duration == w.duration
                },
                Err(e) => {
                    &&& !Inference::readable(ty, w)
                    &&& e matches ManagerError::InferenceFailure(text)
                    &&& text@ == "the worker's answer lacks its result"@
                },
            },
            rpc::Reply::Failed(status) => r.1 == Err::<TimedInference, ManagerError>(
                if from_worker(status.code) {
                    ManagerError::InferenceFailure(status.message)
                } else {
                    ManagerError::RpcFailure(status.message)
                },
            ),
        },
{
    match reply {
        rpc::Reply::Answer(w) => match Inference::from_rpc(ty, w) {
            Some(timed) => (Outcome::Success, Ok(timed)),
            None => (
                Outcome::InferenceFailure,
                Err(ManagerError::InferenceFailure("the worker's answer lacks its result".to_owned())),
            ),
        },
        rpc::Reply::Failed(status) => {
            if status.code == rpc::STATUS_FAILED_PRECONDITION || status.code
                == rpc::STATUS_INVALID_ARGUMENT {
                (Outcome::InferenceFailure, Err(ManagerError::InferenceFailure(status.message)))
            } else {
                (Outcome::RpcFailure, Err(ManagerError::RpcFailure(status.message)))
            }
        },
    }
}

/// `k` is the place of the earliest reply that is a failure.
pub open spec fn is_first_failure(
    replies: Seq<(PartialHandle, Result<u64, rpc::Status>)>,
    k: int,
) -> bool {
    &&& 0 <= k < replies.len()
    &&& replies[k].1 is Err
    &&& forall|j: int| 0 <= j < k ==> replies[j].1 is Ok
}

/// Puts together what the workers reported of themselves: `replies` holds
/// each worker with the number of requests it has served, or with the status
/// with which asking it failed. One failure is the failure of the whole, and
/// the text of the earliest failure is handed on.
pub fn collect_stats(replies: &Vec<(PartialHandle, Result<u64, rpc::Status>)>) -> (r: Result<
    Vec<(PartialHandle, u64)>,
    ManagerError,
>)
    ensures
        match r {
            Ok(stats) => {
                &&& stats@.len() == replies@.len()
                &&& forall|i: int|
                    0 <= i < replies@.len() ==> replies@[i].0 == stats@[i].0 && replies@[i].1
                        == Ok::<u64, rpc::Status>(stats@[i].1)
            },
            Err(e) => exists|k: int|
                {
                    &&& is_first_failure(replies@, k)
                    &&& replies@[k].1 matches Err(status)
                    &&& e == ManagerError::RpcFailure(status.message)
                },
        },
{
    let mut stats: Vec<(PartialHandle, u64)> = Vec::new();
    let mut i: usize = 0;
    while i < replies.len()
        invariant
            0 <= i <= replies@.len(),
            stats@.len() == i,
            forall|k: int|
                0 <= k < i ==> replies@[k].0 == stats@[k].0 && replies@[k].1 == Ok::<
                    u64,
                    rpc::Status,
                >(stats@[k].1),
        decreases replies@.len() - i,
    {
        match &replies[i].1 {
            Ok(n) => {
                stats.push((replies[i].0, *n));
            },
            Err(status) => {
                assert(is_first_failure(replies@, i as int));
                return Err(ManagerError::RpcFailure(status.message.clone()));
            },
        }
        i += 1;
    }
    Ok(stats)
}

/// The status that a worker is given when its dispatch is over.
pub open spec fn released_status(outcome: Outcome) -> WorkerStatus {
    match outcome {
        Outcome::RpcFailure => WorkerStatus::Error,
        _ => WorkerStatus::Idle,
    }
}

/// The status that a worker claimed for a dispatch has under `config`.
pub open spec fn claimed_status(config: PoolConfig) -> WorkerStatus {
    if config.fast_workers {
        WorkerStatus::Idle
    } else {
        WorkerStatus::Working
    }
}

/// Whether one more worker fits into the pool.
pub open spec fn has_room<C>(entries: Seq<Entry<C>>, config: PoolConfig) -> bool {
    entries.len() + 1 <= config.max_workers
}

/// What a dispatch is told, given the pool it finds.
pub open spec fn dispatch_decision<C>(entries: Seq<Entry<C>>, config: PoolConfig) -> Result<
    Dispatch,
    ManagerError,
> {
    match first_idle(entries) {
        Some(i) => Ok(Dispatch::Run(entries[i].handle.identity())),
        None => if config.auto_scale && has_room(entries, config) {
            Ok(Dispatch::Spawn)
        } else {
            Err(ManagerError::AllBusy)
        },
    }
}

/// The pool after a dispatch has looked for its worker: the earliest idle
/// worker is marked as working, unless workers are fast.
pub open spec fn after_claim<C>(entries: Seq<Entry<C>>, config: PoolConfig) -> Seq<Entry<C>> {
    match first_idle(entries) {
        Some(i) => if config.fast_workers {
            entries
        } else {
            with_status(entries, i, WorkerStatus::Working)
        },
        None => entries,
    }
}

/// The pool after the dispatch on process `pid` has ended.
pub open spec fn after_finish<C>(
    entries: Seq<Entry<C>>,
    config: PoolConfig,
    pid: u32,
    outcome: Outcome,
) -> Seq<Entry<C>> {
    if !has_pid(entries, pid) {
        entries
    } else if config.spot_workers {
        entries.remove(index_of(entries, pid))
    } else if config.fast_workers {
        entries
    } else {
        with_status(entries, index_of(entries, pid), released_status(outcome))
    }
}

/// What an attempt to reach a new worker leads to: the worker is ready if it
/// was reached; if not, the spawn has timed out once the time allowed has
/// gone by, and is tried again after the back-off before that.
pub open spec fn probe_decision(connected: bool, elapsed_ms: u64, timeout_ms: u64) -> Result<
    ProbeStep,
    ManagerError,
> {
    if connected {
        Ok(ProbeStep::Ready)
    } else if elapsed_ms >= timeout_ms {
        Err(ManagerError::SpawnTimeout)
    } else {
        Ok(ProbeStep::Retry(PROBE_BACKOFF_MS))
    }
}

/// The identities of the workers that are serving a dispatch, in the order of the pool.
pub open spec fn working_of<C>(entries: Seq<Entry<C>>) -> Seq<PartialHandle>
    decreases entries.len(),
{
    if entries.len() == 0 {
        Seq::empty()
    } else if entries.last().status == WorkerStatus::Working {
        working_of(entries.drop_last()).push(entries.last().handle.identity())
    } else {
        working_of(entries.drop_last())
    }
}

/// The worker manager. All its workers run on this host.
#[derive(Debug)]
pub struct Manager<C> {
    /// The current workers.
    workers: Registry<C>,
    /// The path to the model file that every worker loads.
    model_file: String,
    /// The configuration.
    config: Config,
}

impl<C> View for Manager<C> {
    type V = Seq<Entry<C>>;

    closed spec fn view(&self) -> Seq<Entry<C>> {
        self.workers@
    }
}

impl<C> Manager<C> {
    /// The configuration.
    pub closed spec fn settings(&self) -> Config {
        self.config
    }

    /// The policy of the pool.
    pub open spec fn policy(&self) -> PoolConfig {
        self.settings().manager
    }

    /// The path to the model file, as text.
    pub closed spec fn model(&self) -> Seq<char> {
        self.model_file@
    }

    /// What every manager keeps: its pool may hold as many workers as its
    /// policy allows, and no more.
    #[verifier::type_invariant]
    closed spec fn wf(&self) -> bool {
        self.workers.max_workers() == self.config.manager.max_workers
    }

    /// Takes the pool out for a change, leaving an empty one until it is
    /// put back.
    fn take_workers(&mut self) -> (workers: Registry<C>)
        ensures
            workers@ == old(self)@,
            workers.max_workers() == old(self).policy().max_workers,
            final(self).settings() == old(self).settings(),
            final(self).model() == old(self).model(),
    {
        proof {
            use_type_invariant(&*self);
        }
        let mut workers: Registry<C> = Registry::new(self.config.manager.max_workers);
        std::mem::swap(&mut workers, &mut self.workers);
        workers
    }

    /// A manager with an empty pool.
    pub fn new(model_file: String, config: Config) -> (m: Self)
        ensures
            m@ == Seq::<Entry<C>>::empty(),
            m.settings() == config,
            m.model() == model_file@,
    {
        Manager { workers: Registry::new(config.manager.max_workers), model_file, config }
    }

    /// The configuration.
    pub fn config(&self) -> (c: &Config)
        ensures
            *c == self.settings(),
    {
        &self.config
    }

    /// The path to the model file that every worker loads.
    pub fn model_file(&self) -> (s: &String)
        ensures
            s@ == self.model(),
    {
        &self.model_file
    }

    /// The number of workers in the pool, which is never beyond the largest
    /// number of workers of the policy; nor has a process two entries.
    pub fn num_workers(&self) -> (n: usize)
        ensures
            n == self@.len(),
            n <= self.policy().max_workers,
            unique_pids(self@),
    {
        proof {
            use_type_invariant(self);
        }
        self.workers.len()
    }

    /// How many workers are still to be started before traffic is served.
    pub fn prewarm_remaining(&self) -> (n: usize)
        ensures
            n == if self@.len() >= self.policy().num_init_workers {
                0
            } else {
                self.policy().num_init_workers - self@.len()
            },
    {
        let have = self.workers.len();
        let want: usize = self.config.manager.num_init_workers as usize;
        if have >= want {
            0
        } else {
            want - have
        }
    }

    /// Decides whether one more worker may be started.
    pub fn admit_spawn(&self) -> (r: Result<(), ManagerError>)
        ensures
            r == if has_room(self@, self.policy()) {
                Ok::<(), ManagerError>(())
            } else {
                Err(ManagerError::CapacityExceeded)
            },
    {
        proof {
            use_type_invariant(self);
        }
        if self.workers.len() >= self.config.manager.max_workers {
            Err(ManagerError::CapacityExceeded)
        } else {
            Ok(())
        }
    }

    /// Decides what follows an attempt to reach a new worker: `connected`
    /// says whether the attempt succeeded, `elapsed_ms` how long the worker
    /// has been waited for.
    pub fn probe_step(&self, connected: bool, elapsed_ms: u64) -> (step: Result<
        ProbeStep,
        ManagerError,
    >)
        ensures
            step == probe_decision(connected, elapsed_ms, self.policy().worker_timeout),
    {
        if connected {
            Ok(ProbeStep::Ready)
        } else if elapsed_ms >= self.config.manager.worker_timeout {
            Err(ManagerError::SpawnTimeout)
        } else {
            Ok(ProbeStep::Retry(PROBE_BACKOFF_MS))
        }
    }

    /// What is needed to start a worker on `port` and to reach it:
    /// `config_file` is the path of the configuration that the worker reads,
    /// `now` the second at which it is started.
    pub fn spawn_plan(&self, port: u16, config_file: &str, now: u64) -> (plan: SpawnPlan)
        ensures
            plan.binary@ == self.settings().worker_binary@,
            plan.env_name@ == "RUST_LOG"@,
            plan.env_value@ == self.settings().logging@,
            plan.args@.len() == 3,
            plan.args@[0]@ == decimal(port as nat),
            plan.args@[1]@ == config_file@,
            plan.args@[2]@ == self.model(),
            plan.out_log@ == log_name(port, now, ".out"@),
            plan.err_log@ == log_name(port, now, ".err"@),
            plan.endpoint@ == endpoint_of(port),
    {
        let port_text = to_decimal(port as u64);
        let now_text = to_decimal(now);
        let stem = join("./logs/worker_", port_text.as_str());
        let stem = join(stem.as_str(), "_");
        let stem = join(stem.as_str(), now_text.as_str());
        let out_log = join(stem.as_str(), ".out");
        let err_log = join(stem.as_str(), ".err");
        let endpoint = join("http://[::1]:", port_text.as_str());
        let mut args: Vec<String> = Vec::new();
        args.push(port_text);
        args.push(config_file.to_owned());
        args.push(self.model_file.clone());
        let binary = self.config.worker_binary.clone();
        let env_name = "RUST_LOG".to_owned();
        let env_value = self.config.logging.clone();
        SpawnPlan { binary, args, env_name, env_value, out_log, err_log, endpoint }
    }

    /// Takes a worker that has been started and reached into the pool, idle.
    pub fn register_worker(&mut self, handle: Handle<C>) -> (r: Result<PartialHandle, ManagerError>)
        ensures
            final(self).settings() == old(self).settings(),
            final(self).model() == old(self).model(),
            final(self)@ == after_insert(
                old(self)@,
                old(self).policy().max_workers as nat,
                handle,
                WorkerStatus::Idle,
            ),
            r == if insert_accepted(
                old(self)@,
                old(self).policy().max_workers as nat,
                handle.pid,
            ) {
                Ok::<PartialHandle, ManagerError>(handle.identity())
            } else {
                Err(ManagerError::CapacityExceeded)
            },
    {
        let p = handle.partial();
        let mut workers = self.take_workers();
        let taken = workers.insert(handle, WorkerStatus::Idle);
        self.workers = workers;
        match taken {
            Ok(_) => Ok(p),
            Err(e) => Err(e),
        }
    }

    /// Takes a worker that was started for a waiting dispatch into the pool
    /// and claims it for that dispatch at once.
    pub fn adopt_worker(&mut self, handle: Handle<C>) -> (r: Result<PartialHandle, ManagerError>)
        ensures
            final(self).settings() == old(self).settings(),
            final(self).model() == old(self).model(),
            final(self)@ == after_insert(
                old(self)@,
                old(self).policy().max_workers as nat,
                handle,
                claimed_status(old(self).policy()),
            ),
            r == if insert_accepted(
                old(self)@,
                old(self).policy().max_workers as nat,
                handle.pid,
            ) {
                Ok::<PartialHandle, ManagerError>(handle.identity())
            } else {
                Err(ManagerError::CapacityExceeded)
            },
    {
        let p = handle.partial();
        let status = if self.config.manager.fast_workers {
            WorkerStatus::Idle
        } else {
            WorkerStatus::Working
        };
        let mut workers = self.take_workers();
        let taken = workers.insert(handle, status);
        self.workers = workers;
        match taken {
            Ok(_) => Ok(p),
            Err(e) => Err(e),
        }
    }

    /// Set the status of a worker; `false` if the process has no entry.
    pub fn set_worker_status(&mut self, pid: u32, status: WorkerStatus) -> (found: bool)
        ensures
            final(self).settings() == old(self).settings(),
            final(self).model() == old(self).model(),
            found == has_pid(old(self)@, pid),
            final(self)@ == if found {
                with_status(old(self)@, index_of(old(self)@, pid), status)
            } else {
                old(self)@
            },
    {
        let mut workers = self.take_workers();
        let found = workers.set_status(pid, status);
        self.workers = workers;
        found
    }

    /// Get a handle to an idle worker, if any workers are idle: the one
    /// that has been in the pool longest.
    pub fn get_idle_worker(&self) -> (r: Option<&Handle<C>>)
        ensures
            match r {
                Some(h) => first_idle(self@) is Some && *h == self@[first_idle(self@).unwrap()].handle,
                None => first_idle(self@) is None,
            },
    {
        self.workers.find_idle()
    }

    /// The handle of process `pid`, with its channel.
    pub fn handle(&self, pid: u32) -> (r: Option<&Handle<C>>)
        ensures
            match r {
                Some(h) => has_pid(self@, pid) && *h == self@[index_of(self@, pid)].handle,
                None => !has_pid(self@, pid),
            },
    {
        match self.workers.get(pid) {
            Some(e) => Some(&e.handle),
            None => None,
        }
    }

    /// Picks the worker for a dispatch and claims it.
    ///
    /// The earliest idle worker is picked and, unless workers are fast,
    /// marked as working before this returns, so that no other dispatch
    /// picks it. With no idle worker the caller is told to start one, where
    /// the policy scales and the pool has room, and is refused otherwise.
    pub fn begin_dispatch(&mut self) -> (r: Result<Dispatch, ManagerError>)
        ensures
            final(self).settings() == old(self).settings(),
            final(self).model() == old(self).model(),
            r == dispatch_decision(old(self)@, old(self).policy()),
            final(self)@ == after_claim(old(self)@, old(self).policy()),
    {
        let picked = match self.workers.find_idle() {
            Some(h) => Some(h.partial()),
            None => None,
        };
        match picked {
            Some(p) => {
                let ghost i = first_idle(self.workers@).unwrap();
                proof {
                    use_type_invariant(&self.workers);
                    lemma_first_idle_none(self.workers@);
                    lemma_index_of_unique(self.workers@, i);
                }
                if !self.config.manager.fast_workers {
                    let mut workers = self.take_workers();
                    workers.set_status(p.pid, WorkerStatus::Working);
                    self.workers = workers;
                }
                Ok(Dispatch::Run(p))
            },
            None => {
                proof {
                    use_type_invariant(&*self);
                }
                if self.config.manager.auto_scale && !self.workers.is_full() {
                    Ok(Dispatch::Spawn)
                } else {
                    Err(ManagerError::AllBusy)
                }
            },
        }
    }

    /// Takes a worker back when its dispatch is over.
    ///
    /// With spot workers the worker leaves the pool and its handle is
    /// returned, for the caller to end the process. Otherwise, unless
    /// workers are fast, the worker becomes idle again, or is marked as in
    /// error where the channel failed.
    pub fn finish_dispatch(&mut self, pid: u32, outcome: Outcome) -> (retired: Option<Handle<C>>)
        ensures
            final(self).settings() == old(self).settings(),
            final(self).model() == old(self).model(),
            final(self)@ == after_finish(old(self)@, old(self).policy(), pid, outcome),
            retired == if has_pid(old(self)@, pid) && old(self).policy().spot_workers {
                Some(old(self)@[index_of(old(self)@, pid)].handle)
            } else {
                None
            },
    {
        if self.config.manager.spot_workers {
            let mut workers = self.take_workers();
            let removed = workers.remove(pid);
            self.workers = workers;
            match removed {
                Some(e) => Some(e.handle),
                None => None,
            }
        } else if self.config.manager.fast_workers {
            None
        } else {
            let status = match outcome {
                Outcome::RpcFailure => WorkerStatus::Error,
                _ => WorkerStatus::Idle,
            };
            let mut workers = self.take_workers();
            workers.set_status(pid, status);
            self.workers = workers;
            None
        }
    }

    /// Retires the earliest idle worker: it leaves the pool, and its handle
    /// is returned for the caller to end the process.
    pub fn kill_worker(&mut self) -> (r: Result<Handle<C>, ManagerError>)
        ensures
            final(self).settings() == old(self).settings(),
            final(self).model() == old(self).model(),
            match r {
                Ok(h) => {
                    &&& first_idle(old(self)@) is Some
                    &&& h == old(self)@[first_idle(old(self)@).unwrap()].handle
                    &&& final(self)@ == old(self)@.remove(first_idle(old(self)@).unwrap())
                },
                Err(e) => {
                    &&& e == ManagerError::AllBusy
                    &&& first_idle(old(self)@) is None
                    &&& final(self)@ == old(self)@
                },
            },
    {
        let picked = match self.workers.find_idle() {
            Some(h) => Some(h.pid),
            None => None,
        };
        match picked {
            Some(pid) => {
                proof {
                    use_type_invariant(&self.workers);
                    lemma_first_idle_none(self.workers@);
                    lemma_index_of_unique(self.workers@, first_idle(self.workers@).unwrap());
                }
                let mut workers = self.take_workers();
                let removed = workers.remove(pid);
                self.workers = workers;
                match removed {
                    Some(e) => Ok(e.handle),
                    None => Err(ManagerError::AllBusy),
                }
            },
            None => Err(ManagerError::AllBusy),
        }
    }

    /// Get the statuses of all workers, in the order of the pool.
    pub fn all_status(&self) -> (r: Vec<(PartialHandle, WorkerStatus)>)
        ensures
            r@.len() == self@.len(),
            forall|i: int|
                0 <= i < self@.len() ==> r@[i] == (self@[i].handle.identity(), self@[i].status),
    {
        self.workers.snapshot_status()
    }

    /// The listing of the pool for the client: the name of each worker
    /// with the name of its status, in the order of the pool.
    pub fn status_listing(&self) -> (r: Vec<(String, String)>)
        ensures
            r@.len() == self@.len(),
            forall|i: int|
                0 <= i < self@.len() ==> r@[i].0@ == self@[i].handle.identity().label()
                    && r@[i].1@ == self@[i].status.label(),
    {
        let all = self.workers.snapshot_status();
        let mut out: Vec<(String, String)> = Vec::new();
        let mut i: usize = 0;
        while i < all.len()
            invariant
                0 <= i <= all@.len(),
                all@.len() == self.workers@.len(),
                forall|k: int|
                    0 <= k < all@.len() ==> all@[k] == (
                        self.workers@[k].handle.identity(),
                        self.workers@[k].status,
                    ),
                out@.len() == i,
                forall|k: int|
                    0 <= k < i ==> out@[k].0@ == self.workers@[k].handle.identity().label()
                        && out@[k].1@ == self.workers@[k].status.label(),
            decreases all@.len() - i,
        {
            out.push((all[i].0.describe(), all[i].1.name()));
            i += 1;
        }
        out
    }

    /// The workers that are serving a dispatch, in the order of the pool.
    pub fn all_workers(&self) -> (r: Vec<PartialHandle>)
        ensures
            r@ == working_of(self@),
    {
        let all = self.workers.snapshot_status();
        let mut out: Vec<PartialHandle> = Vec::new();
        let mut i: usize = 0;
        while i < all.len()
            invariant
                0 <= i <= all@.len(),
                all@.len() == self.workers@.len(),
                forall|k: int|
                    0 <= k < all@.len() ==> all@[k] == (
                        self.workers@[k].handle.identity(),
                        self.workers@[k].status,
                    ),
                out@ == working_of(self.workers@.take(i as int)),
            decreases all@.len() - i,
        {
            proof {
                let next = self.workers@.take(i + 1);
                assert(next.drop_last() == self.workers@.take(i as int));
                assert(next.last() == self.workers@[i as int]);
            }
            if all[i].1 == WorkerStatus::Working {
                out.push(all[i].0);
            }
            i += 1;
        }
        proof {
            assert(self.workers@.take(i as int) == self.workers@);
        }
        out
    }

    /// Return all the workers, without their status, in the order of the pool.
    pub fn workers(&self) -> (r: Vec<PartialHandle>)
        ensures
            r@.len() == self@.len(),
            forall|i: int| 0 <= i < self@.len() ==> r@[i] == self@[i].handle.identity(),
    {
        self.workers.snapshot_partial()
    }
}

} // verus!
