//! The worker: its status as the pool sees it, and its own side of a call.
//!
//! A worker holds a model and counts the requests that it has served. The
//! model itself is run by the program around the library: the worker reads
//! the task from the request, and writes the answer from what the model
//! gave.

use vstd::prelude::*;
use crate::rpc;
use crate::task::{Inference, InferenceTask};
use crate::util::{decimal, join, to_decimal};

verus! {

/// The current status of a worker.
#[derive(Debug, Clone, Copy, PartialEq, Eq, Structural)]
pub enum WorkerStatus {
    /// A dispatch is in flight on this worker.
    Working,
    /// Registered and free to take a dispatch.
    Idle,
    /// Retirement was requested; the worker takes no new dispatch.
    ShuttingDown,
    /// The last thing seen of the worker was a failure.
    Error,
}

impl WorkerStatus {
    /// Whether a worker in this status may be handed a dispatch.
    pub open spec fn dispatchable(self) -> bool {
        self == WorkerStatus::Idle
    }

    /// The name of the status in listings.
    pub open spec fn label(self) -> Seq<char> {
        match self {
            WorkerStatus::Working => "Working"@,
            WorkerStatus::Idle => "Idle"@,
            WorkerStatus::ShuttingDown => "ShuttingDown"@,
            WorkerStatus::Error => "Error"@,
        }
    }

    /// The name of the status in listings.
    pub fn name(&self) -> (s: String)
        ensures
            s@ == self.label(),
    {
        match self {
            WorkerStatus::Working => "Working".to_owned(),
            WorkerStatus::Idle => "Idle".to_owned(),
            WorkerStatus::ShuttingDown => "ShuttingDown".to_owned(),
            WorkerStatus::Error => "Error".to_owned(),
        }
    }

    /// Whether a worker in this status may be handed a dispatch.
    pub fn is_dispatchable(&self) -> (r: bool)
        ensures
            r == self.dispatchable(),
    {
        *self == WorkerStatus::Idle
    }
}

/// A worker runs as a separate process, started by the manager. It serves
/// requests for inference on its own copy of the model.
#[derive(Debug)]
pub struct Worker<M> {
    model: M,
    port: u16,
    reqs_served: u64,
}

impl<M> Worker<M> {
    /// The number of requests served so far.
    pub closed spec fn served(&self) -> nat {
        self.reqs_served as nat
    }

    /// The port on which the worker listens.
    pub closed spec fn listens_on(&self) -> u16 {
        self.port
    }

    /// The model of the worker.
    pub closed spec fn holds(&self) -> M {
        self.model
    }

    /// A worker for `model` on `port` that has served no request yet.
    pub fn new(model: M, port: u16) -> (w: Self)
        ensures
            w.served() == 0,
            w.listens_on() == port,
            w.holds() == model,
    {
        Worker { model, port, reqs_served: 0 }
    }

    /// The model of the worker.
    pub fn model(&self) -> (m: &M)
        ensures
            *m == self.holds(),
    {
        &self.model
    }

    /// The port on which the worker listens.
    pub fn port(&self) -> (p: u16)
        ensures
            p == self.listens_on(),
    {
        self.port
    }

    /// The address on which the worker listens: the loopback, on its port.
    pub fn address(&self) -> (s: String)
        ensures
            s@ == "[::1]:"@ + decimal(self.listens_on() as nat),
    {
        let port = to_decimal(self.port as u64);
        join("[::1]:", port.as_str())
    }

    /// Reads the task from a request, or the status that refuses the request.
    pub fn read_task(&self, request: rpc::InferenceTask) -> (r: Result<InferenceTask, rpc::Status>)
        ensures
            match (r, InferenceTask::decoded(request)) {
                (Ok(task), Ok(decoded)) => task == decoded,
                (Err(status), Err(fault)) => {
                    &&& status.code == rpc::STATUS_INVALID_ARGUMENT
                    &&& status.message@ == fault.text()
                },
                _ => false,
            },
    {
        match InferenceTask::from_rpc(request) {
            Ok(task) => Ok(task),
            Err(fault) => Err(
                rpc::Status { code: rpc::STATUS_INVALID_ARGUMENT, message: fault.message() },
            ),
        }
    }

    /// Writes the answer to a request from what the model gave, and counts
    /// the request if the model gave a result.
    ///
    /// `duration` is the time that the model took, in seconds, as the bits
    /// of a single-precision number.
    pub fn compute_inference(&mut self, result: Result<Inference, String>, duration: u32) -> (r:
        Result<rpc::Inference, rpc::Status>)
        requires
            result is Ok ==> old(self).served() < u64::MAX,
        ensures
            final(self).listens_on() == old(self).listens_on(),
            final(self).holds() == old(self).holds(),
            final(self).served() >= old(self).served(),
            match (result, r) {
                (Ok(inference), Ok(answer)) => {
                    &&& inference.carried_by(duration, answer)
                    &&& final(self).served() == old(self).served() + 1
                },
                (Err(text), Err(status)) => {
                    &&& status.code == rpc::STATUS_FAILED_PRECONDITION
                    &&& status.message == text
                    &&& final(self).served() == old(self).served()
                },
                _ => false,
            },
    {
        match result {
            Ok(inference) => {
                self.reqs_served = self.reqs_served + 1;
                Ok(inference.into_rpc(duration))
            },
            Err(message) => Err(rpc::Status { code: rpc::STATUS_FAILED_PRECONDITION, message }),
        }
    }

    /// What the worker reports of itself.
    pub fn get_stats(&self) -> (stats: rpc::Stats)
        ensures
            stats.reqs_served == self.served(),
    {
        rpc::Stats { reqs_served: self.reqs_served }
    }
}

} // verus!
