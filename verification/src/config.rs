//! The settings of the pool.

use vstd::prelude::*;

verus! {

/// The back-off between two attempts to reach a new worker, in milliseconds.
pub const PROBE_BACKOFF_MS: u64 = 100;

/// The policy of the pool.
#[derive(Debug, Clone, Copy, PartialEq, Eq, Structural)]
pub struct PoolConfig {
    /// How many workers are started before traffic is served.
    pub num_init_workers: u16,
    /// The largest number of workers, never exceeded.
    pub max_workers: usize,
    /// How long a new worker may take to open its endpoint, in milliseconds.
    pub worker_timeout: u64,
    /// Workers are not marked as working while they serve, so that several
    /// dispatches may run on one worker at a time.
    pub fast_workers: bool,
    /// A new worker is started when a dispatch finds none idle.
    pub auto_scale: bool,
    /// A worker is retired after one dispatch.
    pub spot_workers: bool,
}

/// Everything that the dispatcher is configured with.
#[derive(Debug, Clone, PartialEq, Eq)]
pub struct Config {
    /// The port on which the front end serves HTTP.
    pub http_port: u16,
    /// The policy of the pool.
    pub manager: PoolConfig,
    /// The log filter, handed on to every worker.
    pub logging: String,
    /// The path to the worker executable.
    pub worker_binary: String,
    /// The path to the native libraries that the workers load.
    pub libtorch_path: String,
}

impl PoolConfig {
    /// Whether the numbers of a configuration file can be taken as they
    /// are: none is negative, and each fits its setting.
    pub open spec fn fits(num_init_workers: i64, max_workers: i64, worker_timeout: i64) -> bool {
        &&& 0 <= num_init_workers <= u16::MAX
        &&& 0 <= max_workers <= usize::MAX
        &&& 0 <= worker_timeout
    }

    /// The policy that a configuration file states, or `None` where one of
    /// its numbers is negative or too large for its setting.
    pub fn from_values(
        num_init_workers: i64,
        max_workers: i64,
        worker_timeout: i64,
        fast_workers: bool,
        auto_scale: bool,
        spot_workers: bool,
    ) -> (r: Option<PoolConfig>)
        ensures
            r == if PoolConfig::fits(num_init_workers, max_workers, worker_timeout) {
                Some(
                    PoolConfig {
                        num_init_workers: num_init_workers as u16,
                        max_workers: max_workers as usize,
                        worker_timeout: worker_timeout as u64,
                        fast_workers,
                        auto_scale,
                        spot_workers,
                    },
                )
            } else {
                None
            },
    {
        if num_init_workers < 0 || num_init_workers > u16::MAX as i64 {
            return None;
        }
        if max_workers < 0 || max_workers as u64 > usize::MAX as u64 {
            return None;
        }
        if worker_timeout < 0 {
            return None;
        }
        Some(
            PoolConfig {
                num_init_workers: num_init_workers as u16,
                max_workers: max_workers as usize,
                worker_timeout: worker_timeout as u64,
                fast_workers,
                auto_scale,
                spot_workers,
            },
        )
    }
}

impl Default for PoolConfig {
    fn default() -> (c: PoolConfig)
        ensures
            c == (PoolConfig {
                num_init_workers: 15,
                max_workers: 20,
                worker_timeout: 2000,
                fast_workers: true,
                auto_scale: false,
                spot_workers: false,
            }),
    {
        PoolConfig {
            num_init_workers: 15,
            max_workers: 20,
            worker_timeout: 2000,
            fast_workers: true,
            auto_scale: false,
            spot_workers: false,
        }
    }
}

} // verus!
