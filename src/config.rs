//! Options that control how a stubborn stream behaves when its transport drops:
//! the retry schedule, whether a failed first connect is final, the diagnostic
//! label, and what a write does while the transport is gone.
use vstd::prelude::*;

verus! {

/// Default wait before the first reconnect attempt, in milliseconds.
pub const DEFAULT_INITIAL_DELAY_MS: u64 = 4000;

/// Longest wait between two reconnect attempts of the default schedule, in milliseconds
/// (half an hour).
pub const DEFAULT_MAX_DELAY_MS: u64 = 1800000;

/// The policy that produces a fresh schedule of waits for each reconnect episode.
pub enum RetryPolicy {
    /// Waits that start at `initial_ms` and double until they reach `max_ms`,
    /// then stay there forever: such a schedule never runs out.
    ExpBackoff { initial_ms: u64, max_ms: u64 },
    /// A fixed, finite list of waits in milliseconds, one per attempt.
    Fixed(Vec<u64>),
}

/// The `n`-th wait (counting from zero) of the doubling schedule capped at `max`.
pub open spec fn backoff_at(initial: u64, max: u64, n: nat) -> u64
    decreases n,
{
    if n == 0 {
        if initial <= max { initial } else { max }
    } else {
        let prev = backoff_at(initial, max, (n - 1) as nat);
        if 2 * prev > max { max } else { (2 * prev) as u64 }
    }
}

impl RetryPolicy {
    /// The `n`-th wait (counting from zero) of a schedule that this policy produces,
    /// or `None` where the schedule has ended before it.
    pub open spec fn delay_at(&self, n: nat) -> Option<u64> {
        match self {
            RetryPolicy::ExpBackoff { initial_ms, max_ms } => Some(backoff_at(*initial_ms, *max_ms, n)),
            RetryPolicy::Fixed(waits) => if n < waits@.len() { Some(waits@[n as int]) } else { None },
        }
    }
}

/// One reconnect episode's schedule: the waits that `policy` produces, handed out
/// one at a time from the start.
#[derive(Clone, Copy)]
pub struct RetrySchedule {
    index: usize,
    current: u64,
    taken: Ghost<nat>,
}

impl RetrySchedule {
    /// How many waits this schedule has handed out so far.
    pub closed spec fn taken(&self) -> nat {
        self.taken@
    }

    /// The schedule walks `policy`.
    pub closed spec fn wf(&self, policy: &RetryPolicy) -> bool {
        match policy {
            RetryPolicy::ExpBackoff { initial_ms, max_ms } => {
                &&& self.current == backoff_at(*initial_ms, *max_ms, self.taken@)
                &&& self.current <= *max_ms
            },
            RetryPolicy::Fixed(waits) => {
                &&& self.index == self.taken@
                &&& self.taken@ <= waits@.len()
            },
        }
    }

    /// A fresh schedule of `policy`, at its start.
    pub fn start(policy: &RetryPolicy) -> (r: RetrySchedule)
        ensures
            r.wf(policy),
            r.taken() == 0,
    {
        let current = match policy {
            RetryPolicy::ExpBackoff { initial_ms, max_ms } => {
                if *initial_ms <= *max_ms { *initial_ms } else { *max_ms }
            },
            RetryPolicy::Fixed(_) => 0,
        };
        RetrySchedule { index: 0, current, taken: Ghost(0) }
    }

    /// The next wait in milliseconds, or `None` once the schedule is spent.
    pub fn next(&mut self, policy: &RetryPolicy) -> (r: Option<u64>)
        requires
            old(self).wf(policy),
        ensures
            final(self).wf(policy),
            r == policy.delay_at(old(self).taken()),
            final(self).taken() == if r is Some { old(self).taken() + 1 } else { old(self).taken() },
    {
        match policy {
            RetryPolicy::ExpBackoff { initial_ms, max_ms } => {
                let wait = self.current;
                let max = *max_ms;
                self.current = if wait > max / 2 { max } else { wait * 2 };
                self.taken = Ghost(self.taken@ + 1);
                Some(wait)
            },
            RetryPolicy::Fixed(waits) => {
                if self.index < waits.len() {
                    let wait = waits[self.index];
                    self.index = self.index + 1;
                    self.taken = Ghost(self.taken@ + 1);
                    Some(wait)
                } else {
                    None
                }
            },
        }
    }
}

/// What a stubborn stream does when its transport drops, and how it reconnects.
pub struct ReconnectOptions {
    /// Produces a fresh schedule of waits for each reconnect episode.
    pub retries: RetryPolicy,
    /// If the very first connect fails, give up at once instead of retrying.
    pub exit_if_first_connect_fails: bool,
    /// A label for diagnostics.
    pub connection_name: String,
    /// While the transport is gone, hold writes back (`true`) instead of
    /// reporting them as done and dropping them (`false`).
    pub block_on_write_failures: bool,
}

impl ReconnectOptions {
    /// The default options: no retry if the first connect fails; on a later drop,
    /// waits that double from four seconds up to half an hour and then retry every
    /// half hour for ever; no label; writes are not held back.
    pub fn new() -> (r: ReconnectOptions)
        ensures
            r.retries == (RetryPolicy::ExpBackoff {
                initial_ms: DEFAULT_INITIAL_DELAY_MS,
                max_ms: DEFAULT_MAX_DELAY_MS,
            }),
            r.exit_if_first_connect_fails,
            r.connection_name@.len() == 0,
            !r.block_on_write_failures,
    {
        ReconnectOptions {
            retries: RetryPolicy::ExpBackoff {
                initial_ms: DEFAULT_INITIAL_DELAY_MS,
                max_ms: DEFAULT_MAX_DELAY_MS,
            },
            exit_if_first_connect_fails: true,
            connection_name: String::new(),
            block_on_write_failures: false,
        }
    }

    /// Replaces the retry schedule by a fixed list of waits in milliseconds: each
    /// episode makes at most that many attempts, one after each wait.
    pub fn with_retries_generator(self, waits: Vec<u64>) -> (r: ReconnectOptions)
        ensures
            r.retries == RetryPolicy::Fixed(waits),
            r.exit_if_first_connect_fails == self.exit_if_first_connect_fails,
            r.connection_name == self.connection_name,
            r.block_on_write_failures == self.block_on_write_failures,
    {
        ReconnectOptions { retries: RetryPolicy::Fixed(waits), ..self }
    }

    /// Sets whether a failed first connect is final.
    pub fn with_exit_if_first_connect_fails(self, value: bool) -> (r: ReconnectOptions)
        ensures
            r.retries == self.retries,
            r.exit_if_first_connect_fails == value,
            r.connection_name == self.connection_name,
            r.block_on_write_failures == self.block_on_write_failures,
    {
        ReconnectOptions { exit_if_first_connect_fails: value, ..self }
    }

    /// Sets the diagnostic label.
    pub fn with_connection_name(self, name: String) -> (r: ReconnectOptions)
        ensures
            r.retries == self.retries,
            r.exit_if_first_connect_fails == self.exit_if_first_connect_fails,
            r.connection_name == name,
            r.block_on_write_failures == self.block_on_write_failures,
    {
        ReconnectOptions { connection_name: name, ..self }
    }

    /// Sets whether writes are held back while the transport is gone.
    pub fn with_block_on_write_failures(self, value: bool) -> (r: ReconnectOptions)
        ensures
            r.retries == self.retries,
            r.exit_if_first_connect_fails == self.exit_if_first_connect_fails,
            r.connection_name == self.connection_name,
            r.block_on_write_failures == value,
    {
        ReconnectOptions { block_on_write_failures: value, ..self }
    }
}

} // verus!
