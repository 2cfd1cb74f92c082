//! The first connection of a stream: after each establishment attempt, which hook
//! fires and whether to stop, or to wait and try again.
use vstd::prelude::*;
use crate::config::{ReconnectOptions, RetrySchedule};
use crate::stream::Hook;

verus! {

/// What the driver does after an establishment attempt of the first connection.
#[derive(Clone, Copy, PartialEq, Eq, Debug, Structural)]
pub enum InitStep {
    /// The attempt succeeded: build the stream over the new transport.
    Connected,
    /// Wait `delay_ms` milliseconds, then try again.
    Retry { delay_ms: u64 },
    /// Stop, and fail with the error of the last attempt.
    GiveUp,
}

/// The hook and the step owed after the attempt that follows `failures` failed ones:
/// on success the on-connect hook and done; on failure the on-connect-fail hook,
/// then, unless the options give up on a failed first connect, the next wait of a
/// fresh schedule, or giving up once it is spent.
pub open spec fn initial_step(options: ReconnectOptions, failures: nat, ok: bool) -> (Hook, InitStep) {
    if ok {
        (Hook::OnConnect, InitStep::Connected)
    } else if failures == 0 && options.exit_if_first_connect_fails {
        (Hook::OnConnectFail, InitStep::GiveUp)
    } else {
        match options.retries.delay_at(failures) {
            Some(d) => (Hook::OnConnectFail, InitStep::Retry { delay_ms: d }),
            None => (Hook::OnConnectFail, InitStep::GiveUp),
        }
    }
}

/// Where the first connection of a stream stands: how many attempts failed so far,
/// and the schedule of waits, started at the first failure.
pub struct InitialConnect {
    retries: Option<RetrySchedule>,
    failures: Ghost<nat>,
}

impl InitialConnect {
    /// The number of attempts that failed so far.
    pub closed spec fn failures(&self) -> nat {
        self.failures@
    }

    /// The schedule walks the options' policy, one wait per failure.
    pub closed spec fn wf(&self, options: &ReconnectOptions) -> bool {
        match self.retries {
            None => self.failures@ == 0,
            Some(s) => s.wf(&options.retries) && s.taken() == self.failures@ && self.failures@ >= 1,
        }
    }

    /// Before the first attempt.
    pub fn new() -> (r: InitialConnect)
        ensures
            r.failures() == 0,
            forall|o: &ReconnectOptions| r.wf(o),
    {
        InitialConnect { retries: None, failures: Ghost(0) }
    }

    /// After an establishment attempt that succeeded (`ok`) or failed: the hook to
    /// fire and what to do next, as `initial_step` says.
    pub fn after_attempt(&mut self, options: &ReconnectOptions, ok: bool) -> (r: (Hook, InitStep))
        requires
            old(self).wf(options),
        ensures
            final(self).wf(options),
            r == initial_step(*options, old(self).failures(), ok),
            final(self).failures() == if r.1 is Retry { old(self).failures() + 1 } else { old(self).failures() },
    {
        if ok {
            return (Hook::OnConnect, InitStep::Connected);
        }
        let mut schedule = match self.retries {
            Some(s) => s,
            None => {
                if options.exit_if_first_connect_fails {
                    return (Hook::OnConnectFail, InitStep::GiveUp);
                }
                RetrySchedule::start(&options.retries)
            },
        };
        match schedule.next(&options.retries) {
            Some(delay_ms) => {
                self.retries = Some(schedule);
                self.failures = Ghost(self.failures@ + 1);
                (Hook::OnConnectFail, InitStep::Retry { delay_ms })
            },
            None => (Hook::OnConnectFail, InitStep::GiveUp),
        }
    }
}

} // verus!
