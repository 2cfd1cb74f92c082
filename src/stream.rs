//! The stubborn stream: the connection state machine and the overlay that decides,
//! for each stream operation, what the caller sees in each connection state.
//!
//! The stream makes no I/O of its own. Whoever drives it asks for its `phase`,
//! performs the transport's operation (when connected) or advances the pending
//! reconnect attempt (when disconnected), and hands what came back to the matching
//! operation here, which returns what the caller sees and the step to carry out:
//! a hook to fire, a wait followed by a new attempt, or nothing.
use vstd::prelude::*;
use crate::label::{format_name, label_of_trimmed, trim_of};
use crate::config::{ReconnectOptions, RetryPolicy, RetrySchedule};
use crate::error::{
    IoErrorKind, IoPoll, is_disconnect_kind, exhausted_err,
    disconnected_err, is_exhausted_err, is_disconnected_err,
};

verus! {

/// What a transport offers the stream beyond reading and writing: how to tell
/// that an error or a read means the connection is gone. Both are override points;
/// a transport that keeps the defaults answers with `default_is_disconnect_error`
/// and `default_is_final_read`.
pub trait UnderlyingIo: Sized {
    /// Whether an error of `kind` means, for this transport, that the connection is
    /// gone; by default the kinds of `is_disconnect_kind`.
    open spec fn disconnect_spec(&self, kind: IoErrorKind) -> bool {
        is_disconnect_kind(kind)
    }

    /// Whether, for this transport, a successful read of `bytes_read` bytes means
    /// that the peer closed; by default a read of zero bytes does.
    open spec fn final_read_spec(&self, bytes_read: usize) -> bool {
        bytes_read == 0
    }

    /// Whether an error of `kind` means the connection is gone.
    fn is_disconnect_error(&self, kind: IoErrorKind) -> (r: bool)
        ensures
            r == self.disconnect_spec(kind),
    ;

    /// Whether a successful read of `bytes_read` bytes means the peer closed.
    fn is_final_read(&self, bytes_read: usize) -> (r: bool)
        ensures
            r == self.final_read_spec(bytes_read),
    ;
}

/// `T` classifies as the defaults do: the kinds of `is_disconnect_kind` are
/// disconnects, every other error is transient, and a read of zero bytes is final.
pub open spec fn uses_default_classifiers<T: UnderlyingIo>(io: T) -> bool {
    &&& forall|kind: IoErrorKind| #[trigger] io.disconnect_spec(kind) == is_disconnect_kind(kind)
    &&& forall|n: usize| #[trigger] io.final_read_spec(n) == (n == 0)
}

/// Whether a read's outcome, after `bytes_read` bytes, means that `io` dropped.
pub open spec fn read_disconnect<T: UnderlyingIo>(io: T, poll: IoPoll<()>, bytes_read: usize) -> bool {
    match poll {
        IoPoll::Ready(Ok(())) => io.final_read_spec(bytes_read),
        IoPoll::Ready(Err(e)) => io.disconnect_spec(e.kind),
        IoPoll::Pending => false,
    }
}

/// Whether a write's or a flush's outcome means that `io` dropped.
pub open spec fn write_disconnect<T: UnderlyingIo, X>(io: T, poll: IoPoll<X>) -> bool {
    match poll {
        IoPoll::Ready(Err(e)) => io.disconnect_spec(e.kind),
        _ => false,
    }
}

/// The connection state as its tag.
#[derive(Clone, Copy, PartialEq, Eq, Debug, Structural)]
pub enum Phase {
    Connected,
    Disconnected,
    /// Terminal: the reconnect schedule is spent.
    Exhausted,
}

/// A hook that the driver fires.
#[derive(Clone, Copy, PartialEq, Eq, Debug, Structural)]
pub enum Hook {
    OnConnect,
    OnDisconnect,
    OnConnectFail,
}

/// What the driver carries out after an operation.
#[derive(Clone, Copy, PartialEq, Eq, Debug, Structural)]
pub enum Step {
    /// Nothing to do.
    Idle,
    /// The new transport is in place: fire the on-connect hook.
    Reconnected,
    /// Fire `hook`, then start attempt number `attempt`: wait `delay_ms`
    /// milliseconds and establish a new transport. Wake the caller at once.
    Retry { hook: Hook, delay_ms: u64, attempt: u64 },
    /// Fire `hook`; the schedule is spent and the stream is exhausted. Wake the
    /// caller at once.
    GaveUp { hook: Hook },
}

/// What the driver hands to an operation.
pub enum Event<R, T> {
    /// Connected: what the transport's own operation gave, and whether that
    /// outcome means the connection is gone.
    Transport { poll: IoPoll<R>, disconnected: bool },
    /// Disconnected: how far the pending reconnect attempt got; when done, with
    /// the new transport or the reason it failed.
    Attempt(IoPoll<T>),
    /// Nothing was asked of the transport or of the pending attempt.
    Nothing,
}

/// `n` as a counter that stops at its largest value.
pub open spec fn saturate(n: nat) -> u64 {
    if n <= u64::MAX { n as u64 } else { u64::MAX }
}

/// The phase, the number of attempts started in the episode, and the step, after
/// a disconnect (from `Connected`) or a failed attempt (from `Disconnected`): the
/// on-disconnect hook fires on entry only, the on-connect-fail hook for each failed
/// attempt; then the next wait of the episode's schedule starts one more attempt,
/// or, with none left, the stream is exhausted.
pub open spec fn after_failure(phase: Phase, attempts: nat, policy: RetryPolicy) -> (Phase, nat, Step) {
    let hook = if phase == Phase::Connected { Hook::OnDisconnect } else { Hook::OnConnectFail };
    let taken = if phase == Phase::Connected { 0 } else { attempts };
    match policy.delay_at(taken) {
        Some(d) => (
            Phase::Disconnected,
            taken + 1,
            Step::Retry { hook, delay_ms: d, attempt: saturate(taken + 1) },
        ),
        None => (Phase::Exhausted, 0, Step::GaveUp { hook }),
    }
}

/// The phase, attempts and step once the pending attempt finished: back to
/// `Connected` on success, else as `after_failure` says.
pub open spec fn after_attempt(phase: Phase, attempts: nat, policy: RetryPolicy, ok: bool) -> (Phase, nat, Step) {
    if ok {
        (Phase::Connected, 0, Step::Reconnected)
    } else {
        after_failure(phase, attempts, policy)
    }
}

/// What a write or a flush reports when it cannot reach the transport: held back
/// ("not ready") when writes block, else reported as done (`accepted`: the whole
/// buffer's length for a write) and dropped.
pub open spec fn dropped_write<R>(block: bool, accepted: R) -> IoPoll<R> {
    if block { IoPoll::Pending } else { IoPoll::Ready(Ok(accepted)) }
}

/// `e` is the event that the driver owes an operation in `phase`.
pub open spec fn fits<R, T>(phase: Phase, e: Event<R, T>) -> bool {
    match phase {
        Phase::Connected => e is Transport,
        Phase::Disconnected => e is Attempt,
        Phase::Exhausted => true,
    }
}

/// The reconnect episode in progress: how many attempts it started, and the rest of
/// its schedule.
#[derive(Clone, Copy)]
struct ReconnectStatus {
    attempt_num: u64,
    retries_remaining: RetrySchedule,
}

impl ReconnectStatus {
    /// A new episode under `options`: no attempt yet, a fresh schedule.
    fn new(options: &ReconnectOptions) -> (r: ReconnectStatus)
        ensures
            r.attempt_num == 0,
            r.retries_remaining.wf(&options.retries),
            r.retries_remaining.taken() == 0,
    {
        ReconnectStatus { attempt_num: 0, retries_remaining: RetrySchedule::start(&options.retries) }
    }
}

#[derive(Clone, Copy)]
enum Status {
    Connected,
    Disconnected(ReconnectStatus),
    FailedAndExhausted,
}

/// A byte stream over a transport `T`, built from `C`, that repairs itself when
/// the transport drops.
pub struct StubbornIo<T, C> {
    status: Status,
    underlying_io: T,
    options: ReconnectOptions,
    ctor_arg: C,
}

impl<T, C> StubbornIo<T, C> {
    /// The connection state.
    pub closed spec fn state(&self) -> Phase {
        match self.status {
            Status::Connected => Phase::Connected,
            Status::Disconnected(_) => Phase::Disconnected,
            Status::FailedAndExhausted => Phase::Exhausted,
        }
    }

    /// The number of attempts started in the current episode (zero when not disconnected).
    pub closed spec fn attempts(&self) -> nat {
        match self.status {
            Status::Disconnected(rs) => rs.retries_remaining.taken(),
            _ => 0,
        }
    }

    /// The current transport.
    pub closed spec fn io(&self) -> T {
        self.underlying_io
    }

    /// The options the stream was made with.
    pub closed spec fn options(&self) -> ReconnectOptions {
        self.options
    }

    /// The value each establishment attempt gets a copy of.
    pub closed spec fn ctor(&self) -> C {
        self.ctor_arg
    }

    /// While disconnected, exactly one attempt is in flight, and the episode's
    /// schedule walks the options' policy.
    pub closed spec fn wf(&self) -> bool {
        match self.status {
            Status::Disconnected(rs) => {
                &&& rs.retries_remaining.wf(&self.options.retries)
                &&& rs.retries_remaining.taken() >= 1
                &&& rs.attempt_num == saturate(rs.retries_remaining.taken())
            },
            _ => true,
        }
    }

    /// `self` is `old` but for the connection state and the transport.
    pub open spec fn same_setup(&self, old: &Self) -> bool {
        &&& self.options() == old.options()
        &&& self.ctor() == old.ctor()
    }

    /// `self` is `old` after a disconnect or a failed attempt, `step` what was owed.
    pub open spec fn failed_from(&self, old: &Self, step: Step) -> bool {
        &&& (self.state(), self.attempts(), step) == after_failure(
            old.state(),
            old.attempts(),
            old.options().retries,
        )
        &&& self.io() == old.io()
        &&& self.same_setup(old)
    }

    /// `self` is `old` after the pending attempt got as far as `attempt`.
    pub open spec fn attempted_from(&self, old: &Self, attempt: IoPoll<T>, step: Step) -> bool {
        match attempt {
            IoPoll::Pending => step == Step::Idle && self.unchanged_from(old),
            IoPoll::Ready(Ok(io)) => {
                &&& (self.state(), self.attempts(), step) == after_attempt(
                    old.state(),
                    old.attempts(),
                    old.options().retries,
                    true,
                )
                &&& self.io() == io
                &&& self.same_setup(old)
            },
            IoPoll::Ready(Err(_)) => self.failed_from(old, step),
        }
    }

    /// What a read owes: the transport's outcome when connected, unless
    /// it means the connection is gone; then, and while disconnected, "not ready";
    /// once exhausted, the exhaustion error.
    pub open spec fn read_from<R>(&self, old: &Self, event: Event<R, T>, r: IoPoll<R>, step: Step) -> bool {
        match old.state() {
            Phase::Connected => match event {
                Event::Transport { poll, disconnected } => if disconnected {
                    r is Pending && self.failed_from(old, step)
                } else {
                    r == poll && step == Step::Idle && self.unchanged_from(old)
                },
                _ => false,
            },
            Phase::Disconnected => match event {
                Event::Attempt(a) => r is Pending && self.attempted_from(old, a, step),
                _ => false,
            },
            Phase::Exhausted => is_exhausted_err(r) && step == Step::Idle && self.unchanged_from(old),
        }
    }

    /// What a write or a flush owes: the transport's outcome when connected, unless
    /// it means the connection is gone; then, and while disconnected, it is dropped
    /// (reported done with `accepted`) or held back as the options say; once
    /// exhausted, the exhaustion error.
    pub open spec fn write_from<R>(&self, old: &Self, event: Event<R, T>, accepted: R, r: IoPoll<R>, step: Step) -> bool {
        let block = old.options().block_on_write_failures;
        match old.state() {
            Phase::Connected => match event {
                Event::Transport { poll, disconnected } => if disconnected {
                    r == dropped_write(block, accepted) && self.failed_from(old, step)
                } else {
                    r == poll && step == Step::Idle && self.unchanged_from(old)
                },
                _ => false,
            },
            Phase::Disconnected => match event {
                Event::Attempt(a) => r == dropped_write(block, accepted) && self.attempted_from(old, a, step),
                _ => false,
            },
            Phase::Exhausted => is_exhausted_err(r) && step == Step::Idle && self.unchanged_from(old),
        }
    }

    /// What a shutdown owes: when connected, the transport's outcome, and once that
    /// is done, whatever it is, the connection counts as gone; while disconnected,
    /// the not-connected error; once exhausted, the exhaustion error.
    pub open spec fn shutdown_from(&self, old: &Self, event: Event<(), T>, r: IoPoll<()>, step: Step) -> bool {
        match old.state() {
            Phase::Connected => match event {
                Event::Transport { poll, .. } => r == poll && if poll is Ready {
                    self.failed_from(old, step)
                } else {
                    step == Step::Idle && self.unchanged_from(old)
                },
                _ => false,
            },
            Phase::Disconnected => is_disconnected_err(r) && step == Step::Idle && self.unchanged_from(old),
            Phase::Exhausted => is_exhausted_err(r) && step == Step::Idle && self.unchanged_from(old),
        }
    }

    /// `self` is `old`, untouched.
    pub open spec fn unchanged_from(&self, old: &Self) -> bool {
        &&& self.state() == old.state()
        &&& self.attempts() == old.attempts()
        &&& self.io() == old.io()
        &&& self.same_setup(old)
    }

    /// A connected stream over a transport that was just established from `ctor_arg`.
    pub fn new(underlying_io: T, ctor_arg: C, options: ReconnectOptions) -> (r: Self)
        ensures
            r.wf(),
            r.state() == Phase::Connected,
            r.attempts() == 0,
            r.io() == underlying_io,
            r.ctor() == ctor_arg,
            r.options() == options,
    {
        StubbornIo { status: Status::Connected, underlying_io, options, ctor_arg }
    }

    /// The connection state.
    pub fn phase(&self) -> (r: Phase)
        ensures
            r == self.state(),
    {
        match self.status {
            Status::Connected => Phase::Connected,
            Status::Disconnected(_) => Phase::Disconnected,
            Status::FailedAndExhausted => Phase::Exhausted,
        }
    }

    /// The diagnostic label of the stream, from its connection name.
    pub fn get_connection_name(&self) -> (r: String)
        ensures
            r@ == label_of_trimmed(trim_of(self.options().connection_name@)),
    {
        format_name(self.options.connection_name.as_str())
    }

    /// Whether writes are held back while the transport is gone.
    pub fn get_block_on_write_failures(&self) -> (r: bool)
        ensures
            r == self.options().block_on_write_failures,
    {
        self.options.block_on_write_failures
    }

    /// The options the stream was made with.
    pub fn get_options(&self) -> (r: &ReconnectOptions)
        ensures
            *r == self.options(),
    {
        &self.options
    }

    /// The value each establishment attempt gets a copy of.
    pub fn get_ctor_arg(&self) -> (r: &C)
        ensures
            *r == self.ctor(),
    {
        &self.ctor_arg
    }

    /// The current transport.
    pub fn get_ref(&self) -> (r: &T)
        ensures
            *r == self.io(),
    {
        &self.underlying_io
    }

    /// The current transport, to operate on it.
    pub fn get_mut(&mut self) -> (r: &mut T)
        ensures
            *r == old(self).io(),
            final(self).io() == *final(r),
            final(self).state() == old(self).state(),
            final(self).attempts() == old(self).attempts(),
            final(self).same_setup(old(self)),
            old(self).wf() ==> final(self).wf(),
    {
        &mut self.underlying_io
    }

    /// The transport dropped (when connected) or an attempt failed (when
    /// disconnected): fire the matching hook and schedule the next attempt, or
    /// give up once the schedule is spent.
    pub fn on_disconnect(&mut self) -> (step: Step)
        requires
            old(self).wf(),
            old(self).state() != Phase::Exhausted,
        ensures
            final(self).wf(),
            final(self).failed_from(old(self), step),
    {
        let (hook, mut rs) = match self.status {
            Status::Connected => (Hook::OnDisconnect, ReconnectStatus::new(&self.options)),
            Status::Disconnected(rs) => (Hook::OnConnectFail, rs),
            Status::FailedAndExhausted => (Hook::OnConnectFail, ReconnectStatus::new(&self.options)),
        };
        match rs.retries_remaining.next(&self.options.retries) {
            Some(delay_ms) => {
                if rs.attempt_num < u64::MAX {
                    rs.attempt_num = rs.attempt_num + 1;
                }
                self.status = Status::Disconnected(rs);
                Step::Retry { hook, delay_ms, attempt: rs.attempt_num }
            },
            None => {
                self.status = Status::FailedAndExhausted;
                Step::GaveUp { hook }
            },
        }
    }

    /// Hands the stream how far its pending attempt got: on success the new
    /// transport replaces the old one and the stream is connected again; on failure
    /// the next attempt is scheduled as `on_disconnect` does; else nothing changes.
    pub fn poll_disconnect(&mut self, attempt: IoPoll<T>) -> (step: Step)
        requires
            old(self).wf(),
            old(self).state() == Phase::Disconnected,
        ensures
            final(self).wf(),
            final(self).attempted_from(old(self), attempt, step),
    {
        match attempt {
            IoPoll::Pending => Step::Idle,
            IoPoll::Ready(Ok(io)) => {
                self.status = Status::Connected;
                self.underlying_io = io;
                Step::Reconnected
            },
            IoPoll::Ready(Err(_)) => self.on_disconnect(),
        }
    }

    /// A read: when connected, `event` holds the transport's outcome and whether it
    /// means the connection is gone (`is_read_disconnect_detected`); when
    /// disconnected, how far the pending attempt got. A dropped connection is never
    /// an error to the reader: it sees "not ready" until the stream is back.
    pub fn poll_read(&mut self, event: Event<(), T>) -> (r: (IoPoll<()>, Step))
        requires
            old(self).wf(),
            fits(old(self).state(), event),
        ensures
            final(self).wf(),
            final(self).read_from(old(self), event, r.0, r.1),
    {
        match self.status {
            Status::Connected => match event {
                Event::Transport { poll, disconnected } => {
                    if disconnected {
                        let step = self.on_disconnect();
                        (IoPoll::Pending, step)
                    } else {
                        (poll, Step::Idle)
                    }
                },
                _ => (IoPoll::Pending, Step::Idle),
            },
            Status::Disconnected(_) => match event {
                Event::Attempt(a) => {
                    let step = self.poll_disconnect(a);
                    (IoPoll::Pending, step)
                },
                _ => (IoPoll::Pending, Step::Idle),
            },
            Status::FailedAndExhausted => (exhausted_err(), Step::Idle),
        }
    }

    /// The outcome of a write or a flush, as `write_from` says.
    fn write_or_drop<R>(&mut self, event: Event<R, T>, accepted: R) -> (r: (IoPoll<R>, Step))
        requires
            old(self).wf(),
            fits(old(self).state(), event),
        ensures
            final(self).wf(),
            final(self).write_from(old(self), event, accepted, r.0, r.1),
    {
        let block = self.options.block_on_write_failures;
        match self.status {
            Status::Connected => match event {
                Event::Transport { poll, disconnected } => {
                    if disconnected {
                        let step = self.on_disconnect();
                        if block {
                            (IoPoll::Pending, step)
                        } else {
                            (IoPoll::Ready(Ok(accepted)), step)
                        }
                    } else {
                        (poll, Step::Idle)
                    }
                },
                _ => (IoPoll::Pending, Step::Idle),
            },
            Status::Disconnected(_) => match event {
                Event::Attempt(a) => {
                    let step = self.poll_disconnect(a);
                    if block {
                        (IoPoll::Pending, step)
                    } else {
                        (IoPoll::Ready(Ok(accepted)), step)
                    }
                },
                _ => (IoPoll::Pending, Step::Idle),
            },
            Status::FailedAndExhausted => (exhausted_err(), Step::Idle),
        }
    }

    /// A flush: follows the write policy, with `is_write_disconnect_detected`
    /// telling a drop. A dropped flush is reported done unless writes block.
    pub fn poll_flush(&mut self, event: Event<(), T>) -> (r: (IoPoll<()>, Step))
        requires
            old(self).wf(),
            fits(old(self).state(), event),
        ensures
            final(self).wf(),
            final(self).write_from(old(self), event, (), r.0, r.1),
    {
        self.write_or_drop(event, ())
    }

    /// A write of a buffer of `buf_len` bytes: when connected, `event` holds the
    /// transport's outcome and whether it means the connection is gone
    /// (`is_write_disconnect_detected`); when disconnected, how far the pending
    /// attempt got. A dropped write is reported as fully written unless writes block.
    pub fn poll_write(&mut self, event: Event<usize, T>, buf_len: usize) -> (r: (IoPoll<usize>, Step))
        requires
            old(self).wf(),
            fits(old(self).state(), event),
        ensures
            final(self).wf(),
            final(self).write_from(old(self), event, buf_len, r.0, r.1),
    {
        self.write_or_drop(event, buf_len)
    }

    /// A write of several buffers, of the lengths `buf_lens`: as a write of one
    /// buffer as long as all of them together.
    pub fn poll_write_vectored(&mut self, event: Event<usize, T>, buf_lens: &Vec<usize>) -> (r: (IoPoll<usize>, Step))
        requires
            old(self).wf(),
            fits(old(self).state(), event),
            total_len(buf_lens@) <= usize::MAX,
        ensures
            final(self).wf(),
            final(self).write_from(old(self), event, total_len(buf_lens@) as usize, r.0, r.1),
    {
        let total = sum_lens(buf_lens);
        self.poll_write(event, total)
    }

    /// A shutdown: when connected, `event` holds the transport's outcome.
    pub fn poll_shutdown(&mut self, event: Event<(), T>) -> (r: (IoPoll<()>, Step))
        requires
            old(self).wf(),
            old(self).state() == Phase::Connected ==> event is Transport,
        ensures
            final(self).wf(),
            final(self).shutdown_from(old(self), event, r.0, r.1),
    {
        match self.status {
            Status::Connected => match event {
                Event::Transport { poll, .. } => {
                    if matches!(poll, IoPoll::Ready(_)) {
                        let step = self.on_disconnect();
                        (poll, step)
                    } else {
                        (poll, Step::Idle)
                    }
                },
                _ => (IoPoll::Pending, Step::Idle),
            },
            Status::Disconnected(_) => (disconnected_err(), Step::Idle),
            Status::FailedAndExhausted => (exhausted_err(), Step::Idle),
        }
    }
}

impl<T: UnderlyingIo, C> StubbornIo<T, C> {
    /// Whether a read's outcome means the connection is gone: a successful read that
    /// the transport calls final, or an error that it calls a disconnect. A read
    /// that is not done yet never is.
    pub fn is_read_disconnect_detected(&self, poll: &IoPoll<()>, bytes_read: usize) -> (r: bool)
        ensures
            r == read_disconnect(self.io(), *poll, bytes_read),
    {
        match poll {
            IoPoll::Ready(Ok(())) => self.underlying_io.is_final_read(bytes_read),
            IoPoll::Ready(Err(e)) => self.underlying_io.is_disconnect_error(e.kind),
            IoPoll::Pending => false,
        }
    }

    /// Whether a write's or a flush's outcome means the connection is gone: an
    /// error that the transport calls a disconnect. No other outcome is.
    pub fn is_write_disconnect_detected<X>(&self, poll: &IoPoll<X>) -> (r: bool)
        ensures
            r == write_disconnect(self.io(), *poll),
    {
        match poll {
            IoPoll::Ready(Err(e)) => self.underlying_io.is_disconnect_error(e.kind),
            _ => false,
        }
    }
}

/// The number of bytes in buffers of the lengths `lens`.
pub open spec fn total_len(lens: Seq<usize>) -> nat
    decreases lens.len(),
{
    if lens.len() == 0 {
        0
    } else {
        total_len(lens.drop_last()) + lens.last() as nat
    }
}

proof fn lemma_prefix_total(lens: Seq<usize>, i: int)
    requires
        0 <= i <= lens.len(),
    ensures
        total_len(lens.subrange(0, i)) <= total_len(lens),
    decreases lens.len() - i,
{
    if i < lens.len() {
        lemma_prefix_total(lens, i + 1);
        assert(lens.subrange(0, i + 1).drop_last() =~= lens.subrange(0, i));
    } else {
        assert(lens.subrange(0, i) =~= lens);
    }
}

/// The number of bytes in buffers of the lengths `lens`.
fn sum_lens(lens: &Vec<usize>) -> (r: usize)
    requires
        total_len(lens@) <= usize::MAX,
    ensures
        r == total_len(lens@),
{
    let mut acc: usize = 0;
    let mut i: usize = 0;
    while i < lens.len()
        invariant
            i <= lens.len(),
            acc == total_len(lens@.subrange(0, i as int)),
            total_len(lens@) <= usize::MAX,
        decreases lens.len() - i,
    {
        proof {
            lemma_prefix_total(lens@, i + 1);
            assert(lens@.subrange(0, i + 1).drop_last() =~= lens@.subrange(0, i as int));
        }
        acc = acc + lens[i];
        i = i + 1;
    }
    assert(lens@.subrange(0, i as int) =~= lens@);
    acc
}

} // verus!
