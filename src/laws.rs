//! Properties of the reconnect state machine that hold over whole episodes.
use vstd::prelude::*;
use crate::config::{ReconnectOptions, RetryPolicy, backoff_at};
use crate::connect::{InitStep, initial_step};
use crate::error::{IoError, IoPoll, is_exhausted_err};
use crate::stream::{
    Event, Hook, Phase, Step, StubbornIo, UnderlyingIo, after_failure, read_disconnect,
    uses_default_classifiers,
};

verus! {

/// The phase, the attempts started, and the steps owed, once the transport dropped
/// and then `k` reconnect attempts in a row failed (or fewer, where the schedule
/// ran out first: an exhausted stream makes no more attempts).
pub open spec fn failing_episode(policy: RetryPolicy, k: nat) -> (Phase, nat, Seq<Step>)
    decreases k,
{
    if k == 0 {
        let (p, a, s) = after_failure(Phase::Connected, 0, policy);
        (p, a, seq![s])
    } else {
        let (p, a, steps) = failing_episode(policy, (k - 1) as nat);
        if p == Phase::Exhausted {
            (p, a, steps)
        } else {
            let (p2, a2, s2) = after_failure(p, a, policy);
            (p2, a2, steps.push(s2))
        }
    }
}

/// The hook that a step fires, if any.
pub open spec fn hook_of(s: Step) -> Option<Hook> {
    match s {
        Step::Idle => None,
        Step::Reconnected => Some(Hook::OnConnect),
        Step::Retry { hook, .. } => Some(hook),
        Step::GaveUp { hook } => Some(hook),
    }
}

/// A run of calls in one episode follows `failing_episode`: a stream that was
/// connected, then dropped (`states[1]`), then saw `k` attempts fail in a row
/// (each state after the previous by `on_disconnect` or a failed `poll_disconnect`),
/// is in the phase, with the attempts started and the steps owed, that
/// `failing_episode` gives for `k`.
pub proof fn lemma_calls_follow_episode<T, C>(states: Seq<StubbornIo<T, C>>, steps: Seq<Step>, k: nat)
    requires
        states.len() == k + 2,
        steps.len() == k + 1,
        states[0].state() == Phase::Connected,
        forall|i: int|
            0 <= i <= k ==> (#[trigger] states[i + 1]).failed_from(&states[i], steps[i]),
        forall|i: int| 0 < i <= k ==> (#[trigger] states[i]).state() != Phase::Exhausted,
    ensures
        states[k + 1 as int].state() == failing_episode(states[0].options().retries, k).0,
        states[k + 1 as int].attempts() == failing_episode(states[0].options().retries, k).1,
        steps == failing_episode(states[0].options().retries, k).2,
        states[k + 1 as int].same_setup(&states[0]),
    decreases k,
{
    let policy = states[0].options().retries;
    assert(states[1].failed_from(&states[0], steps[0]));
    if k > 0 {
        let prev_states = states.subrange(0, k + 1 as int);
        let prev_steps = steps.subrange(0, k as int);
        assert forall|i: int| 0 <= i <= k - 1 implies (#[trigger] prev_states[i + 1]).failed_from(
            &prev_states[i],
            prev_steps[i],
        ) by {
            assert(states[i + 1].failed_from(&states[i], steps[i]));
        }
        assert forall|i: int| 0 < i <= k - 1 implies (#[trigger] prev_states[i]).state() != Phase::Exhausted by {
            assert(states[i].state() != Phase::Exhausted);
        }
        lemma_calls_follow_episode(prev_states, prev_steps, (k - 1) as nat);
        assert(states[k as int].state() != Phase::Exhausted);
        assert(states[k + 1 as int].failed_from(&states[k as int], steps[k as int]));
        assert(steps =~= prev_steps.push(steps[k as int]));
    } else {
        assert(steps =~= seq![steps[0]]);
    }
}

/// Within one episode the on-disconnect hook fires exactly once, on the drop
/// itself; each failed attempt after it fires the on-connect-fail hook instead.
pub proof fn lemma_on_disconnect_once_per_episode(policy: RetryPolicy, k: nat)
    ensures
        failing_episode(policy, k).2.len() >= 1,
        hook_of(failing_episode(policy, k).2[0]) == Some(Hook::OnDisconnect),
        forall|i: int|
            0 < i < failing_episode(policy, k).2.len() ==> hook_of(#[trigger] failing_episode(policy, k).2[i])
                == Some(Hook::OnConnectFail),
    decreases k,
{
    if k > 0 {
        lemma_on_disconnect_once_per_episode(policy, (k - 1) as nat);
        let (p, a, steps) = failing_episode(policy, (k - 1) as nat);
        if p != Phase::Exhausted {
            let (p2, a2, s2) = after_failure(p, a, policy);
            assert(hook_of(s2) == Some(Hook::OnConnectFail));
            assert forall|i: int| 0 < i < steps.push(s2).len() implies hook_of(#[trigger] steps.push(s2)[i])
                == Some(Hook::OnConnectFail) by {
                if i < steps.len() {
                    assert(steps.push(s2)[i] == steps[i]);
                }
            }
        }
    }
}

/// A finite schedule of `n` waits makes exactly `n` attempts per episode: after
/// `k < n` failures the stream is still disconnected with `k + 1` attempts started;
/// from `n` failures on it is exhausted, each of the `n` waits having started one
/// attempt and the last step being the give-up.
pub proof fn lemma_finite_schedule_attempts(waits: Vec<u64>, k: nat)
    ensures
        ({
            let policy = RetryPolicy::Fixed(waits);
            let n = waits@.len();
            let (p, a, steps) = failing_episode(policy, k);
            &&& k < n ==> p == Phase::Disconnected && a == k + 1 && steps.len() == k + 1
            &&& k >= n ==> p == Phase::Exhausted && steps.len() == n + 1 && steps[n as int] is GaveUp
            &&& forall|i: int| 0 <= i < steps.len() && i < n ==> #[trigger] steps[i] is Retry
        }),
    decreases k,
{
    let policy = RetryPolicy::Fixed(waits);
    let n = waits@.len();
    if k > 0 {
        lemma_finite_schedule_attempts(waits, (k - 1) as nat);
        let (p, a, steps) = failing_episode(policy, (k - 1) as nat);
        if p != Phase::Exhausted {
            let (p2, a2, s2) = after_failure(p, a, policy);
            assert forall|i: int| 0 <= i < steps.push(s2).len() && i < n implies #[trigger] steps.push(
                s2,
            )[i] is Retry by {
                if i < steps.len() {
                    assert(steps.push(s2)[i] == steps[i]);
                }
            }
        }
    }
}

/// The default kind of schedule never runs out: however many attempts in a row
/// fail, the stream stays disconnected and keeps trying, never exhausted.
pub proof fn lemma_backoff_never_exhausts(initial_ms: u64, max_ms: u64, k: nat)
    ensures
        failing_episode(RetryPolicy::ExpBackoff { initial_ms, max_ms }, k).0 == Phase::Disconnected,
        failing_episode(RetryPolicy::ExpBackoff { initial_ms, max_ms }, k).1 == k + 1,
    decreases k,
{
    if k > 0 {
        lemma_backoff_never_exhausts(initial_ms, max_ms, (k - 1) as nat);
    }
}

/// The waits of the default kind of schedule never exceed its cap.
pub proof fn lemma_backoff_capped(initial_ms: u64, max_ms: u64, n: nat)
    ensures
        backoff_at(initial_ms, max_ms, n) <= max_ms,
    decreases n,
{
    if n > 0 {
        lemma_backoff_capped(initial_ms, max_ms, (n - 1) as nat);
    }
}

/// A drop, one failed attempt, then a successful one: the stream is connected
/// again over the new transport, with no attempt pending and its setup kept, and a
/// read there hands on the new transport's outcome as before the drop.
pub proof fn lemma_reconnect_after_one_failure<T, C>(
    s0: StubbornIo<T, C>,
    s1: StubbornIo<T, C>,
    s2: StubbornIo<T, C>,
    s3: StubbornIo<T, C>,
    s4: StubbornIo<T, C>,
    step1: Step,
    step2: Step,
    step3: Step,
    step4: Step,
    err: IoError,
    io: T,
    poll: IoPoll<()>,
    r: IoPoll<()>,
)
    requires
        s0.state() == Phase::Connected,
        s0.options().retries.delay_at(1) is Some,
        s1.failed_from(&s0, step1),
        s2.attempted_from(&s1, IoPoll::Ready(Err(err)), step2),
        s3.attempted_from(&s2, IoPoll::Ready(Ok(io)), step3),
        s4.read_from(&s3, Event::Transport { poll, disconnected: false }, r, step4),
    ensures
        s1.state() == Phase::Disconnected,
        s2.state() == Phase::Disconnected,
        s2.attempts() == 2,
        step2 is Retry,
        s3.state() == Phase::Connected,
        s3.attempts() == 0,
        s3.io() == io,
        step3 == Step::Reconnected,
        s3.same_setup(&s0),
        r == poll,
        s4.state() == Phase::Connected,
        s4.io() == io,
{
}

/// Exhaustion is terminal: every operation on an exhausted stream fails with the
/// exhaustion error and leaves it exhausted.
pub proof fn lemma_exhausted_is_terminal<T, C>(
    old: StubbornIo<T, C>,
    read: StubbornIo<T, C>,
    write: StubbornIo<T, C>,
    shutdown: StubbornIo<T, C>,
    read_event: Event<(), T>,
    write_event: Event<usize, T>,
    shutdown_event: Event<(), T>,
    len: usize,
    r1: IoPoll<()>,
    r2: IoPoll<usize>,
    r3: IoPoll<()>,
    st1: Step,
    st2: Step,
    st3: Step,
)
    requires
        old.state() == Phase::Exhausted,
        read.read_from(&old, read_event, r1, st1),
        write.write_from(&old, write_event, len, r2, st2),
        shutdown.shutdown_from(&old, shutdown_event, r3, st3),
    ensures
        read.state() == Phase::Exhausted && is_exhausted_err(r1) && st1 == Step::Idle,
        write.state() == Phase::Exhausted && is_exhausted_err(r2) && st2 == Step::Idle,
        shutdown.state() == Phase::Exhausted && is_exhausted_err(r3) && st3 == Step::Idle,
{
}

/// With the default classifiers a read that succeeds with zero bytes means the
/// peer closed, one with some bytes does not, and a read not done yet never does;
/// the zero-byte read is then no result to the reader, who sees "not ready" while
/// the stream leaves the connected state and fires the on-disconnect hook.
pub proof fn lemma_zero_byte_read_is_a_disconnect<T: UnderlyingIo, C>(
    old: StubbornIo<T, C>,
    new: StubbornIo<T, C>,
    r: IoPoll<()>,
    step: Step,
)
    requires
        old.state() == Phase::Connected,
        uses_default_classifiers(old.io()),
        new.read_from(
            &old,
            Event::Transport {
                poll: IoPoll::Ready(Ok(())),
                disconnected: read_disconnect(old.io(), IoPoll::Ready(Ok(())), 0),
            },
            r,
            step,
        ),
    ensures
        read_disconnect(old.io(), IoPoll::Ready(Ok(())), 0),
        !read_disconnect(old.io(), IoPoll::Ready(Ok(())), 5),
        !read_disconnect(old.io(), IoPoll::Pending, 0),
        r is Pending,
        new.state() != Phase::Connected,
        hook_of(step) == Some(Hook::OnDisconnect),
{
    assert(old.io().final_read_spec(0usize));
    assert(!old.io().final_read_spec(5usize));
}

/// The milliseconds waited by the first connection over its first `k` failed
/// attempts.
pub open spec fn initial_wait(options: ReconnectOptions, k: nat) -> nat
    decreases k,
{
    if k == 0 {
        0
    } else {
        initial_wait(options, (k - 1) as nat) + match initial_step(options, (k - 1) as nat, false).1 {
            InitStep::Retry { delay_ms } => delay_ms as nat,
            _ => 0,
        }
    }
}

/// The sum of the first `k` waits of a schedule of `policy`.
pub open spec fn schedule_total(policy: RetryPolicy, k: nat) -> nat
    decreases k,
{
    if k == 0 {
        0
    } else {
        schedule_total(policy, (k - 1) as nat) + match policy.delay_at((k - 1) as nat) {
            Some(d) => d as nat,
            None => 0,
        }
    }
}

/// When a failed first connect is retried and the schedule has at least `k` waits,
/// a first connection whose first `k` attempts fail and whose next succeeds fires
/// the on-connect-fail hook after each of the `k` failures, each followed by the
/// schedule's next wait, then the on-connect hook once; it waits the sum of the
/// schedule's first `k` waits in all.
pub proof fn lemma_first_connect_retries(options: ReconnectOptions, k: nat)
    requires
        !options.exit_if_first_connect_fails,
        k == 0 || options.retries.delay_at((k - 1) as nat) is Some,
    ensures
        forall|i: nat|
            i < k ==> #[trigger] initial_step(options, i, false) == (
                Hook::OnConnectFail,
                InitStep::Retry { delay_ms: options.retries.delay_at(i)->Some_0 },
            ),
        initial_step(options, k, true) == (Hook::OnConnect, InitStep::Connected),
        initial_wait(options, k) == schedule_total(options.retries, k),
    decreases k,
{
    if k > 0 {
        lemma_delays_present(options.retries, (k - 1) as nat);
        if k > 1 {
            lemma_first_connect_retries(options, (k - 1) as nat);
        }
    }
}

/// A schedule that has an `n`-th wait has every earlier one.
proof fn lemma_delays_present(policy: RetryPolicy, n: nat)
    requires
        policy.delay_at(n) is Some,
    ensures
        forall|i: nat| i <= n ==> #[trigger] policy.delay_at(i) is Some,
{
}

} // verus!
