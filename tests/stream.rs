use stubborn_io::config::{ReconnectOptions, RetryPolicy, RetrySchedule};
use stubborn_io::connect::{InitStep, InitialConnect};
use stubborn_io::error::{
    default_is_disconnect_error, default_is_final_read, disconnected_err, exhausted_err, poll_err,
    IoError, IoErrorKind, IoPoll,
};
use stubborn_io::label::{format_name, label_for_trimmed};
use stubborn_io::stream::{Event, Hook, Phase, Step, StubbornIo, UnderlyingIo};

#[derive(Debug, PartialEq)]
struct Fake {
    id: u32,
}

impl UnderlyingIo for Fake {
    fn is_disconnect_error(&self, kind: IoErrorKind) -> bool {
        default_is_disconnect_error(kind)
    }

    fn is_final_read(&self, bytes_read: usize) -> bool {
        default_is_final_read(bytes_read)
    }
}

/// A transport that never takes a read as final.
struct Chatty;

impl UnderlyingIo for Chatty {
    fn is_disconnect_error(&self, kind: IoErrorKind) -> bool {
        default_is_disconnect_error(kind)
    }

    fn is_final_read(&self, _bytes_read: usize) -> bool {
        false
    }
}

fn err(kind: IoErrorKind) -> IoError {
    IoError { kind, message: String::from("boom") }
}

fn fixed(waits: Vec<u64>) -> ReconnectOptions {
    ReconnectOptions::new().with_retries_generator(waits)
}

fn is_exhausted<R>(p: &IoPoll<R>) -> bool {
    match p {
        IoPoll::Ready(Err(e)) => {
            e.kind == IoErrorKind::NotConnected
                && e.message == "Disconnected. Connection attempts have been exhausted."
        }
        _ => false,
    }
}

fn dropped(s: &mut StubbornIo<Fake, String>) -> Step {
    let (r, step) = s.poll_read(Event::Transport {
        poll: IoPoll::Ready(Err(err(IoErrorKind::ConnectionReset))),
        disconnected: true,
    });
    assert!(matches!(r, IoPoll::Pending));
    step
}

fn attempt_fails(s: &mut StubbornIo<Fake, String>) -> Step {
    let (r, step) = s.poll_read(Event::Attempt(IoPoll::Ready(Err(err(IoErrorKind::ConnectionRefused)))));
    assert!(matches!(r, IoPoll::Pending));
    step
}

#[test]
fn default_options() {
    let o = ReconnectOptions::new();
    assert!(o.exit_if_first_connect_fails);
    assert!(!o.block_on_write_failures);
    assert_eq!(o.connection_name, "");
    assert!(matches!(o.retries, RetryPolicy::ExpBackoff { initial_ms: 4000, max_ms: 1800000 }));
}

#[test]
fn builders_set_each_field() {
    let o = ReconnectOptions::new()
        .with_exit_if_first_connect_fails(false)
        .with_connection_name(String::from("db"))
        .with_block_on_write_failures(true)
        .with_retries_generator(vec![2000, 2000, 2000]);
    assert!(!o.exit_if_first_connect_fails);
    assert!(o.block_on_write_failures);
    assert_eq!(o.connection_name, "db");
    match &o.retries {
        RetryPolicy::Fixed(w) => assert_eq!(w, &vec![2000, 2000, 2000]),
        _ => panic!("expected a fixed schedule"),
    }
}

#[test]
fn fixed_schedule_hands_out_each_wait_then_ends() {
    let p = RetryPolicy::Fixed(vec![5, 7]);
    let mut s = RetrySchedule::start(&p);
    assert_eq!(s.next(&p), Some(5));
    assert_eq!(s.next(&p), Some(7));
    assert_eq!(s.next(&p), None);
    assert_eq!(s.next(&p), None);
}

#[test]
fn backoff_schedule_doubles_up_to_its_cap() {
    let p = ReconnectOptions::new().retries;
    let mut s = RetrySchedule::start(&p);
    let mut waits = Vec::new();
    for _ in 0..12 {
        waits.push(s.next(&p).unwrap());
    }
    assert_eq!(
        waits,
        vec![4000, 8000, 16000, 32000, 64000, 128000, 256000, 512000, 1024000, 1800000, 1800000, 1800000]
    );
}

#[test]
fn backoff_starts_at_cap_when_initial_is_larger() {
    let p = RetryPolicy::ExpBackoff { initial_ms: 50, max_ms: 30 };
    let mut s = RetrySchedule::start(&p);
    assert_eq!(s.next(&p), Some(30));
    assert_eq!(s.next(&p), Some(30));
}

#[test]
fn on_disconnect_fires_once_per_episode() {
    let mut s = StubbornIo::new(Fake { id: 1 }, String::from("addr"), fixed(vec![10, 10, 10]));
    let mut steps = vec![dropped(&mut s)];
    steps.push(attempt_fails(&mut s));
    steps.push(attempt_fails(&mut s));
    assert_eq!(steps[0], Step::Retry { hook: Hook::OnDisconnect, delay_ms: 10, attempt: 1 });
    assert_eq!(steps[1], Step::Retry { hook: Hook::OnConnectFail, delay_ms: 10, attempt: 2 });
    assert_eq!(steps[2], Step::Retry { hook: Hook::OnConnectFail, delay_ms: 10, attempt: 3 });
    let disconnects = steps
        .iter()
        .filter(|st| matches!(st, Step::Retry { hook: Hook::OnDisconnect, .. }))
        .count();
    assert_eq!(disconnects, 1);
    assert_eq!(s.phase(), Phase::Disconnected);
}

#[test]
fn finite_schedule_exhausts_after_its_attempts() {
    let mut s = StubbornIo::new(Fake { id: 1 }, String::from("addr"), fixed(vec![1, 2, 3]));
    let mut attempts = 0;
    let mut step = dropped(&mut s);
    while let Step::Retry { .. } = step {
        attempts += 1;
        step = attempt_fails(&mut s);
    }
    assert_eq!(attempts, 3);
    assert_eq!(step, Step::GaveUp { hook: Hook::OnConnectFail });
    assert_eq!(s.phase(), Phase::Exhausted);
    for _ in 0..3 {
        let (r, st) = s.poll_read(Event::Nothing);
        assert!(is_exhausted(&r));
        assert_eq!(st, Step::Idle);
        let (w, _) = s.poll_write(Event::Nothing, 4);
        assert!(is_exhausted(&w));
        let (f, _) = s.poll_flush(Event::Nothing);
        assert!(is_exhausted(&f));
        let (d, _) = s.poll_shutdown(Event::Nothing);
        assert!(is_exhausted(&d));
        assert_eq!(s.phase(), Phase::Exhausted);
    }
}

#[test]
fn empty_schedule_exhausts_on_the_drop() {
    let mut s = StubbornIo::new(Fake { id: 1 }, String::from("addr"), fixed(vec![]));
    assert_eq!(dropped(&mut s), Step::GaveUp { hook: Hook::OnDisconnect });
    assert_eq!(s.phase(), Phase::Exhausted);
}

#[test]
fn default_schedule_never_exhausts() {
    let mut s = StubbornIo::new(Fake { id: 1 }, String::from("addr"), ReconnectOptions::new());
    assert!(matches!(dropped(&mut s), Step::Retry { .. }));
    for _ in 0..1000 {
        assert!(matches!(attempt_fails(&mut s), Step::Retry { hook: Hook::OnConnectFail, .. }));
        assert_eq!(s.phase(), Phase::Disconnected);
    }
}

#[test]
fn reconnect_after_one_failure_restores_delegation() {
    let mut s = StubbornIo::new(Fake { id: 1 }, String::from("addr"), fixed(vec![10, 20]));
    dropped(&mut s);
    assert_eq!(attempt_fails(&mut s), Step::Retry { hook: Hook::OnConnectFail, delay_ms: 20, attempt: 2 });
    let (r, step) = s.poll_read(Event::Attempt(IoPoll::Pending));
    assert!(matches!(r, IoPoll::Pending));
    assert_eq!(step, Step::Idle);
    assert_eq!(s.phase(), Phase::Disconnected);
    let (r, step) = s.poll_read(Event::Attempt(IoPoll::Ready(Ok(Fake { id: 2 }))));
    assert!(matches!(r, IoPoll::Pending));
    assert_eq!(step, Step::Reconnected);
    assert_eq!(s.phase(), Phase::Connected);
    assert_eq!(s.get_ref(), &Fake { id: 2 });
    assert_eq!(s.get_ctor_arg(), "addr");
    let (r, step) = s.poll_read(Event::Transport { poll: IoPoll::Ready(Ok(())), disconnected: false });
    assert!(matches!(r, IoPoll::Ready(Ok(()))));
    assert_eq!(step, Step::Idle);
    let (w, _) = s.poll_write(Event::Transport { poll: IoPoll::Ready(Ok(3)), disconnected: false }, 5);
    assert!(matches!(w, IoPoll::Ready(Ok(3))));
    // A new episode starts its schedule over.
    assert_eq!(dropped(&mut s), Step::Retry { hook: Hook::OnDisconnect, delay_ms: 10, attempt: 1 });
}

#[test]
fn write_drop_reports_full_length_when_not_blocking() {
    let mut s = StubbornIo::new(Fake { id: 1 }, String::from("addr"), fixed(vec![10]));
    let poll = IoPoll::Ready(Err(err(IoErrorKind::BrokenPipe)));
    assert!(s.is_write_disconnect_detected(&poll));
    let (r, step) = s.poll_write(Event::Transport { poll, disconnected: true }, 12);
    assert!(matches!(r, IoPoll::Ready(Ok(12))));
    assert_eq!(step, Step::Retry { hook: Hook::OnDisconnect, delay_ms: 10, attempt: 1 });
    assert_eq!(s.phase(), Phase::Disconnected);
    let (r, _) = s.poll_write(Event::Attempt(IoPoll::Pending), 7);
    assert!(matches!(r, IoPoll::Ready(Ok(7))));
}

#[test]
fn write_drop_holds_back_when_blocking() {
    let options = fixed(vec![10]).with_block_on_write_failures(true);
    let mut s = StubbornIo::new(Fake { id: 1 }, String::from("addr"), options);
    assert!(s.get_block_on_write_failures());
    let poll = IoPoll::Ready(Err(err(IoErrorKind::BrokenPipe)));
    let (r, _) = s.poll_write(Event::Transport { poll, disconnected: true }, 12);
    assert!(matches!(r, IoPoll::Pending));
    assert_eq!(s.phase(), Phase::Disconnected);
    let (r, step) = s.poll_write(Event::Attempt(IoPoll::Ready(Ok(Fake { id: 2 }))), 12);
    assert!(matches!(r, IoPoll::Pending));
    assert_eq!(step, Step::Reconnected);
    // The same buffer, issued again, now reaches the new transport.
    let (r, _) = s.poll_write(Event::Transport { poll: IoPoll::Ready(Ok(12)), disconnected: false }, 12);
    assert!(matches!(r, IoPoll::Ready(Ok(12))));
}

#[test]
fn vectored_write_drop_reports_total_length() {
    let mut s = StubbornIo::new(Fake { id: 1 }, String::from("addr"), fixed(vec![10]));
    let poll = IoPoll::Ready(Err(err(IoErrorKind::ConnectionAborted)));
    let (r, _) = s.poll_write_vectored(Event::Transport { poll, disconnected: true }, &vec![3, 4, 5]);
    assert!(matches!(r, IoPoll::Ready(Ok(12))));
    let (r, _) = s.poll_write_vectored(Event::Attempt(IoPoll::Pending), &vec![]);
    assert!(matches!(r, IoPoll::Ready(Ok(0))));
}

#[test]
fn transient_error_passes_through() {
    let mut s = StubbornIo::new(Fake { id: 1 }, String::from("addr"), fixed(vec![10]));
    let poll: IoPoll<usize> = IoPoll::Ready(Err(err(IoErrorKind::WouldBlock)));
    assert!(!s.is_write_disconnect_detected(&poll));
    let (r, step) = s.poll_write(Event::Transport { poll, disconnected: false }, 3);
    match r {
        IoPoll::Ready(Err(e)) => {
            assert_eq!(e.kind, IoErrorKind::WouldBlock);
            assert_eq!(e.message, "boom");
        }
        _ => panic!("expected the transport's error"),
    }
    assert_eq!(step, Step::Idle);
    assert_eq!(s.phase(), Phase::Connected);
}

#[test]
fn zero_length_read_is_a_disconnect() {
    let mut s = StubbornIo::new(Fake { id: 1 }, String::from("addr"), fixed(vec![10]));
    let poll = IoPoll::Ready(Ok(()));
    assert!(s.is_read_disconnect_detected(&poll, 0));
    assert!(!s.is_read_disconnect_detected(&poll, 5));
    assert!(!s.is_read_disconnect_detected(&IoPoll::Pending, 0));
    let (r, step) = s.poll_read(Event::Transport { poll, disconnected: true });
    assert!(matches!(r, IoPoll::Pending));
    assert_eq!(step, Step::Retry { hook: Hook::OnDisconnect, delay_ms: 10, attempt: 1 });
    assert_eq!(s.phase(), Phase::Disconnected);
}

#[test]
fn overridden_final_read_is_respected() {
    let s = StubbornIo::new(Chatty, 0u8, fixed(vec![10]));
    assert!(!s.is_read_disconnect_detected(&IoPoll::Ready(Ok(())), 0));
}

#[test]
fn read_disconnect_error_is_classified() {
    let s = StubbornIo::new(Fake { id: 1 }, String::from("addr"), fixed(vec![10]));
    assert!(s.is_read_disconnect_detected(&IoPoll::Ready(Err(err(IoErrorKind::NotConnected))), 0));
    assert!(!s.is_read_disconnect_detected(&IoPoll::Ready(Err(err(IoErrorKind::TimedOut))), 0));
}

#[test]
fn flush_drop_reports_done_when_not_blocking() {
    let mut s = StubbornIo::new(Fake { id: 1 }, String::from("addr"), fixed(vec![10]));
    let poll: IoPoll<()> = IoPoll::Ready(Err(err(IoErrorKind::BrokenPipe)));
    let disconnected = s.is_write_disconnect_detected(&poll);
    assert!(disconnected);
    let (r, step) = s.poll_flush(Event::Transport { poll, disconnected });
    assert!(matches!(r, IoPoll::Ready(Ok(()))));
    assert_eq!(step, Step::Retry { hook: Hook::OnDisconnect, delay_ms: 10, attempt: 1 });
    assert_eq!(s.phase(), Phase::Disconnected);
    let (r, step) = s.poll_flush(Event::Attempt(IoPoll::Ready(Err(err(IoErrorKind::ConnectionRefused)))));
    assert!(matches!(r, IoPoll::Ready(Ok(()))));
    assert_eq!(step, Step::GaveUp { hook: Hook::OnConnectFail });
    assert_eq!(s.phase(), Phase::Exhausted);
}

#[test]
fn flush_drop_waits_when_blocking() {
    let options = fixed(vec![10]).with_block_on_write_failures(true);
    let mut s = StubbornIo::new(Fake { id: 1 }, String::from("addr"), options);
    let (r, _) = s.poll_flush(Event::Transport {
        poll: IoPoll::Ready(Err(err(IoErrorKind::BrokenPipe))),
        disconnected: true,
    });
    assert!(matches!(r, IoPoll::Pending));
    let (r, step) = s.poll_flush(Event::Attempt(IoPoll::Pending));
    assert!(matches!(r, IoPoll::Pending));
    assert_eq!(step, Step::Idle);
}

#[test]
fn completed_shutdown_disconnects() {
    let mut s = StubbornIo::new(Fake { id: 1 }, String::from("addr"), fixed(vec![10]));
    let (r, step) = s.poll_shutdown(Event::Transport { poll: IoPoll::Pending, disconnected: false });
    assert!(matches!(r, IoPoll::Pending));
    assert_eq!(step, Step::Idle);
    assert_eq!(s.phase(), Phase::Connected);
    let (r, step) = s.poll_shutdown(Event::Transport { poll: IoPoll::Ready(Ok(())), disconnected: false });
    assert!(matches!(r, IoPoll::Ready(Ok(()))));
    assert_eq!(step, Step::Retry { hook: Hook::OnDisconnect, delay_ms: 10, attempt: 1 });
    assert_eq!(s.phase(), Phase::Disconnected);
    let (r, step) = s.poll_shutdown(Event::Nothing);
    match r {
        IoPoll::Ready(Err(e)) => {
            assert_eq!(e.kind, IoErrorKind::NotConnected);
            assert_eq!(e.message, "Underlying I/O is disconnected.");
        }
        _ => panic!("expected the not-connected error"),
    }
    assert_eq!(step, Step::Idle);
    assert_eq!(s.phase(), Phase::Disconnected);
}

#[test]
fn failed_shutdown_disconnects_too() {
    let mut s = StubbornIo::new(Fake { id: 1 }, String::from("addr"), fixed(vec![]));
    let (r, step) = s.poll_shutdown(Event::Transport {
        poll: IoPoll::Ready(Err(err(IoErrorKind::Other))),
        disconnected: false,
    });
    assert!(matches!(r, IoPoll::Ready(Err(_))));
    assert_eq!(step, Step::GaveUp { hook: Hook::OnDisconnect });
    assert_eq!(s.phase(), Phase::Exhausted);
}

#[test]
fn first_connect_failure_is_final_by_default() {
    let options = ReconnectOptions::new();
    let mut init = InitialConnect::new();
    assert_eq!(init.after_attempt(&options, false), (Hook::OnConnectFail, InitStep::GiveUp));
}

#[test]
fn first_connect_succeeds_at_once() {
    let options = ReconnectOptions::new();
    let mut init = InitialConnect::new();
    assert_eq!(init.after_attempt(&options, true), (Hook::OnConnect, InitStep::Connected));
}

#[test]
fn first_connect_retries_until_success() {
    let options = fixed(vec![100, 100, 100]).with_exit_if_first_connect_fails(false);
    let mut init = InitialConnect::new();
    // The transport fails twice, then succeeds.
    let outcomes = [false, false, true];
    let mut connect_fails = 0;
    let mut connects = 0;
    let mut waited: u64 = 0;
    let mut last = InitStep::GiveUp;
    for ok in outcomes {
        let (hook, step) = init.after_attempt(&options, ok);
        match hook {
            Hook::OnConnect => connects += 1,
            Hook::OnConnectFail => connect_fails += 1,
            Hook::OnDisconnect => panic!("no disconnect before the first connection"),
        }
        if let InitStep::Retry { delay_ms } = step {
            waited += delay_ms;
        }
        last = step;
    }
    assert_eq!(last, InitStep::Connected);
    assert_eq!(connect_fails, 2);
    assert_eq!(connects, 1);
    assert_eq!(waited, 200);
}

#[test]
fn first_connect_gives_up_when_schedule_is_spent() {
    let options = fixed(vec![5, 6]).with_exit_if_first_connect_fails(false);
    let mut init = InitialConnect::new();
    assert_eq!(init.after_attempt(&options, false), (Hook::OnConnectFail, InitStep::Retry { delay_ms: 5 }));
    assert_eq!(init.after_attempt(&options, false), (Hook::OnConnectFail, InitStep::Retry { delay_ms: 6 }));
    assert_eq!(init.after_attempt(&options, false), (Hook::OnConnectFail, InitStep::GiveUp));
}

#[test]
fn errors_carry_kind_and_reason() {
    assert!(is_exhausted(&exhausted_err::<()>()));
    match disconnected_err::<usize>() {
        IoPoll::Ready(Err(e)) => {
            assert_eq!(e.kind, IoErrorKind::NotConnected);
            assert_eq!(e.message, "Underlying I/O is disconnected.");
        }
        _ => panic!("expected an error"),
    }
    match poll_err::<()>(IoErrorKind::TimedOut, "late") {
        IoPoll::Ready(Err(e)) => {
            assert_eq!(e.kind, IoErrorKind::TimedOut);
            assert_eq!(e.message, "late");
        }
        _ => panic!("expected an error"),
    }
}

#[test]
fn default_classification_of_error_kinds() {
    let gone = [
        IoErrorKind::NotFound,
        IoErrorKind::PermissionDenied,
        IoErrorKind::ConnectionRefused,
        IoErrorKind::ConnectionReset,
        IoErrorKind::ConnectionAborted,
        IoErrorKind::NotConnected,
        IoErrorKind::AddrInUse,
        IoErrorKind::AddrNotAvailable,
        IoErrorKind::BrokenPipe,
        IoErrorKind::AlreadyExists,
    ];
    for k in gone {
        assert!(default_is_disconnect_error(k));
        assert!(Fake { id: 0 }.is_disconnect_error(k));
    }
    let transient = [
        IoErrorKind::WouldBlock,
        IoErrorKind::InvalidInput,
        IoErrorKind::InvalidData,
        IoErrorKind::TimedOut,
        IoErrorKind::WriteZero,
        IoErrorKind::Interrupted,
        IoErrorKind::UnexpectedEof,
        IoErrorKind::Other,
    ];
    for k in transient {
        assert!(!default_is_disconnect_error(k));
    }
    assert!(default_is_final_read(0));
    assert!(!default_is_final_read(5));
}

#[test]
fn connection_label_trims_the_name() {
    assert_eq!(format_name(""), "StubbornIo: ");
    assert_eq!(format_name("   "), "StubbornIo: ");
    assert_eq!(format_name("  db  "), "StubbornIo(db): ");
    assert_eq!(format_name("\t db \n\u{3000}"), "StubbornIo(db): ");
    assert_eq!(format_name("\u{2028}"), "StubbornIo: ");
    assert_eq!(label_for_trimmed("x y"), "StubbornIo(x y): ");
    let s = StubbornIo::new(
        Fake { id: 1 },
        String::from("addr"),
        ReconnectOptions::new().with_connection_name(String::from(" main ")),
    );
    assert_eq!(s.get_connection_name(), "StubbornIo(main): ");
    assert_eq!(s.get_options().connection_name, " main ");
}

#[test]
fn transport_can_be_operated_on() {
    let mut s = StubbornIo::new(Fake { id: 1 }, String::from("addr"), ReconnectOptions::new());
    s.get_mut().id = 9;
    assert_eq!(s.get_ref(), &Fake { id: 9 });
    assert_eq!(s.phase(), Phase::Connected);
}
