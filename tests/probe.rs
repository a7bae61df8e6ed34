use rwlock_probe::cycle::{poison_message, step, Action, Event, Phase, Report, Role, Task};
use rwlock_probe::delay::{DelayPolicy, DelayRange, Delays};
use rwlock_probe::holders::{Access, Holders, Refusal};
use rwlock_probe::report::{decimal_string, reader_line, writer_line};
use rwlock_probe::{
    fixed_reader_delays, reader_count, reader_delays, task_count, writer_delays,
    FALLBACK_READERS, FIXED_HOLD_MS,
};

#[test]
fn reader_count_follows_parallelism() {
    assert_eq!(reader_count(Some(8)), 8);
    assert_eq!(reader_count(Some(1)), 1);
}

#[test]
fn reader_count_falls_back_to_four() {
    assert_eq!(reader_count(None), 4);
    assert_eq!(FALLBACK_READERS, 4);
}

#[test]
fn task_count_adds_the_writer() {
    assert_eq!(task_count(4), Some(5));
    assert_eq!(task_count(0), Some(1));
    assert_eq!(task_count(usize::MAX), None);
}

#[test]
fn delay_range_rejects_empty() {
    assert!(DelayRange::new(5, 5).is_none());
    assert!(DelayRange::new(6, 5).is_none());
    let r = DelayRange::new(10, 1000).unwrap();
    assert_eq!((r.low(), r.high()), (10, 1000));
}

#[test]
fn uniform_delays_stay_in_range() {
    let mut d = Delays::new(reader_delays());
    for _ in 0..2000 {
        let ms = d.next_ms();
        assert!((10..1000).contains(&ms));
    }
    let mut w = Delays::new(writer_delays());
    for _ in 0..2000 {
        let ms = w.next_ms();
        assert!((500..5000).contains(&ms));
    }
}

#[test]
fn uniform_delays_vary() {
    let mut d = Delays::new(reader_delays());
    let first = d.next_ms();
    let mut differs = false;
    for _ in 0..200 {
        if d.next_ms() != first {
            differs = true;
        }
    }
    assert!(differs);
}

#[test]
fn narrow_range_gives_its_only_value() {
    let mut d = Delays::new(DelayPolicy::Uniform(DelayRange::new(7, 8).unwrap()));
    for _ in 0..50 {
        assert_eq!(d.next_ms(), 7);
    }
}

#[test]
fn fixed_delays_repeat() {
    let mut d = Delays::new(fixed_reader_delays());
    for _ in 0..20 {
        assert_eq!(d.next_ms(), 333);
    }
    assert_eq!(FIXED_HOLD_MS, 333);
}

#[test]
fn decimal_digits() {
    assert_eq!(decimal_string(0), "0");
    assert_eq!(decimal_string(7), "7");
    assert_eq!(decimal_string(10), "10");
    assert_eq!(decimal_string(1234), "1234");
    assert_eq!(decimal_string(u64::MAX), "18446744073709551615");
}

#[test]
fn reader_line_layout() {
    assert_eq!(
        reader_line(1234, 333, "ThreadId(2)"),
        "Reader waited 1234 \u{3bc}s for a lock, held it 333 ms ThreadId(2)"
    );
    assert_eq!(reader_line(0, 10, ""), "Reader waited 0 \u{3bc}s for a lock, held it 10 ms ");
}

#[test]
fn writer_line_layout() {
    assert_eq!(
        writer_line(250000, "ThreadId(9)"),
        "Writer waited 250000 \u{3bc}s for a lock ThreadId(9)"
    );
}

#[test]
fn poison_messages_tell_read_from_write() {
    assert_eq!(poison_message(Access::Shared), "Poisoned read lock!");
    assert_eq!(poison_message(Access::Exclusive), "Poisoned write lock!");
}

#[test]
fn fixed_reader_reports_its_hold_every_round() {
    let mut t = Task::new(Role::Reader, fixed_reader_delays());
    assert_eq!(t.phase(), Phase::Idle);
    for round in 0..5u64 {
        assert_eq!(t.advance(Event::Done), Action::Acquire(Access::Shared));
        assert_eq!(t.advance(Event::Granted { waited_us: round * 10 }), Action::Hold(333));
        assert_eq!(
            t.advance(Event::Done),
            Action::ReleaseAndReport(Report::Reader { waited_us: round * 10, held_ms: 333 })
        );
        assert_eq!(t.phase(), Phase::Idle);
    }
}

#[test]
fn uniform_reader_reports_the_hold_it_drew() {
    let mut t = Task::new(Role::Reader, reader_delays());
    for _ in 0..100 {
        assert_eq!(t.advance(Event::Done), Action::Acquire(Access::Shared));
        let hold = match t.phase() {
            Phase::Waiting { delay_ms } => delay_ms,
            other => panic!("unexpected phase {:?}", other),
        };
        assert!((10..1000).contains(&hold));
        assert_eq!(t.advance(Event::Granted { waited_us: 3 }), Action::Hold(hold));
        assert_eq!(
            t.advance(Event::Done),
            Action::ReleaseAndReport(Report::Reader { waited_us: 3, held_ms: hold })
        );
    }
}

#[test]
fn writer_reports_while_holding_then_rests() {
    let mut t = Task::new(Role::Writer, writer_delays());
    assert_eq!(t.role(), Role::Writer);
    for _ in 0..50 {
        assert_eq!(t.advance(Event::Done), Action::Acquire(Access::Exclusive));
        assert_eq!(
            t.advance(Event::Granted { waited_us: 600000 }),
            Action::ReportAndRelease(Report::Writer { waited_us: 600000 })
        );
        match t.advance(Event::Done) {
            Action::Rest(ms) => assert!((500..5000).contains(&ms)),
            other => panic!("unexpected action {:?}", other),
        }
    }
}

#[test]
fn poisoned_lock_is_fatal_for_good() {
    let mut t = Task::new(Role::Reader, fixed_reader_delays());
    assert_eq!(t.advance(Event::Done), Action::Acquire(Access::Shared));
    assert_eq!(t.advance(Event::Poisoned), Action::Abort(Access::Shared));
    assert_eq!(t.phase(), Phase::Failed);
    assert_eq!(t.advance(Event::Done), Action::Abort(Access::Shared));
    assert_eq!(t.advance(Event::Granted { waited_us: 1 }), Action::Abort(Access::Shared));

    let mut w = Task::new(Role::Writer, writer_delays());
    w.advance(Event::Done);
    assert_eq!(w.advance(Event::Poisoned), Action::Abort(Access::Exclusive));
}

#[test]
fn unawaited_events_change_nothing() {
    let (p, a) = step(Role::Reader, Phase::Idle, Event::Granted { waited_us: 5 }, 9);
    assert_eq!((p, a), (Phase::Idle, Action::Nothing));
    let holding = Phase::Holding { delay_ms: 9, waited_us: 1 };
    assert_eq!(step(Role::Reader, holding, Event::Poisoned, 0), (holding, Action::Nothing));
    let waiting = Phase::Waiting { delay_ms: 9 };
    assert_eq!(step(Role::Writer, waiting, Event::Done, 0), (waiting, Action::Nothing));
}

#[test]
fn task_never_stops_without_poison() {
    let mut r = Task::new(Role::Reader, reader_delays());
    let mut w = Task::new(Role::Writer, writer_delays());
    let events = [Event::Done, Event::Granted { waited_us: 2 }, Event::Done, Event::Done];
    for i in 0..400 {
        let e = events[i % events.len()];
        assert!(!matches!(r.advance(e), Action::Abort(_)));
        assert!(!matches!(w.advance(e), Action::Abort(_)));
        assert_ne!(r.phase(), Phase::Failed);
        assert_ne!(w.phase(), Phase::Failed);
    }
}

#[test]
fn holders_admit_many_readers_or_one_writer() {
    let mut h = Holders::new();
    assert_eq!(h.enter(Access::Shared), Ok(()));
    assert_eq!(h.enter(Access::Shared), Ok(()));
    assert_eq!(h.readers(), 2);
    assert_eq!(h.enter(Access::Exclusive), Err(Refusal::Conflict));
    assert_eq!(h.leave(Access::Shared), Ok(()));
    assert_eq!(h.leave(Access::Shared), Ok(()));
    assert_eq!(h.enter(Access::Exclusive), Ok(()));
    assert!(h.has_writer());
    assert_eq!(h.enter(Access::Exclusive), Err(Refusal::Conflict));
    assert_eq!(h.enter(Access::Shared), Err(Refusal::Conflict));
    assert_eq!(h.leave(Access::Exclusive), Ok(()));
    assert!(!h.has_writer());
    assert_eq!(h.readers(), 0);
}

#[test]
fn holders_refuse_release_not_held() {
    let mut h = Holders::new();
    assert_eq!(h.leave(Access::Shared), Err(Refusal::NotHeld));
    assert_eq!(h.leave(Access::Exclusive), Err(Refusal::NotHeld));
    assert_eq!(h.abandon(Access::Shared), Err(Refusal::NotHeld));
    assert!(!h.is_poisoned());
}

#[test]
fn abandoned_read_hold_poisons_every_later_acquisition() {
    let mut h = Holders::new();
    assert_eq!(h.enter(Access::Shared), Ok(()));
    assert_eq!(h.enter(Access::Shared), Ok(()));
    assert_eq!(h.abandon(Access::Shared), Ok(()));
    assert!(h.is_poisoned());
    assert_eq!(h.readers(), 1);
    assert_eq!(h.enter(Access::Shared), Err(Refusal::Poisoned));
    assert_eq!(h.enter(Access::Exclusive), Err(Refusal::Poisoned));
    assert_eq!(h.leave(Access::Shared), Ok(()));
    assert_eq!(h.enter(Access::Exclusive), Err(Refusal::Poisoned));
    assert_eq!(h.enter(Access::Shared), Err(Refusal::Poisoned));
}

#[test]
fn exclusion_holds_over_a_long_mixed_run() {
    let mut h = Holders::new();
    let ops = [Access::Shared, Access::Exclusive];
    for i in 0..1000usize {
        let a = ops[(i * 7 + i / 3) % 2];
        if i % 3 == 0 {
            let _ = h.leave(a);
        } else {
            let _ = h.enter(a);
        }
        assert!(!h.has_writer() || h.readers() == 0);
    }
}
