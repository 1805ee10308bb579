use std::cell::Cell;

use rad::{complete, effective_caution, Async, Caution, Completion, Error, OpKind, Phase, Return};

fn accept(_handle: &u32) -> Result<(), Error> {
    Ok(())
}

fn ignore(_handle: u32) {}

fn submit<T>(data: T, kind: OpKind, caution: Caution) -> Completion<T, &'static str, u32> {
    Completion::new(data, kind, caution, 42, accept, ignore).expect("the operation was accepted")
}

#[test]
fn complete_keeps_the_payload_and_the_value() {
    assert_eq!(complete("data", 0), Ok(Return { data: "data", value: 0 }));
    assert_eq!(complete(vec![1u8, 2], 2), Ok(Return { data: vec![1u8, 2], value: 2 }));
    assert_eq!(complete((), i32::MAX), Ok(Return { data: (), value: 2147483647 }));
}

#[test]
fn complete_turns_a_negative_status_into_an_error() {
    assert_eq!(complete("data", -1), Err(Error::Rados(1)));
    assert_eq!(complete("data", -110), Err(Error::Rados(110)));
    assert_eq!(complete("data", i32::MIN), Err(Error::Rados(2147483648)));
}

#[test]
fn a_read_is_gated_by_the_acknowledgement() {
    for kind in [OpKind::Read, OpKind::Stat, OpKind::Exists] {
        assert_eq!(effective_caution(kind, Caution::Durable), Caution::Acknowledged);
        assert_eq!(effective_caution(kind, Caution::Acknowledged), Caution::Acknowledged);
    }
}

#[test]
fn a_write_is_gated_by_what_was_asked() {
    for kind in [
        OpKind::Write,
        OpKind::WriteFull,
        OpKind::Append,
        OpKind::Remove,
        OpKind::Flush,
    ] {
        assert_eq!(effective_caution(kind, Caution::Durable), Caution::Durable);
        assert_eq!(effective_caution(kind, Caution::Acknowledged), Caution::Acknowledged);
    }
}

#[test]
fn a_new_completion_is_created_and_in_flight() {
    let completion = submit(7u8, OpKind::Write, Caution::Durable);
    assert_eq!(completion.phase(), Phase::Created);
    assert_eq!(completion.kind(), OpKind::Write);
    assert_eq!(completion.caution(), Caution::Durable);
    assert!(!completion.is_terminal());
}

#[test]
fn the_handle_reaches_the_submission() {
    let seen = Cell::new(0u32);
    let completion: Result<Completion<(), u8, u32>, Error> = Completion::new(
        (),
        OpKind::Flush,
        Caution::Acknowledged,
        42,
        |handle: &u32| {
            seen.set(*handle);
            Ok(())
        },
        ignore,
    );
    assert!(completion.is_ok());
    assert_eq!(seen.get(), 42);
}

#[test]
fn a_rejected_submission_releases_the_handle_and_makes_no_completion() {
    let released = Cell::new(Vec::new());
    let completion: Result<Completion<u8, u8, u32>, Error> = Completion::new(
        7,
        OpKind::Write,
        Caution::Durable,
        42,
        |_handle: &u32| Err(Error::Rados(28)),
        |handle: u32| {
            let mut handles = released.take();
            handles.push(handle);
            released.set(handles);
        },
    );
    assert_eq!(completion.err(), Some(Error::Rados(28)));
    assert_eq!(released.take(), vec![42]);
}

#[test]
fn an_accepted_submission_does_not_release_the_handle() {
    let released = Cell::new(0u32);
    let completion: Result<Completion<u8, u8, u32>, Error> = Completion::new(
        7,
        OpKind::Write,
        Caution::Durable,
        42,
        accept,
        |_handle: u32| released.set(released.get() + 1),
    );
    assert!(completion.is_ok());
    assert_eq!(released.get(), 0);
}

#[test]
fn polling_ends_in_exactly_one_result() {
    let mut completion = submit(String::from("payload"), OpKind::Write, Caution::Acknowledged);
    let mut results = 0;
    for round in 0..10 {
        if round == 4 {
            completion.fire(Caution::Acknowledged);
        }
        match completion.poll("waiter", || 3) {
            Ok(Async::NotReady) => assert!(round < 4),
            Ok(Async::Ready(ret)) => {
                assert_eq!(round, 4);
                assert_eq!(ret, Return { data: String::from("payload"), value: 3 });
                results += 1;
            }
            Err(error) => {
                assert!(round > 4);
                assert_eq!(error, Error::Finished);
            }
        }
    }
    assert_eq!(results, 1);
    assert_eq!(completion.phase(), Phase::Ready);
}

#[test]
fn polling_after_the_result_is_refused() {
    let mut completion = submit(1u8, OpKind::Remove, Caution::Acknowledged);
    completion.fire(Caution::Acknowledged);
    assert_eq!(completion.poll("a", || 0), Ok(Async::Ready(Return { data: 1, value: 0 })));
    assert!(completion.is_terminal());
    assert_eq!(completion.poll("b", || 0), Err(Error::Finished));
    assert_eq!(completion.poll("c", || -5), Err(Error::Finished));
    assert_eq!(completion.phase(), Phase::Ready);
}

#[test]
fn polling_after_a_failure_is_refused() {
    let mut completion = submit(1u8, OpKind::Remove, Caution::Acknowledged);
    completion.fire(Caution::Acknowledged);
    assert_eq!(completion.poll("a", || -2), Err(Error::Rados(2)));
    assert_eq!(completion.phase(), Phase::Ready);
    assert_eq!(completion.poll("b", || -2), Err(Error::Finished));
}

#[test]
fn firing_before_the_first_poll_makes_the_first_poll_ready() {
    let mut bytes = submit(vec![9u8; 16], OpKind::Read, Caution::Acknowledged);
    assert_eq!(bytes.fire(Caution::Acknowledged), None);
    assert_eq!(
        bytes.poll("w", || 16),
        Ok(Async::Ready(Return { data: vec![9u8; 16], value: 16 }))
    );

    let mut unit = submit((), OpKind::Flush, Caution::Durable);
    assert_eq!(unit.fire(Caution::Durable), None);
    assert_eq!(unit.poll("w", || 0), Ok(Async::Ready(Return { data: (), value: 0 })));

    let mut pair = submit(Box::new((0u64, 0i64)), OpKind::Stat, Caution::Acknowledged);
    assert_eq!(pair.fire(Caution::Acknowledged), None);
    assert_eq!(
        pair.poll("w", || 0),
        Ok(Async::Ready(Return { data: Box::new((0u64, 0i64)), value: 0 }))
    );
}

#[test]
fn firing_after_pending_polls_makes_the_next_poll_ready() {
    for pending in 0..6usize {
        let mut completion = submit(pending, OpKind::Write, Caution::Durable);
        let waiters = ["w0", "w1", "w2", "w3", "w4", "w5"];
        for round in 0..pending {
            assert_eq!(completion.poll(waiters[round], || 0), Ok(Async::NotReady));
            assert_eq!(completion.phase(), Phase::Pending);
        }
        let woken = completion.fire(Caution::Durable);
        if pending == 0 {
            assert_eq!(woken, None);
        } else {
            assert_eq!(woken, Some(waiters[pending - 1]));
        }
        assert_eq!(
            completion.poll("last", || 1),
            Ok(Async::Ready(Return { data: pending, value: 1 }))
        );
    }
}

#[test]
fn the_status_is_asked_for_only_when_the_result_is_ready() {
    let asked = Cell::new(0u32);
    let mut completion = submit(0u8, OpKind::Append, Caution::Acknowledged);
    for _ in 0..3 {
        let polled = completion.poll("w", || {
            asked.set(asked.get() + 1);
            0
        });
        assert_eq!(polled, Ok(Async::NotReady));
    }
    assert_eq!(asked.get(), 0);
    completion.fire(Caution::Acknowledged);
    let polled = completion.poll("w", || {
        asked.set(asked.get() + 1);
        0
    });
    assert_eq!(polled, Ok(Async::Ready(Return { data: 0, value: 0 })));
    assert_eq!(asked.get(), 1);
    let polled = completion.poll("w", || {
        asked.set(asked.get() + 1);
        0
    });
    assert_eq!(polled, Err(Error::Finished));
    assert_eq!(asked.get(), 1);
}

#[test]
fn the_callback_wakes_the_waiter_once() {
    let mut completion = submit(0u8, OpKind::Write, Caution::Acknowledged);
    assert_eq!(completion.poll("first", || 0), Ok(Async::NotReady));
    assert_eq!(completion.poll("second", || 0), Ok(Async::NotReady));
    assert_eq!(completion.fire(Caution::Acknowledged), Some("second"));
    assert_eq!(completion.fire(Caution::Acknowledged), None);
    assert_eq!(completion.fire(Caution::Durable), None);
}

#[test]
fn dropping_before_the_callback_releases_the_handle_once() {
    let mut completion = submit(vec![0u8; 8], OpKind::Read, Caution::Acknowledged);
    assert_eq!(completion.poll("w", || 0), Ok(Async::NotReady));
    assert_eq!(completion.abandon(), Some(42));
    assert_eq!(completion.abandon(), None);
    assert!(completion.is_terminal());
    assert_eq!(completion.fire(Caution::Acknowledged), Some("w"));
    assert_eq!(completion.fire(Caution::Acknowledged), None);
    assert_eq!(completion.abandon(), None);
    assert_eq!(completion.poll("w", || 0), Err(Error::Finished));
}

#[test]
fn dropping_after_the_result_releases_the_handle_once() {
    let mut completion = submit(0u8, OpKind::Write, Caution::Durable);
    completion.fire(Caution::Durable);
    assert_eq!(completion.poll("w", || 0), Ok(Async::Ready(Return { data: 0, value: 0 })));
    assert_eq!(completion.abandon(), Some(42));
    assert_eq!(completion.abandon(), None);
}

#[test]
fn dropping_unpolled_after_the_callback_releases_the_handle_once() {
    let mut completion = submit(0u8, OpKind::Write, Caution::Durable);
    completion.fire(Caution::Durable);
    assert_eq!(completion.abandon(), Some(42));
    assert_eq!(completion.abandon(), None);
    assert_eq!(completion.poll("w", || 0), Err(Error::Finished));
}

#[test]
fn a_read_never_waits_for_the_durable_milestone() {
    let mut read = submit(vec![0u8; 4], OpKind::Read, Caution::Durable);
    assert_eq!(read.caution(), Caution::Acknowledged);
    assert_eq!(read.poll("w", || 4), Ok(Async::NotReady));
    assert_eq!(read.fire(Caution::Durable), None);
    assert_eq!(read.poll("w", || 4), Ok(Async::NotReady));
    assert_eq!(read.fire(Caution::Acknowledged), Some("w"));
    assert_eq!(read.poll("w", || 4), Ok(Async::Ready(Return { data: vec![0u8; 4], value: 4 })));
}

#[test]
fn a_write_becomes_ready_at_the_milestone_it_was_submitted_with() {
    let bytes = 4096usize;
    let mut acknowledged = submit(bytes, OpKind::Write, Caution::Acknowledged);
    let mut durable = submit(bytes, OpKind::Write, Caution::Durable);

    acknowledged.fire(Caution::Acknowledged);
    durable.fire(Caution::Acknowledged);
    assert_eq!(
        acknowledged.poll("a", || 0),
        Ok(Async::Ready(Return { data: bytes, value: 0 }))
    );
    assert_eq!(durable.poll("d", || 0), Ok(Async::NotReady));

    assert_eq!(durable.fire(Caution::Durable), Some("d"));
    assert_eq!(durable.poll("d", || 0), Ok(Async::Ready(Return { data: bytes, value: 0 })));
}

/// A xorshift generator, to walk through many orders of events.
fn next(state: &mut u32) -> u32 {
    *state ^= *state << 13;
    *state ^= *state >> 17;
    *state ^= *state << 5;
    *state
}

#[test]
fn no_order_of_events_gives_a_second_result_or_a_second_release() {
    let mut state = 2463534242u32;
    for run in 0..2000u32 {
        let kinds = [OpKind::Write, OpKind::Read, OpKind::Remove, OpKind::Stat];
        let kind = kinds[(next(&mut state) % 4) as usize];
        let caution =
            if next(&mut state) % 2 == 0 { Caution::Acknowledged } else { Caution::Durable };
        let mut completion = submit(run, kind, caution);
        let gate = effective_caution(kind, caution);
        assert_eq!(completion.caution(), gate);

        let mut fired = false;
        let mut dropped = false;
        let mut results = 0;
        let mut releases = 0;
        let mut wakes = 0;
        let mut registered = false;
        for _ in 0..(next(&mut state) % 24) {
            match next(&mut state) % 8 {
                0..=3 => {
                    let status = (next(&mut state) % 7) as i32 - 3;
                    let polled = completion.poll("w", || status);
                    if dropped || results == 1 {
                        assert_eq!(polled, Err(Error::Finished));
                    } else if fired {
                        assert_eq!(polled, complete(run, status).map(Async::Ready));
                        results += 1;
                    } else {
                        assert_eq!(polled, Ok(Async::NotReady));
                        registered = true;
                    }
                }
                4 | 5 => {
                    let reached = if next(&mut state) % 2 == 0 {
                        Caution::Acknowledged
                    } else {
                        Caution::Durable
                    };
                    let woken = completion.fire(reached);
                    if reached == gate && !fired {
                        fired = true;
                        assert_eq!(woken.is_some(), registered);
                    } else {
                        assert_eq!(woken, None);
                    }
                    wakes += woken.iter().count();
                }
                _ => {
                    let released = completion.abandon();
                    assert_eq!(released.is_some(), !dropped);
                    releases += released.iter().count();
                    dropped = true;
                }
            }
            assert_eq!(completion.is_terminal(), dropped || results == 1);
        }
        assert!(results <= 1);
        assert!(wakes <= 1);
        assert_eq!(releases, if dropped { 1 } else { 0 });
    }
}
