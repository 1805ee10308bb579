//! The completion as a state machine over plain values, and what holds of
//! every run of it.

use vstd::prelude::*;
use crate::asynchronous::{gate_for, outcome, Async, Caution, Phase, Return};
use crate::cell::CellState;
use crate::errors::{Error, OpKind};

verus! {

/// The state of one completion.
pub struct BridgeState<T, W, H> {
    /// The result cell.
    pub cell: CellState<T>,
    /// The waiter in the notifier's slot.
    pub waiter: Option<W>,
    /// The native handle, until it is handed out for release.
    pub handle: Option<H>,
    /// The kind of operation.
    pub kind: OpKind,
    /// The milestone that gates readiness.
    pub gate: Caution,
    /// Where the consumer stands.
    pub phase: Phase,
}

impl<T, W, H> BridgeState<T, W, H> {
    /// The state right after an operation was submitted.
    pub open spec fn submitted(data: T, kind: OpKind, caution: Caution, handle: H) -> Self {
        BridgeState {
            cell: CellState::fresh(data),
            waiter: None,
            handle: Some(handle),
            kind,
            gate: gate_for(kind, caution),
            phase: Phase::Created,
        }
    }

    /// What holds of every state that can be reached.
    pub open spec fn wf(self) -> bool {
        &&& self.cell.wf()
        &&& self.cell.consumer ==> self.handle is Some && self.phase != Phase::Ready
        &&& self.phase == Phase::Ready ==> self.cell == CellState::<T>::vacant()
        &&& self.phase == Phase::Created ==> self.waiter is None
        &&& self.phase == Phase::Pending && self.cell.consumer && self.cell.callback
            ==> self.waiter is Some
    }

    /// The result was handed out, or the consumer gave the completion up.
    pub open spec fn is_terminal(self) -> bool {
        self.phase == Phase::Ready || self.handle is None
    }

    /// The next poll hands out the result.
    pub open spec fn is_ready(self) -> bool {
        !self.is_terminal() && self.cell.sole_owner()
    }

    /// The state after a poll on behalf of `waiter`.
    pub open spec fn polled(self, waiter: W) -> Self {
        if self.is_terminal() {
            self
        } else if self.cell.sole_owner() {
            BridgeState {
                cell: CellState::vacant(),
                waiter: Some(waiter),
                phase: Phase::Ready,
                ..self
            }
        } else {
            BridgeState { waiter: Some(waiter), phase: Phase::Pending, ..self }
        }
    }

    /// What a poll returns, where `status` is the raw status that the native
    /// layer reports. It is looked at only in a state that is ready.
    pub open spec fn poll_result(self, status: i32) -> Result<Async<Return<T>>, Error> {
        if self.is_terminal() {
            Err(Error::Finished)
        } else if self.cell.sole_owner() {
            match outcome(self.cell.payload.unwrap(), status) {
                Ok(ret) => Ok(Async::Ready(ret)),
                Err(error) => Err(error),
            }
        } else {
            Ok(Async::NotReady)
        }
    }

    /// The callback acts on the milestone `reached`: it is the one that gates,
    /// and the callback has not fired before.
    pub open spec fn fires(self, reached: Caution) -> bool {
        reached == self.gate && self.cell.callback
    }

    /// The state after the native layer reported the milestone `reached`.
    pub open spec fn fired(self, reached: Caution) -> Self {
        if self.fires(reached) {
            BridgeState { cell: self.cell.released(), waiter: None, ..self }
        } else {
            self
        }
    }

    /// The waiter that is woken when the native layer reports `reached`.
    pub open spec fn woken(self, reached: Caution) -> Option<W> {
        if self.fires(reached) {
            self.waiter
        } else {
            None
        }
    }

    /// The state after the consumer gave the completion up.
    pub open spec fn dropped(self) -> Self {
        BridgeState { cell: self.cell.abandoned(), handle: None, ..self }
    }

    /// The operation is in flight: the consumer holds on to the completion and
    /// the callback has not fired.
    pub open spec fn in_flight(self) -> bool {
        !self.is_terminal() && self.cell.consumer && self.cell.callback
    }

    /// The state after one event.
    pub open spec fn step(self, event: Event<W>) -> Self {
        match event {
            Event::Poll { waiter, .. } => self.polled(waiter),
            Event::Fire(reached) => self.fired(reached),
            Event::Drop => self.dropped(),
        }
    }

    /// The event is a poll that hands out the result of the operation.
    pub open spec fn yields(self, event: Event<W>) -> bool {
        event is Poll && self.is_ready()
    }

    /// The event hands out the native handle for release.
    pub open spec fn releases(self, event: Event<W>) -> bool {
        event is Drop && self.handle is Some
    }

    /// The state after a sequence of events.
    pub open spec fn run(self, events: Seq<Event<W>>) -> Self
        decreases events.len(),
    {
        if events.len() == 0 {
            self
        } else {
            self.step(events[0]).run(events.skip(1))
        }
    }

    /// How many results are handed out along a sequence of events.
    pub open spec fn results(self, events: Seq<Event<W>>) -> nat
        decreases events.len(),
    {
        if events.len() == 0 {
            0
        } else {
            (if self.yields(events[0]) { 1nat } else { 0nat })
                + self.step(events[0]).results(events.skip(1))
        }
    }

    /// How many waiters are woken along a sequence of events.
    pub open spec fn wakes(self, events: Seq<Event<W>>) -> nat
        decreases events.len(),
    {
        if events.len() == 0 {
            0
        } else {
            (if events[0] matches Event::Fire(reached) && self.woken(reached) is Some {
                1nat
            } else {
                0nat
            }) + self.step(events[0]).wakes(events.skip(1))
        }
    }

    /// How often the native handle is handed out for release along a sequence
    /// of events.
    pub open spec fn handles_released(self, events: Seq<Event<W>>) -> nat
        decreases events.len(),
    {
        if events.len() == 0 {
            0
        } else {
            (if self.releases(events[0]) { 1nat } else { 0nat })
                + self.step(events[0]).handles_released(events.skip(1))
        }
    }
}

/// What can happen to a completion.
pub enum Event<W> {
    /// The consumer polls on behalf of `waiter`; were the native layer asked,
    /// it would report `status`.
    Poll { waiter: W, status: i32 },
    /// The native layer reports that the operation reached a milestone.
    Fire(Caution),
    /// The consumer gives the completion up.
    Drop,
}

/// An event that leaves an operation in flight: a poll, or a milestone other
/// than the one that gates it.
pub open spec fn is_quiet<W>(gate: Caution, event: Event<W>) -> bool {
    match event {
        Event::Poll { .. } => true,
        Event::Fire(reached) => reached != gate,
        Event::Drop => false,
    }
}

/// The waiter that is registered after a sequence of events none of which
/// wakes it, if `initial` was registered before: the one of the last poll.
pub open spec fn registered_after<W>(initial: Option<W>, events: Seq<Event<W>>) -> Option<W>
    decreases events.len(),
{
    if events.len() == 0 {
        initial
    } else {
        registered_after(
            match events[0] {
                Event::Poll { waiter, .. } => Some(waiter),
                _ => initial,
            },
            events.skip(1),
        )
    }
}

/// After a sequence of events that ends in a poll, the waiter of that poll is
/// the one registered.
pub proof fn lemma_last_poll_is_registered<W>(initial: Option<W>, events: Seq<Event<W>>)
    requires
        events.len() > 0,
        events.last() is Poll,
    ensures
        registered_after(initial, events) == Some(events.last()->waiter),
    decreases events.len(),
{
    if events.len() > 1 {
        let next = match events[0] {
            Event::Poll { waiter, .. } => Some(waiter),
            _ => initial,
        };
        lemma_last_poll_is_registered(next, events.skip(1));
    } else {
        reveal_with_fuel(registered_after, 2);
    }
}

/// A completion is well formed when it is created.
pub proof fn lemma_submitted_wf<T, W, H>(data: T, kind: OpKind, caution: Caution, handle: H)
    ensures
        BridgeState::<T, W, H>::submitted(data, kind, caution, handle).wf(),
        BridgeState::<T, W, H>::submitted(data, kind, caution, handle).in_flight(),
{
}

/// Every event leaves a well-formed completion well formed.
pub proof fn lemma_step_wf<T, W, H>(state: BridgeState<T, W, H>, event: Event<W>)
    requires
        state.wf(),
    ensures
        state.step(event).wf(),
{
}

/// Whatever happens to a completion, it stays well formed.
pub proof fn lemma_run_wf<T, W, H>(state: BridgeState<T, W, H>, events: Seq<Event<W>>)
    requires
        state.wf(),
    ensures
        state.run(events).wf(),
    decreases events.len(),
{
    if events.len() > 0 {
        lemma_step_wf(state, events[0]);
        lemma_run_wf(state.step(events[0]), events.skip(1));
    }
}

/// Only a completion that is ready looks at the raw status: in any other
/// state a poll returns the same whatever the native layer would report.
pub proof fn lemma_status_matters_only_when_ready<T, W, H>(
    state: BridgeState<T, W, H>,
    one: i32,
    other: i32,
)
    requires
        !state.is_ready(),
    ensures
        state.poll_result(one) == state.poll_result(other),
{
}

/// A completion that is terminal stays so, whatever happens to it, and every
/// poll of it is refused and changes nothing.
pub proof fn lemma_terminal_is_final<T, W, H>(
    state: BridgeState<T, W, H>,
    events: Seq<Event<W>>,
    waiter: W,
    status: i32,
)
    requires
        state.is_terminal(),
    ensures
        state.run(events).is_terminal(),
        state.run(events).poll_result(status) == Err::<Async<Return<T>>, Error>(Error::Finished),
        state.run(events).polled(waiter) == state.run(events),
        state.results(events) == 0,
    decreases events.len(),
{
    if events.len() > 0 {
        lemma_terminal_is_final(state.step(events[0]), events.skip(1), waiter, status);
    }
}

/// Along any sequence of events a completion hands out at most one result.
pub proof fn lemma_at_most_one_result<T, W, H>(
    state: BridgeState<T, W, H>,
    events: Seq<Event<W>>,
)
    ensures
        state.results(events) <= 1,
    decreases events.len(),
{
    if events.len() > 0 {
        let event = events[0];
        lemma_at_most_one_result(state.step(event), events.skip(1));
        if state.yields(event) {
            let waiter = event->waiter;
            lemma_terminal_is_final(state.step(event), events.skip(1), waiter, 0);
        }
    }
}

/// Running two sequences of events one after the other is running their
/// concatenation, and hands out the results of both.
pub proof fn lemma_run_concat<T, W, H>(
    state: BridgeState<T, W, H>,
    first: Seq<Event<W>>,
    second: Seq<Event<W>>,
)
    ensures
        state.run(first + second) == state.run(first).run(second),
        state.results(first + second) == state.results(first) + state.run(first).results(second),
    decreases first.len(),
{
    if first.len() > 0 {
        assert((first + second).skip(1) == first.skip(1) + second);
        lemma_run_concat(state.step(first[0]), first.skip(1), second);
    }
}

/// Polls and milestones that do not gate the operation leave it in flight:
/// none of those polls hands out a result, each returns `NotReady`, and the
/// waiter of the last of them stays registered.
pub proof fn lemma_quiet_events_keep_in_flight<T, W, H>(
    state: BridgeState<T, W, H>,
    events: Seq<Event<W>>,
)
    requires
        state.in_flight(),
        forall|i: int| 0 <= i < events.len() ==> is_quiet(state.gate, #[trigger] events[i]),
    ensures
        state.run(events).in_flight(),
        state.run(events).gate == state.gate,
        state.run(events).handle == state.handle,
        state.run(events).cell == state.cell,
        state.run(events).waiter == registered_after(state.waiter, events),
        state.results(events) == 0,
        forall|i: int, status: i32|
            0 <= i < events.len() ==> #[trigger] state.run(events.take(i)).poll_result(status)
                == Ok::<Async<Return<T>>, Error>(Async::NotReady),
    decreases events.len(),
{
    if events.len() > 0 {
        let next = state.step(events[0]);
        let rest = events.skip(1);
        assert forall|i: int| 0 <= i < rest.len() implies is_quiet(next.gate, #[trigger] rest[i]) by {}
        lemma_quiet_events_keep_in_flight(next, rest);
        assert forall|i: int, status: i32| 0 <= i < events.len() implies #[trigger] state.run(
            events.take(i),
        ).poll_result(status) == Ok::<Async<Return<T>>, Error>(Async::NotReady) by {
            if i > 0 {
                assert(events.take(i).skip(1) == rest.take(i - 1));
                assert(state.run(events.take(i)) == next.run(rest.take(i - 1)));
            }
        }
    }
}

/// If the callback fires before the first poll, the first poll hands out the
/// result.
pub proof fn lemma_fired_before_first_poll<T, W, H>(
    data: T,
    kind: OpKind,
    caution: Caution,
    handle: H,
    waiter: W,
    status: i32,
)
    ensures
        ({
            let fresh = BridgeState::<T, W, H>::submitted(data, kind, caution, handle);
            let fired = fresh.fired(fresh.gate);
            &&& fresh.woken(fresh.gate) is None
            &&& fired.is_ready()
            &&& fired.poll_result(status) == match outcome(data, status) {
                Ok(ret) => Ok::<Async<Return<T>>, Error>(Async::Ready(ret)),
                Err(error) => Err(error),
            }
            &&& fired.polled(waiter).phase == Phase::Ready
        }),
{
}

/// If the callback fires after any number of polls, none of those polls hands
/// out a result, the firing wakes the waiter of the last of them, and the next
/// poll hands out the result. Milestones that do not gate the operation may
/// come in between and change nothing of this.
pub proof fn lemma_ready_after_pending_polls<T, W, H>(
    state: BridgeState<T, W, H>,
    polls: Seq<Event<W>>,
    waiter: W,
    status: i32,
)
    requires
        state.in_flight(),
        forall|i: int| 0 <= i < polls.len() ==> is_quiet(state.gate, #[trigger] polls[i]),
    ensures
        state.results(polls) == 0,
        forall|i: int, seen: i32|
            0 <= i < polls.len() ==> #[trigger] state.run(polls.take(i)).poll_result(seen)
                == Ok::<Async<Return<T>>, Error>(Async::NotReady),
        ({
            let pending = state.run(polls);
            let fired = pending.fired(pending.gate);
            &&& pending.woken(pending.gate) == registered_after(state.waiter, polls)
            &&& polls.len() > 0 && polls.last() is Poll ==> pending.woken(pending.gate) == Some(
                polls.last()->waiter,
            )
            &&& fired.is_ready()
            &&& fired.poll_result(status) == match outcome(state.cell.payload.unwrap(), status) {
                Ok(ret) => Ok::<Async<Return<T>>, Error>(Async::Ready(ret)),
                Err(error) => Err(error),
            }
            &&& fired.polled(waiter).phase == Phase::Ready
            &&& fired.polled(waiter).is_terminal()
        }),
{
    lemma_quiet_events_keep_in_flight(state, polls);
    if polls.len() > 0 && polls.last() is Poll {
        lemma_last_poll_is_registered(state.waiter, polls);
    }
}

/// An operation that is submitted and then polled until after its callback has
/// fired hands out exactly one result, whatever else happens before and after:
/// the poll that follows the firing returns it, and no poll before or after
/// returns another.
pub proof fn lemma_exactly_one_result<T, W, H>(
    state: BridgeState<T, W, H>,
    before: Seq<Event<W>>,
    waiter: W,
    status: i32,
    after: Seq<Event<W>>,
)
    requires
        state.in_flight(),
        forall|i: int| 0 <= i < before.len() ==> is_quiet(state.gate, #[trigger] before[i]),
    ensures
        state.results(
            before + seq![Event::Fire(state.gate), Event::Poll { waiter, status }] + after,
        ) == 1,
        state.run(before + seq![Event::Fire(state.gate), Event::Poll { waiter, status }]).phase
            == Phase::Ready,
{
    let decisive = seq![Event::Fire(state.gate), Event::Poll { waiter, status }];
    let pending = state.run(before);
    lemma_quiet_events_keep_in_flight(state, before);
    let fired = pending.step(decisive[0]);
    let polled = fired.step(decisive[1]);
    assert(pending.run(decisive) == polled && pending.results(decisive) == 1) by {
        reveal_with_fuel(BridgeState::run, 3);
        reveal_with_fuel(BridgeState::results, 3);
    }
    lemma_run_concat(state, before, decisive);
    lemma_run_concat(state, before + decisive, after);
    lemma_terminal_is_final(polled, after, waiter, status);
}

/// Once the callback has fired, the result stays ready to be handed out until
/// the consumer polls or gives the completion up: no notification is lost, and
/// no later milestone takes the result back.
pub proof fn lemma_ready_until_polled<T, W, H>(state: BridgeState<T, W, H>, reached: Caution)
    requires
        state.is_ready(),
    ensures
        state.fired(reached) == state,
{
}

/// Along any sequence of events the native handle is handed out for release at
/// most once: exactly once if the consumer gives the completion up, and not at
/// all if it does not.
pub proof fn lemma_released_exactly_once<T, W, H>(
    state: BridgeState<T, W, H>,
    events: Seq<Event<W>>,
)
    ensures
        state.handles_released(events) <= 1,
        state.handle is None ==> state.handles_released(events) == 0 && state.run(
            events,
        ).handle is None,
        state.handle is Some && (exists|i: int| 0 <= i < events.len() && #[trigger] events[i] is Drop)
            ==> state.handles_released(events) == 1 && state.run(events).handle is None,
        state.handle is Some && (forall|i: int| 0 <= i < events.len() ==> !(#[trigger] events[i] is Drop))
            ==> state.handles_released(events) == 0 && state.run(events).handle == state.handle,
    decreases events.len(),
{
    if events.len() > 0 {
        let rest = events.skip(1);
        lemma_released_exactly_once(state.step(events[0]), rest);
        assert forall|i: int| 0 <= i < rest.len() implies #[trigger] rest[i] == events[i + 1] by {}
        if state.handle is Some && !(events[0] is Drop) {
            if exists|i: int| 0 <= i < events.len() && #[trigger] events[i] is Drop {
                let i = choose|i: int| 0 <= i < events.len() && #[trigger] events[i] is Drop;
                assert(rest[i - 1] is Drop);
            }
        }
    }
}

/// Along any sequence of events at most one waiter is woken, and none once
/// the callback has fired.
pub proof fn lemma_at_most_one_wake<T, W, H>(state: BridgeState<T, W, H>, events: Seq<Event<W>>)
    ensures
        state.wakes(events) <= 1,
        !state.cell.callback ==> state.wakes(events) == 0,
    decreases events.len(),
{
    if events.len() > 0 {
        lemma_at_most_one_wake(state.step(events[0]), events.skip(1));
    }
}

/// While the callback has not fired, the payload stays in the cell, whatever
/// the consumer does: the native layer may still be writing to it.
pub proof fn lemma_payload_kept_for_callback<T, W, H>(
    state: BridgeState<T, W, H>,
    events: Seq<Event<W>>,
)
    requires
        state.wf(),
        state.cell.callback,
        forall|i: int|
            0 <= i < events.len() ==> #[trigger] events[i] != Event::<W>::Fire(state.gate),
    ensures
        state.run(events).cell.callback,
        state.run(events).cell.payload is Some,
        state.run(events).cell.payload == state.cell.payload,
    decreases events.len(),
{
    if events.len() > 0 {
        let next = state.step(events[0]);
        let rest = events.skip(1);
        lemma_step_wf(state, events[0]);
        assert forall|i: int| 0 <= i < rest.len() implies #[trigger] rest[i] != Event::<W>::Fire(
            next.gate,
        ) by {
            assert(rest[i] == events[i + 1]);
        }
        lemma_payload_kept_for_callback(next, rest);
    }
}

/// Giving a completion up before the callback fires leaves the payload where
/// the native layer can still reach it; the callback may fire afterwards, and
/// only then does the payload go.
pub proof fn lemma_fire_after_drop<T, W, H>(state: BridgeState<T, W, H>)
    requires
        state.wf(),
        state.in_flight(),
    ensures
        state.dropped().wf(),
        state.dropped().handle is None,
        state.dropped().cell.payload == state.cell.payload,
        state.dropped().fires(state.gate),
        state.dropped().fired(state.gate).cell == CellState::<T>::vacant(),
        state.dropped().fired(state.gate).wf(),
{
}

/// An operation that only reads is gated by the acknowledgement whatever the
/// caller asked for: the durable milestone neither is waited for nor changes
/// anything, and the acknowledgement alone makes the result ready.
pub proof fn lemma_read_never_waits_for_durable<T, W, H>(
    data: T,
    kind: OpKind,
    requested: Caution,
    handle: H,
)
    requires
        kind.is_read_only(),
    ensures
        ({
            let fresh = BridgeState::<T, W, H>::submitted(data, kind, requested, handle);
            &&& fresh.gate == Caution::Acknowledged
            &&& fresh.fired(Caution::Durable) == fresh
            &&& fresh.fired(Caution::Acknowledged).is_ready()
        }),
{
}

} // verus!
