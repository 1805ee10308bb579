//! The completion: one asynchronous operation of the native layer, seen as a
//! future that is polled.
//!
//! A completion is the joint state of the two sides of an operation. The
//! consumer polls it and may give it up; the native callback fires against it.
//! Whoever drives it performs the native calls: the completion decides, and
//! hands back what has to be done (a waiter to wake, a handle to release).

use vstd::prelude::*;
use crate::bridge::BridgeState;
use crate::cell::ResultCell;
use crate::errors::{error_code, is_failure, librados_res, Error, OpKind};
use crate::notifier::Notifier;

verus! {

/// How far an operation must have come before it counts as complete.
#[derive(Clone, Copy, Debug, PartialEq, Eq, Structural, Hash)]
pub enum Caution {
    /// The store has accepted the operation; it need not be on stable storage.
    Acknowledged,
    /// The operation has reached stable storage.
    Durable,
}

/// Where a completion stands in its life.
#[derive(Clone, Copy, Debug, PartialEq, Eq, Structural, Hash)]
pub enum Phase {
    /// Not polled yet.
    Created,
    /// Polled at least once, and not ready at the last poll.
    Pending,
    /// The result has been handed out.
    Ready,
}

/// What a poll found.
#[derive(Debug, PartialEq, Eq)]
pub enum Async<T> {
    /// The operation is complete, and this is its result.
    Ready(T),
    /// The operation is still in flight; the waiter will be woken.
    NotReady,
}

/// The result of a completion that succeeded.
#[derive(Debug, PartialEq, Eq)]
pub struct Return<T> {
    /// The payload that the completion was created with.
    pub data: T,
    /// The value that the native layer reported, which is not an error.
    pub value: u32,
}

/// The milestone that gates an operation of the given kind when the caller
/// asked for `requested`. An operation that only reads is never reported as
/// durable, so it is gated by the acknowledgement whatever was asked.
pub open spec fn gate_for(kind: OpKind, requested: Caution) -> Caution {
    if kind.is_read_only() {
        Caution::Acknowledged
    } else {
        requested
    }
}

/// The milestone that gates an operation of the given kind.
pub fn effective_caution(kind: OpKind, requested: Caution) -> (gate: Caution)
    ensures
        gate == gate_for(kind, requested),
{
    if kind.is_read_only() {
        Caution::Acknowledged
    } else {
        requested
    }
}

/// What a completed operation yields, given its payload and the raw status
/// that the native layer reports for it.
pub open spec fn outcome<T>(data: T, status: i32) -> Result<Return<T>, Error> {
    if is_failure(status) {
        Err(Error::Rados(error_code(status)))
    } else {
        Ok(Return { data, value: status as u32 })
    }
}

/// Turns the payload and the raw status of a completed operation into its
/// result. On failure the payload is dropped here.
pub fn complete<T>(data: T, status: i32) -> (res: Result<Return<T>, Error>)
    ensures
        res == outcome(data, status),
{
    match librados_res(status) {
        Ok(value) => Ok(Return { data, value }),
        Err(error) => Err(error),
    }
}

/// One operation of the native layer: its payload `T`, the waiter `W` of
/// whoever polls it, and the native handle `H`.
pub struct Completion<T, W, H> {
    cell: ResultCell<T>,
    notifier: Notifier<W>,
    handle: Option<H>,
    kind: OpKind,
    gate: Caution,
    phase: Phase,
}

impl<T, W, H> View for Completion<T, W, H> {
    type V = BridgeState<T, W, H>;

    closed spec fn view(&self) -> BridgeState<T, W, H> {
        BridgeState {
            cell: self.cell@,
            waiter: self.notifier@,
            handle: self.handle,
            kind: self.kind,
            gate: self.gate,
            phase: self.phase,
        }
    }
}

impl<T, W, H> Completion<T, W, H> {
    /// Submits an operation. `init` is given the native handle and makes the
    /// native call that starts the operation. If it fails, the handle is
    /// released through `release` before the error is passed on, and no
    /// completion comes into being.
    pub fn new<F, R>(
        data: T,
        kind: OpKind,
        caution: Caution,
        handle: H,
        init: F,
        release: R,
    ) -> (res: Result<Self, Error>) where F: FnOnce(&H) -> Result<(), Error>, R: FnOnce(H)
        requires
            init.requires((&handle,)),
            release.requires((handle,)),
        ensures
            match res {
                Ok(completion) => {
                    &&& init.ensures((&handle,), Ok(()))
                    &&& completion@ == BridgeState::<T, W, H>::submitted(data, kind, caution, handle)
                },
                Err(error) => {
                    &&& init.ensures((&handle,), Err(error))
                    &&& release.ensures((handle,), ())
                },
            },
    {
        match init(&handle) {
            Ok(_accepted) => Ok(
                Completion {
                    cell: ResultCell::new(data),
                    notifier: Notifier::new(),
                    handle: Some(handle),
                    kind,
                    gate: effective_caution(kind, caution),
                    phase: Phase::Created,
                },
            ),
            Err(error) => {
                release(handle);
                Err(error)
            },
        }
    }

    /// The kind of operation.
    pub fn kind(&self) -> (kind: OpKind)
        ensures
            kind == self@.kind,
    {
        self.kind
    }

    /// The milestone that gates this completion.
    pub fn caution(&self) -> (gate: Caution)
        ensures
            gate == self@.gate,
    {
        self.gate
    }

    /// Where the completion stands.
    pub fn phase(&self) -> (phase: Phase)
        ensures
            phase == self@.phase,
    {
        self.phase
    }

    /// Whether the completion has handed out its result or was given up, so
    /// that polling it again is an error.
    pub fn is_terminal(&self) -> (terminal: bool)
        ensures
            terminal == self@.is_terminal(),
    {
        self.phase == Phase::Ready || self.handle.is_none()
    }

    /// Polls the completion on behalf of `waiter`.
    ///
    /// The waiter is registered first, then the result cell is inspected. Only
    /// if the consumer holds the last share is `status` called, to ask the
    /// native layer for the raw status, and the result handed out; in any
    /// other state the result is the same whatever the status would be.
    /// Polling a completion that is terminal is an error and changes nothing.
    pub fn poll<F>(&mut self, waiter: W, status: F) -> (res: Result<Async<Return<T>>, Error>) where
        F: FnOnce() -> i32,

        requires
            status.requires(()),
        ensures
            final(self)@ == old(self)@.polled(waiter),
            old(self)@.is_ready() ==> exists|raw: i32|
                #[trigger] status.ensures((), raw) && res == old(self)@.poll_result(raw),
            !old(self)@.is_ready() ==> res == old(self)@.poll_result(0),
    {
        if self.is_terminal() {
            return Err(Error::Finished);
        }
        self.notifier.register(waiter);
        match self.cell.try_reclaim() {
            Some(data) => {
                self.phase = Phase::Ready;
                let raw: i32 = status();
                match complete(data, raw) {
                    Ok(ret) => Ok(Async::Ready(ret)),
                    Err(error) => Err(error),
                }
            },
            None => {
                self.phase = Phase::Pending;
                Ok(Async::NotReady)
            },
        }
    }

    /// The native callback: the operation has reached the milestone `reached`.
    ///
    /// If that is the milestone which gates this completion, the callback
    /// gives up its share of the result cell and then notifies; the waiter
    /// that was registered is returned, to be woken. Otherwise, or if the
    /// callback has fired before, nothing changes.
    pub fn fire(&mut self, reached: Caution) -> (woken: Option<W>)
        ensures
            final(self)@ == old(self)@.fired(reached),
            woken == old(self)@.woken(reached),
    {
        if reached == self.gate && self.cell.callback_holds() {
            self.cell.release();
            self.notifier.notify()
        } else {
            None
        }
    }

    /// The consumer gives the completion up, whether or not it has seen the
    /// result. The native handle is returned, to be released, the first time;
    /// after that there is none left to return.
    pub fn abandon(&mut self) -> (handle: Option<H>)
        ensures
            final(self)@ == old(self)@.dropped(),
            handle == old(self)@.handle,
    {
        self.cell.abandon();
        self.handle.take()
    }
}

} // verus!
