//! The operations of an I/O context as futures, and the plain values that the
//! synchronous calls hand back.
//!
//! Each future is a completion together with what its kind of operation makes
//! of the result: which value a success yields, and which error, naming the
//! operation, a failure.

use vstd::prelude::*;
use crate::asynchronous::{Async, Caution, Completion, Return};
use crate::bridge::{BridgeState, Event};
use crate::errors::{
    error_code, is_failure, librados, librados_res, status_result, status_value, Error, OpKind,
    Operation,
};

verus! {

/// The state of a future: the completion if the operation was accepted, or
/// else the error with which it was rejected, until the first poll takes it.
pub struct FutureState<T, W, H> {
    pub completion: Result<BridgeState<T, W, H>, Option<Error>>,
    pub op: Operation,
}

/// The error that names the operation, where the completion reported a bare
/// error code; any other result as it is.
pub open spec fn in_context<T>(res: Result<Async<Return<T>>, Error>, op: Operation) -> Result<
    Async<Return<T>>,
    Error,
> {
    match res {
        Err(Error::Rados(code)) => Err(Error::Failed { op, code }),
        other => other,
    }
}

impl<T, W, H> FutureState<T, W, H> {
    /// The state of a future whose operation was accepted.
    pub open spec fn accepted(data: T, op: Operation, caution: Caution, handle: H) -> Self {
        FutureState { completion: Ok(BridgeState::submitted(data, op.kind, caution, handle)), op }
    }

    /// The state of a future whose operation was rejected with `error`.
    pub open spec fn rejected(error: Error, op: Operation) -> Self {
        FutureState { completion: Err(Some(error)), op }
    }

    /// The next poll asks the native layer for the raw status.
    pub open spec fn is_ready(self) -> bool {
        self.completion matches Ok(bridge) && bridge.is_ready()
    }

    /// Every further poll is refused.
    pub open spec fn is_terminal(self) -> bool {
        match self.completion {
            Ok(bridge) => bridge.is_terminal(),
            Err(pending) => pending is None,
        }
    }

    /// The state after a poll on behalf of `waiter`.
    pub open spec fn polled(self, waiter: W) -> Self {
        match self.completion {
            Ok(bridge) => FutureState { completion: Ok(bridge.polled(waiter)), ..self },
            Err(_) => FutureState { completion: Err(None), ..self },
        }
    }

    /// What a poll returns before the kind of operation is taken into account,
    /// where `status` is the raw status that the native layer reports.
    pub open spec fn poll_result(self, status: i32) -> Result<Async<Return<T>>, Error> {
        match self.completion {
            Ok(bridge) => in_context(bridge.poll_result(status), self.op),
            Err(Some(error)) => Err(error),
            Err(None) => Err(Error::Finished),
        }
    }

    /// The state after the native layer reported the milestone `reached`.
    pub open spec fn fired(self, reached: Caution) -> Self {
        match self.completion {
            Ok(bridge) => FutureState { completion: Ok(bridge.fired(reached)), ..self },
            Err(_) => self,
        }
    }

    /// The waiter that is woken when the native layer reports `reached`.
    pub open spec fn woken(self, reached: Caution) -> Option<W> {
        match self.completion {
            Ok(bridge) => bridge.woken(reached),
            Err(_) => None,
        }
    }

    /// The state after the consumer gave the future up.
    pub open spec fn dropped(self) -> Self {
        match self.completion {
            Ok(bridge) => FutureState { completion: Ok(bridge.dropped()), ..self },
            Err(_) => self,
        }
    }

    /// The native handle that is still to be released.
    pub open spec fn handle(self) -> Option<H> {
        match self.completion {
            Ok(bridge) => bridge.handle,
            Err(_) => None,
        }
    }

    /// The state after one event.
    pub open spec fn step(self, event: Event<W>) -> Self {
        match event {
            Event::Poll { waiter, .. } => self.polled(waiter),
            Event::Fire(reached) => self.fired(reached),
            Event::Drop => self.dropped(),
        }
    }

    /// The event is a poll that hands out what became of the operation: its
    /// result, or the error with which it was rejected.
    pub open spec fn yields(self, event: Event<W>) -> bool {
        event is Poll && (self.is_ready() || self.completion matches Err(Some(_)))
    }

    /// The state after a sequence of events.
    pub open spec fn run(self, events: Seq<Event<W>>) -> Self
        decreases events.len(),
    {
        if events.len() == 0 {
            self
        } else {
            self.step(events[0]).run(events.skip(1))
        }
    }

    /// How many polls along a sequence of events hand out what became of the
    /// operation.
    pub open spec fn results(self, events: Seq<Event<W>>) -> nat
        decreases events.len(),
    {
        if events.len() == 0 {
            0
        } else {
            (if self.yields(events[0]) { 1nat } else { 0nat })
                + self.step(events[0]).results(events.skip(1))
        }
    }
}

/// What submitting an operation through `init` leaves behind. If `init`
/// accepted, the future holds the completion, newly created. If it refused,
/// the handle went to `release` and the future holds the error.
pub open spec fn submits<T, W, H, F, R>(
    state: FutureState<T, W, H>,
    data: T,
    op: Operation,
    caution: Caution,
    handle: H,
    init: F,
    release: R,
) -> bool where F: FnOnce(&H) -> Result<(), Error>, R: FnOnce(H) {
    match state.completion {
        Ok(_) => {
            &&& init.ensures((&handle,), Ok(()))
            &&& state == FutureState::<T, W, H>::accepted(data, op, caution, handle)
        },
        Err(Some(error)) => {
            &&& init.ensures((&handle,), Err(error))
            &&& release.ensures((handle,), ())
            &&& state == FutureState::<T, W, H>::rejected(error, op)
        },
        Err(None) => false,
    }
}

/// An operation that was submitted, or that failed to be: what all the
/// futures of this module are made of.
pub struct Submission<T, W, H> {
    completion_res: Result<Completion<T, W, H>, Option<Error>>,
    op: Operation,
}

impl<T, W, H> View for Submission<T, W, H> {
    type V = FutureState<T, W, H>;

    closed spec fn view(&self) -> FutureState<T, W, H> {
        FutureState {
            completion: match self.completion_res {
                Ok(completion) => Ok(completion@),
                Err(pending) => Err(pending),
            },
            op: self.op,
        }
    }
}

impl<T, W, H> Submission<T, W, H> {
    /// Submits the operation `op` through `init`. A rejection does not show
    /// here: the error is kept, and the first poll returns it.
    pub fn new<F, R>(
        data: T,
        op: Operation,
        caution: Caution,
        handle: H,
        init: F,
        release: R,
    ) -> (submission: Self) where F: FnOnce(&H) -> Result<(), Error>, R: FnOnce(H)
        requires
            init.requires((&handle,)),
            release.requires((handle,)),
        ensures
            submits(submission@, data, op, caution, handle, init, release),
    {
        match Completion::new(data, op.kind, caution, handle, init, release) {
            Ok(completion) => Submission { completion_res: Ok(completion), op },
            Err(error) => Submission { completion_res: Err(Some(error)), op },
        }
    }

    /// Polls the operation on behalf of `waiter`. A completion error comes
    /// back naming the operation.
    pub fn poll<F>(&mut self, waiter: W, status: F) -> (res: Result<Async<Return<T>>, Error>) where
        F: FnOnce() -> i32,

        requires
            status.requires(()),
        ensures
            final(self)@ == old(self)@.polled(waiter),
            old(self)@.is_ready() ==> exists|raw: i32|
                #[trigger] status.ensures((), raw) && res == old(self)@.poll_result(raw),
            !old(self)@.is_ready() ==> res == old(self)@.poll_result(0),
    {
        match &mut self.completion_res {
            Ok(completion) => match completion.poll(waiter, status) {
                Err(Error::Rados(code)) => Err(Error::Failed { op: self.op.clone(), code }),
                other => other,
            },
            Err(pending) => match pending.take() {
                Some(error) => Err(error),
                None => Err(Error::Finished),
            },
        }
    }

    /// The native callback: the operation has reached the milestone `reached`.
    /// Returns the waiter to wake, if there is one.
    pub fn fire(&mut self, reached: Caution) -> (woken: Option<W>)
        ensures
            final(self)@ == old(self)@.fired(reached),
            woken == old(self)@.woken(reached),
    {
        match &mut self.completion_res {
            Ok(completion) => completion.fire(reached),
            Err(_) => None,
        }
    }

    /// The consumer gives the operation up. Returns the native handle, to be
    /// released, if it has not been handed out before.
    pub fn abandon(&mut self) -> (handle: Option<H>)
        ensures
            final(self)@ == old(self)@.dropped(),
            handle == old(self)@.handle(),
    {
        match &mut self.completion_res {
            Ok(completion) => completion.abandon(),
            Err(_) => None,
        }
    }
}

/// What a poll of a [`UnitFuture`] makes of the result of its operation.
pub open spec fn unit_result(res: Result<Async<Return<()>>, Error>) -> Result<Async<()>, Error> {
    match res {
        Ok(Async::Ready(_)) => Ok(Async::Ready(())),
        Ok(Async::NotReady) => Ok(Async::NotReady),
        Err(error) => Err(error),
    }
}

/// What a poll of a [`DataFuture`] makes of the result of its operation.
pub open spec fn data_result<T>(res: Result<Async<Return<T>>, Error>) -> Result<Async<T>, Error> {
    match res {
        Ok(Async::Ready(ret)) => Ok(Async::Ready(ret.data)),
        Ok(Async::NotReady) => Ok(Async::NotReady),
        Err(error) => Err(error),
    }
}

/// What a poll of a [`ReadFuture`] makes of the result of its operation.
pub open spec fn read_result<B>(res: Result<Async<Return<B>>, Error>) -> Result<
    Async<(u32, B)>,
    Error,
> {
    match res {
        Ok(Async::Ready(ret)) => Ok(Async::Ready((ret.value, ret.data))),
        Ok(Async::NotReady) => Ok(Async::NotReady),
        Err(error) => Err(error),
    }
}

/// What a poll of a [`StatFuture`] makes of the result of its operation.
pub open spec fn stat_result(res: Result<Async<Return<Box<(u64, i64)>>>, Error>) -> Result<
    Async<Stat>,
    Error,
> {
    match res {
        Ok(Async::Ready(ret)) => Ok(Async::Ready(Stat::from_raw(ret.data.0, ret.data.1))),
        Ok(Async::NotReady) => Ok(Async::NotReady),
        Err(error) => Err(error),
    }
}

/// What a poll of an [`ExistsFuture`] makes of the result of its operation,
/// where `not_found` is the error code by which the native layer says that
/// there is no such object: that error is an answer, not a failure.
pub open spec fn exists_result(res: Result<Async<()>, Error>, not_found: u32) -> Result<
    Async<bool>,
    Error,
> {
    match res {
        Ok(Async::Ready(_)) => Ok(Async::Ready(true)),
        Ok(Async::NotReady) => Ok(Async::NotReady),
        Err(error) => if error.code() == Some(not_found) {
            Ok(Async::Ready(false))
        } else {
            Err(error)
        },
    }
}

/// The future of an operation that yields nothing but its success: a write,
/// an append, a removal, a flush.
pub struct UnitFuture<W, H> {
    submission: Submission<(), W, H>,
}

impl<W, H> View for UnitFuture<W, H> {
    type V = FutureState<(), W, H>;

    closed spec fn view(&self) -> FutureState<(), W, H> {
        self.submission@
    }
}

impl<W, H> UnitFuture<W, H> {
    /// Submits the operation `op` through `init`.
    pub fn new<F, R>(
        op: Operation,
        caution: Caution,
        handle: H,
        init: F,
        release: R,
    ) -> (future: Self) where F: FnOnce(&H) -> Result<(), Error>, R: FnOnce(H)
        requires
            init.requires((&handle,)),
            release.requires((handle,)),
        ensures
            submits(future@, (), op, caution, handle, init, release),
    {
        UnitFuture { submission: Submission::new((), op, caution, handle, init, release) }
    }

    /// Polls the operation on behalf of `waiter`; `status` asks the native
    /// layer for the raw status, and is called only if the result is ready.
    pub fn poll<F>(&mut self, waiter: W, status: F) -> (res: Result<Async<()>, Error>) where
        F: FnOnce() -> i32,

        requires
            status.requires(()),
        ensures
            final(self)@ == old(self)@.polled(waiter),
            old(self)@.is_ready() ==> exists|raw: i32|
                #[trigger] status.ensures((), raw) && res == unit_result(
                    old(self)@.poll_result(raw),
                ),
            !old(self)@.is_ready() ==> res == unit_result(old(self)@.poll_result(0)),
    {
        match self.submission.poll(waiter, status) {
            Ok(Async::Ready(_)) => Ok(Async::Ready(())),
            Ok(Async::NotReady) => Ok(Async::NotReady),
            Err(error) => Err(error),
        }
    }

    /// The native callback: the operation has reached the milestone `reached`.
    /// Returns the waiter to wake, if there is one.
    pub fn fire(&mut self, reached: Caution) -> (woken: Option<W>)
        ensures
            final(self)@ == old(self)@.fired(reached),
            woken == old(self)@.woken(reached),
    {
        self.submission.fire(reached)
    }

    /// The consumer gives the future up. Returns the native handle, to be
    /// released, if it has not been handed out before.
    pub fn abandon(&mut self) -> (handle: Option<H>)
        ensures
            final(self)@ == old(self)@.dropped(),
            handle == old(self)@.handle(),
    {
        self.submission.abandon()
    }
}

/// The future of an operation that yields the payload it was given, filled in
/// by the native layer.
pub struct DataFuture<T, W, H> {
    submission: Submission<T, W, H>,
}

impl<T, W, H> View for DataFuture<T, W, H> {
    type V = FutureState<T, W, H>;

    closed spec fn view(&self) -> FutureState<T, W, H> {
        self.submission@
    }
}

impl<T, W, H> DataFuture<T, W, H> {
    /// Submits the operation `op` through `init`, with `data` as its payload.
    pub fn new<F, R>(
        data: T,
        op: Operation,
        caution: Caution,
        handle: H,
        init: F,
        release: R,
    ) -> (future: Self) where F: FnOnce(&H) -> Result<(), Error>, R: FnOnce(H)
        requires
            init.requires((&handle,)),
            release.requires((handle,)),
        ensures
            submits(future@, data, op, caution, handle, init, release),
    {
        DataFuture { submission: Submission::new(data, op, caution, handle, init, release) }
    }

    /// Polls the operation on behalf of `waiter`; `status` asks the native
    /// layer for the raw status, and is called only if the result is ready.
    pub fn poll<F>(&mut self, waiter: W, status: F) -> (res: Result<Async<T>, Error>) where
        F: FnOnce() -> i32,

        requires
            status.requires(()),
        ensures
            final(self)@ == old(self)@.polled(waiter),
            old(self)@.is_ready() ==> exists|raw: i32|
                #[trigger] status.ensures((), raw) && res == data_result(
                    old(self)@.poll_result(raw),
                ),
            !old(self)@.is_ready() ==> res == data_result(old(self)@.poll_result(0)),
    {
        match self.submission.poll(waiter, status) {
            Ok(Async::Ready(ret)) => Ok(Async::Ready(ret.data)),
            Ok(Async::NotReady) => Ok(Async::NotReady),
            Err(error) => Err(error),
        }
    }

    /// The native callback: the operation has reached the milestone `reached`.
    /// Returns the waiter to wake, if there is one.
    pub fn fire(&mut self, reached: Caution) -> (woken: Option<W>)
        ensures
            final(self)@ == old(self)@.fired(reached),
            woken == old(self)@.woken(reached),
    {
        self.submission.fire(reached)
    }

    /// The consumer gives the future up. Returns the native handle, to be
    /// released, if it has not been handed out before.
    pub fn abandon(&mut self) -> (handle: Option<H>)
        ensures
            final(self)@ == old(self)@.dropped(),
            handle == old(self)@.handle(),
    {
        self.submission.abandon()
    }
}

/// The future of a read: it yields the number of bytes read and the buffer
/// that they were read into.
pub struct ReadFuture<B, W, H> {
    submission: Submission<B, W, H>,
}

impl<B, W, H> View for ReadFuture<B, W, H> {
    type V = FutureState<B, W, H>;

    closed spec fn view(&self) -> FutureState<B, W, H> {
        self.submission@
    }
}

/// The operation that reads `length` bytes of `object` from `offset` on.
pub open spec fn read_of(object: String, length: u64, offset: u64) -> Operation {
    Operation { kind: OpKind::Read, object, length, offset }
}

impl<B, W, H> ReadFuture<B, W, H> {
    /// Submits through `init` a read of `length` bytes of `object` from
    /// `offset` on, into `buf`. A read has no persistence milestone, so it is
    /// gated by the acknowledgement whatever `caution` says.
    pub fn new<F, R>(
        buf: B,
        object: String,
        length: u64,
        offset: u64,
        caution: Caution,
        handle: H,
        init: F,
        release: R,
    ) -> (future: Self) where F: FnOnce(&H) -> Result<(), Error>, R: FnOnce(H)
        requires
            init.requires((&handle,)),
            release.requires((handle,)),
        ensures
            submits(future@, buf, read_of(object, length, offset), caution, handle, init, release),
    {
        let op = Operation { kind: OpKind::Read, object, length, offset };
        ReadFuture { submission: Submission::new(buf, op, caution, handle, init, release) }
    }

    /// Polls the operation on behalf of `waiter`; `status` asks the native
    /// layer for the raw status, and is called only if the result is ready.
    pub fn poll<F>(&mut self, waiter: W, status: F) -> (res: Result<Async<(u32, B)>, Error>) where
        F: FnOnce() -> i32,

        requires
            status.requires(()),
        ensures
            final(self)@ == old(self)@.polled(waiter),
            old(self)@.is_ready() ==> exists|raw: i32|
                #[trigger] status.ensures((), raw) && res == read_result(
                    old(self)@.poll_result(raw),
                ),
            !old(self)@.is_ready() ==> res == read_result(old(self)@.poll_result(0)),
    {
        match self.submission.poll(waiter, status) {
            Ok(Async::Ready(ret)) => Ok(Async::Ready((ret.value, ret.data))),
            Ok(Async::NotReady) => Ok(Async::NotReady),
            Err(error) => Err(error),
        }
    }

    /// The native callback: the operation has reached the milestone `reached`.
    /// Returns the waiter to wake, if there is one.
    pub fn fire(&mut self, reached: Caution) -> (woken: Option<W>)
        ensures
            final(self)@ == old(self)@.fired(reached),
            woken == old(self)@.woken(reached),
    {
        self.submission.fire(reached)
    }

    /// The consumer gives the future up. Returns the native handle, to be
    /// released, if it has not been handed out before.
    pub fn abandon(&mut self) -> (handle: Option<H>)
        ensures
            final(self)@ == old(self)@.dropped(),
            handle == old(self)@.handle(),
    {
        self.submission.abandon()
    }
}

/// Statistics for a single object.
#[derive(Clone, Copy, Debug, Hash, PartialEq, Eq, Structural, PartialOrd, Ord)]
pub struct Stat {
    /// The size of the object in bytes.
    pub size: u64,
    /// When the object was last modified, in seconds since the epoch.
    pub last_modified: i64,
}

impl Stat {
    /// The statistics that the two fields filled in by the native layer stand
    /// for.
    pub open spec fn from_raw(size: u64, seconds: i64) -> Stat {
        Stat { size, last_modified: seconds }
    }

    /// The result of a synchronous request for statistics: the error that the
    /// raw status carries, or else the statistics that the native layer
    /// filled in.
    pub fn from_status(status: i32, size: u64, seconds: i64) -> (res: Result<Stat, Error>)
        ensures
            res == match status_result(status) {
                Ok(_) => Ok(Stat::from_raw(size, seconds)),
                Err(error) => Err(error),
            },
    {
        match librados(status) {
            Ok(_) => Ok(Stat { size, last_modified: seconds }),
            Err(error) => Err(error),
        }
    }
}

/// The operation that asks for the statistics of `object`.
pub open spec fn stat_of(object: String) -> Operation {
    Operation { kind: OpKind::Stat, object, length: 0, offset: 0 }
}

/// The future of a request for the statistics of an object. Its payload is
/// the pair of size and modification time that the native layer fills in.
pub struct StatFuture<W, H> {
    data_future: DataFuture<Box<(u64, i64)>, W, H>,
}

impl<W, H> View for StatFuture<W, H> {
    type V = FutureState<Box<(u64, i64)>, W, H>;

    closed spec fn view(&self) -> FutureState<Box<(u64, i64)>, W, H> {
        self.data_future@
    }
}

impl<W, H> StatFuture<W, H> {
    /// Submits through `init` a request for the statistics of `object`, which
    /// the native layer will write into `raw`.
    pub fn new<F, R>(
        raw: Box<(u64, i64)>,
        object: String,
        caution: Caution,
        handle: H,
        init: F,
        release: R,
    ) -> (future: Self) where F: FnOnce(&H) -> Result<(), Error>, R: FnOnce(H)
        requires
            init.requires((&handle,)),
            release.requires((handle,)),
        ensures
            submits(future@, raw, stat_of(object), caution, handle, init, release),
    {
        let op = Operation { kind: OpKind::Stat, object, length: 0, offset: 0 };
        StatFuture { data_future: DataFuture::new(raw, op, caution, handle, init, release) }
    }

    /// Polls the operation on behalf of `waiter`; `status` asks the native
    /// layer for the raw status, and is called only if the result is ready.
    pub fn poll<F>(&mut self, waiter: W, status: F) -> (res: Result<Async<Stat>, Error>) where
        F: FnOnce() -> i32,

        requires
            status.requires(()),
        ensures
            final(self)@ == old(self)@.polled(waiter),
            old(self)@.is_ready() ==> exists|raw: i32|
                #[trigger] status.ensures((), raw) && res == stat_result(
                    old(self)@.poll_result(raw),
                ),
            !old(self)@.is_ready() ==> res == stat_result(old(self)@.poll_result(0)),
    {
        match self.data_future.poll(waiter, status) {
            Ok(Async::Ready(boxed)) => {
                let (size, last_modified) = *boxed;
                Ok(Async::Ready(Stat { size, last_modified }))
            },
            Ok(Async::NotReady) => Ok(Async::NotReady),
            Err(error) => Err(error),
        }
    }

    /// The native callback: the operation has reached the milestone `reached`.
    /// Returns the waiter to wake, if there is one.
    pub fn fire(&mut self, reached: Caution) -> (woken: Option<W>)
        ensures
            final(self)@ == old(self)@.fired(reached),
            woken == old(self)@.woken(reached),
    {
        self.data_future.fire(reached)
    }

    /// The consumer gives the future up. Returns the native handle, to be
    /// released, if it has not been handed out before.
    pub fn abandon(&mut self) -> (handle: Option<H>)
        ensures
            final(self)@ == old(self)@.dropped(),
            handle == old(self)@.handle(),
    {
        self.data_future.abandon()
    }
}

/// The operation that asks whether `object` exists.
pub open spec fn probe_of(object: String) -> Operation {
    Operation { kind: OpKind::Exists, object, length: 0, offset: 0 }
}

/// The error code by which the native layer says that there is no such
/// object.
///
/// Taken on trust: the body reads the constant `ENOENT` of the `libc` crate
/// and converts it to `u32`. The value of that constant differs between
/// platforms, so the contract claims nothing of it.
#[verifier::external_body]
fn not_found_code() -> (code: u32) {
    libc::ENOENT as u32
}

/// The future of an existence probe. It asks for the statistics of an object
/// and yields whether there is one: the native error that says there is none
/// is an answer, not a failure.
pub struct ExistsFuture<W, H> {
    unit_future: UnitFuture<W, H>,
    not_found: u32,
}

impl<W, H> View for ExistsFuture<W, H> {
    type V = FutureState<(), W, H>;

    closed spec fn view(&self) -> FutureState<(), W, H> {
        self.unit_future@
    }
}

impl<W, H> ExistsFuture<W, H> {
    /// The error code that this future takes to mean that there is no such
    /// object.
    pub closed spec fn spec_not_found(&self) -> u32 {
        self.not_found
    }

    /// The error code that this future takes to mean that there is no such
    /// object.
    #[verifier::when_used_as_spec(spec_not_found)]
    pub fn not_found(&self) -> (code: u32)
        ensures
            code == self.spec_not_found(),
    {
        self.not_found
    }

    /// Submits through `init` a probe for `object`, which takes the error
    /// code that this platform has for a missing file to mean that there is no
    /// such object.
    pub fn new<F, R>(
        object: String,
        caution: Caution,
        handle: H,
        init: F,
        release: R,
    ) -> (future: Self) where F: FnOnce(&H) -> Result<(), Error>, R: FnOnce(H)
        requires
            init.requires((&handle,)),
            release.requires((handle,)),
        ensures
            submits(future@, (), probe_of(object), caution, handle, init, release),
    {
        Self::with_not_found(object, not_found_code(), caution, handle, init, release)
    }

    /// Submits through `init` a probe for `object`, which takes the error
    /// code `not_found` to mean that there is no such object.
    pub fn with_not_found<F, R>(
        object: String,
        not_found: u32,
        caution: Caution,
        handle: H,
        init: F,
        release: R,
    ) -> (future: Self) where F: FnOnce(&H) -> Result<(), Error>, R: FnOnce(H)
        requires
            init.requires((&handle,)),
            release.requires((handle,)),
        ensures
            submits(future@, (), probe_of(object), caution, handle, init, release),
            future.not_found() == not_found,
    {
        let op = Operation { kind: OpKind::Exists, object, length: 0, offset: 0 };
        ExistsFuture { unit_future: UnitFuture::new(op, caution, handle, init, release), not_found }
    }

    /// Polls the operation on behalf of `waiter`; `status` asks the native
    /// layer for the raw status, and is called only if the result is ready.
    pub fn poll<F>(&mut self, waiter: W, status: F) -> (res: Result<Async<bool>, Error>) where
        F: FnOnce() -> i32,

        requires
            status.requires(()),
        ensures
            final(self)@ == old(self)@.polled(waiter),
            final(self).not_found() == old(self).not_found(),
            old(self)@.is_ready() ==> exists|raw: i32|
                #[trigger] status.ensures((), raw) && res == exists_result(
                    unit_result(old(self)@.poll_result(raw)),
                    old(self).not_found(),
                ),
            !old(self)@.is_ready() ==> res == exists_result(
                unit_result(old(self)@.poll_result(0)),
                old(self).not_found(),
            ),
    {
        let res = self.unit_future.poll(waiter, status);
        exists_outcome(res, self.not_found)
    }

    /// The native callback: the operation has reached the milestone `reached`.
    /// Returns the waiter to wake, if there is one.
    pub fn fire(&mut self, reached: Caution) -> (woken: Option<W>)
        ensures
            final(self)@ == old(self)@.fired(reached),
            final(self).not_found() == old(self).not_found(),
            woken == old(self)@.woken(reached),
    {
        self.unit_future.fire(reached)
    }

    /// The consumer gives the future up. Returns the native handle, to be
    /// released, if it has not been handed out before.
    pub fn abandon(&mut self) -> (handle: Option<H>)
        ensures
            final(self)@ == old(self)@.dropped(),
            final(self).not_found() == old(self).not_found(),
            handle == old(self)@.handle(),
    {
        self.unit_future.abandon()
    }
}

/// What an existence probe makes of the result of its operation, where
/// `not_found` is the error code that means that there is no such object.
pub fn exists_outcome(
    res: Result<Async<()>, Error>,
    not_found: u32,
) -> (out: Result<Async<bool>, Error>)
    ensures
        out == exists_result(res, not_found),
{
    match res {
        Ok(Async::Ready(_)) => Ok(Async::Ready(true)),
        Ok(Async::NotReady) => Ok(Async::NotReady),
        Err(error) => {
            let code = error.code();
            if code.is_some() && code.unwrap() == not_found {
                Ok(Async::Ready(false))
            } else {
                Err(error)
            }
        },
    }
}

/// What the raw status of a synchronous probe says of the object, where
/// `not_found` is the error code that means that there is no such object.
pub open spec fn probe_result(status: i32, not_found: u32) -> Result<bool, Error> {
    if !is_failure(status) {
        Ok(true)
    } else if error_code(status) == not_found {
        Ok(false)
    } else {
        Err(Error::Rados(error_code(status)))
    }
}

/// Tells from the raw status of a synchronous probe whether the object
/// exists, where `not_found` is the error code that means that it does not.
pub fn exists_from_status(status: i32, not_found: u32) -> (res: Result<bool, Error>)
    ensures
        res == probe_result(status, not_found),
{
    match librados(status) {
        Ok(_) => Ok(true),
        Err(error) => {
            let code = error.code();
            if code.is_some() && code.unwrap() == not_found {
                Ok(false)
            } else {
                Err(error)
            }
        },
    }
}

/// Tells from the raw status of a synchronous probe whether the object
/// exists: it does if the status is no failure, it does not if the status is
/// the error that says so on this platform, and any other failure is passed
/// on.
pub fn object_exists(status: i32) -> (res: Result<bool, Error>)
    ensures
        exists|not_found: u32| res == #[trigger] probe_result(status, not_found),
        !is_failure(status) ==> res == Ok::<bool, Error>(true),
{
    exists_from_status(status, not_found_code())
}

/// Only a future that is ready looks at the raw status: in any other state a
/// poll returns the same whatever the native layer would report.
pub proof fn lemma_status_matters_only_when_ready<T, W, H>(
    state: FutureState<T, W, H>,
    one: i32,
    other: i32,
)
    requires
        !state.is_ready(),
    ensures
        state.poll_result(one) == state.poll_result(other),
{
}

/// A poll that returns anything but `NotReady` is the last: it leaves the
/// future terminal, and a future that is terminal refuses every poll and is
/// not changed by it. A poll that does not hand out what became of the
/// operation returns `NotReady` or is refused.
pub proof fn lemma_result_is_final<T, W, H>(state: FutureState<T, W, H>, waiter: W, status: i32)
    ensures
        state.poll_result(status) != Ok::<Async<Return<T>>, Error>(Async::NotReady)
            ==> state.polled(waiter).is_terminal(),
        !state.yields(Event::Poll { waiter, status }) ==> state.poll_result(status) == Ok::<
            Async<Return<T>>,
            Error,
        >(Async::NotReady) || state.poll_result(status) == Err::<Async<Return<T>>, Error>(
            Error::Finished,
        ),
        state.is_terminal() ==> state.polled(waiter) == state && state.poll_result(status) == Err::<
            Async<Return<T>>,
            Error,
        >(Error::Finished),
{
}

/// Whatever the order of polls, milestones and drops, a future hands out what
/// became of its operation at most once, and never once it is terminal.
pub proof fn lemma_at_most_one_result<T, W, H>(state: FutureState<T, W, H>, events: Seq<Event<W>>)
    ensures
        state.results(events) <= 1,
        state.is_terminal() ==> state.results(events) == 0,
    decreases events.len(),
{
    if events.len() > 0 {
        lemma_at_most_one_result(state.step(events[0]), events.skip(1));
    }
}

/// An operation that was rejected when it was submitted shows its error at
/// the first poll and at no other.
pub proof fn lemma_rejection_shows_once<T, W, H>(
    error: Error,
    op: Operation,
    waiter: W,
    status: i32,
)
    ensures
        ({
            let state = FutureState::<T, W, H>::rejected(error, op);
            &&& state.poll_result(status) == Err::<Async<Return<T>>, Error>(error)
            &&& state.polled(waiter).is_terminal()
            &&& state.handle() is None
        }),
{
}

/// What an existence probe yields once its operation is complete: `true` if
/// the raw status is no failure, `false` if it is the error that says there is
/// no such object, and for any other failure the error that names the probe.
pub proof fn lemma_existence_probe<W, H>(
    state: FutureState<(), W, H>,
    status: i32,
    not_found: u32,
)
    requires
        state.is_ready(),
    ensures
        !is_failure(status) ==> exists_result(unit_result(state.poll_result(status)), not_found)
            == Ok::<Async<bool>, Error>(Async::Ready(true)),
        is_failure(status) && error_code(status) == not_found ==> exists_result(
            unit_result(state.poll_result(status)),
            not_found,
        ) == Ok::<Async<bool>, Error>(Async::Ready(false)),
        is_failure(status) && error_code(status) != not_found ==> exists_result(
            unit_result(state.poll_result(status)),
            not_found,
        ) == Err::<Async<bool>, Error>(Error::Failed { op: state.op, code: error_code(status) }),
{
}

/// Statistics for a whole cluster: its capacity, what is used and what is
/// available of it, in kibibytes, and the number of objects it stores.
#[derive(Clone, Copy, Debug, Hash, PartialEq, Eq, Structural, PartialOrd, Ord)]
pub struct ClusterStat {
    pub kb: u64,
    pub kb_used: u64,
    pub kb_avail: u64,
    pub num_objects: u64,
}

impl ClusterStat {
    /// The result of a request for the statistics of the cluster: the error
    /// that the raw status carries, or else the statistics that the native
    /// layer filled in.
    pub fn from_status(status: i32, filled: ClusterStat) -> (res: Result<ClusterStat, Error>)
        ensures
            res == match status_result(status) {
                Ok(_) => Ok(filled),
                Err(error) => Err(error),
            },
    {
        match librados(status) {
            Ok(_) => Ok(filled),
            Err(error) => Err(error),
        }
    }
}

/// The number of bytes that a synchronous read transferred, or the error that
/// its raw status carries.
pub fn read_length(status: i32) -> (res: Result<usize, Error>)
    ensures
        res == match status_value(status) {
            Ok(count) => Ok(count as usize),
            Err(error) => Err(error),
        },
{
    match librados_res(status) {
        Ok(count) => Ok(count as usize),
        Err(error) => Err(error),
    }
}

/// The signed integer with the same 64 bits as `pool_id`.
pub open spec fn same_bits(pool_id: u64) -> int {
    if pool_id <= i64::MAX {
        pool_id as int
    } else {
        pool_id - 0x1_0000_0000_0000_0000
    }
}

/// A pool identifier in the form in which the native layer takes it: the
/// signed integer with the same 64 bits.
pub fn pool_id_to_native(pool_id: u64) -> (native: i64)
    ensures
        native == same_bits(pool_id),
{
    if pool_id <= 0x7fff_ffff_ffff_ffff {
        pool_id as i64
    } else {
        let low: u64 = pool_id - 0x8000_0000_0000_0000;
        (low as i64) + i64::MIN
    }
}

} // verus!
