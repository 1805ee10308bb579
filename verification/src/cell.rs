//! The shared result cell: the payload of one operation together with the two
//! shares that keep it alive.
//!
//! One share belongs to the consumer, the other was captured by the native
//! callback when the operation was created. The callback gives its share up
//! when it runs, and only then can the consumer take the payload out. The
//! number of shares is the one sign that the callback has run.

use vstd::prelude::*;

verus! {

/// What a result cell holds, as a plain value.
pub struct CellState<T> {
    /// The payload, while either side still holds a share.
    pub payload: Option<T>,
    /// Whether the consumer still holds its share.
    pub consumer: bool,
    /// Whether the callback still holds its share.
    pub callback: bool,
}

impl<T> CellState<T> {
    /// A cell as it is created: the payload in place, both shares out.
    pub open spec fn fresh(payload: T) -> Self {
        CellState { payload: Some(payload), consumer: true, callback: true }
    }

    /// A cell that nobody holds any more.
    pub open spec fn vacant() -> Self {
        CellState { payload: None, consumer: false, callback: false }
    }

    /// The payload lives exactly as long as somebody holds a share.
    pub open spec fn wf(self) -> bool {
        self.payload is Some <==> (self.consumer || self.callback)
    }

    /// The number of shares that are out.
    pub open spec fn shares(self) -> nat {
        (if self.consumer { 1nat } else { 0nat }) + (if self.callback { 1nat } else { 0nat })
    }

    /// The consumer holds the only share left.
    pub open spec fn sole_owner(self) -> bool {
        self.consumer && !self.callback
    }

    /// The cell after the callback gave up its share.
    pub open spec fn released(self) -> Self {
        CellState {
            payload: if self.consumer { self.payload } else { None },
            consumer: self.consumer,
            callback: false,
        }
    }

    /// The cell after the consumer gave up its share without taking the payload.
    pub open spec fn abandoned(self) -> Self {
        CellState {
            payload: if self.callback { self.payload } else { None },
            consumer: false,
            callback: self.callback,
        }
    }

    /// The cell after the consumer tried to take the payload out.
    pub open spec fn reclaimed(self) -> Self {
        if self.sole_owner() {
            Self::vacant()
        } else {
            self
        }
    }
}

/// The payload of one operation and the shares held in it.
///
/// The representation has one case for each combination of shares that can
/// occur, so a payload without a holder cannot be written down.
pub struct ResultCell<T> {
    slot: Slot<T>,
}

enum Slot<T> {
    /// Both shares are out: the operation is in flight.
    Shared(T),
    /// Only the consumer holds a share: the callback has run.
    Sole(T),
    /// Only the callback holds a share: the consumer went away first.
    Orphaned(T),
    /// No share is out, and the payload has left the cell.
    Vacant,
}

impl<T> View for ResultCell<T> {
    type V = CellState<T>;

    closed spec fn view(&self) -> CellState<T> {
        match self.slot {
            Slot::Shared(payload) => CellState { payload: Some(payload), consumer: true, callback: true },
            Slot::Sole(payload) => CellState { payload: Some(payload), consumer: true, callback: false },
            Slot::Orphaned(payload) => CellState { payload: Some(payload), consumer: false, callback: true },
            Slot::Vacant => CellState::vacant(),
        }
    }
}

impl<T> ResultCell<T> {
    /// Every cell is well formed, whatever was done to it.
    pub proof fn lemma_wf(&self)
        ensures
            self@.wf(),
    {
    }

    /// Wraps `payload`, with one share for the consumer and one for the callback.
    pub fn new(payload: T) -> (cell: Self)
        ensures
            cell@ == CellState::fresh(payload),
    {
        ResultCell { slot: Slot::Shared(payload) }
    }

    /// The number of shares that are out.
    pub fn shares(&self) -> (count: u8)
        ensures
            count == self@.shares(),
    {
        match &self.slot {
            Slot::Shared(_) => 2,
            Slot::Sole(_) => 1,
            Slot::Orphaned(_) => 1,
            Slot::Vacant => 0,
        }
    }

    /// Whether the consumer holds the only share, so that the payload can be
    /// taken out.
    pub fn is_sole_owner(&self) -> (sole: bool)
        ensures
            sole == self@.sole_owner(),
    {
        match &self.slot {
            Slot::Sole(_) => true,
            _ => false,
        }
    }

    /// Whether the callback still holds its share, that is, has not run yet.
    pub fn callback_holds(&self) -> (held: bool)
        ensures
            held == self@.callback,
    {
        match &self.slot {
            Slot::Shared(_) => true,
            Slot::Orphaned(_) => true,
            _ => false,
        }
    }

    /// The callback gives up its share. If the consumer is gone already, the
    /// payload goes with it. Doing so twice changes nothing the second time.
    pub fn release(&mut self)
        ensures
            final(self)@ == old(self)@.released(),
    {
        let mut slot = Slot::Vacant;
        std::mem::swap(&mut self.slot, &mut slot);
        self.slot = match slot {
            Slot::Shared(payload) => Slot::Sole(payload),
            Slot::Sole(payload) => Slot::Sole(payload),
            Slot::Orphaned(_) => Slot::Vacant,
            Slot::Vacant => Slot::Vacant,
        };
    }

    /// The consumer gives up its share without taking the payload. While the
    /// callback still holds its share the payload stays where it is, because
    /// the native layer may still be writing to it.
    pub fn abandon(&mut self)
        ensures
            final(self)@ == old(self)@.abandoned(),
    {
        let mut slot = Slot::Vacant;
        std::mem::swap(&mut self.slot, &mut slot);
        self.slot = match slot {
            Slot::Shared(payload) => Slot::Orphaned(payload),
            Slot::Sole(_) => Slot::Vacant,
            Slot::Orphaned(payload) => Slot::Orphaned(payload),
            Slot::Vacant => Slot::Vacant,
        };
    }

    /// The consumer takes the payload out, which it can do exactly when it
    /// holds the only share. Otherwise the cell is left as it was.
    pub fn try_reclaim(&mut self) -> (payload: Option<T>)
        ensures
            final(self)@ == old(self)@.reclaimed(),
            payload is Some <==> old(self)@.sole_owner(),
            payload is Some ==> payload == old(self)@.payload,
    {
        let mut slot = Slot::Vacant;
        std::mem::swap(&mut self.slot, &mut slot);
        match slot {
            Slot::Sole(payload) => Some(payload),
            other => {
                self.slot = other;
                None
            },
        }
    }
}

} // verus!
