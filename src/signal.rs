//! A restartable round-robin producer over a sequence that writers change.
//!
//! `CyclicSignal` is the state that one consumer and any number of writers
//! share under one lock. The consumer polls with a wake-up handle; when there
//! is nothing to read the handle is kept, and the next `push` hands it back so
//! that the writer can fire it. Firing and locking are left to the caller: this
//! type only decides.
use vstd::prelude::*;

verus! {

/// What one poll of the consumer yields.
#[derive(Clone, Copy, Debug, PartialEq, Eq)]
pub enum Pull<T> {
    /// The next value in cyclic order.
    Ready(T),
    /// Nothing to read: the handle given to the poll is now registered.
    NotYet,
}

/// Abstract state of a `CyclicSignal`.
pub struct SignalView<T, W> {
    /// The values, in the order in which they were pushed.
    pub items: Seq<T>,
    /// Position of the next read; it may equal the length, and the read then
    /// wraps to the front.
    pub cursor: nat,
    /// The registered wake-up handle, if any.
    pub waiting: Option<W>,
}

impl<T, W> SignalView<T, W> {
    /// The state of a freshly created signal.
    pub open spec fn empty() -> Self {
        SignalView { items: Seq::empty(), cursor: 0, waiting: None }
    }

    /// The cursor stays within the contents, and a handle is only registered
    /// while there is nothing to read.
    pub open spec fn wf(self) -> bool {
        &&& self.cursor <= self.items.len()
        &&& (self.waiting is Some ==> self.items.len() == 0)
    }

    /// The index that the next read takes: the cursor, or the front once the
    /// cursor has reached the end.
    pub open spec fn read_index(self) -> nat {
        if self.cursor < self.items.len() {
            self.cursor
        } else {
            0
        }
    }

    /// What a poll in this state yields.
    pub open spec fn outcome(self) -> Pull<T> {
        if self.items.len() == 0 {
            Pull::NotYet
        } else {
            Pull::Ready(self.items[self.read_index() as int])
        }
    }

    /// The state after a poll with handle `w`.
    pub open spec fn after_next(self, w: W) -> Self {
        if self.items.len() == 0 {
            SignalView { items: self.items, cursor: self.cursor, waiting: Some(w) }
        } else {
            SignalView { items: self.items, cursor: self.read_index() + 1, waiting: None }
        }
    }

    /// The state after `x` is pushed: the handle, if any, has been taken out.
    pub open spec fn after_push(self, x: T) -> Self {
        SignalView { items: self.items.push(x), cursor: self.cursor, waiting: None }
    }

    /// The state after the contents are cleared; a registered handle stays.
    pub open spec fn after_clear(self) -> Self {
        SignalView { items: Seq::empty(), cursor: 0, waiting: self.waiting }
    }
}

/// Values handed out round-robin from a sequence that writers may grow or
/// clear, with a single slot for the consumer's wake-up handle `W`.
pub struct CyclicSignal<T, W> {
    items: Vec<T>,
    cursor: usize,
    waiting: Option<W>,
}

impl<T, W> View for CyclicSignal<T, W> {
    type V = SignalView<T, W>;

    closed spec fn view(&self) -> SignalView<T, W> {
        SignalView { items: self.items@, cursor: self.cursor as nat, waiting: self.waiting }
    }
}

impl<T: Copy, W> CyclicSignal<T, W> {
    /// An empty signal with no handle registered.
    pub fn new() -> (r: Self)
        ensures
            r@ == SignalView::<T, W>::empty(),
            r@.wf(),
    {
        CyclicSignal { items: Vec::new(), cursor: 0, waiting: None }
    }

    /// Polls for the next value. With values present, reads the one at the
    /// cursor (wrapping to the front at the end) and moves past it; with none,
    /// registers `waker`, replacing any handle registered before.
    pub fn next(&mut self, waker: W) -> (r: Pull<T>)
        ensures
            r == old(self)@.outcome(),
            final(self)@ == old(self)@.after_next(waker),
    {
        let len = self.items.len();
        if len == 0 {
            self.waiting = Some(waker);
            Pull::NotYet
        } else {
            let i: usize = if self.cursor < len {
                self.cursor
            } else {
                0
            };
            let value = self.items[i];
            self.cursor = i + 1;
            self.waiting = None;
            Pull::Ready(value)
        }
    }

    /// Appends `value` and takes out the registered handle, which the caller
    /// must fire.
    pub fn push(&mut self, value: T) -> (woken: Option<W>)
        ensures
            woken == old(self)@.waiting,
            final(self)@ == old(self)@.after_push(value),
    {
        self.items.push(value);
        self.waiting.take()
    }

    /// Empties the contents and moves the cursor back to the front.
    pub fn clear(&mut self)
        ensures
            final(self)@ == old(self)@.after_clear(),
    {
        self.items.clear();
        self.cursor = 0;
    }

    /// How many values the signal holds.
    pub fn len(&self) -> (r: usize)
        ensures
            r == self@.items.len(),
    {
        self.items.len()
    }

    /// The position of the next read, before any wrap.
    pub fn cursor(&self) -> (r: usize)
        ensures
            r == self@.cursor,
    {
        self.cursor
    }

    /// Whether a wake-up handle is registered.
    pub fn is_waiting(&self) -> (r: bool)
        ensures
            r == self@.waiting is Some,
    {
        self.waiting.is_some()
    }
}

} // verus!
