//! Notification queues: typed FIFO queues carrying busy/idle flags, debug
//! messages, and completed-interaction records from the generation side to
//! the poll loop, plus a latest-value-wins slot for rendered documents.

use vstd::prelude::*;
use crate::log::Log;
use crate::session::Document;

verus! {

/// A message for the user-visible debug line: free text plus an error flag.
#[derive(Clone)]
pub struct DebugMessage {
    pub message: String,
    pub is_error: bool,
}

/// A FIFO queue of notifications. Values are delivered exactly once, in
/// the order they were sent.
pub struct Queue<T> {
    items: Vec<T>,
}

impl<T> View for Queue<T> {
    type V = Seq<T>;

    closed spec fn view(&self) -> Seq<T> {
        self.items@
    }
}

impl<T> Queue<T> {
    /// An empty queue.
    pub fn new() -> (q: Queue<T>)
        ensures
            q@ == Seq::<T>::empty(),
    {
        Queue { items: Vec::new() }
    }

    /// Enqueues one value at the back.
    pub fn send(&mut self, value: T)
        ensures
            final(self)@ == old(self)@.push(value),
    {
        self.items.push(value);
    }

    /// Takes the oldest value, if any: non-blocking receive.
    pub fn try_recv(&mut self) -> (r: Option<T>)
        ensures
            old(self)@.len() == 0 ==> r is None && final(self)@ == old(self)@,
            old(self)@.len() > 0 ==> r == Some(old(self)@[0]) && final(self)@ == old(self)@.drop_first(),
    {
        if self.items.len() == 0 {
            None
        } else {
            let v = self.items.remove(0);
            assert(final(self)@ =~= old(self)@.drop_first());
            Some(v)
        }
    }

    /// The number of values waiting.
    pub fn len(&self) -> (n: usize)
        ensures
            n == self@.len(),
    {
        self.items.len()
    }
}

/// A replace-on-write slot of capacity one: publishing discards any unread
/// value, so a reader only ever observes the most recent publication.
pub struct LatestSlot<T> {
    value: Option<T>,
}

impl<T> View for LatestSlot<T> {
    type V = Option<T>;

    closed spec fn view(&self) -> Option<T> {
        self.value
    }
}

impl<T> LatestSlot<T> {
    /// An empty slot.
    pub fn new() -> (s: LatestSlot<T>)
        ensures
            s@ is None,
    {
        LatestSlot { value: None }
    }

    /// Publishes a value, discarding whatever was there.
    pub fn publish(&mut self, value: T)
        ensures
            final(self)@ == Some(value),
    {
        self.value = Some(value);
    }

    /// Takes the latest value, if any, leaving the slot empty.
    pub fn take(&mut self) -> (r: Option<T>)
        ensures
            r == old(self)@,
            final(self)@ is None,
    {
        self.value.take()
    }
}

/// The channel bundle handed to every unit of work: the renderer's
/// latest-document slot and the FIFO notification queues for busy/idle
/// flags, debug messages, and completed-interaction records.
pub struct Channels {
    pub markdown_channel: LatestSlot<Document>,
    pub debug_channel: Queue<DebugMessage>,
    pub debounce_channel: Queue<bool>,
    pub logging_channel: Queue<Log>,
}

impl Channels {
    /// A bundle of empty channels, as constructed once at startup.
    pub fn new() -> (c: Channels)
        ensures
            c.markdown_channel@ is None,
            c.debug_channel@ == Seq::<DebugMessage>::empty(),
            c.debounce_channel@ == Seq::<bool>::empty(),
            c.logging_channel@ == Seq::<Log>::empty(),
    {
        Channels {
            markdown_channel: LatestSlot::new(),
            debug_channel: Queue::new(),
            debounce_channel: Queue::new(),
            logging_channel: Queue::new(),
        }
    }
}

} // verus!
