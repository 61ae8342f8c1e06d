//! Early event-handling types: keys, clicks, the clipboard and text input buffers, and an
//! event queue with its iterators.

use vstd::prelude::*;

verus! {

/// A virtual key.
#[derive(Debug, Default, Copy, Clone, PartialEq, Eq, Structural)]
pub struct VKey;

/// A key.
#[derive(Debug, Default, Copy, Clone, PartialEq, Eq, Structural)]
pub struct Key;

/// How many times a button was clicked.
#[derive(Debug, Copy, Clone, Hash, PartialEq, Eq, Structural)]
pub enum Click {
    Single,
    Double,
}

/// The clipboard's content, as raw bytes.
#[derive(Debug, Hash)]
pub struct Clipboard {
    raw_data: Vec<u8>,
}

impl Clipboard {
    /// The clipboard's bytes.
    pub closed spec fn bytes(&self) -> Seq<u8> {
        self.raw_data@
    }

    /// A clipboard holding `raw_data`.
    pub fn new(raw_data: Vec<u8>) -> (r: Clipboard)
        ensures
            r.bytes() == raw_data@,
    {
        Clipboard { raw_data }
    }

    /// The clipboard's raw bytes.
    pub fn get_raw_buffer(&self) -> (r: &[u8])
        ensures
            r@ == self.bytes(),
    {
        self.raw_data.as_slice()
    }
}

/// The text input buffer, as raw bytes.
#[derive(Debug, Hash)]
pub struct TextInput {
    raw_data: Vec<u8>,
}

/// The event queue.
#[derive(Debug)]
pub struct EventQueue {}

/// An iterator that looks at the queued events without taking them.
#[derive(Debug)]
pub struct PeekIter<'a> {
    _queue: &'a EventQueue,
}

/// An iterator that takes the queued events.
#[derive(Debug)]
pub struct PollIter<'a> {
    _queue: &'a mut EventQueue,
}

impl<'a> PeekIter<'a> {
    /// The queue that this iterator looks at.
    pub closed spec fn queue(&self) -> EventQueue {
        *self._queue
    }
}

impl<'a> PollIter<'a> {
    /// The queue that this iterator takes events from, as it was when the iterator was made.
    pub closed spec fn queue(&self) -> EventQueue {
        *self._queue
    }
}

impl EventQueue {
    /// An iterator that takes the queued events.
    pub fn poll<'a>(&'a mut self) -> (r: PollIter<'a>)
        ensures
            r.queue() == *old(self),
    {
        PollIter { _queue: self }
    }

    /// An iterator that looks at the queued events without taking them.
    pub fn peek<'a>(&'a self) -> (r: PeekIter<'a>)
        ensures
            r.queue() == *self,
    {
        PeekIter { _queue: self }
    }
}

} // verus!
