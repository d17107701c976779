//! The queue behind the event-loop source that wakes the compositor when
//! macOS input events arrive.
//!
//! The wake-up pipe itself is created, written and read outside the library;
//! the library keeps the pipe's two file descriptors and the queue of
//! pending events, and decides what a wake-up hands on.

use vstd::prelude::*;

use crate::events::MacOSInputEvent;

verus! {

/// The event-loop source for macOS input events.
pub struct MacOSEventSource {
    read_pipe: i32,
    write_pipe: i32,
    event_queue: Vec<MacOSInputEvent>,
}

/// The state of an event source.
pub struct MacOSEventSourceView {
    /// Read end of the wake-up pipe.
    pub read_pipe: i32,
    /// Write end of the wake-up pipe.
    pub write_pipe: i32,
    /// Pending events, oldest first.
    pub queue: Seq<MacOSInputEvent>,
}

impl View for MacOSEventSource {
    type V = MacOSEventSourceView;

    closed spec fn view(&self) -> MacOSEventSourceView {
        MacOSEventSourceView { read_pipe: self.read_pipe, write_pipe: self.write_pipe, queue: self.event_queue@ }
    }
}

impl MacOSEventSource {
    /// Creates an event source over the two ends of a wake-up pipe, with no
    /// pending event.
    pub fn new(read_pipe: i32, write_pipe: i32) -> (r: Self)
        ensures
            r@.read_pipe == read_pipe,
            r@.write_pipe == write_pipe,
            r@.queue == Seq::<MacOSInputEvent>::empty(),
    {
        MacOSEventSource { read_pipe, write_pipe, event_queue: Vec::new() }
    }

    /// Read end of the wake-up pipe.
    pub fn read_pipe(&self) -> (r: i32)
        ensures
            r == self@.read_pipe,
    {
        self.read_pipe
    }

    /// Write end of the wake-up pipe.
    pub fn write_pipe(&self) -> (r: i32)
        ensures
            r == self@.write_pipe,
    {
        self.write_pipe
    }

    /// Number of pending events.
    pub fn pending(&self) -> (r: usize)
        ensures
            r == self@.queue.len(),
    {
        self.event_queue.len()
    }

    /// Queues an event at the end of the queue.
    pub fn queue_event(&mut self, event: MacOSInputEvent)
        ensures
            final(self)@ == (MacOSEventSourceView { queue: old(self)@.queue.push(event), ..old(self)@ }),
    {
        self.event_queue.push(event);
    }

    /// Queues several events, in order, at the end of the queue.
    pub fn queue_events(&mut self, events: Vec<MacOSInputEvent>)
        ensures
            final(self)@ == (MacOSEventSourceView { queue: old(self)@.queue + events@, ..old(self)@ }),
    {
        let mut events = events;
        self.event_queue.append(&mut events);
    }

    /// Takes all pending events, oldest first, leaving the queue empty.
    pub fn drain_events(&mut self) -> (r: Vec<MacOSInputEvent>)
        ensures
            r@ == old(self)@.queue,
            final(self)@ == (MacOSEventSourceView { queue: Seq::empty(), ..old(self)@ }),
    {
        let mut taken: Vec<MacOSInputEvent> = Vec::new();
        std::mem::swap(&mut taken, &mut self.event_queue);
        taken
    }

    /// What a wake-up hands to the event loop's callback: all pending
    /// events, when there are any (the queue is then empty), or nothing.
    pub fn process_events(&mut self) -> (r: Option<Vec<MacOSInputEvent>>)
        ensures
            final(self)@ == (MacOSEventSourceView { queue: Seq::empty(), ..old(self)@ }),
            old(self)@.queue.len() == 0 ==> r is None,
            old(self)@.queue.len() > 0 ==> (r matches Some(events) && events@ == old(self)@.queue),
    {
        let events = self.drain_events();
        if events.len() == 0 {
            None
        } else {
            Some(events)
        }
    }
}

} // verus!
