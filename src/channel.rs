//! The update channel: window requests queued by window handles, possibly
//! from other threads, and drained by the dispatch core once per iteration.
//! The queue itself is plain data; sharing it between threads is up to the
//! caller (behind a lock).
use vstd::prelude::*;
use crate::event::WindowId;
use crate::window::WindowRequest;

verus! {

/// A request addressed to one window.
#[derive(Debug)]
pub struct Update {
    pub window: WindowId,
    pub request: WindowRequest,
}

/// The request could not be delivered because the loop has shut down; the
/// request is handed back.
#[derive(Debug)]
pub struct LoopClosed(pub Update);

pub struct UpdateQueue {
    items: Vec<Update>,
    closed: bool,
}

pub struct QueueModel {
    pub items: Seq<Update>,
    pub closed: bool,
}

impl View for UpdateQueue {
    type V = QueueModel;

    closed spec fn view(&self) -> QueueModel {
        QueueModel { items: self.items@, closed: self.closed }
    }
}

impl UpdateQueue {
    pub fn new() -> (r: UpdateQueue)
        ensures
            r@.items.len() == 0,
            !r@.closed,
    {
        UpdateQueue { items: Vec::new(), closed: false }
    }

    /// Queues a request; never blocks. Once the queue is closed the request
    /// comes back in the error.
    pub fn send(&mut self, update: Update) -> (r: Result<(), LoopClosed>)
        ensures
            old(self)@.closed ==> r == Err::<(), LoopClosed>(LoopClosed(update)) && final(self)@ == old(self)@,
            !old(self)@.closed ==> r.is_ok() && final(self)@ == (QueueModel {
                items: old(self)@.items.push(update),
                ..old(self)@
            }),
    {
        if self.closed {
            return Err(LoopClosed(update));
        }
        self.items.push(update);
        Ok(())
    }

    /// Whether a request is waiting.
    pub fn has_pending(&self) -> (r: bool)
        ensures
            r == (self@.items.len() > 0),
    {
        self.items.len() > 0
    }

    /// Takes every queued request, in the order sent.
    pub fn drain(&mut self) -> (r: Vec<Update>)
        ensures
            r@ == old(self)@.items,
            final(self)@ == (QueueModel { items: Seq::empty(), closed: old(self)@.closed }),
    {
        let mut out: Vec<Update> = Vec::new();
        std::mem::swap(&mut out, &mut self.items);
        proof {
            assert(self.items@ =~= Seq::<Update>::empty());
        }
        out
    }

    /// Shuts the receiving end: later sends fail, and what was still queued
    /// is handed back.
    pub fn close(&mut self) -> (r: Vec<Update>)
        ensures
            r@ == old(self)@.items,
            final(self)@ == (QueueModel { items: Seq::empty(), closed: true }),
    {
        self.closed = true;
        self.drain()
    }
}

} // verus!
