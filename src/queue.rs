//! The bounded queue of commands between the presentation side and the
//! worker.
use vstd::prelude::*;

use std::collections::VecDeque;

use crate::message::UtopiaRequest;

verus! {

/// How many commands may wait for the worker.
pub const QUEUE_CAPACITY: usize = 15;

/// Commands in the order they were submitted, at most `QUEUE_CAPACITY` of
/// them. Submitting never waits: it fails at once when the queue is full or
/// closed.
#[derive(Debug)]
pub struct CommandQueue {
    items: VecDeque<UtopiaRequest>,
    closed: bool,
}

impl CommandQueue {
    /// The waiting commands, oldest first.
    pub closed spec fn view(&self) -> Seq<UtopiaRequest> {
        self.items@
    }

    /// Whether the queue takes no more commands.
    pub closed spec fn is_closed_spec(&self) -> bool {
        self.closed
    }

    pub closed spec fn wf(&self) -> bool {
        self.items@.len() <= QUEUE_CAPACITY
    }

    pub fn new() -> (q: Self)
        ensures
            q.wf(),
            q@ == Seq::<UtopiaRequest>::empty(),
            !q.is_closed_spec(),
    {
        CommandQueue { items: VecDeque::new(), closed: false }
    }

    /// Enqueues a command unless the queue is full or closed; says whether
    /// it did.
    pub fn submit(&mut self, r: UtopiaRequest) -> (ok: bool)
        requires
            old(self).wf(),
        ensures
            final(self).wf(),
            ok == (!old(self).is_closed_spec() && old(self)@.len() < QUEUE_CAPACITY),
            ok ==> final(self)@ == old(self)@.push(r),
            !ok ==> final(self)@ == old(self)@,
            final(self).is_closed_spec() == old(self).is_closed_spec(),
    {
        if self.closed || self.items.len() >= QUEUE_CAPACITY {
            return false;
        }
        self.items.push_back(r);
        true
    }

    /// Asks for the full library.
    pub fn request_library(&mut self) -> (ok: bool)
        requires
            old(self).wf(),
        ensures
            final(self).wf(),
            ok == (!old(self).is_closed_spec() && old(self)@.len() < QUEUE_CAPACITY),
            ok ==> final(self)@ == old(self)@.push(UtopiaRequest::GetFullGameLibrary),
            !ok ==> final(self)@ == old(self)@,
            final(self).is_closed_spec() == old(self).is_closed_spec(),
    {
        self.submit(UtopiaRequest::GetFullGameLibrary)
    }

    /// Takes the oldest waiting command.
    pub fn take(&mut self) -> (r: Option<UtopiaRequest>)
        requires
            old(self).wf(),
        ensures
            final(self).wf(),
            old(self)@.len() == 0 ==> r is None && final(self)@ == old(self)@,
            old(self)@.len() > 0 ==> r == Some(old(self)@[0]) && final(self)@ == old(self)@.drop_first(),
            final(self).is_closed_spec() == old(self).is_closed_spec(),
    {
        self.items.pop_front()
    }

    /// The number of waiting commands.
    pub fn len(&self) -> (n: usize)
        ensures
            n == self@.len(),
    {
        self.items.len()
    }

    /// Stops the queue from taking commands; those waiting stay.
    pub fn close(&mut self)
        requires
            old(self).wf(),
        ensures
            final(self).wf(),
            final(self).is_closed_spec(),
            final(self)@ == old(self)@,
    {
        self.closed = true;
    }

    pub fn is_closed(&self) -> (b: bool)
        ensures
            b == self.is_closed_spec(),
    {
        self.closed
    }
}

} // verus!
