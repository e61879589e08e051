use std::collections::VecDeque;
use std::sync::mpsc::TryRecvError;
use vstd::prelude::*;

verus! {

/// The error of a receive that finds nothing: the queue is empty, or no
/// producer can ever send again.
#[verifier::external_type_specification]
pub struct ExTryRecvError(TryRecvError);

/// The press state carried by an input event.
#[derive(Debug, Clone, Copy, PartialEq, Eq, Structural)]
pub enum KeyCode {
    Down,
    Up,
}

/// What a receive on a queue holding `q` returns: its first event, or
/// `Empty` when it holds none.
pub open spec fn next_event(q: Seq<KeyCode>) -> Result<KeyCode, TryRecvError> {
    if q.len() == 0 {
        Err(TryRecvError::Empty)
    } else {
        Ok(q[0])
    }
}

/// What a queue holding `q` holds after a receive.
pub open spec fn after_receive(q: Seq<KeyCode>) -> Seq<KeyCode> {
    if q.len() == 0 {
        q
    } else {
        q.drop_first()
    }
}

/// The first-in, first-out queue of input events that carries events from
/// the listeners to whoever polls. It is not tied to any one session.
pub struct EventChannel {
    queue: VecDeque<KeyCode>,
}

impl View for EventChannel {
    type V = Seq<KeyCode>;

    /// The queued events, oldest first.
    closed spec fn view(&self) -> Seq<KeyCode> {
        self.queue@
    }
}

impl EventChannel {
    /// An empty channel.
    pub fn new() -> (r: EventChannel)
        ensures
            r@ == Seq::<KeyCode>::empty(),
    {
        EventChannel { queue: VecDeque::new() }
    }

    /// Appends an event behind those already queued.
    pub fn send(&mut self, event: KeyCode)
        ensures
            final(self)@ == old(self)@.push(event),
    {
        self.queue.push_back(event);
    }

    /// Takes the oldest queued event without waiting.
    pub fn try_recv(&mut self) -> (r: Result<KeyCode, TryRecvError>)
        ensures
            r == next_event(old(self)@),
            final(self)@ == after_receive(old(self)@),
    {
        match self.queue.pop_front() {
            Some(event) => Ok(event),
            None => Err(TryRecvError::Empty),
        }
    }

    /// The number of queued events.
    pub fn len(&self) -> (r: usize)
        ensures
            r == self@.len(),
    {
        self.queue.len()
    }
}

} // verus!
