use crate::channel::{after_receive, next_event, EventChannel, KeyCode};
use crate::session::SessionSlot;
use std::sync::mpsc::TryRecvError;
use vstd::prelude::*;

verus! {

/// The kinds of input a hook can observe.
#[derive(Debug, Clone, Copy, PartialEq, Eq, Structural)]
pub enum HookCategory {
    Keyboard,
    Mouse,
}

/// The listeners named by a pair of flags, keyboard first.
pub open spec fn listener_seq(keyboard: bool, mouse: bool) -> Seq<HookCategory> {
    (if keyboard { seq![HookCategory::Keyboard] } else { Seq::empty() }) + (if mouse {
        seq![HookCategory::Mouse]
    } else {
        Seq::empty()
    })
}

fn listener_vec(keyboard: bool, mouse: bool) -> (r: Vec<HookCategory>)
    ensures
        r@ == listener_seq(keyboard, mouse),
{
    let mut r: Vec<HookCategory> = Vec::new();
    if keyboard {
        r.push(HookCategory::Keyboard);
    }
    if mouse {
        r.push(HookCategory::Mouse);
    }
    assert(r@ =~= listener_seq(keyboard, mouse));
    r
}

/// The state of the process-wide hook machinery as the contracts see it:
/// whether a session holds the slot, and the events waiting to be received.
pub struct SystemState {
    pub occupied: bool,
    pub events: Seq<KeyCode>,
}

impl SystemState {
    /// The same state with the slot set to `occupied`.
    pub open spec fn with_slot(self, occupied: bool) -> SystemState {
        SystemState { occupied, events: self.events }
    }

    /// The same state with the slot freed.
    pub open spec fn released(self) -> SystemState {
        self.with_slot(false)
    }

    /// The state after one receive.
    pub open spec fn received(self) -> SystemState {
        SystemState { occupied: self.occupied, events: after_receive(self.events) }
    }

    /// The state after `event` was queued.
    pub open spec fn enqueued(self, event: KeyCode) -> SystemState {
        SystemState { occupied: self.occupied, events: self.events.push(event) }
    }
}

/// The state before any session: the slot free, no events queued.
pub open spec fn initial_state() -> SystemState {
    SystemState { occupied: false, events: Seq::empty() }
}

/// The state after `n` receives from `s`.
pub open spec fn received_n(s: SystemState, n: nat) -> SystemState
    decreases n,
{
    if n == 0 {
        s
    } else {
        received_n(s, (n - 1) as nat).received()
    }
}

/// The number of requests in `requests`, made one after another from state
/// `s` with no handle released in between, that are granted.
pub open spec fn granted_count(requests: Seq<HookBuilder>, s: SystemState) -> nat
    decreases requests.len(),
{
    if requests.len() == 0 {
        0
    } else {
        let first = requests[0];
        (if first.grants(s.occupied) {
            1nat
        } else {
            0nat
        }) + granted_count(requests.drop_first(), first.after_build(s))
    }
}

/// The process-wide state that every session shares: the session slot and
/// the event channel. The channel is never cleared, so events queued during
/// one session can be received through the handle of a later one.
pub struct HookSystem {
    slot: SessionSlot,
    channel: EventChannel,
}

impl View for HookSystem {
    type V = SystemState;

    closed spec fn view(&self) -> SystemState {
        SystemState { occupied: self.slot.occupied(), events: self.channel@ }
    }
}

impl HookSystem {
    /// A free slot and an empty channel.
    pub fn new() -> (r: HookSystem)
        ensures
            r@ == initial_state(),
    {
        HookSystem { slot: SessionSlot::new(), channel: EventChannel::new() }
    }

    /// Queues an event that a listener observed, behind those already queued.
    pub fn enqueue(&mut self, event: KeyCode)
        ensures
            final(self)@ == old(self)@.enqueued(event),
    {
        self.channel.send(event);
    }

    /// Whether a session holds the slot.
    pub fn is_occupied(&self) -> (r: bool)
        ensures
            r == self@.occupied,
    {
        self.slot.is_occupied()
    }

    /// The number of events waiting to be received.
    pub fn pending(&self) -> (r: usize)
        ensures
            r == self@.events.len(),
    {
        self.channel.len()
    }
}

/// Chooses the categories that a session asks for. A request must name at
/// least one category to be granted.
pub struct HookBuilder {
    mouse: bool,
    keyboard: bool,
}

impl HookBuilder {
    /// Whether the keyboard is asked for.
    pub closed spec fn wants_keyboard(self) -> bool {
        self.keyboard
    }

    /// Whether the mouse is asked for.
    pub closed spec fn wants_mouse(self) -> bool {
        self.mouse
    }

    /// Whether at least one category is asked for.
    pub open spec fn requests_any(self) -> bool {
        self.wants_keyboard() || self.wants_mouse()
    }

    /// Whether the request is granted when the slot is `occupied` or not:
    /// it names a category and the slot is free.
    pub open spec fn grants(self, occupied: bool) -> bool {
        self.requests_any() && !occupied
    }

    /// The state after this request was made on `s`: a granted request
    /// takes the slot, a refused one changes nothing.
    pub open spec fn after_build(self, s: SystemState) -> SystemState {
        if self.grants(s.occupied) {
            s.with_slot(true)
        } else {
            s
        }
    }

    /// A builder that asks for nothing.
    pub fn new() -> (r: HookBuilder)
        ensures
            !r.wants_keyboard(),
            !r.wants_mouse(),
    {
        HookBuilder { mouse: false, keyboard: false }
    }

    /// Adds the mouse to the request.
    pub fn with_mouse(self) -> (r: HookBuilder)
        ensures
            r.wants_mouse(),
            r.wants_keyboard() == self.wants_keyboard(),
    {
        let mut b = self;
        b.mouse = true;
        b
    }

    /// Adds the keyboard to the request.
    pub fn with_keyboard(self) -> (r: HookBuilder)
        ensures
            r.wants_keyboard(),
            r.wants_mouse() == self.wants_mouse(),
    {
        let mut b = self;
        b.keyboard = true;
        b
    }

    /// Asks for a session. It is granted when the request names a category
    /// and no session holds the slot; the slot is then taken, and the
    /// acquisition names the listeners to start. Otherwise nothing changes.
    pub fn build(self, system: &mut HookSystem) -> (r: Option<Acquisition>)
        ensures
            r is Some <==> self.grants(old(system)@.occupied),
            !self.requests_any() ==> r is None,
            final(system)@ == self.after_build(old(system)@),
            r matches Some(a) ==> {
                &&& a.keyboard() == self.wants_keyboard()
                &&& a.mouse() == self.wants_mouse()
            },
    {
        if !self.keyboard && !self.mouse {
            return None;
        }
        if system.slot.try_acquire() {
            Some(Acquisition { keyboard: self.keyboard, mouse: self.mouse })
        } else {
            None
        }
    }
}

/// A granted session whose listeners are being started. The slot is held
/// until `complete` either hands it to a `Hook` or frees it.
pub struct Acquisition {
    keyboard: bool,
    mouse: bool,
}

impl Acquisition {
    #[verifier::type_invariant]
    closed spec fn names_a_category(self) -> bool {
        self.keyboard || self.mouse
    }

    /// Whether a keyboard listener is to be started.
    pub closed spec fn keyboard(self) -> bool {
        self.keyboard
    }

    /// Whether a mouse listener is to be started.
    pub closed spec fn mouse(self) -> bool {
        self.mouse
    }

    /// Whether a session forms when the keyboard and mouse registrations
    /// came out as given: a requested category registered.
    pub open spec fn registers_any(self, keyboard_registered: bool, mouse_registered: bool) -> bool {
        (self.keyboard() && keyboard_registered) || (self.mouse() && mouse_registered)
    }

    /// The state after `complete`: unchanged when a handle forms, the slot
    /// freed when none does.
    pub open spec fn after_complete(
        self,
        s: SystemState,
        keyboard_registered: bool,
        mouse_registered: bool,
    ) -> SystemState {
        if self.registers_any(keyboard_registered, mouse_registered) {
            s
        } else {
            s.released()
        }
    }

    /// The listeners to start, keyboard first; never empty.
    pub fn listeners(&self) -> (r: Vec<HookCategory>)
        ensures
            r@ == listener_seq(self.keyboard(), self.mouse()),
            r@.len() > 0,
    {
        proof {
            use_type_invariant(self);
        }
        listener_vec(self.keyboard, self.mouse)
    }

    /// Forms the handle from the outcome of each listener's registration; an
    /// outcome for a category that was not requested is ignored. When no
    /// requested category registered, the slot is freed and there is no
    /// handle.
    pub fn complete(
        self,
        system: &mut HookSystem,
        keyboard_registered: bool,
        mouse_registered: bool,
    ) -> (r: Option<Hook>)
        ensures
            r is Some <==> self.registers_any(keyboard_registered, mouse_registered),
            final(system)@ == self.after_complete(old(system)@, keyboard_registered, mouse_registered),
            r matches Some(h) ==> {
                &&& h.owns_keyboard() == (self.keyboard() && keyboard_registered)
                &&& h.owns_mouse() == (self.mouse() && mouse_registered)
            },
    {
        let keyboard = self.keyboard && keyboard_registered;
        let mouse = self.mouse && mouse_registered;
        if keyboard || mouse {
            Some(Hook { keyboard, mouse })
        } else {
            system.slot.release();
            None
        }
    }
}

/// The handle of an active session: it owns the listener of each category
/// that registered, at least one. Releasing it frees the slot.
pub struct Hook {
    keyboard: bool,
    mouse: bool,
}

impl Hook {
    #[verifier::type_invariant]
    closed spec fn owns_a_listener(self) -> bool {
        self.keyboard || self.mouse
    }

    /// Whether the handle owns the keyboard listener.
    pub closed spec fn owns_keyboard(self) -> bool {
        self.keyboard
    }

    /// Whether the handle owns the mouse listener.
    pub closed spec fn owns_mouse(self) -> bool {
        self.mouse
    }

    /// Takes the oldest waiting event without blocking, or reports `Empty`.
    /// The channel is shared by all sessions, so the event may have been
    /// queued before this handle existed.
    pub fn try_recv(&self, system: &mut HookSystem) -> (r: Result<KeyCode, TryRecvError>)
        ensures
            r == next_event(old(system)@.events),
            final(system)@ == old(system)@.received(),
    {
        system.channel.try_recv()
    }

    /// The listeners this handle owns, keyboard first; never empty. Each is
    /// to be stopped before the handle is released.
    pub fn listeners(&self) -> (r: Vec<HookCategory>)
        ensures
            r@ == listener_seq(self.owns_keyboard(), self.owns_mouse()),
            r@.len() > 0,
    {
        proof {
            use_type_invariant(self);
        }
        listener_vec(self.keyboard, self.mouse)
    }

    /// Ends the session: frees the slot. The queued events stay.
    pub fn release(self, system: &mut HookSystem)
        ensures
            final(system)@ == old(system)@.released(),
    {
        system.slot.release();
    }
}

} // verus!

verus! {

/// Of requests made one after another while no handle is released, at most
/// one is granted: none while a session holds the slot, and exactly one when
/// the slot starts free and some request names a category.
pub proof fn lemma_exclusive_grants(requests: Seq<HookBuilder>, s: SystemState)
    ensures
        granted_count(requests, s) <= 1,
        s.occupied ==> granted_count(requests, s) == 0,
        !s.occupied && (exists|i: int| 0 <= i < requests.len() && #[trigger] requests[i].requests_any())
            ==> granted_count(requests, s) == 1,
    decreases requests.len(),
{
    if requests.len() > 0 {
        let first = requests[0];
        let rest = requests.drop_first();
        lemma_exclusive_grants(rest, first.after_build(s));
        if !s.occupied && !first.requests_any() {
            if exists|i: int| 0 <= i < requests.len() && #[trigger] requests[i].requests_any() {
                let i = choose|i: int| 0 <= i < requests.len() && #[trigger] requests[i].requests_any();
                assert(rest[i - 1].requests_any());
            }
        }
    }
}

/// On a free slot, a request that names a category is granted, and once a
/// requested category registers the session forms a handle that keeps the
/// slot.
pub proof fn lemma_free_slot_forms_handle(
    b: HookBuilder,
    a: Acquisition,
    s: SystemState,
    keyboard_registered: bool,
    mouse_registered: bool,
)
    requires
        !s.occupied,
        a.keyboard() == b.wants_keyboard(),
        a.mouse() == b.wants_mouse(),
        (b.wants_keyboard() && keyboard_registered) || (b.wants_mouse() && mouse_registered),
    ensures
        b.grants(s.occupied),
        a.registers_any(keyboard_registered, mouse_registered),
        a.after_complete(b.after_build(s), keyboard_registered, mouse_registered).occupied,
{
}

/// A request for no category is refused, whatever the state.
pub proof fn lemma_empty_request_refused(b: HookBuilder, s: SystemState)
    requires
        !b.wants_keyboard(),
        !b.wants_mouse(),
    ensures
        !b.grants(s.occupied),
        b.after_build(s) == s,
{
}

/// Once a handle is released, any request that names a category is granted.
pub proof fn lemma_release_frees_slot(b: HookBuilder, s: SystemState)
    requires
        b.requests_any(),
    ensures
        b.grants(s.released().occupied),
{
}

} // verus!

verus! {

/// A handle formed on a fresh system, with no event queued since, receives
/// `Empty`, whatever was requested and whatever registered.
pub proof fn lemma_fresh_handle_receives_empty(
    b: HookBuilder,
    a: Acquisition,
    keyboard_registered: bool,
    mouse_registered: bool,
)
    ensures
        next_event(
            a.after_complete(b.after_build(initial_state()), keyboard_registered, mouse_registered).events,
        ) == Err::<KeyCode, TryRecvError>(TryRecvError::Empty),
{
}

proof fn lemma_received_n_drops_prefix(s: SystemState, n: nat)
    requires
        n <= s.events.len(),
    ensures
        received_n(s, n).events == s.events.subrange(n as int, s.events.len() as int),
        received_n(s, n).occupied == s.occupied,
    decreases n,
{
    if n > 0 {
        lemma_received_n_drops_prefix(s, (n - 1) as nat);
        assert(received_n(s, (n - 1) as nat).events.drop_first() =~= s.events.subrange(
            n as int,
            s.events.len() as int,
        ));
    }
}

/// Two events queued one after the other come out in that order: once the
/// events queued before them have been received, the next receive gives the
/// first, and the one after it the second (a press then a release stay a
/// press then a release).
pub proof fn lemma_pair_kept_in_order(s: SystemState, first: KeyCode, second: KeyCode)
    ensures
        ({
            let t = s.enqueued(first).enqueued(second);
            let u = received_n(t, s.events.len());
            &&& next_event(u.events) == Ok::<KeyCode, TryRecvError>(first)
            &&& next_event(u.received().events) == Ok::<KeyCode, TryRecvError>(second)
        }),
{
    let t = s.enqueued(first).enqueued(second);
    lemma_received_n_drops_prefix(t, s.events.len());
    let u = received_n(t, s.events.len());
    assert(u.events =~= seq![first, second]);
}

/// Events queued before a handle is released stay queued through the next
/// session: its handle receives the oldest of them first.
pub proof fn lemma_events_outlive_session(
    s: SystemState,
    b: HookBuilder,
    a: Acquisition,
    keyboard_registered: bool,
    mouse_registered: bool,
)
    requires
        s.events.len() > 0,
    ensures
        ({
            let t = a.after_complete(
                b.after_build(s.released()),
                keyboard_registered,
                mouse_registered,
            );
            &&& t.events == s.events
            &&& next_event(t.events) == Ok::<KeyCode, TryRecvError>(s.events[0])
        }),
{
}

/// A handle that owns the listener of one category only stops that listener
/// alone when it is released, and its release leaves the slot free for any
/// request that names a category.
pub proof fn lemma_single_category_release(h: Hook, s: SystemState, next: HookBuilder)
    requires
        h.owns_keyboard() != h.owns_mouse(),
        next.requests_any(),
    ensures
        h.owns_mouse() ==> listener_seq(h.owns_keyboard(), h.owns_mouse()) == seq![HookCategory::Mouse],
        h.owns_keyboard() ==> listener_seq(h.owns_keyboard(), h.owns_mouse()) == seq![
            HookCategory::Keyboard,
        ],
        next.grants(s.released().occupied),
{
    assert(listener_seq(false, true) =~= seq![HookCategory::Mouse]);
    assert(listener_seq(true, false) =~= seq![HookCategory::Keyboard]);
}

} // verus!
