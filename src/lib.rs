//! Exclusive, process-wide sessions of low-level keyboard and mouse hooks.
//!
//! The library keeps the decisions of a hook session: the one session slot
//! shared by every category, the event channel that outlives sessions, the
//! builder that asks for a session, and the handle that owns the listeners of
//! one session until it is released. Installing the operating system's hooks
//! and running their message loops is done by the caller between the steps
//! that these types describe.
use vstd::prelude::*;

pub mod channel;
pub mod hook;
pub mod session;

pub use channel::KeyCode;
pub use hook::{Acquisition, Hook, HookBuilder, HookCategory, HookSystem};

verus! {

/// Asks for a session that observes the keyboard only. It is granted, and
/// takes the slot, exactly when the slot is free.
pub fn keyboard_hook(system: &mut HookSystem) -> (r: Option<Acquisition>)
    ensures
        r is Some <==> !old(system)@.occupied,
        final(system)@ == old(system)@.with_slot(true),
        r matches Some(a) ==> a.keyboard() && !a.mouse(),
{
    HookBuilder::new().with_keyboard().build(system)
}

/// Asks for a session that observes the mouse only. It is granted, and takes
/// the slot, exactly when the slot is free.
pub fn mouse_hook(system: &mut HookSystem) -> (r: Option<Acquisition>)
    ensures
        r is Some <==> !old(system)@.occupied,
        final(system)@ == old(system)@.with_slot(true),
        r matches Some(a) ==> !a.keyboard() && a.mouse(),
{
    HookBuilder::new().with_mouse().build(system)
}

/// Asks for a session that observes both the keyboard and the mouse. It is
/// granted, and takes the slot, exactly when the slot is free.
pub fn willhook(system: &mut HookSystem) -> (r: Option<Acquisition>)
    ensures
        r is Some <==> !old(system)@.occupied,
        final(system)@ == old(system)@.with_slot(true),
        r matches Some(a) ==> a.keyboard() && a.mouse(),
{
    HookBuilder::new().with_keyboard().with_mouse().build(system)
}

} // verus!
