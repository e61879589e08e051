use std::sync::mpsc::TryRecvError;
use willhook::channel::EventChannel;
use willhook::session::SessionSlot;
use willhook::{keyboard_hook, mouse_hook, willhook};
use willhook::{Hook, HookBuilder, HookCategory, HookSystem, KeyCode};

fn start(system: &mut HookSystem, builder: HookBuilder) -> Option<Hook> {
    builder.build(system)?.complete(system, true, true)
}

#[test]
fn empty_request_is_refused() {
    let mut system = HookSystem::new();
    assert!(HookBuilder::new().build(&mut system).is_none());
    assert!(!system.is_occupied());
    let _held = start(&mut system, HookBuilder::new().with_mouse()).unwrap();
    assert!(HookBuilder::new().build(&mut system).is_none());
    assert!(system.is_occupied());
}

#[test]
fn mouse_blocks_keyboard_until_released() {
    let mut system = HookSystem::new();
    let a = start(&mut system, HookBuilder::new().with_mouse());
    assert!(a.is_some());
    let refused = HookBuilder::new().with_keyboard().build(&mut system);
    assert!(refused.is_none());
    a.unwrap().release(&mut system);
    let b = start(&mut system, HookBuilder::new().with_keyboard());
    assert!(b.is_some());
    assert_eq!(b.unwrap().listeners(), vec![HookCategory::Keyboard]);
}

#[test]
fn only_first_of_many_attempts_is_granted() {
    let mut system = HookSystem::new();
    let builders = vec![
        HookBuilder::new(),
        HookBuilder::new().with_keyboard(),
        HookBuilder::new().with_mouse(),
        HookBuilder::new().with_keyboard().with_mouse(),
    ];
    let granted: Vec<bool> = builders
        .into_iter()
        .map(|b| b.build(&mut system).is_some())
        .collect();
    assert_eq!(granted, vec![false, true, false, false]);
}

#[test]
fn release_frees_the_slot_at_once() {
    let mut system = HookSystem::new();
    let h = start(&mut system, HookBuilder::new().with_keyboard().with_mouse()).unwrap();
    assert!(system.is_occupied());
    h.release(&mut system);
    assert!(!system.is_occupied());
    assert!(start(&mut system, HookBuilder::new().with_keyboard().with_mouse()).is_some());
}

#[test]
fn fresh_handle_receives_empty() {
    let mut system = HookSystem::new();
    let h = start(&mut system, HookBuilder::new().with_mouse()).unwrap();
    assert_eq!(h.try_recv(&mut system), Err(TryRecvError::Empty));
    assert_eq!(h.try_recv(&mut system).err(), Some(TryRecvError::Empty));
}

#[test]
fn down_then_up_keep_their_order() {
    let mut system = HookSystem::new();
    let h = start(&mut system, HookBuilder::new().with_keyboard()).unwrap();
    system.enqueue(KeyCode::Up);
    system.enqueue(KeyCode::Down);
    system.enqueue(KeyCode::Up);
    assert_eq!(system.pending(), 3);
    assert_eq!(h.try_recv(&mut system), Ok(KeyCode::Up));
    assert_eq!(h.try_recv(&mut system), Ok(KeyCode::Down));
    assert_eq!(h.try_recv(&mut system), Ok(KeyCode::Up));
    assert_eq!(h.try_recv(&mut system), Err(TryRecvError::Empty));
    assert_eq!(system.pending(), 0);
}

#[test]
fn events_carry_over_to_next_session() {
    let mut system = HookSystem::new();
    let a = start(&mut system, HookBuilder::new().with_mouse()).unwrap();
    system.enqueue(KeyCode::Down);
    system.enqueue(KeyCode::Up);
    a.release(&mut system);
    assert_eq!(system.pending(), 2);
    let b = start(&mut system, HookBuilder::new().with_keyboard()).unwrap();
    assert_eq!(b.try_recv(&mut system), Ok(KeyCode::Down));
    assert_eq!(b.try_recv(&mut system), Ok(KeyCode::Up));
    assert_eq!(b.try_recv(&mut system), Err(TryRecvError::Empty));
}

#[test]
fn mouse_only_release_stops_mouse_alone() {
    let mut system = HookSystem::new();
    let h = start(&mut system, HookBuilder::new().with_mouse()).unwrap();
    assert_eq!(h.listeners(), vec![HookCategory::Mouse]);
    h.release(&mut system);
    assert!(!system.is_occupied());
    let next = start(&mut system, HookBuilder::new().with_keyboard()).unwrap();
    assert_eq!(next.listeners(), vec![HookCategory::Keyboard]);
}

#[test]
fn failed_registrations_free_the_slot() {
    let mut system = HookSystem::new();
    let a = HookBuilder::new().with_keyboard().with_mouse().build(&mut system).unwrap();
    assert!(system.is_occupied());
    assert!(a.complete(&mut system, false, false).is_none());
    assert!(!system.is_occupied());
    assert!(start(&mut system, HookBuilder::new().with_mouse()).is_some());
}

#[test]
fn outcome_for_unrequested_category_is_ignored() {
    let mut system = HookSystem::new();
    let a = HookBuilder::new().with_keyboard().build(&mut system).unwrap();
    assert!(a.complete(&mut system, false, true).is_none());
    assert!(!system.is_occupied());
}

#[test]
fn partial_registration_keeps_the_registered_part() {
    let mut system = HookSystem::new();
    let a = HookBuilder::new().with_keyboard().with_mouse().build(&mut system).unwrap();
    assert_eq!(a.listeners(), vec![HookCategory::Keyboard, HookCategory::Mouse]);
    let h = a.complete(&mut system, false, true).unwrap();
    assert_eq!(h.listeners(), vec![HookCategory::Mouse]);
    assert!(system.is_occupied());
}

#[test]
fn convenience_requests() {
    let mut system = HookSystem::new();
    let k = keyboard_hook(&mut system).unwrap();
    assert_eq!(k.listeners(), vec![HookCategory::Keyboard]);
    assert!(mouse_hook(&mut system).is_none());
    assert!(willhook(&mut system).is_none());
    assert!(k.complete(&mut system, false, true).is_none());
    let m = mouse_hook(&mut system).unwrap();
    assert_eq!(m.listeners(), vec![HookCategory::Mouse]);
    m.complete(&mut system, true, true).unwrap().release(&mut system);
    let both = willhook(&mut system).unwrap();
    assert_eq!(both.listeners(), vec![HookCategory::Keyboard, HookCategory::Mouse]);
}

#[test]
fn slot_acquire_and_release() {
    let mut slot = SessionSlot::new();
    assert!(!slot.is_occupied());
    assert!(slot.try_acquire());
    assert!(!slot.try_acquire());
    assert!(slot.is_occupied());
    slot.release();
    assert!(!slot.is_occupied());
    slot.release();
    assert!(slot.try_acquire());
}

#[test]
fn channel_is_first_in_first_out() {
    let mut channel = EventChannel::new();
    assert_eq!(channel.try_recv(), Err(TryRecvError::Empty));
    channel.send(KeyCode::Down);
    channel.send(KeyCode::Up);
    assert_eq!(channel.len(), 2);
    assert_eq!(channel.try_recv(), Ok(KeyCode::Down));
    assert_eq!(channel.len(), 1);
    assert_eq!(channel.try_recv(), Ok(KeyCode::Up));
    assert_eq!(channel.try_recv(), Err(TryRecvError::Empty));
}
