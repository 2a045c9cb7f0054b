//! Tests of the request correlation object and its arena.

use completion_bridge::request::Request;
use completion_bridge::request::RequestArena;

#[test]
fn fresh_request_is_blank() {
    let r = Request::new();
    assert_eq!(r.waker, None);
    assert!(!r.woken);
    assert_eq!(r.length, None);
}

#[test]
fn fire_hands_out_registered_waker() {
    let mut r = Request::new();
    r.register_waker(5);
    assert_eq!(r.fire_completion(None), Some(5));
    assert!(r.woken);
}

#[test]
fn fire_twice_wakes_at_most_once() {
    let mut r = Request::new();
    r.register_waker(5);
    assert_eq!(r.fire_completion(None), Some(5));
    assert_eq!(r.fire_completion(None), None);
    assert_eq!(r.fire_completion(Some(3)), None);
}

#[test]
fn fire_before_registration_wakes_nothing() {
    let mut r = Request::new();
    assert_eq!(r.fire_completion(None), None);
    // the request is already woken: a late registration is kept, but a
    // second completion still hands out nothing
    r.register_waker(8);
    assert_eq!(r.fire_completion(None), None);
}

#[test]
fn fire_stores_reported_length_once() {
    let mut r = Request::new();
    r.register_waker(2);
    assert_eq!(r.fire_completion(Some(64)), Some(2));
    assert_eq!(r.length, Some(64));
    assert_eq!(r.fire_completion(Some(99)), None);
    assert_eq!(r.length, Some(64));
}

#[test]
fn arena_indices_are_stable() {
    let mut arena = RequestArena::new();
    assert_eq!(arena.slot_count(), 0);
    let a = arena.allocate();
    let b = arena.allocate();
    assert_eq!(a, 0);
    assert_eq!(b, 1);
    assert!(arena.live(a));
    assert!(arena.live(b));
    assert_eq!(arena.slot_count(), 2);
}

#[test]
fn arena_complete_wakes_registered_task() {
    let mut arena = RequestArena::new();
    let idx = arena.allocate();
    arena.register_waker(idx, 41);
    assert_eq!(arena.complete(idx, None), Some(41));
}

#[test]
fn arena_complete_twice_wakes_at_most_once() {
    let mut arena = RequestArena::new();
    let idx = arena.allocate();
    arena.register_waker(idx, 41);
    assert_eq!(arena.complete(idx, None), Some(41));
    assert_eq!(arena.complete(idx, None), None);
}

#[test]
fn arena_checks_index_validity() {
    let mut arena = RequestArena::new();
    assert_eq!(arena.complete(3, None), None);
    assert!(!arena.live(3));
    assert!(arena.release(3).is_none());
}

#[test]
fn released_slot_is_dead() {
    let mut arena = RequestArena::new();
    let idx = arena.allocate();
    arena.register_waker(idx, 12);
    let req = arena.release(idx).expect("slot was live");
    assert_eq!(req.waker, Some(12));
    assert!(!arena.live(idx));
    // a late completion event on the released slot wakes nothing
    assert_eq!(arena.complete(idx, Some(7)), None);
}

#[test]
fn release_returns_completion_length() {
    let mut arena = RequestArena::new();
    let idx = arena.allocate();
    arena.register_waker(idx, 1);
    assert_eq!(arena.complete(idx, Some(200)), Some(1));
    let req = arena.release(idx).expect("slot was live");
    assert_eq!(req.length, Some(200));
    assert!(req.woken);
}
