use ruffle_web::destroy_result;
use ruffle_web::HostView;
use ruffle_web::Pool;
use ruffle_web::Ruffle;

#[test]
fn create_inserts_initial_instance() {
    let mut pool = Pool::new();
    let h = Ruffle::new(&mut pool, 1500, true).unwrap();
    let inst = pool.get(&h).unwrap();
    assert_eq!(inst.canvas_width, 0);
    assert_eq!(inst.canvas_height, 0);
    assert_eq!(inst.ratio_milli, 1500);
    assert_eq!(inst.timestamp, None);
    assert_eq!(inst.frame_token, None);
    assert!(inst.handler_installed);
    assert!(!inst.has_focus);
    assert!(inst.subscriptions.pointer_move);
    assert!(inst.subscriptions.pointer_down);
    assert!(inst.subscriptions.global_pointer_down);
    assert!(inst.subscriptions.pointer_up);
    assert!(inst.subscriptions.key_down);
    assert!(inst.subscriptions.key_up);
}

#[test]
fn create_failure_leaves_no_instance() {
    let mut pool = Pool::new();
    let r = Ruffle::new(&mut pool, 1000, false);
    assert!(r.is_err());
    // The pool is untouched: a later create still works normally.
    let h = Ruffle::new(&mut pool, 1000, true).unwrap();
    assert!(pool.get(&h).is_some());
}

#[test]
fn handles_unique_while_live() {
    let mut pool = Pool::new();
    let h1 = Ruffle::new(&mut pool, 1000, true).unwrap();
    let h2 = Ruffle::new(&mut pool, 1000, true).unwrap();
    assert!(h1 != h2);
    // Removing one instance leaves the other reachable under its own handle.
    assert!(h1.destroy(&mut pool).is_some());
    assert!(pool.get(&h2).is_some());
    // A handle issued after a destroy still aliases no live instance.
    let h3 = Ruffle::new(&mut pool, 1000, true).unwrap();
    assert!(h3 != h2);
    assert!(pool.get(&h2).is_some());
    assert!(pool.get(&h3).is_some());
}

#[test]
fn destroy_is_idempotent() {
    let mut pool = Pool::new();
    let h = Ruffle::new(&mut pool, 1000, true).unwrap();
    assert!(h.destroy(&mut pool).is_some());
    // The second destroy is a no-op, not an error.
    assert!(h.destroy(&mut pool).is_none());
    assert!(h.destroy(&mut pool).is_none());
}

#[test]
fn destroy_returns_pending_frame_token() {
    let mut pool = Pool::new();
    let h = Ruffle::new(&mut pool, 1000, true).unwrap();
    let host = HostView { width: 640, height: 480, ratio_milli: 1000 };
    let o = h.tick(&mut pool, 0, host);
    assert!(o.rearm);
    h.store_frame_token(&mut pool, 9);
    let teardown = h.destroy(&mut pool).unwrap();
    assert_eq!(teardown.cancel_frame, Some(9));
    assert!(teardown.revoke.pointer_move);
    assert!(teardown.revoke.key_up);
    // No further tick can have any effect for the former handle.
    let after = h.tick(&mut pool, 16_000, host);
    assert_eq!(after.advance, None);
    assert_eq!(after.resize, None);
    assert!(!after.rearm);
}

#[test]
fn destroy_without_pending_token_names_none() {
    let mut pool = Pool::new();
    let h = Ruffle::new(&mut pool, 1000, true).unwrap();
    let teardown = h.destroy(&mut pool).unwrap();
    assert_eq!(teardown.cancel_frame, None);
}

#[test]
fn cancellation_outcome_maps_to_destroy_result() {
    assert!(destroy_result(false).is_ok());
    assert!(destroy_result(true).is_err());
}
