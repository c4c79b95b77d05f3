use ruffle_web::geometry::scale_coord;
use ruffle_web::geometry::viewport_len;
use ruffle_web::HostView;
use ruffle_web::Pool;
use ruffle_web::Ruffle;
use ruffle_web::Viewport;

#[test]
fn first_tick_zero_dt_and_initial_resize() {
    let mut pool = Pool::new();
    let h = Ruffle::new(&mut pool, 1000, true).unwrap();
    let host = HostView { width: 800, height: 600, ratio_milli: 1000 };
    // Stored geometry starts at zero, so the first tick always detects drift.
    let o = h.tick(&mut pool, 0, host);
    assert_eq!(o.advance, Some(0));
    assert_eq!(o.resize, Some(Viewport { width: 800, height: 600 }));
    assert!(o.rearm);
    // Unchanged readings on the second tick: no resize, no forced render.
    let o2 = h.tick(&mut pool, 16_000, host);
    assert_eq!(o2.advance, Some(16_000));
    assert_eq!(o2.resize, None);
    assert!(o2.rearm);
}

#[test]
fn dt_is_exact_difference_of_timestamps() {
    let mut pool = Pool::new();
    let h = Ruffle::new(&mut pool, 1000, true).unwrap();
    let host = HostView { width: 100, height: 100, ratio_milli: 1000 };
    assert_eq!(h.tick(&mut pool, 5_000, host).advance, Some(0));
    assert_eq!(h.tick(&mut pool, 12_500, host).advance, Some(7_500));
    assert_eq!(h.tick(&mut pool, 40_000, host).advance, Some(27_500));
}

#[test]
fn no_resize_while_geometry_unchanged() {
    let mut pool = Pool::new();
    let h = Ruffle::new(&mut pool, 1000, true).unwrap();
    let host = HostView { width: 320, height: 240, ratio_milli: 1000 };
    assert!(h.tick(&mut pool, 0, host).resize.is_some());
    assert_eq!(h.tick(&mut pool, 10, host).resize, None);
    assert_eq!(h.tick(&mut pool, 20, host).resize, None);
}

#[test]
fn any_geometry_change_resizes() {
    let mut pool = Pool::new();
    let h = Ruffle::new(&mut pool, 1000, true).unwrap();
    let base = HostView { width: 800, height: 600, ratio_milli: 1000 };
    h.tick(&mut pool, 0, base);
    // Width alone.
    let wider = HostView { width: 810, ..base };
    assert_eq!(
        h.tick(&mut pool, 10, wider).resize,
        Some(Viewport { width: 810, height: 600 })
    );
    // Height alone.
    let taller = HostView { height: 610, ..wider };
    assert_eq!(
        h.tick(&mut pool, 20, taller).resize,
        Some(Viewport { width: 810, height: 610 })
    );
    // Pixel ratio alone: dimensions are scaled and rounded down.
    let zoomed = HostView { ratio_milli: 1500, ..taller };
    assert_eq!(
        h.tick(&mut pool, 30, zoomed).resize,
        Some(Viewport { width: 1215, height: 915 })
    );
    // The stored geometry mirrors the host values afterwards.
    let inst = pool.get(&h).unwrap();
    assert_eq!(inst.canvas_width, 810);
    assert_eq!(inst.canvas_height, 610);
    assert_eq!(inst.ratio_milli, 1500);
}

#[test]
fn viewport_dimensions_round_down() {
    // floor(799 * 1.25) == 998, floor(801 * 0.75) == 600.
    assert_eq!(viewport_len(799, 1250), 998);
    assert_eq!(viewport_len(801, 750), 600);
    assert_eq!(viewport_len(0, 2000), 0);
    assert_eq!(viewport_len(-5, 2000), 0);
    assert_eq!(viewport_len(i32::MAX, u32::MAX), u32::MAX);
}

#[test]
fn scaled_coordinates_are_exact_thousandths() {
    assert_eq!(scale_coord(10, 2000), 20_000);
    assert_eq!(scale_coord(-10, 1500), -15_000);
    assert_eq!(scale_coord(0, 3000), 0);
    assert_eq!(scale_coord(i32::MAX, u32::MAX), i32::MAX as i64 * u32::MAX as i64);
}

#[test]
fn tick_clears_token_until_host_reports_it() {
    let mut pool = Pool::new();
    let h = Ruffle::new(&mut pool, 1000, true).unwrap();
    let host = HostView { width: 100, height: 100, ratio_milli: 1000 };
    h.tick(&mut pool, 0, host);
    assert_eq!(pool.get(&h).unwrap().frame_token, None);
    h.store_frame_token(&mut pool, 3);
    assert_eq!(pool.get(&h).unwrap().frame_token, Some(3));
    // The next tick clears it again until the new registration is reported.
    h.tick(&mut pool, 10, host);
    assert_eq!(pool.get(&h).unwrap().frame_token, None);
    // Zero is not a valid token and leaves none pending.
    h.store_frame_token(&mut pool, 0);
    assert_eq!(pool.get(&h).unwrap().frame_token, None);
}
