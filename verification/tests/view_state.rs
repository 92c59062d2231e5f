use pathfinder_view::config::Config;
use pathfinder_view::context::Context;
use pathfinder_view::fixed::ONE;
use pathfinder_view::geometry::{Rect, Vector};
use pathfinder_view::viewport::{DEFAULT_SCALE, MAX_SCALE, MAX_WINDOW_EXTENT, MIN_SCALE};

fn session() -> Context {
    Context::new(Config::new(), Vector::from_units(1, 1), Vector::from_units(10, -10))
}

fn units(n: i32) -> i64 {
    (n as i64) * ONE
}

#[test]
fn new_session_has_the_defaults() {
    let ctx = session();
    assert!(ctx.redraw_requested());
    assert!(ctx.scene_stale());
    assert!(!ctx.close_requested());
    assert_eq!(ctx.page_nr(), 0);
    assert_eq!(ctx.num_pages(), 1);
    assert_eq!(ctx.scale(), DEFAULT_SCALE);
    assert_eq!(ctx.scale(), 247695);
    assert_eq!(ctx.scale_factor(), ONE);
    assert_eq!(ctx.view_center(), Vector::zero());
    assert_eq!(ctx.window_size(), Vector::zero());
    assert_eq!(ctx.bounds(), None);
    assert_eq!(ctx.update_interval(), None);
    assert_eq!(ctx.pixel_scroll_factor(), Vector::from_units(1, 1));
    assert_eq!(ctx.line_scroll_factor(), Vector::from_units(10, -10));
    assert_eq!(ctx.config(), Config::new());
}

#[test]
fn prev_page_on_the_first_page_changes_nothing() {
    let mut ctx = session();
    ctx.set_num_pages(5);
    ctx.scene_fetched(Rect::default());
    ctx.presented();
    ctx.prev_page();
    assert_eq!(ctx.page_nr(), 0);
    assert!(!ctx.redraw_requested());
    assert!(!ctx.scene_stale());
}

#[test]
fn next_page_saturates_at_the_last_page() {
    let mut ctx = session();
    ctx.set_num_pages(5);
    ctx.scene_fetched(Rect::default());
    ctx.presented();
    let mut changes = 0;
    for _ in 0..5 {
        ctx.next_page();
        if ctx.redraw_requested() {
            changes += 1;
            assert!(ctx.scene_stale());
            ctx.scene_fetched(Rect::default());
            ctx.presented();
        }
    }
    assert_eq!(ctx.page_nr(), 4);
    assert_eq!(changes, 4);
}

#[test]
fn goto_page_clamps_to_the_last_page() {
    let mut ctx = session();
    ctx.set_num_pages(3);
    ctx.goto_page(usize::MAX);
    assert_eq!(ctx.page_nr(), 2);
    ctx.goto_page(1);
    assert_eq!(ctx.page_nr(), 1);
    ctx.goto_page(0);
    assert_eq!(ctx.page_nr(), 0);
}

#[test]
fn goto_page_twice_asks_for_one_repaint() {
    let mut ctx = session();
    ctx.set_num_pages(10);
    ctx.scene_fetched(Rect::default());
    ctx.presented();
    ctx.goto_page(7);
    assert!(ctx.redraw_requested());
    assert!(ctx.scene_stale());
    ctx.scene_fetched(Rect::default());
    ctx.presented();
    ctx.goto_page(7);
    assert_eq!(ctx.page_nr(), 7);
    assert!(!ctx.redraw_requested());
    assert!(!ctx.scene_stale());
}

#[test]
fn fewer_pages_bring_the_page_back_in_range() {
    let mut ctx = session();
    ctx.set_num_pages(10);
    ctx.goto_page(8);
    ctx.scene_fetched(Rect::default());
    ctx.presented();
    ctx.set_num_pages(4);
    assert_eq!(ctx.num_pages(), 4);
    assert_eq!(ctx.page_nr(), 3);
    assert!(ctx.scene_stale());
    assert!(ctx.redraw_requested());
    ctx.set_num_pages(0);
    assert_eq!(ctx.num_pages(), 1);
    assert_eq!(ctx.page_nr(), 0);
}

#[test]
fn more_pages_leave_the_page_alone() {
    let mut ctx = session();
    ctx.scene_fetched(Rect::default());
    ctx.presented();
    ctx.set_num_pages(4);
    assert_eq!(ctx.page_nr(), 0);
    assert!(!ctx.scene_stale());
    assert!(!ctx.redraw_requested());
}

#[test]
fn move_to_is_clamped_into_the_bounds() {
    let mut ctx = session();
    ctx.set_window_size(Vector::from_units(50, 50));
    ctx.set_scale(ONE);
    ctx.set_bounds(Rect::new(Vector::from_units(0, 0), Vector::from_units(100, 100)));
    ctx.move_to(Vector::from_units(200, 200));
    assert_eq!(ctx.view_center(), Vector::from_units(75, 75));
    ctx.move_to(Vector::from_units(-200, 40));
    assert_eq!(ctx.view_center(), Vector::from_units(25, 40));
}

#[test]
fn content_that_fits_is_centred() {
    let mut ctx = session();
    ctx.set_window_size(Vector::from_units(300, 50));
    ctx.set_scale(ONE);
    ctx.set_bounds(Rect::new(Vector::from_units(10, 0), Vector::from_units(100, 100)));
    ctx.move_to(Vector::from_units(0, 0));
    assert_eq!(ctx.view_center(), Vector::from_units(60, 25));
}

#[test]
fn view_stays_in_bounds_through_moves_and_zooms() {
    let mut ctx = session();
    ctx.set_window_size(Vector::from_units(50, 80));
    ctx.set_scale(ONE);
    let bounds = Rect::new(Vector::from_units(-20, 10), Vector::from_units(100, 60));
    ctx.set_bounds(bounds);
    let moves = [(500, 0), (-900, 35), (3, -700), (0, 0), (77, 77)];
    let zooms = [2 * ONE, ONE / 4, 3 * ONE, ONE / 2, ONE];
    for i in 0..5 {
        ctx.move_by(Vector::from_units(moves[i].0, moves[i].1));
        ctx.zoom_by(zooms[i]);
        let c = ctx.view_center();
        let w = ctx.window_size();
        let s = ctx.scale() as i128;
        let extent_x = (w.x as i128 * ONE as i128) / s;
        let extent_y = (w.y as i128 * ONE as i128) / s;
        let (lo_x, hi_x) = (bounds.origin.x as i128, bounds.lower_right.x as i128);
        let (lo_y, hi_y) = (bounds.origin.y as i128, bounds.lower_right.y as i128);
        if extent_x >= hi_x - lo_x {
            assert_eq!(c.x as i128, lo_x + (hi_x - lo_x) / 2);
        } else {
            assert!(2 * lo_x + extent_x <= 2 * c.x as i128);
            assert!(2 * c.x as i128 + extent_x <= 2 * hi_x);
        }
        if extent_y >= hi_y - lo_y {
            assert_eq!(c.y as i128, lo_y + (hi_y - lo_y) / 2);
        } else {
            assert!(2 * lo_y + extent_y <= 2 * c.y as i128);
            assert!(2 * c.y as i128 + extent_y <= 2 * hi_y);
        }
    }
}

#[test]
fn without_bounds_panning_is_free() {
    let mut ctx = session();
    ctx.move_to(Vector::from_units(200, -300));
    assert_eq!(ctx.view_center(), Vector::from_units(200, -300));
    ctx.move_by(Vector::from_units(1, 2));
    assert_eq!(ctx.view_center(), Vector::from_units(201, -298));
    ctx.move_to(Vector::new(i64::MAX, i64::MIN));
    ctx.move_by(Vector::new(5, -5));
    assert_eq!(ctx.view_center(), Vector::new(i64::MAX, i64::MIN));
}

#[test]
fn set_bounds_asks_for_a_repaint_only_where_the_view_moves() {
    let mut ctx = session();
    ctx.set_window_size(Vector::from_units(50, 50));
    ctx.set_scale(ONE);
    ctx.move_to(Vector::from_units(40, 40));
    ctx.presented();
    ctx.set_bounds(Rect::new(Vector::from_units(0, 0), Vector::from_units(100, 100)));
    assert_eq!(ctx.view_center(), Vector::from_units(40, 40));
    assert!(!ctx.redraw_requested());
    ctx.set_bounds(Rect::new(Vector::from_units(100, 100), Vector::from_units(100, 100)));
    assert_eq!(ctx.view_center(), Vector::from_units(125, 125));
    assert!(ctx.redraw_requested());
    assert_eq!(
        ctx.bounds(),
        Some(Rect::from_points(Vector::from_units(100, 100), Vector::from_units(200, 200)))
    );
}

#[test]
fn huge_view_box_is_capped() {
    let mut ctx = session();
    ctx.set_view_box(Rect::new(Vector::from_units(0, 0), Vector::from_units(10000, 10000)));
    assert_eq!(ctx.window_size(), Vector::from_units(500, 500));
    assert_eq!(ctx.window_size().x, MAX_WINDOW_EXTENT);
    assert_eq!(ctx.scale(), 12384);
    assert!(ctx.redraw_requested());
}

#[test]
fn capping_keeps_the_shape_of_the_window() {
    let mut ctx = session();
    ctx.set_view_box(Rect::new(Vector::from_units(5, 5), Vector::from_units(2000, 1000)));
    assert_eq!(ctx.window_size(), Vector::from_units(500, 250));
    assert_eq!(ctx.scale(), (247695 * 500) / 2000);
}

#[test]
fn small_view_box_is_taken_as_it_is() {
    let mut ctx = session();
    ctx.set_view_box(Rect::new(Vector::from_units(0, 0), Vector::from_units(100, 500)));
    assert_eq!(ctx.window_size(), Vector::from_units(100, 500));
    assert_eq!(ctx.scale(), DEFAULT_SCALE);
    ctx.set_view_box(Rect::from_points(Vector::from_units(9, 9), Vector::from_units(1, 1)));
    assert_eq!(ctx.window_size(), Vector::zero());
}

#[test]
fn zoom_by_multiplies_the_scale() {
    let mut ctx = session();
    ctx.presented();
    ctx.zoom_by(2 * ONE);
    assert_eq!(ctx.scale(), 2 * 247695);
    assert!(ctx.redraw_requested());
    ctx.zoom_by(ONE / 2);
    assert_eq!(ctx.scale(), 247695);
    ctx.zoom_by(75281);
    assert_eq!(ctx.scale(), 284526);
}

#[test]
fn zoom_is_held_in_range() {
    let mut ctx = session();
    ctx.zoom_by(0);
    assert_eq!(ctx.scale(), MIN_SCALE);
    ctx.set_zoom(-5);
    assert_eq!(ctx.scale(), MIN_SCALE);
    ctx.set_zoom(i64::MAX);
    assert_eq!(ctx.scale(), MAX_SCALE);
    ctx.zoom_by(i64::MAX);
    assert_eq!(ctx.scale(), MAX_SCALE);
    ctx.set_scale(i64::MIN);
    assert_eq!(ctx.scale(), 1);
    ctx.set_scale_factor(0);
    assert_eq!(ctx.scale_factor(), 1);
}

#[test]
fn set_zoom_to_the_zoom_in_force_changes_nothing() {
    let mut ctx = session();
    ctx.presented();
    ctx.set_zoom(DEFAULT_SCALE);
    assert!(!ctx.redraw_requested());
    ctx.set_zoom(units(2));
    assert_eq!(ctx.scale(), units(2));
    assert!(ctx.redraw_requested());
}

#[test]
fn set_scale_asks_for_no_repaint() {
    let mut ctx = session();
    ctx.presented();
    ctx.set_scale(units(3));
    assert_eq!(ctx.scale(), units(3));
    assert!(!ctx.redraw_requested());
}

#[test]
fn window_and_density_ask_for_a_repaint() {
    let mut ctx = session();
    ctx.presented();
    ctx.set_window_size(Vector::from_units(640, -1));
    assert_eq!(ctx.window_size(), Vector::new(units(640), 0));
    assert!(ctx.redraw_requested());
    ctx.presented();
    ctx.set_scale_factor(98304);
    assert_eq!(ctx.scale_factor(), 98304);
    assert!(ctx.redraw_requested());
}

#[test]
fn flags_are_set_and_cleared() {
    let mut ctx = session();
    ctx.scene_fetched(Rect::default());
    assert!(!ctx.scene_stale());
    assert!(ctx.redraw_requested());
    ctx.presented();
    assert!(!ctx.redraw_requested());
    ctx.update_scene();
    assert!(ctx.scene_stale());
    assert!(!ctx.redraw_requested());
    ctx.request_redraw();
    assert!(ctx.redraw_requested());
    assert!(!ctx.close_requested());
    ctx.close();
    assert!(ctx.close_requested());
    ctx.set_update_interval(Some(16));
    assert_eq!(ctx.update_interval(), Some(16));
    ctx.set_update_interval(None);
    assert_eq!(ctx.update_interval(), None);
}

#[test]
fn zoom_and_its_reciprocal_come_back_within_rounding() {
    for start in [1, 7, ONE, DEFAULT_SCALE, 1000 * ONE, MAX_SCALE / 4] {
        for (f, g) in [(2 * ONE, ONE / 2), (75281, 57052), (ONE, ONE), (3 * ONE, 21845)] {
            let mut ctx = session();
            ctx.set_scale(start);
            ctx.zoom_by(f);
            let between = ctx.scale();
            ctx.zoom_by(g);
            let back = ctx.scale();
            if between == (start as i128 * f as i128 / ONE as i128) as i64
                && (between as i128 * g as i128) / ONE as i128 >= 1
            {
                let one = ONE as i128 * ONE as i128;
                let lost = (start - back) as i128;
                assert!(back <= start);
                assert!(
                    lost * one
                        < start as i128 * (one - f as i128 * g as i128) + g as i128 * ONE as i128 + one
                );
            }
        }
    }
    let mut ctx = session();
    ctx.zoom_by(75281);
    ctx.zoom_by(57052);
    assert_eq!(ctx.scale(), 247692);
}

#[test]
fn send_changes_nothing() {
    let mut ctx = session();
    ctx.presented();
    ctx.send(vec![1, 2, 3]);
    assert!(!ctx.redraw_requested());
    assert!(ctx.scene_stale());
    assert_eq!(ctx.page_nr(), 0);
}
