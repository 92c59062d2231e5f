use pathfinder_geometry::vector::Vector2I;
use pathfinder_view::config::{Color, Config, RenderLevel};
use pathfinder_view::context::Context;
use pathfinder_view::fixed::{floor_div, mul_div_floor, saturate, ONE};
use pathfinder_view::geometry::{IntVector, Rect, Vector};
use pathfinder_view::icon::Icon;
use pathfinder_view::input::ElementState::{Pressed, Released};
use pathfinder_view::input::{ElementState, KeyEvent, Modifiers};
use pathfinder_view::keys::{virtual_key_code, KeyCode};
use pathfinder_view::producer::{
    find_default_binding, keyboard_input, title, view_box, window_size_hint, KeyAction,
};
use pathfinder_view::transform::ViewTransform;
use pathfinder_view::util::{framebuffer_size, round_to_16, round_v_to_16};
use pathfinder_view::viewport::Viewport;

fn session() -> Context {
    let mut ctx = Context::new(Config::new(), Vector::from_units(1, 1), Vector::from_units(10, -10));
    ctx.set_num_pages(5);
    ctx.scene_fetched(Rect::default());
    ctx.presented();
    ctx
}

fn key(keycode: KeyCode, ctrl: bool, state: ElementState) -> KeyEvent {
    KeyEvent::new(state, Modifiers { shift: false, ctrl, alt: false, meta: false }, keycode)
}

#[test]
fn arithmetic_rounds_down_and_saturates() {
    assert_eq!(mul_div_floor(7, 3, 2), 10);
    assert_eq!(mul_div_floor(-7, 3, 2), -11);
    assert_eq!(mul_div_floor(7, -3, 2), -11);
    assert_eq!(mul_div_floor(-7, -3, 2), 10);
    assert_eq!(mul_div_floor(i64::MAX, i64::MAX, 1), (i64::MAX as i128) * (i64::MAX as i128));
    assert_eq!(floor_div(-1, 65536), -1);
    assert_eq!(floor_div(-65536, 65536), -1);
    assert_eq!(floor_div(65535, 65536), 0);
    assert_eq!(saturate(i64::MAX as i128 + 1), i64::MAX);
    assert_eq!(saturate(i64::MIN as i128 - 1), i64::MIN);
    assert_eq!(saturate(-12), -12);
}

#[test]
fn vectors_and_rectangles() {
    let a = Vector::from_units(3, -4);
    assert_eq!(a, Vector::new(3 * ONE, -4 * ONE));
    assert!(!a.is_zero());
    assert!(Vector::zero().is_zero());
    assert_eq!(Vector::default(), Vector::zero());
    assert_eq!(a.saturating_add(Vector::new(1, 1)), Vector::new(3 * ONE + 1, -4 * ONE + 1));
    assert_eq!(a.saturating_sub(Vector::new(1, 1)), Vector::new(3 * ONE - 1, -4 * ONE - 1));
    assert_eq!(Vector::new(i64::MAX, i64::MIN).saturating_add(Vector::new(1, -1)), Vector::new(i64::MAX, i64::MIN));
    assert_eq!(Vector::new(i64::MIN, i64::MAX).saturating_sub(Vector::new(1, -1)), Vector::new(i64::MIN, i64::MAX));
    assert_eq!(a.scale(1, 2), Vector::new(3 * ONE / 2, -2 * ONE));
    assert_eq!(Vector::new(5, -5).scale(1, 2), Vector::new(2, -3));
    assert_eq!(a.multiply(Vector::from_units(10, -10)), Vector::from_units(30, 40));
    assert_eq!(Vector::new(ONE + 1, -ONE - 1).to_int(), IntVector::new(1, -1));
    assert_eq!(Vector::new(i64::MAX, i64::MIN).to_int(), IntVector::new(i32::MAX, i32::MIN));
    let r = Rect::new(Vector::from_units(1, 2), Vector::from_units(10, 20));
    assert_eq!(r, Rect::from_points(Vector::from_units(1, 2), Vector::from_units(11, 22)));
    assert_eq!(r.origin(), Vector::from_units(1, 2));
    assert_eq!(r.lower_right(), Vector::from_units(11, 22));
    assert_eq!(r.size(), Vector::from_units(10, 20));
    assert!(!r.is_default());
    assert!(Rect::default().is_default());
    assert_eq!(
        Rect::new(Vector::new(i64::MAX - 1, 0), Vector::new(5, 0)).lower_right(),
        Vector::new(i64::MAX, 0)
    );
}

#[test]
fn transform_maps_there_and_back() {
    let t = ViewTransform {
        zoom: 2 * ONE,
        window_anchor: Vector::from_units(50, 30),
        scene_anchor: Vector::from_units(10, 20),
    };
    assert_eq!(t.to_device(Vector::new(15 * ONE, 0)), Vector::new(3932160, -655360));
    assert_eq!(t.to_scene(Vector::new(60 * ONE, 1)), Vector::new(983040, 327680));
    for p in [0, 1, -1, 12345, -98765, 7 * ONE + 3] {
        let there = t.to_device(Vector::new(p, -p));
        let back = t.to_scene(there);
        assert!(p - back.x >= 0 && p - back.x <= 1);
        assert!(-p - back.y >= 0 && -p - back.y <= 1);
    }
    let far = ViewTransform { zoom: ONE / 8, window_anchor: Vector::zero(), scene_anchor: Vector::zero() };
    for p in [0, 5, -5, 1000, -1001] {
        let back = far.to_scene(far.to_device(Vector::new(p, p)));
        assert!(p - back.x >= 0 && p - back.x <= 9);
        let q = far.to_device(far.to_scene(Vector::new(p, p)));
        assert!(p - q.x >= 0 && p - q.x <= 1);
    }
    assert_eq!(
        t.to_device(Vector::new(i64::MAX, i64::MIN)),
        Vector::new(i64::MAX, i64::MIN)
    );
}

#[test]
fn view_transform_follows_the_settings() {
    let mut view = Viewport::new().set_window_size(Vector::from_units(100, 60));
    view = view.set_scale_factor(98304);
    view = view.move_to(Vector::from_units(7, 8));
    assert_eq!(
        view.view_transform(true),
        ViewTransform {
            zoom: 371542,
            window_anchor: Vector::from_units(50, 30),
            scene_anchor: Vector::from_units(7, 8),
        }
    );
    assert_eq!(
        view.view_transform(false),
        ViewTransform { zoom: 371542, window_anchor: Vector::zero(), scene_anchor: Vector::zero() }
    );
    let held = view.set_bounds(Rect::new(Vector::from_units(-3, 4), Vector::from_units(1, 1)));
    assert_eq!(held.view_transform(false).scene_anchor, Vector::from_units(-3, 4));
    assert_eq!(held.sanity_check(), held);
    assert_eq!(held.check_bounds(), held);
}

#[test]
fn rounding_to_tiles() {
    for (i, r) in [(0, 0), (1, 16), (16, 16), (17, 32), (-1, 0), (-17, -16), (100, 112)] {
        assert_eq!(round_to_16(i), r);
    }
    assert_eq!(round_to_16(i32::MAX - 15), i32::MAX - 15);
    let rounded = round_v_to_16(Vector2I::new(600, 401));
    assert_eq!((rounded.x(), rounded.y()), (608, 416));
    let rounded = round_v_to_16(Vector2I::new(-17, 0));
    assert_eq!((rounded.x(), rounded.y()), (-16, 0));
    let pixels = |size: Vector| framebuffer_size(size).map(|v| (v.x(), v.y()));
    assert_eq!(pixels(Vector::from_units(600, 400)), Some((608, 400)));
    assert_eq!(pixels(Vector::new(600 * ONE + 9, ONE)), Some((608, 16)));
    assert_eq!(pixels(Vector::new(ONE - 1, ONE)), None);
    assert_eq!(pixels(Vector::from_units(-5, 5)), None);
    assert_eq!(pixels(Vector::new(i64::MAX, ONE)), None);
}

#[test]
fn key_names() {
    assert_eq!(virtual_key_code("PageDown"), Some(KeyCode::PageDown));
    assert_eq!(virtual_key_code("PageUp"), Some(KeyCode::PageUp));
    assert_eq!(virtual_key_code("Digit1"), Some(KeyCode::Key1));
    assert_eq!(virtual_key_code("Digit0"), Some(KeyCode::Key0));
    assert_eq!(virtual_key_code("KeyQ"), Some(KeyCode::Q));
    assert_eq!(virtual_key_code("F24"), Some(KeyCode::F24));
    assert_eq!(virtual_key_code("Escape"), Some(KeyCode::Escape));
    assert_eq!(virtual_key_code("ArrowLeft"), Some(KeyCode::Left));
    assert_eq!(virtual_key_code("Enter"), Some(KeyCode::Return));
    assert_eq!(virtual_key_code("NumLock"), Some(KeyCode::Numlock));
    assert_eq!(virtual_key_code("NumpadAdd"), Some(KeyCode::NumpadAdd));
    assert_eq!(virtual_key_code("Quote"), Some(KeyCode::Apostrophe));
    assert_eq!(virtual_key_code("LaunchMyComputer"), Some(KeyCode::MyComputer));
    assert_eq!(virtual_key_code("NavigateForward"), Some(KeyCode::NavigateForward));
    assert_eq!(virtual_key_code("AudioVolumeUp"), Some(KeyCode::VolumeUp));
    assert_eq!(virtual_key_code("Yen"), Some(KeyCode::Yen));
    assert_eq!(virtual_key_code("pagedown"), None);
    assert_eq!(virtual_key_code("PageDown "), None);
    assert_eq!(virtual_key_code(""), None);
    assert_eq!(virtual_key_code("Key1"), None);
}

#[test]
fn default_bindings() {
    assert_eq!(find_default_binding(&key(KeyCode::PageDown, false, Pressed)), Some(KeyAction::NextPage));
    assert_eq!(find_default_binding(&key(KeyCode::PageUp, false, Pressed)), Some(KeyAction::PrevPage));
    assert_eq!(find_default_binding(&key(KeyCode::Key1, true, Pressed)), Some(KeyAction::ZoomIn));
    assert_eq!(find_default_binding(&key(KeyCode::Key2, true, Pressed)), Some(KeyAction::ZoomOut));
    assert_eq!(find_default_binding(&key(KeyCode::Key0, true, Pressed)), Some(KeyAction::ResetZoom));
    assert_eq!(find_default_binding(&key(KeyCode::PageDown, true, Pressed)), None);
    assert_eq!(find_default_binding(&key(KeyCode::Key1, false, Pressed)), None);
    assert_eq!(find_default_binding(&key(KeyCode::PageDown, false, Released)), None);
    assert_eq!(find_default_binding(&key(KeyCode::A, true, Pressed)), None);
    let held = Modifiers { shift: true, ctrl: false, alt: false, meta: false };
    assert_eq!(find_default_binding(&KeyEvent::new(Pressed, held, KeyCode::PageUp)), None);
    assert!(Modifiers::none().is_empty());
    assert!(!held.is_empty());
}

#[test]
fn bound_keys_act_and_cancel() {
    let mut ctx = session();
    let mut event = key(KeyCode::PageDown, false, Pressed);
    keyboard_input(&mut ctx, &mut event);
    assert!(event.cancelled);
    assert_eq!(ctx.page_nr(), 1);
    let mut event = key(KeyCode::PageUp, false, Pressed);
    keyboard_input(&mut ctx, &mut event);
    assert!(event.cancelled);
    assert_eq!(ctx.page_nr(), 0);
    let mut event = key(KeyCode::Key1, true, Pressed);
    keyboard_input(&mut ctx, &mut event);
    assert!(event.cancelled);
    assert_eq!(ctx.scale(), 284526);
    let mut event = key(KeyCode::Key2, true, Pressed);
    keyboard_input(&mut ctx, &mut event);
    assert_eq!(ctx.scale(), 247692);
    let mut event = key(KeyCode::Key0, true, Pressed);
    keyboard_input(&mut ctx, &mut event);
    assert!(event.cancelled);
    assert_eq!(ctx.scale(), 247695);
    ctx.presented();
    let mut event = key(KeyCode::PageDown, false, Released);
    keyboard_input(&mut ctx, &mut event);
    assert!(!event.cancelled);
    assert_eq!(ctx.page_nr(), 0);
    assert!(!ctx.redraw_requested());
}

#[test]
fn producer_defaults() {
    assert_eq!(title(), "A fantastic window!");
    let boxed = Rect::new(Vector::from_units(5, 5), Vector::from_units(100, 50));
    assert_eq!(window_size_hint(boxed), Some(Vector::from_units(100, 50)));
    assert_eq!(window_size_hint(Rect::new(Vector::from_units(5, 5), Vector::zero())), None);
    assert_eq!(window_size_hint(Rect::new(Vector::zero(), Vector::new(0, 1))), Some(Vector::new(0, 1)));
    let drawn = Rect::new(Vector::from_units(1, 1), Vector::from_units(2, 2));
    assert_eq!(view_box(boxed, drawn), boxed);
    assert_eq!(view_box(Rect::default(), drawn), drawn);
}

#[test]
fn icon_wants_four_bytes_to_the_pixel() {
    let icon = Icon::from_rgba(vec![7; 24], 3, 2).expect("six pixels");
    assert_eq!(icon.width(), 3);
    assert_eq!(icon.height(), 2);
    assert_eq!(icon.data(), &vec![7; 24]);
    assert_eq!(icon.into_rgba(), (vec![7; 24], 3, 2));
    assert!(Icon::from_rgba(vec![7; 23], 3, 2).is_none());
    assert!(Icon::from_rgba(vec![7; 24], 2, 2).is_none());
    assert!(Icon::from_rgba(Vec::new(), 0, 9).is_some());
    assert!(Icon::from_rgba(vec![0; 4], u32::MAX, u32::MAX).is_none());
}

#[test]
fn icon_of_a_buffer_keeps_the_pixels() {
    let icon = Icon::from_buffer(vec![1, 2, 3, 4, 5, 6, 7, 8, 9], 2, 1).expect("two pixels");
    assert_eq!(icon.into_rgba(), (vec![1, 2, 3, 4, 5, 6, 7, 8], 2, 1));
    let icon = Icon::from_buffer(vec![1, 2, 3, 4], 1, 1).expect("one pixel");
    assert_eq!(icon.into_rgba(), (vec![1, 2, 3, 4], 1, 1));
    assert!(Icon::from_buffer(vec![1, 2, 3], 1, 1).is_none());
    assert!(Icon::from_buffer(vec![0; 8], u32::MAX, 2).is_none());
    let image = image::RgbaImage::from_raw(1, 2, vec![9; 11]).expect("room for two pixels");
    let (width, height) = image.dimensions();
    let icon = Icon::from_buffer(image.into_vec(), width, height).expect("two pixels");
    assert_eq!(icon.into_rgba(), (vec![9; 8], 1, 2));
}

#[test]
fn icon_waits_in_the_session() {
    let mut ctx = session();
    assert!(ctx.take_icon().is_none());
    ctx.set_icon(Icon::from_rgba(vec![1, 2, 3, 4], 1, 1).expect("one pixel"));
    let icon = ctx.take_icon().expect("the icon that was set");
    assert_eq!(icon.into_rgba(), (vec![1, 2, 3, 4], 1, 1));
    assert!(ctx.take_icon().is_none());
    assert_eq!(ctx.page_nr(), 0);
    assert_eq!(ctx.num_pages(), 5);
}

#[test]
fn config_defaults() {
    let config = Config::new();
    assert!(config.zoom && config.pan && config.borders && config.threads);
    assert!(!config.transparent);
    assert_eq!(config.background, Color::white());
    assert_eq!(config.background, Color { r: 255, g: 255, b: 255, a: 255 });
    assert_eq!(config.render_level, RenderLevel::D3D9);
}
