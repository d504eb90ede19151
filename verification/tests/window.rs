use gpui_ios::events::{
    Modifiers, MouseButton, MouseDownEvent, MouseMoveEvent, MouseUpEvent, PlatformInput,
};
use gpui_ios::geometry::{Bounds, Pixels, Point, ScaleFactor, Size};
use gpui_ios::window::{
    initial_bounds, AnyWindowHandle, Capslock, IosWindow, ObjectPtr, Touch, TouchPhase,
    WindowAppearance, WindowBackgroundAppearance, WindowBounds, WindowParams,
};

type Window = IosWindow<&'static str, u8>;

fn px(value: f32) -> Pixels {
    Pixels { bits: value.to_bits() }
}

fn point(x: f32, y: f32) -> Point<Pixels> {
    Point { x: px(x), y: px(y) }
}

fn rect(x: f32, y: f32, width: f32, height: f32) -> Bounds<Pixels> {
    Bounds { origin: point(x, y), size: Size { width: px(width), height: px(height) } }
}

fn object(address: usize) -> ObjectPtr {
    ObjectPtr { address }
}

fn touch(x: f32, y: f32, tap_count: usize) -> Touch {
    Touch { position: point(x, y), tap_count }
}

fn display() -> Bounds<Pixels> {
    rect(0.0, 0.0, 1024.0, 768.0)
}

fn new_window() -> Window {
    IosWindow::new(
        AnyWindowHandle { id: 9 },
        &WindowParams { bounds: None },
        display(),
        ScaleFactor { bits: 2.0f32.to_bits() },
        object(16),
        object(32),
    )
}

#[test]
fn object_zero_is_null() {
    assert!(ObjectPtr::null().is_null());
    assert!(object(0).is_null());
    assert!(!object(1).is_null());
}

#[test]
fn windows_fill_the_display_unless_windowed() {
    let asked = rect(10.0, 20.0, 300.0, 200.0);
    let cases = [
        (None, display()),
        (Some(WindowBounds::Windowed(asked)), asked),
        (Some(WindowBounds::Fullscreen(asked)), display()),
        (Some(WindowBounds::Maximized(asked)), display()),
    ];
    for (bounds, expected) in cases {
        assert_eq!(initial_bounds(&WindowParams { bounds }, display()), expected);
    }
}

#[test]
fn new_window_is_active_and_untouched() {
    let window = new_window();
    assert_eq!(window.handle, AnyWindowHandle { id: 9 });
    assert_eq!(window.ui_window, object(16));
    assert_eq!(window.metal_view, object(32));
    assert_eq!(window.bounds(), display());
    assert_eq!(window.content_size(), display().size);
    assert_eq!(window.window_bounds(), WindowBounds::Fullscreen(display()));
    assert_eq!(window.scale_factor(), ScaleFactor { bits: 2.0f32.to_bits() });
    assert_eq!(window.mouse_position(), point(0.0, 0.0));
    assert_eq!(window.touch_click_count, 1);
    assert!(window.is_active());
    assert!(window.needs_display_link());
    assert_eq!(window.input_handler, None);
    assert_eq!(window.callbacks.event, None);
}

#[test]
fn fixed_answers_of_a_window() {
    let window = new_window();
    assert!(window.is_maximized());
    assert!(window.is_fullscreen());
    assert!(!window.is_hovered());
    assert!(!window.is_subpixel_rendering_supported());
    assert_eq!(window.modifiers(), Modifiers::none());
    assert_eq!(window.capslock(), Capslock::Off);
    assert_eq!(window.background_appearance(), WindowBackgroundAppearance::Opaque);
}

#[test]
fn window_is_dark_unless_asked_to_be_light() {
    for (style, appearance) in [
        (0, WindowAppearance::Dark),
        (1, WindowAppearance::Light),
        (2, WindowAppearance::Dark),
        (3, WindowAppearance::Dark),
    ] {
        assert_eq!(new_window().appearance(style), appearance);
    }
}

#[test]
fn resizing_keeps_the_origin() {
    let mut window: Window = IosWindow::new(
        AnyWindowHandle { id: 1 },
        &WindowParams { bounds: Some(WindowBounds::Windowed(rect(5.0, 6.0, 7.0, 8.0))) },
        display(),
        ScaleFactor { bits: 1.0f32.to_bits() },
        object(1),
        object(2),
    );
    window.resize(Size { width: px(70.0), height: px(80.0) });
    assert_eq!(window.bounds(), rect(5.0, 6.0, 70.0, 80.0));
}

#[test]
fn touch_that_begins_is_remembered() {
    let mut window = new_window();
    let event = window.handle_touch(TouchPhase::Began, touch(3.0, 4.0, 2));
    assert_eq!(
        event,
        PlatformInput::MouseDown(MouseDownEvent {
            button: MouseButton::Left,
            position: point(3.0, 4.0),
            modifiers: Modifiers::none(),
            click_count: 2,
            first_mouse: false,
        })
    );
    assert_eq!(window.mouse_position(), point(3.0, 4.0));
    assert_eq!(window.touch_click_count, 2);
}

#[test]
fn touch_that_moves_drags_with_the_left_button() {
    let mut window = new_window();
    let event = window.handle_touch(TouchPhase::Moved, touch(3.0, 4.0, 2));
    assert_eq!(
        event,
        PlatformInput::MouseMove(MouseMoveEvent {
            position: point(3.0, 4.0),
            pressed_button: Some(MouseButton::Left),
            modifiers: Modifiers::none(),
        })
    );
    assert_eq!(window.mouse_position(), point(0.0, 0.0));
    assert_eq!(window.touch_click_count, 1);
}

#[test]
fn touch_that_ends_counts_the_taps_it_began_with() {
    let mut window = new_window();
    window.handle_touch(TouchPhase::Began, touch(3.0, 4.0, 3));
    window.handle_touches(TouchPhase::Moved, &[Some(touch(5.0, 5.0, 1)), Some(touch(6.0, 6.0, 1))]);
    let event = window.handle_touch(TouchPhase::Ended, touch(7.0, 8.0, 1));
    assert_eq!(
        event,
        PlatformInput::MouseUp(MouseUpEvent {
            button: MouseButton::Left,
            position: point(7.0, 8.0),
            modifiers: Modifiers::none(),
            click_count: 3,
        })
    );
    assert_eq!(window.mouse_position(), point(3.0, 4.0));
}

#[test]
fn touches_stop_at_the_first_missing_one() {
    let mut window = new_window();
    let events = window.handle_touches(
        TouchPhase::Began,
        &[Some(touch(1.0, 1.0, 1)), Some(touch(2.0, 2.0, 2)), None, Some(touch(3.0, 3.0, 3))],
    );
    assert_eq!(events.len(), 2);
    assert_eq!(window.mouse_position(), point(2.0, 2.0));
    assert_eq!(window.touch_click_count, 2);
    assert!(window.handle_touches(TouchPhase::Ended, &[]).is_empty());
}

#[test]
fn events_are_handed_on_once_a_function_is_registered() {
    let mut window = new_window();
    let touches = [Some(touch(1.0, 1.0, 1)), Some(touch(2.0, 2.0, 1))];
    let events = window.handle_touches(TouchPhase::Moved, &touches);
    assert!(window.deliveries(events.clone()).is_empty());
    window.on_input("input");
    assert_eq!(window.deliveries(events.clone()), events);
}

#[test]
fn frames_are_due_once_a_function_is_registered() {
    let mut window = new_window();
    assert!(!window.frame_is_due());
    window.on_request_frame("frame");
    assert!(window.frame_is_due());
}

#[test]
fn input_handler_is_taken_once() {
    let mut window = new_window();
    assert_eq!(window.take_input_handler(), None);
    window.set_input_handler(7);
    window.set_input_handler(8);
    assert_eq!(window.take_input_handler(), Some(8));
    assert_eq!(window.take_input_handler(), None);
}

#[test]
fn first_display_link_is_kept() {
    let mut window = new_window();
    assert!(window.on_request_frame("frame"));
    window.start_display_link(object(64), object(65));
    assert!(!window.needs_display_link());
    assert!(!window.on_request_frame("other frame"));
    window.start_display_link(object(66), object(67));
    assert_eq!(window.display_link, object(64));
    assert_eq!(window.display_link_handler, object(65));
    assert_eq!(window.callbacks.request_frame, Some("other frame"));
}

#[test]
fn stopped_display_link_can_be_started_again() {
    let mut window = new_window();
    assert_eq!(window.stop_display_link(), None);
    window.start_display_link(object(64), object(65));
    assert_eq!(window.stop_display_link(), Some(object(64)));
    assert_eq!(window.display_link, ObjectPtr::null());
    assert_eq!(window.display_link_handler, ObjectPtr::null());
    assert_eq!(window.stop_display_link(), None);
    assert!(window.needs_display_link());
}

#[test]
fn window_closes_once() {
    let mut window = new_window();
    window.on_close("closed");
    window.start_display_link(object(64), object(65));
    let closing = window.close();
    assert_eq!(closing.display_link, Some(object(64)));
    assert_eq!(closing.callback, Some("closed"));
    let again = window.close();
    assert_eq!(again.display_link, None);
    assert_eq!(again.callback, None);
}

#[test]
fn window_callbacks_have_slots_of_their_own() {
    let mut window = new_window();
    window.on_input("input");
    window.on_active_status_change("active");
    window.on_hover_status_change("hover");
    window.on_resize("resize");
    window.on_moved("moved");
    window.on_should_close("should close");
    window.on_hit_test_window_control("hit test");
    window.on_close("close");
    window.on_appearance_changed("appearance");
    let callbacks = &window.callbacks;
    assert_eq!(callbacks.request_frame, None);
    assert_eq!(callbacks.event, Some("input"));
    assert_eq!(callbacks.activate, Some("active"));
    assert_eq!(callbacks.hover, Some("hover"));
    assert_eq!(callbacks.resize, Some("resize"));
    assert_eq!(callbacks.moved, Some("moved"));
    assert_eq!(callbacks.should_close, Some("should close"));
    assert_eq!(callbacks.hit_test_window_control, Some("hit test"));
    assert_eq!(callbacks.close, Some("close"));
    assert_eq!(callbacks.appearance_changed, Some("appearance"));
}
