use gpui_ios::events::{
    key_down_event, key_name_for_hid, key_text, key_up_event, keystroke_for_key,
    keystroke_from_ui_key, modifiers_changed_event, modifiers_from_flags, mouse_down_from_touch,
    mouse_move_from_pointer, mouse_up_from_touch, scroll_wheel_from_pan, KeyDownEvent, KeyUpEvent,
    Keystroke, Modifiers, ModifiersChangedEvent, MouseButton, MouseDownEvent, MouseMoveEvent,
    MouseUpEvent, PlatformInput, ScrollDelta, ScrollWheelEvent, TouchPhase, ALPHA_SHIFT, ALTERNATE,
    COMMAND, CONTROL, NUMERIC_PAD, SHIFT,
};
use gpui_ios::geometry::{Pixels, Point};

fn px(value: f32) -> Pixels {
    Pixels { bits: value.to_bits() }
}

fn point(x: f32, y: f32) -> Point<Pixels> {
    Point { x: px(x), y: px(y) }
}

fn plain(key: &str) -> Keystroke {
    Keystroke { key: key.to_owned(), modifiers: Modifiers::none(), ime_key: None }
}

#[test]
fn modifier_bits_are_those_of_uikit() {
    assert_eq!(ALPHA_SHIFT, 1 << 16);
    assert_eq!(SHIFT, 1 << 17);
    assert_eq!(CONTROL, 1 << 18);
    assert_eq!(ALTERNATE, 1 << 19);
    assert_eq!(COMMAND, 1 << 20);
    assert_eq!(NUMERIC_PAD, 1 << 21);
}

#[test]
fn each_flag_sets_its_modifier() {
    assert_eq!(modifiers_from_flags(0), Modifiers::none());
    assert_eq!(modifiers_from_flags(SHIFT), Modifiers { shift: true, ..Modifiers::none() });
    assert_eq!(modifiers_from_flags(CONTROL), Modifiers { control: true, ..Modifiers::none() });
    assert_eq!(modifiers_from_flags(ALTERNATE), Modifiers { alt: true, ..Modifiers::none() });
    assert_eq!(modifiers_from_flags(COMMAND), Modifiers { command: true, ..Modifiers::none() });
}

#[test]
fn flags_without_a_modifier_are_ignored() {
    assert_eq!(modifiers_from_flags(ALPHA_SHIFT | NUMERIC_PAD), Modifiers::none());
    assert_eq!(
        modifiers_from_flags(SHIFT | ALPHA_SHIFT | 1),
        Modifiers { shift: true, ..Modifiers::none() }
    );
}

#[test]
fn flags_add_up() {
    assert_eq!(
        modifiers_from_flags(SHIFT | CONTROL | ALTERNATE | COMMAND),
        Modifiers { shift: true, control: true, alt: true, command: true, function: false }
    );
}

#[test]
fn named_keys_have_their_names() {
    let names = [
        (0x28, "enter"),
        (0x29, "escape"),
        (0x2A, "backspace"),
        (0x2B, "tab"),
        (0x2C, "space"),
        (0x3A, "f1"),
        (0x3B, "f2"),
        (0x3C, "f3"),
        (0x3D, "f4"),
        (0x3E, "f5"),
        (0x3F, "f6"),
        (0x40, "f7"),
        (0x41, "f8"),
        (0x42, "f9"),
        (0x43, "f10"),
        (0x44, "f11"),
        (0x45, "f12"),
        (0x49, "insert"),
        (0x4A, "home"),
        (0x4B, "pageup"),
        (0x4C, "delete"),
        (0x4D, "end"),
        (0x4E, "pagedown"),
        (0x4F, "right"),
        (0x50, "left"),
        (0x51, "down"),
        (0x52, "up"),
    ];
    for (usage, name) in names {
        assert_eq!(key_name_for_hid(usage), Some(name));
    }
    let named = (0..0x200).filter(|usage| key_name_for_hid(*usage).is_some()).count();
    assert_eq!(named, names.len());
}

#[test]
fn key_names_do_not_repeat() {
    let mut names: Vec<&str> = (0..0x200).filter_map(key_name_for_hid).collect();
    let count = names.len();
    names.sort();
    names.dedup();
    assert_eq!(names.len(), count);
}

#[test]
fn text_without_modifiers_goes_first() {
    assert_eq!(key_text("A", "a"), "a");
    assert_eq!(key_text("A", ""), "A");
    assert_eq!(key_text("", ""), "");
}

#[test]
fn keystroke_prefers_the_name_of_the_key() {
    let keystroke = keystroke_from_ui_key("\r", "\r", 0x28, 0);
    assert_eq!(keystroke, plain("enter"));
    assert_eq!(keystroke_for_key(0x28, 0, "x".to_owned()), plain("enter"));
    assert_eq!(keystroke_for_key(0x04, 0, "x".to_owned()), plain("x"));
}

#[test]
fn keystroke_is_lower_case() {
    let keystroke = keystroke_from_ui_key("Q", "Q", 0x14, SHIFT);
    assert_eq!(keystroke.key, "q");
    assert!(keystroke.modifiers.shift);
    assert_eq!(keystroke.ime_key, None);
}

#[test]
fn keystroke_in_ascii_folds_letters_only() {
    assert_eq!(keystroke_from_ui_key("", "AZ@[`{09", 0x04, 0).key, "az@[`{09");
}

#[test]
fn keystroke_is_lower_case_beyond_ascii() {
    assert_eq!(keystroke_from_ui_key("\u{00C9}", "", 0x08, 0).key, "\u{00E9}");
    assert_eq!(keystroke_from_ui_key("", "", 0x08, 0).key, "");
}

#[test]
fn keystroke_falls_back_to_the_typed_characters() {
    assert_eq!(keystroke_from_ui_key("Z", "", 0x1D, 0), plain("z"));
}

#[test]
fn touch_down_presses_the_left_button() {
    assert_eq!(
        mouse_down_from_touch(point(1.5, 2.0), 3, Modifiers::none()),
        PlatformInput::MouseDown(MouseDownEvent {
            button: MouseButton::Left,
            position: point(1.5, 2.0),
            modifiers: Modifiers::none(),
            click_count: 3,
            first_mouse: false,
        })
    );
}

#[test]
fn touch_up_releases_the_left_button() {
    assert_eq!(
        mouse_up_from_touch(point(0.0, 2.0), 1, Modifiers::none()),
        PlatformInput::MouseUp(MouseUpEvent {
            button: MouseButton::Left,
            position: point(0.0, 2.0),
            modifiers: Modifiers::none(),
            click_count: 1,
        })
    );
}

#[test]
fn pointer_moves_with_the_button_it_holds() {
    for button in [None, Some(MouseButton::Left), Some(MouseButton::Right)] {
        assert_eq!(
            mouse_move_from_pointer(point(4.0, 5.0), button, Modifiers::none()),
            PlatformInput::MouseMove(MouseMoveEvent {
                position: point(4.0, 5.0),
                pressed_button: button,
                modifiers: Modifiers::none(),
            })
        );
    }
}

#[test]
fn pan_scrolls_by_pixels() {
    assert_eq!(
        scroll_wheel_from_pan(point(4.0, 5.0), px(-1.0), px(2.5), Modifiers::none()),
        PlatformInput::ScrollWheel(ScrollWheelEvent {
            position: point(4.0, 5.0),
            delta: ScrollDelta::Pixels(point(-1.0, 2.5)),
            modifiers: Modifiers::none(),
            touch_phase: TouchPhase::Moved,
        })
    );
}

#[test]
fn key_down_types_text() {
    let event = key_down_event(plain("a"), true);
    assert_eq!(
        event,
        PlatformInput::KeyDown(KeyDownEvent {
            keystroke: Keystroke {
                key: "a".to_owned(),
                modifiers: Modifiers::none(),
                ime_key: Some("a".to_owned()),
            },
            is_repeat: true,
        })
    );
}

#[test]
fn key_down_with_shift_types_text() {
    let shift = Modifiers { shift: true, ..Modifiers::none() };
    let stroke = Keystroke { key: "a".to_owned(), modifiers: shift, ime_key: None };
    match key_down_event(stroke, false) {
        PlatformInput::KeyDown(event) => {
            assert_eq!(event.keystroke.ime_key, Some("a".to_owned()));
            assert!(!event.is_repeat);
        }
        other => panic!("{:?}", other),
    }
}

#[test]
fn shortcuts_type_no_text() {
    for flags in [CONTROL, ALTERNATE, COMMAND, COMMAND | SHIFT] {
        let stroke = Keystroke {
            key: "c".to_owned(),
            modifiers: modifiers_from_flags(flags),
            ime_key: Some("c".to_owned()),
        };
        match key_down_event(stroke, false) {
            PlatformInput::KeyDown(event) => {
                assert_eq!(event.keystroke.ime_key, None);
                assert_eq!(event.keystroke.modifiers, modifiers_from_flags(flags));
            }
            other => panic!("{:?}", other),
        }
    }
}

#[test]
fn key_up_keeps_the_keystroke() {
    assert_eq!(
        key_up_event(plain("a")),
        PlatformInput::KeyUp(KeyUpEvent { keystroke: plain("a") })
    );
}

#[test]
fn modifier_changes_are_reported() {
    let modifiers = Modifiers { alt: true, ..Modifiers::none() };
    assert_eq!(
        modifiers_changed_event(modifiers),
        PlatformInput::ModifiersChanged(ModifiersChangedEvent { modifiers })
    );
}
