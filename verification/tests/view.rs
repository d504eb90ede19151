use gpui_ios::events::{PlatformInput, COMMAND, SHIFT};
use gpui_ios::view::{handle_key_presses, key_event, IosClasses, ViewInput, ViewMessage};
use gpui_ios::window::{ObjectPtr, TouchPhase, UiKey, UiPress};

fn key(characters: &str, ignoring: &str, key_code: u32, modifier_flags: usize) -> UiKey {
    UiKey {
        characters: characters.to_owned(),
        characters_ignoring_modifiers: ignoring.to_owned(),
        key_code,
        modifier_flags,
    }
}

fn press(key: UiKey) -> Option<UiPress> {
    Some(UiPress { key: Some(key) })
}

fn names(events: &[PlatformInput]) -> Vec<String> {
    events
        .iter()
        .map(|event| match event {
            PlatformInput::KeyDown(down) => format!("+{}", down.keystroke.key),
            PlatformInput::KeyUp(up) => format!("-{}", up.keystroke.key),
            other => panic!("{:?}", other),
        })
        .collect()
}

#[test]
fn messages_have_selectors_and_meanings() {
    let messages = [
        (
            ViewMessage::PressesBegan,
            "pressesBegan:withEvent:",
            ViewInput::Keys { key_down: true },
        ),
        (
            ViewMessage::PressesEnded,
            "pressesEnded:withEvent:",
            ViewInput::Keys { key_down: false },
        ),
        (
            ViewMessage::TouchesBegan,
            "touchesBegan:withEvent:",
            ViewInput::Touches { phase: TouchPhase::Began },
        ),
        (
            ViewMessage::TouchesMoved,
            "touchesMoved:withEvent:",
            ViewInput::Touches { phase: TouchPhase::Moved },
        ),
        (
            ViewMessage::TouchesEnded,
            "touchesEnded:withEvent:",
            ViewInput::Touches { phase: TouchPhase::Ended },
        ),
    ];
    for (message, selector, input) in messages {
        assert_eq!(message.selector(), selector);
        assert_eq!(message.input(), input);
    }
}

#[test]
fn first_classes_are_kept() {
    let mut classes = IosClasses::new();
    assert!(classes.must_register());
    classes.registered(ObjectPtr { address: 8 }, ObjectPtr { address: 9 });
    assert!(!classes.must_register());
    classes.registered(ObjectPtr { address: 10 }, ObjectPtr { address: 11 });
    assert_eq!(
        classes,
        IosClasses {
            metal_view: ObjectPtr { address: 8 },
            display_link_handler: ObjectPtr { address: 9 },
        }
    );
}

#[test]
fn key_that_goes_down_types_its_text() {
    match key_event(&key("A", "a", 0x04, SHIFT), true) {
        PlatformInput::KeyDown(down) => {
            assert_eq!(down.keystroke.key, "a");
            assert_eq!(down.keystroke.ime_key, Some("a".to_owned()));
            assert!(down.keystroke.modifiers.shift);
            assert!(!down.is_repeat);
        }
        other => panic!("{:?}", other),
    }
}

#[test]
fn key_that_comes_up_types_nothing() {
    match key_event(&key("a", "a", 0x04, 0), false) {
        PlatformInput::KeyUp(up) => {
            assert_eq!(up.keystroke.key, "a");
            assert_eq!(up.keystroke.ime_key, None);
        }
        other => panic!("{:?}", other),
    }
}

#[test]
fn shortcut_types_nothing() {
    match key_event(&key("c", "c", 0x06, COMMAND), true) {
        PlatformInput::KeyDown(down) => {
            assert_eq!(down.keystroke.ime_key, None);
            assert!(down.keystroke.modifiers.command);
        }
        other => panic!("{:?}", other),
    }
}

#[test]
fn presses_without_a_key_are_passed_over() {
    let presses = [
        press(key("\r", "\r", 0x28, 0)),
        Some(UiPress { key: None }),
        press(key("\u{00C4}", "", 0x34, 0)),
    ];
    assert_eq!(names(&handle_key_presses(&presses, true)), ["+enter", "+\u{00E4}"]);
    assert_eq!(names(&handle_key_presses(&presses, false)), ["-enter", "-\u{00E4}"]);
}

#[test]
fn presses_stop_at_the_first_missing_one() {
    let presses = [press(key("a", "a", 0x04, 0)), None, press(key("b", "b", 0x05, 0))];
    assert_eq!(names(&handle_key_presses(&presses, true)), ["+a"]);
    assert!(handle_key_presses(&[], true).is_empty());
}
