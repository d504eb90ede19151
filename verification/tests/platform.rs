use gpui_ios::display::{DisplayId, IosDisplay, StableUuid};
use gpui_ios::geometry::{Bounds, Pixels, Point, ScaleFactor, Size};
use gpui_ios::platform::{
    bundle_path, ClipboardItem, IosPlatform, PlatformError, ThermalState,
};
use gpui_ios::text::TextError;
use gpui_ios::window::{
    AnyWindowHandle, IosWindow, ObjectPtr, WindowAppearance, WindowBounds, WindowParams,
};

fn platform() -> IosPlatform<&'static str> {
    IosPlatform::new(false, &mut StableUuid::new())
}

fn size(width: f32, height: f32) -> Size<Pixels> {
    Size { width: Pixels { bits: width.to_bits() }, height: Pixels { bits: height.to_bits() } }
}

fn at_origin(size: Size<Pixels>) -> Bounds<Pixels> {
    Bounds { origin: Point::<Pixels>::origin(), size }
}

#[test]
fn there_is_one_display_with_one_uuid() {
    let mut stable = StableUuid::new();
    let first = IosDisplay::primary(&mut stable);
    let second = IosDisplay::primary(&mut stable);
    assert_eq!(first, second);
    assert_eq!(first.id(), DisplayId(1));
    assert_eq!(first.uuid(), stable.stable_uuid());
}

#[test]
fn uuids_are_random() {
    let mut seen = Vec::new();
    for _ in 0..8 {
        let value = IosDisplay::primary(&mut StableUuid::new()).uuid();
        let parsed = uuid::Uuid::from_u128(value);
        assert_eq!(parsed.get_version_num(), 4);
        assert_eq!(parsed.get_variant(), uuid::Variant::RFC4122);
        assert!(!seen.contains(&value));
        seen.push(value);
    }
}

#[test]
fn first_uuid_is_kept() {
    let mut stable = StableUuid::new();
    assert_eq!(stable.get_or_init(5), 5);
    assert_eq!(stable.get_or_init(6), 5);
}

#[test]
fn display_starts_at_the_origin() {
    let display = IosDisplay::primary(&mut StableUuid::new());
    let screen = size(1024.0, 768.0);
    assert_eq!(display.bounds(screen), at_origin(screen));
    assert_eq!(display.visible_bounds(screen), at_origin(screen));
}

#[test]
fn platform_shows_its_display() {
    let mut stable = StableUuid::new();
    let platform: IosPlatform<()> = IosPlatform::new(true, &mut stable);
    let display = IosDisplay::primary(&mut stable);
    assert_eq!(platform.displays(), [display]);
    assert_eq!(platform.primary_display(), Some(display));
    assert_eq!(platform.displays()[0].id(), DisplayId(1));
    assert_eq!(platform.active_window(), None);
}

#[test]
fn opened_window_is_the_active_one() {
    let mut platform = platform();
    let asked = at_origin(size(10.0, 20.0));
    for id in [3, 4] {
        let window: IosWindow<(), ()> = platform.open_window(
            AnyWindowHandle { id },
            &WindowParams { bounds: Some(WindowBounds::Windowed(asked)) },
            at_origin(size(1024.0, 768.0)),
            ScaleFactor { bits: 2.0f32.to_bits() },
            ObjectPtr { address: 1 },
            ObjectPtr { address: 2 },
        );
        assert_eq!(window.handle, AnyWindowHandle { id });
        assert_eq!(window.bounds(), asked);
        assert_eq!(platform.active_window(), Some(AnyWindowHandle { id }));
    }
}

#[test]
fn screen_style_two_is_dark() {
    assert_eq!(platform().window_appearance(2), WindowAppearance::Dark);
    assert_eq!(platform().window_appearance(0), WindowAppearance::Light);
    assert_eq!(platform().window_appearance(1), WindowAppearance::Light);
    assert_eq!(platform().window_appearance(3), WindowAppearance::Light);
}

#[test]
fn thermal_states_have_numbers() {
    let platform = platform();
    assert_eq!(platform.thermal_state(0), ThermalState::Nominal);
    assert_eq!(platform.thermal_state(1), ThermalState::Fair);
    assert_eq!(platform.thermal_state(2), ThermalState::Serious);
    assert_eq!(platform.thermal_state(3), ThermalState::Critical);
    assert_eq!(platform.thermal_state(usize::MAX), ThermalState::Critical);
}

#[test]
fn fixed_answers_of_the_platform() {
    let platform = platform();
    assert_eq!(platform.compositor_name(), "iOS Metal");
    assert!(!platform.can_select_mixed_files_and_dirs());
    assert!(platform.should_auto_hide_scrollbars());
    assert_eq!(platform.register_url_scheme("zed"), Ok(()));
    assert_eq!(platform.read_credentials("https://zed.dev"), Ok(None));
    assert_eq!(platform.delete_credentials("https://zed.dev"), Ok(()));
}

#[test]
fn what_the_system_lacks_is_an_error() {
    let platform = platform();
    let errors = [
        (platform.prompt_for_paths().unwrap_err(), PlatformError::PathPromptMissing),
        (platform.prompt_for_new_path().unwrap_err(), PlatformError::NewPathPromptUnsupported),
        (
            platform.path_for_auxiliary_executable("git").unwrap_err(),
            PlatformError::NoSubprocesses,
        ),
        (
            platform.write_credentials("https://zed.dev", "me", b"pass").unwrap_err(),
            PlatformError::KeychainMissing,
        ),
    ];
    for (error, expected) in errors {
        assert_eq!(error, expected);
    }
}

#[test]
fn platform_errors_have_messages() {
    assert_eq!(
        PlatformError::PathPromptMissing.message(),
        "prompt_for_paths: UIDocumentPicker not yet implemented"
    );
    assert_eq!(
        PlatformError::NewPathPromptUnsupported.message(),
        "prompt_for_new_path not supported on iOS"
    );
    assert_eq!(PlatformError::BundlePathMissing.message(), "failed to get bundle path");
    assert_eq!(
        PlatformError::BundlePathNotUtf8 { reason: "bad byte".to_owned() }.message(),
        "bad byte"
    );
    assert_eq!(
        PlatformError::NoSubprocesses.message(),
        "path_for_auxiliary_executable: no subprocess spawning on iOS"
    );
    assert_eq!(
        PlatformError::KeychainMissing.message(),
        "write_credentials: Keychain not yet implemented; coming in Phase 2.1"
    );
}

#[test]
fn bundle_path_is_decoded() {
    let platform = platform();
    assert_eq!(platform.app_path(Some(b"/var/Zed.app")), Ok("/var/Zed.app".to_owned()));
    assert_eq!(platform.app_path(None), Err(PlatformError::BundlePathMissing));
    let error = platform.app_path(Some(&[0x2f, 0xff])).unwrap_err();
    assert_eq!(error.message(), "invalid utf-8 sequence of 1 bytes from index 1");
    assert!(matches!(error, PlatformError::BundlePathNotUtf8 { .. }));
}

#[test]
fn outcomes_of_decoding_a_path_are_told_apart() {
    let reason = "bad byte".to_owned();
    assert_eq!(bundle_path(Ok("/a".to_owned())), Ok("/a".to_owned()));
    assert_eq!(bundle_path(Err(TextError::Missing)), Err(PlatformError::BundlePathMissing));
    assert_eq!(
        bundle_path(Err(TextError::NotUtf8 { reason: reason.clone() })),
        Err(PlatformError::BundlePathNotUtf8 { reason })
    );
}

#[test]
fn clipboard_keeps_text() {
    let platform = platform();
    for text in ["", "plain", "\u{00E4}\u{1F511}"] {
        let item = ClipboardItem { text: Some(text.to_owned()) };
        let written = platform.write_to_clipboard(item.clone());
        assert_eq!(platform.read_from_clipboard(Some(written.as_bytes())), Some(item));
    }
}

#[test]
fn clipboard_without_text_is_empty() {
    let platform = platform();
    assert_eq!(platform.write_to_clipboard(ClipboardItem { text: None }), "");
    assert_eq!(platform.read_from_clipboard(None), None);
    assert_eq!(platform.read_from_clipboard(Some(&[0x80])), None);
}

#[test]
fn keyboard_layout_is_fixed() {
    let layout = platform().keyboard_layout();
    assert_eq!(layout.current_layout(), "com.apple.keylayout.US");
    assert_eq!(layout.keystroke_for_key_equivalent("cmd-s"), None);
}

#[test]
fn platform_callbacks_have_slots_of_their_own() {
    let mut platform = platform();
    platform.on_open_urls("urls");
    platform.on_quit("quit");
    platform.on_reopen("reopen");
    platform.on_app_menu_action("action");
    platform.on_will_open_app_menu("will open");
    platform.on_validate_app_menu_command("validate");
    platform.on_keyboard_layout_change("layout");
    platform.on_thermal_state_change("thermal");
    let callbacks = &platform.callbacks;
    assert_eq!(callbacks.open_urls, Some("urls"));
    assert_eq!(callbacks.quit, Some("quit"));
    assert_eq!(callbacks.reopen, Some("reopen"));
    assert_eq!(callbacks.app_menu_action, Some("action"));
    assert_eq!(callbacks.will_open_app_menu, Some("will open"));
    assert_eq!(callbacks.validate_app_menu_command, Some("validate"));
    assert_eq!(callbacks.keyboard_layout_change, Some("layout"));
    assert_eq!(callbacks.thermal_state_change, Some("thermal"));
}
