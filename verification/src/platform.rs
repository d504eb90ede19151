//! The platform: what the framework can ask of the system, and what the system
//! does not offer.

use crate::dispatcher::IosDispatcher;
use crate::display::{IosDisplay, StableUuid};
use crate::geometry::{Bounds, Pixels, ScaleFactor};
use crate::keyboard::IosKeyboardLayout;
use crate::text::{decode_text, TextError};
use crate::window::{
    AnyWindowHandle, IosWindow, ObjectPtr, WindowAppearance, WindowParams,
    USER_INTERFACE_STYLE_DARK,
};
use vstd::prelude::*;

#[allow(unused_imports)]
use crate::text::TextErrorView;
#[allow(unused_imports)]
use crate::window::IosWindowCallbacks;

verus! {

/// How hot the device is.
#[derive(Clone, Copy, Debug, PartialEq, Eq, Structural)]
pub enum ThermalState {
    Nominal,
    Fair,
    Serious,
    Critical,
}

/// What lies on the clipboard: text, or nothing that is text.
#[derive(Clone, Debug, PartialEq, Eq)]
pub struct ClipboardItem {
    pub text: Option<String>,
}

/// Why the platform cannot do what it was asked.
#[derive(Clone, Debug, PartialEq, Eq)]
pub enum PlatformError {
    /// There is no prompt for paths.
    PathPromptMissing,
    /// There is no prompt for a new path.
    NewPathPromptUnsupported,
    /// The system does not tell where the application is.
    BundlePathMissing,
    /// The place of the application is no well-formed text, for the reason that
    /// the standard library gives.
    BundlePathNotUtf8 { reason: String },
    /// There are no other executables.
    NoSubprocesses,
    /// There is no store for credentials.
    KeychainMissing,
}

/// An error in words.
pub open spec fn message_of(error: PlatformError) -> Seq<char> {
    match error {
        PlatformError::PathPromptMissing => {
            "prompt_for_paths: UIDocumentPicker not yet implemented"@
        },
        PlatformError::NewPathPromptUnsupported => "prompt_for_new_path not supported on iOS"@,
        PlatformError::BundlePathMissing => "failed to get bundle path"@,
        PlatformError::BundlePathNotUtf8 { reason } => reason@,
        PlatformError::NoSubprocesses => {
            "path_for_auxiliary_executable: no subprocess spawning on iOS"@
        },
        PlatformError::KeychainMissing => {
            "write_credentials: Keychain not yet implemented; coming in Phase 2.1"@
        },
    }
}

impl PlatformError {
    /// The error in words.
    pub fn message(&self) -> (message: String)
        ensures
            message@ == message_of(*self),
    {
        match self {
            PlatformError::PathPromptMissing => {
                "prompt_for_paths: UIDocumentPicker not yet implemented".to_owned()
            },
            PlatformError::NewPathPromptUnsupported => {
                "prompt_for_new_path not supported on iOS".to_owned()
            },
            PlatformError::BundlePathMissing => "failed to get bundle path".to_owned(),
            PlatformError::BundlePathNotUtf8 { reason } => reason.clone(),
            PlatformError::NoSubprocesses => {
                "path_for_auxiliary_executable: no subprocess spawning on iOS".to_owned()
            },
            PlatformError::KeychainMissing => {
                "write_credentials: Keychain not yet implemented; coming in Phase 2.1".to_owned()
            },
        }
    }
}

/// The functions that the framework has registered with the platform. `C` is the
/// type of such a function.
#[derive(Debug)]
pub struct IosPlatformCallbacks<C> {
    pub open_urls: Option<C>,
    pub quit: Option<C>,
    pub reopen: Option<C>,
    pub app_menu_action: Option<C>,
    pub will_open_app_menu: Option<C>,
    pub validate_app_menu_command: Option<C>,
    pub keyboard_layout_change: Option<C>,
    pub thermal_state_change: Option<C>,
}

impl<C> IosPlatformCallbacks<C> {
    /// No function registered.
    pub open spec fn spec_none() -> IosPlatformCallbacks<C> {
        IosPlatformCallbacks {
            open_urls: None,
            quit: None,
            reopen: None,
            app_menu_action: None,
            will_open_app_menu: None,
            validate_app_menu_command: None,
            keyboard_layout_change: None,
            thermal_state_change: None,
        }
    }

    /// No function registered.
    #[verifier::when_used_as_spec(spec_none)]
    pub fn none() -> (callbacks: IosPlatformCallbacks<C>)
        ensures
            callbacks == IosPlatformCallbacks::<C>::none(),
    {
        IosPlatformCallbacks {
            open_urls: None,
            quit: None,
            reopen: None,
            app_menu_action: None,
            will_open_app_menu: None,
            validate_app_menu_command: None,
            keyboard_layout_change: None,
            thermal_state_change: None,
        }
    }
}

/// The platform. UIKit owns the run loop, so nothing here runs on its own.
#[derive(Debug)]
pub struct IosPlatform<C> {
    pub dispatcher: IosDispatcher,
    pub active_display: IosDisplay,
    pub active_window: Option<AnyWindowHandle>,
    pub callbacks: IosPlatformCallbacks<C>,
}

/// The displays that the platform shows.
pub open spec fn displays_of<C>(platform: IosPlatform<C>) -> Seq<IosDisplay> {
    seq![platform.active_display]
}

/// The main display of the platform.
pub open spec fn primary_display_of<C>(platform: IosPlatform<C>) -> Option<IosDisplay> {
    Some(platform.active_display)
}

/// There is exactly one display at all times: the main one, whose number is that
/// of any display.
pub proof fn law_platform_shows_one_display<C>(platform: IosPlatform<C>, other: IosDisplay)
    requires
        platform.active_display.wf(),
        other.wf(),
    ensures
        displays_of(platform).len() == 1,
        primary_display_of(platform) == Some(displays_of(platform)[0]),
        displays_of(platform)[0].id_of() == crate::display::DisplayId(1),
        displays_of(platform)[0].id_of() == other.id_of(),
{
}

/// The thermal state with the given number. All numbers beyond the third stand
/// for the worst.
pub open spec fn thermal_state_of(state: usize) -> ThermalState {
    if state == 0 {
        ThermalState::Nominal
    } else if state == 1 {
        ThermalState::Fair
    } else if state == 2 {
        ThermalState::Serious
    } else {
        ThermalState::Critical
    }
}

/// What a clipboard with the given text holds; text that is missing or cannot be
/// read counts for nothing.
pub open spec fn clipboard_text(utf8: Option<Seq<u8>>) -> Option<Seq<char>> {
    match crate::text::decoded_text(utf8) {
        Ok(text) => Some(text),
        Err(_) => None,
    }
}

/// The text to put on the clipboard for an item: its own, or the empty text.
pub open spec fn text_of(item: ClipboardItem) -> Seq<char> {
    match item.text {
        Some(text) => text@,
        None => Seq::empty(),
    }
}

/// The place of the application, from the outcome of decoding it.
pub fn bundle_path(decoded: Result<String, TextError>) -> (path: Result<String, PlatformError>)
    ensures
        path == match decoded {
            Ok(text) => Ok::<String, PlatformError>(text),
            Err(TextError::Missing) => Err(PlatformError::BundlePathMissing),
            Err(TextError::NotUtf8 { reason }) => Err(PlatformError::BundlePathNotUtf8 { reason }),
        },
{
    match decoded {
        Ok(text) => Ok(text),
        Err(TextError::Missing) => Err(PlatformError::BundlePathMissing),
        Err(TextError::NotUtf8 { reason }) => Err(PlatformError::BundlePathNotUtf8 { reason }),
    }
}

impl<C> IosPlatform<C> {
    /// Makes the platform. It is the same with a screen and without.
    pub fn new(_headless: bool, stable: &mut StableUuid) -> (platform: IosPlatform<C>)
        requires
            old(stable).wf(),
        ensures
            final(stable).wf(),
            platform.active_window is None,
            platform.callbacks == IosPlatformCallbacks::<C>::none(),
            platform.active_display.id_of() == crate::display::DisplayId(1),
            final(stable).value() == Some(platform.active_display.uuid_of()),
            crate::display::is_random_uuid(platform.active_display.uuid_of()),
            old(stable).value() is Some ==> old(stable).value() == Some(
                platform.active_display.uuid_of(),
            ),
    {
        IosPlatform {
            dispatcher: IosDispatcher::new(),
            active_display: IosDisplay::primary(stable),
            active_window: None,
            callbacks: IosPlatformCallbacks::none(),
        }
    }

    /// All displays: there is one, with the number 1.
    pub fn displays(&self) -> (displays: Vec<IosDisplay>)
        ensures
            displays@ == displays_of(*self),
            displays@[0].id_of() == crate::display::DisplayId(1),
    {
        proof {
            use_type_invariant(&self.active_display);
        }
        let displays: Vec<IosDisplay> = vec![self.active_display];
        assert(displays@ =~= seq![self.active_display]);
        displays
    }

    /// The main display.
    pub fn primary_display(&self) -> (display: Option<IosDisplay>)
        ensures
            display == primary_display_of(*self),
            display->0.id_of() == crate::display::DisplayId(1),
    {
        proof {
            use_type_invariant(&self.active_display);
        }
        Some(self.active_display)
    }

    /// The window that was opened last, if any was.
    pub fn active_window(&self) -> (window: Option<AnyWindowHandle>)
        ensures
            window == self.active_window,
    {
        self.active_window
    }

    /// Opens a window from the objects that were created for it, and makes it
    /// the active one.
    pub fn open_window<W, I>(
        &mut self,
        handle: AnyWindowHandle,
        params: &WindowParams,
        display_bounds: Bounds<Pixels>,
        scale_factor: ScaleFactor,
        ui_window: ObjectPtr,
        metal_view: ObjectPtr,
    ) -> (window: IosWindow<W, I>)
        ensures
            *final(self) == (IosPlatform { active_window: Some(handle), ..*old(self) }),
            window == (IosWindow {
                handle,
                ui_window,
                metal_view,
                display_link_handler: ObjectPtr::null(),
                display_link: ObjectPtr::null(),
                bounds: crate::window::initial_bounds_of(*params, display_bounds),
                scale_factor,
                is_active: true,
                last_touch_position: crate::geometry::Point::<Pixels>::origin(),
                touch_click_count: 1,
                input_handler: None::<I>,
                callbacks: IosWindowCallbacks::<W>::none(),
            }),
    {
        let window = IosWindow::new(
            handle,
            params,
            display_bounds,
            scale_factor,
            ui_window,
            metal_view,
        );
        self.active_window = Some(handle);
        window
    }

    /// The theme that the system asks for, by UIKit's number for it. All numbers
    /// but that of the dark theme stand for the light one.
    pub fn window_appearance(&self, style: usize) -> (appearance: WindowAppearance)
        ensures
            appearance == if style == 2 {
                WindowAppearance::Dark
            } else {
                WindowAppearance::Light
            },
    {
        if style == USER_INTERFACE_STYLE_DARK {
            WindowAppearance::Dark
        } else {
            WindowAppearance::Light
        }
    }

    /// Asks for a URL scheme to be handled by this application. The system knows
    /// the schemes beforehand, so there is nothing to do.
    pub fn register_url_scheme(&self, _url: &str) -> (outcome: Result<(), PlatformError>)
        ensures
            outcome == Ok::<(), PlatformError>(()),
    {
        Ok(())
    }

    /// Lets the user pick paths, which is not possible.
    pub fn prompt_for_paths(&self) -> (paths: Result<Option<Vec<String>>, PlatformError>)
        ensures
            paths == Err::<Option<Vec<String>>, PlatformError>(PlatformError::PathPromptMissing),
    {
        Err(PlatformError::PathPromptMissing)
    }

    /// Lets the user pick a new path, which is not possible.
    pub fn prompt_for_new_path(&self) -> (path: Result<Option<String>, PlatformError>)
        ensures
            path == Err::<Option<String>, PlatformError>(PlatformError::NewPathPromptUnsupported),
    {
        Err(PlatformError::NewPathPromptUnsupported)
    }

    /// Whether files and directories can be picked together: they cannot.
    pub fn can_select_mixed_files_and_dirs(&self) -> (can: bool)
        ensures
            !can,
    {
        false
    }

    /// How hot the device is, by the system's number for it.
    pub fn thermal_state(&self, state: usize) -> (thermal_state: ThermalState)
        ensures
            thermal_state == thermal_state_of(state),
    {
        match state {
            0 => ThermalState::Nominal,
            1 => ThermalState::Fair,
            2 => ThermalState::Serious,
            _ => ThermalState::Critical,
        }
    }

    /// The name of the compositor.
    pub fn compositor_name(&self) -> (name: &'static str)
        ensures
            name@ == "iOS Metal"@,
    {
        "iOS Metal"
    }

    /// The place of the application, as the system tells it.
    pub fn app_path(&self, utf8: Option<&[u8]>) -> (path: Result<String, PlatformError>)
        ensures
            match crate::text::decoded_text(crate::text::optional_bytes(utf8)) {
                Ok(text) => path is Ok && path->Ok_0@ == text,
                Err(TextErrorView::Missing) => path == Err::<String, PlatformError>(
                    PlatformError::BundlePathMissing,
                ),
                Err(TextErrorView::NotUtf8 { reason }) => {
                    &&& path is Err
                    &&& path->Err_0 is BundlePathNotUtf8
                    &&& path->Err_0->reason@ == reason
                },
            },
    {
        bundle_path(decode_text(utf8))
    }

    /// The place of another executable of the application: there is none.
    pub fn path_for_auxiliary_executable(&self, _name: &str) -> (path: Result<
        String,
        PlatformError,
    >)
        ensures
            path == Err::<String, PlatformError>(PlatformError::NoSubprocesses),
    {
        Err(PlatformError::NoSubprocesses)
    }

    /// Whether scrollbars hide by themselves: they do.
    pub fn should_auto_hide_scrollbars(&self) -> (hide: bool)
        ensures
            hide,
    {
        true
    }

    /// What lies on the clipboard, from the text that the system has for it.
    pub fn read_from_clipboard(&self, utf8: Option<&[u8]>) -> (item: Option<ClipboardItem>)
        ensures
            match clipboard_text(crate::text::optional_bytes(utf8)) {
                Some(text) => item is Some && item->0.text is Some && item->0.text->0@ == text,
                None => item is None,
            },
    {
        match decode_text(utf8) {
            Ok(text) => Some(ClipboardItem { text: Some(text) }),
            Err(_) => None,
        }
    }

    /// The text to put on the clipboard for an item.
    pub fn write_to_clipboard(&self, item: ClipboardItem) -> (text: String)
        ensures
            text@ == text_of(item),
    {
        match item.text {
            Some(text) => text,
            None => String::new(),
        }
    }

    /// Stores credentials, which is not possible.
    pub fn write_credentials(
        &self,
        _url: &str,
        _username: &str,
        _password: &[u8],
    ) -> (outcome: Result<(), PlatformError>)
        ensures
            outcome == Err::<(), PlatformError>(PlatformError::KeychainMissing),
    {
        Err(PlatformError::KeychainMissing)
    }

    /// Looks up credentials: there are none.
    pub fn read_credentials(&self, _url: &str) -> (credentials: Result<
        Option<(String, Vec<u8>)>,
        PlatformError,
    >)
        ensures
            credentials == Ok::<Option<(String, Vec<u8>)>, PlatformError>(None),
    {
        Ok(None)
    }

    /// Deletes credentials: there are none, so that succeeds.
    pub fn delete_credentials(&self, _url: &str) -> (outcome: Result<(), PlatformError>)
        ensures
            outcome == Ok::<(), PlatformError>(()),
    {
        Ok(())
    }

    /// The keyboard layout.
    pub fn keyboard_layout(&self) -> (layout: IosKeyboardLayout)
        ensures
            layout == IosKeyboardLayout,
    {
        IosKeyboardLayout
    }

    /// Registers the function to call when URLs are to be opened.
    pub fn on_open_urls(&mut self, callback: C)
        ensures
            *final(self) == (IosPlatform {
                callbacks: IosPlatformCallbacks {
                    open_urls: Some(callback),
                    ..old(self).callbacks
                },
                ..*old(self)
            }),
    {
        self.callbacks.open_urls = Some(callback);
    }

    /// Registers the function to call when the application quits.
    pub fn on_quit(&mut self, callback: C)
        ensures
            *final(self) == (IosPlatform {
                callbacks: IosPlatformCallbacks {
                    quit: Some(callback),
                    ..old(self).callbacks
                },
                ..*old(self)
            }),
    {
        self.callbacks.quit = Some(callback);
    }

    /// Registers the function to call when the application is opened again.
    pub fn on_reopen(&mut self, callback: C)
        ensures
            *final(self) == (IosPlatform {
                callbacks: IosPlatformCallbacks {
                    reopen: Some(callback),
                    ..old(self).callbacks
                },
                ..*old(self)
            }),
    {
        self.callbacks.reopen = Some(callback);
    }

    /// Registers the function to call when a menu item is chosen.
    pub fn on_app_menu_action(&mut self, callback: C)
        ensures
            *final(self) == (IosPlatform {
                callbacks: IosPlatformCallbacks {
                    app_menu_action: Some(callback),
                    ..old(self).callbacks
                },
                ..*old(self)
            }),
    {
        self.callbacks.app_menu_action = Some(callback);
    }

    /// Registers the function to call before a menu opens.
    pub fn on_will_open_app_menu(&mut self, callback: C)
        ensures
            *final(self) == (IosPlatform {
                callbacks: IosPlatformCallbacks {
                    will_open_app_menu: Some(callback),
                    ..old(self).callbacks
                },
                ..*old(self)
            }),
    {
        self.callbacks.will_open_app_menu = Some(callback);
    }

    /// Registers the function to call to ask whether a menu item can be chosen.
    pub fn on_validate_app_menu_command(&mut self, callback: C)
        ensures
            *final(self) == (IosPlatform {
                callbacks: IosPlatformCallbacks {
                    validate_app_menu_command: Some(callback),
                    ..old(self).callbacks
                },
                ..*old(self)
            }),
    {
        self.callbacks.validate_app_menu_command = Some(callback);
    }

    /// Registers the function to call when the keyboard layout changes.
    pub fn on_keyboard_layout_change(&mut self, callback: C)
        ensures
            *final(self) == (IosPlatform {
                callbacks: IosPlatformCallbacks {
                    keyboard_layout_change: Some(callback),
                    ..old(self).callbacks
                },
                ..*old(self)
            }),
    {
        self.callbacks.keyboard_layout_change = Some(callback);
    }

    /// Registers the function to call when the thermal state changes.
    pub fn on_thermal_state_change(&mut self, callback: C)
        ensures
            *final(self) == (IosPlatform {
                callbacks: IosPlatformCallbacks {
                    thermal_state_change: Some(callback),
                    ..old(self).callbacks
                },
                ..*old(self)
            }),
    {
        self.callbacks.thermal_state_change = Some(callback);
    }
}

/// What is put on the clipboard is read back from it: the text of an item, and
/// the empty text for an item without one.
pub proof fn law_clipboard_gives_back_what_was_put_there(item: ClipboardItem)
    ensures
        clipboard_text(Some(vstd::utf8::encode_utf8(text_of(item)))) == Some(text_of(item)),
{
    crate::text::law_decoding_undoes_encoding(text_of(item));
}

/// The clipboard holds text exactly where the system has well-formed bytes for it,
/// and it is the text that those bytes encode.
pub proof fn law_clipboard_text_is_what_the_bytes_encode(utf8: Option<Seq<u8>>)
    ensures
        clipboard_text(utf8) is Some <==> utf8 is Some && vstd::utf8::valid_utf8(utf8->0),
        clipboard_text(utf8) is Some ==> vstd::utf8::encode_utf8(clipboard_text(utf8)->0)
            == utf8->0,
{
    crate::text::law_decoding_is_faithful(utf8);
}

/// What is put on the clipboard is the text of the item, whole; an item without
/// text puts the empty text there.
pub proof fn law_items_put_their_text_on_the_clipboard(text: String)
    ensures
        text_of((ClipboardItem { text: Some(text) })) == text@,
        text_of((ClipboardItem { text: None })).len() == 0,
{
}

/// The device is hotter with every number up to three, and no number beyond it
/// means anything less than critical.
pub proof fn law_thermal_numbers_rise(state: usize)
    ensures
        thermal_state_of(state) == ThermalState::Nominal <==> state < 1,
        thermal_state_of(state) == ThermalState::Fair <==> 1 <= state < 2,
        thermal_state_of(state) == ThermalState::Serious <==> 2 <= state < 3,
        thermal_state_of(state) == ThermalState::Critical <==> state >= 3,
{
}

/// A bundle path that cannot be read is reported with the reason as it is.
pub proof fn law_reason_is_the_message(reason: String)
    ensures
        message_of((PlatformError::BundlePathNotUtf8 { reason })) == reason@,
{
}

} // verus!
