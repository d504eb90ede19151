//! The window: what it remembers, and how touches and key presses on it become
//! input events.

use crate::events::{
    mouse_down_from_touch, mouse_move_from_pointer, mouse_up_from_touch, Modifiers, MouseButton,
    PlatformInput,
};
use crate::geometry::{Bounds, Pixels, Point, ScaleFactor, Size};
use vstd::prelude::*;

#[allow(unused_imports)]
use crate::events::{MouseDownEvent, MouseMoveEvent, MouseUpEvent};

verus! {

/// The address of an Objective-C object or class; zero where there is none.
#[derive(Clone, Copy, Debug, PartialEq, Eq, Hash, Structural)]
pub struct ObjectPtr {
    pub address: usize,
}

/// The framework's name for a window.
#[derive(Clone, Copy, Debug, PartialEq, Eq, Hash, Structural)]
pub struct AnyWindowHandle {
    pub id: u64,
}

/// The place of a window on the screen, and how it came to it.
#[derive(Clone, Copy, Debug, PartialEq, Eq)]
pub enum WindowBounds {
    Windowed(Bounds<Pixels>),
    Fullscreen(Bounds<Pixels>),
    Maximized(Bounds<Pixels>),
}

/// What a new window is asked to be.
#[derive(Clone, Copy, Debug, PartialEq, Eq)]
pub struct WindowParams {
    pub bounds: Option<WindowBounds>,
}

/// The theme that the system asks for.
#[derive(Clone, Copy, Debug, PartialEq, Eq, Structural)]
pub enum WindowAppearance {
    Light,
    Dark,
}

/// What shows through a window.
#[derive(Clone, Copy, Debug, PartialEq, Eq, Structural)]
pub enum WindowBackgroundAppearance {
    Opaque,
    Transparent,
    Blurred,
}

/// Whether caps lock is on.
#[derive(Clone, Copy, Debug, PartialEq, Eq, Structural)]
pub enum Capslock {
    Off,
    On,
}

/// How far a touch has come.
#[derive(Clone, Copy, Debug, PartialEq, Eq, Structural)]
pub enum TouchPhase {
    Began,
    Moved,
    Ended,
}

/// A touch on the window.
#[derive(Clone, Copy, Debug, PartialEq, Eq)]
pub struct Touch {
    pub position: Point<Pixels>,
    pub tap_count: usize,
}

/// The key of a press on a hardware keyboard.
#[derive(Clone, Debug, PartialEq, Eq)]
pub struct UiKey {
    pub characters: String,
    pub characters_ignoring_modifiers: String,
    pub key_code: u32,
    pub modifier_flags: usize,
}

/// A press; not every press is one of a key.
#[derive(Clone, Debug, PartialEq, Eq)]
pub struct UiPress {
    pub key: Option<UiKey>,
}

/// The functions that the framework has registered with a window. `C` is the
/// type of such a function.
#[derive(Debug)]
pub struct IosWindowCallbacks<C> {
    pub request_frame: Option<C>,
    pub event: Option<C>,
    pub activate: Option<C>,
    pub hover: Option<C>,
    pub resize: Option<C>,
    pub moved: Option<C>,
    pub should_close: Option<C>,
    pub close: Option<C>,
    pub appearance_changed: Option<C>,
    pub hit_test_window_control: Option<C>,
}

/// A window. `C` is the type of the functions that the framework registers, `I`
/// that of its input handler.
#[derive(Debug)]
pub struct IosWindow<C, I> {
    pub handle: AnyWindowHandle,
    pub ui_window: ObjectPtr,
    pub metal_view: ObjectPtr,
    pub display_link_handler: ObjectPtr,
    pub display_link: ObjectPtr,
    pub bounds: Bounds<Pixels>,
    pub scale_factor: ScaleFactor,
    pub is_active: bool,
    /// Where the latest touch began.
    pub last_touch_position: Point<Pixels>,
    /// How many taps the latest touch is the last of.
    pub touch_click_count: usize,
    pub input_handler: Option<I>,
    pub callbacks: IosWindowCallbacks<C>,
}

/// What is left to do for a window that goes away: to stop a display link, and
/// to call a function.
#[derive(Debug)]
pub struct WindowClosing<C> {
    pub display_link: Option<ObjectPtr>,
    pub callback: Option<C>,
}

impl ObjectPtr {
    /// No object.
    pub open spec fn spec_null() -> ObjectPtr {
        ObjectPtr { address: 0 }
    }

    /// No object.
    #[verifier::when_used_as_spec(spec_null)]
    pub fn null() -> (object: ObjectPtr)
        ensures
            object == ObjectPtr::null(),
    {
        ObjectPtr { address: 0 }
    }

    /// Whether there is no object.
    pub fn is_null(self) -> (null: bool)
        ensures
            null == (self == ObjectPtr::null()),
    {
        self.address == 0
    }
}

impl<C> IosWindowCallbacks<C> {
    /// No function registered.
    pub open spec fn spec_none() -> IosWindowCallbacks<C> {
        IosWindowCallbacks {
            request_frame: None,
            event: None,
            activate: None,
            hover: None,
            resize: None,
            moved: None,
            should_close: None,
            close: None,
            appearance_changed: None,
            hit_test_window_control: None,
        }
    }

    /// No function registered.
    #[verifier::when_used_as_spec(spec_none)]
    pub fn none() -> (callbacks: IosWindowCallbacks<C>)
        ensures
            callbacks == IosWindowCallbacks::<C>::none(),
    {
        IosWindowCallbacks {
            request_frame: None,
            event: None,
            activate: None,
            hover: None,
            resize: None,
            moved: None,
            should_close: None,
            close: None,
            appearance_changed: None,
            hit_test_window_control: None,
        }
    }
}

/// The place of a new window: the one it asks for, if it is to be a window
/// among others, and else the whole display.
pub open spec fn initial_bounds_of(
    params: WindowParams,
    display_bounds: Bounds<Pixels>,
) -> Bounds<Pixels> {
    match params.bounds {
        Some(WindowBounds::Windowed(bounds)) => bounds,
        _ => display_bounds,
    }
}

/// The place of a new window on a display.
pub fn initial_bounds(params: &WindowParams, display_bounds: Bounds<Pixels>) -> (bounds: Bounds<
    Pixels,
>)
    ensures
        bounds == initial_bounds_of(*params, display_bounds),
{
    match params.bounds {
        Some(WindowBounds::Windowed(bounds)) => bounds,
        _ => display_bounds,
    }
}

/// UIKit's number for the light theme.
pub const USER_INTERFACE_STYLE_LIGHT: usize = 1;

/// UIKit's number for the dark theme.
pub const USER_INTERFACE_STYLE_DARK: usize = 2;

/// The number of items before the first one that is missing.
pub open spec fn live_len<T>(items: Seq<Option<T>>) -> nat
    decreases items.len(),
{
    if items.len() == 0 || items[0] is None {
        0
    } else {
        1 + live_len(items.drop_first())
    }
}

/// Counting stops at the first missing item.
pub(crate) proof fn lemma_live_len<T>(items: Seq<Option<T>>, n: int)
    requires
        0 <= n <= items.len(),
        forall|j: int| 0 <= j < n ==> #[trigger] items[j] is Some,
        n == items.len() || items[n] is None,
    ensures
        live_len(items) == n,
    decreases n,
{
    if n > 0 {
        let rest = items.drop_first();
        assert(items[0] is Some);
        assert forall|j: int| 0 <= j < n - 1 implies #[trigger] rest[j] is Some by {
            assert(items[j + 1] is Some);
        }
        lemma_live_len(rest, n - 1);
    }
}

/// The event of a touch. A touch that ends counts as the last of `click_count`
/// taps.
pub open spec fn touch_event(click_count: usize, phase: TouchPhase, touch: Touch) -> PlatformInput {
    match phase {
        TouchPhase::Began => PlatformInput::MouseDown(
            MouseDownEvent {
                button: MouseButton::Left,
                position: touch.position,
                modifiers: Modifiers::none(),
                click_count: touch.tap_count,
                first_mouse: false,
            },
        ),
        TouchPhase::Moved => PlatformInput::MouseMove(
            MouseMoveEvent {
                position: touch.position,
                pressed_button: Some(MouseButton::Left),
                modifiers: Modifiers::none(),
            },
        ),
        TouchPhase::Ended => PlatformInput::MouseUp(
            MouseUpEvent {
                button: MouseButton::Left,
                position: touch.position,
                modifiers: Modifiers::none(),
                click_count,
            },
        ),
    }
}

/// The window after a touch: it remembers where a touch began, and of how many
/// taps it is the last.
pub open spec fn after_touch<C, I>(
    window: IosWindow<C, I>,
    phase: TouchPhase,
    touch: Touch,
) -> IosWindow<C, I> {
    match phase {
        TouchPhase::Began => IosWindow {
            last_touch_position: touch.position,
            touch_click_count: touch.tap_count,
            ..window
        },
        _ => window,
    }
}

/// The window after the first `n` of a number of touches.
pub open spec fn after_touches<C, I>(
    window: IosWindow<C, I>,
    phase: TouchPhase,
    touches: Seq<Option<Touch>>,
    n: int,
) -> IosWindow<C, I>
    decreases n,
{
    if n <= 0 {
        window
    } else {
        after_touch(after_touches(window, phase, touches, n - 1), phase, touches[n - 1]->0)
    }
}

impl<C, I> IosWindow<C, I> {
    /// Makes a window from the objects that were created for it.
    pub fn new(
        handle: AnyWindowHandle,
        params: &WindowParams,
        display_bounds: Bounds<Pixels>,
        scale_factor: ScaleFactor,
        ui_window: ObjectPtr,
        metal_view: ObjectPtr,
    ) -> (window: IosWindow<C, I>)
        ensures
            window == (IosWindow {
                handle,
                ui_window,
                metal_view,
                display_link_handler: ObjectPtr::null(),
                display_link: ObjectPtr::null(),
                bounds: initial_bounds_of(*params, display_bounds),
                scale_factor,
                is_active: true,
                last_touch_position: Point::<Pixels>::origin(),
                touch_click_count: 1,
                input_handler: None::<I>,
                callbacks: IosWindowCallbacks::<C>::none(),
            }),
    {
        IosWindow {
            handle,
            ui_window,
            metal_view,
            display_link_handler: ObjectPtr::null(),
            display_link: ObjectPtr::null(),
            bounds: initial_bounds(params, display_bounds),
            scale_factor,
            is_active: true,
            last_touch_position: Point::<Pixels>::origin(),
            touch_click_count: 1,
            input_handler: None,
            callbacks: IosWindowCallbacks::none(),
        }
    }

    /// Takes note of one touch, and makes its event.
    pub fn handle_touch(&mut self, phase: TouchPhase, touch: Touch) -> (event: PlatformInput)
        ensures
            *final(self) == after_touch(*old(self), phase, touch),
            event == touch_event(old(self).touch_click_count, phase, touch),
    {
        let modifiers = Modifiers::none();
        match phase {
            TouchPhase::Began => {
                self.last_touch_position = touch.position;
                self.touch_click_count = touch.tap_count;
                mouse_down_from_touch(touch.position, touch.tap_count, modifiers)
            },
            TouchPhase::Moved => {
                mouse_move_from_pointer(touch.position, Some(MouseButton::Left), modifiers)
            },
            TouchPhase::Ended => {
                mouse_up_from_touch(touch.position, self.touch_click_count, modifiers)
            },
        }
    }

    /// Takes note of a number of touches, up to the first that is missing, and
    /// makes their events.
    pub fn handle_touches(&mut self, phase: TouchPhase, touches: &[Option<Touch>]) -> (events: Vec<
        PlatformInput,
    >)
        ensures
            *final(self) == after_touches(
                *old(self),
                phase,
                touches@,
                live_len(touches@) as int,
            ),
            events@.len() == live_len(touches@),
            forall|i: int|
                0 <= i < events@.len() ==> #[trigger] events@[i] == touch_event(
                    old(self).touch_click_count,
                    phase,
                    touches@[i]->0,
                ),
    {
        let ghost before = *self;
        let mut events: Vec<PlatformInput> = Vec::new();
        let mut i: usize = 0;
        while i < touches.len() && touches[i].is_some()
            invariant
                i <= touches.len(),
                forall|j: int| 0 <= j < i ==> #[trigger] touches@[j] is Some,
                *self == after_touches(before, phase, touches@, i as int),
                phase != TouchPhase::Began ==> *self == before,
                events@.len() == i,
                forall|j: int|
                    0 <= j < i ==> #[trigger] events@[j] == touch_event(
                        before.touch_click_count,
                        phase,
                        touches@[j]->0,
                    ),
            decreases touches.len() - i,
        {
            match touches[i] {
                Some(touch) => {
                    events.push(self.handle_touch(phase, touch));
                },
                None => {},
            }
            i = i + 1;
        }
        proof {
            lemma_live_len(touches@, i as int);
        }
        events
    }

    /// The place of the window.
    pub fn bounds(&self) -> (bounds: Bounds<Pixels>)
        ensures
            bounds == self.bounds,
    {
        self.bounds
    }

    /// Whether the window fills the screen: it always does.
    pub fn is_maximized(&self) -> (maximized: bool)
        ensures
            maximized,
    {
        true
    }

    /// The place of the window, as that of one that fills the screen.
    pub fn window_bounds(&self) -> (bounds: WindowBounds)
        ensures
            bounds == WindowBounds::Fullscreen(self.bounds),
    {
        WindowBounds::Fullscreen(self.bounds)
    }

    /// The size of the window's contents.
    pub fn content_size(&self) -> (size: Size<Pixels>)
        ensures
            size == self.bounds.size,
    {
        self.bounds.size
    }

    /// Gives the window another size, in the same place.
    pub fn resize(&mut self, size: Size<Pixels>)
        ensures
            *final(self) == (IosWindow {
                bounds: Bounds { origin: old(self).bounds.origin, size },
                ..*old(self)
            }),
    {
        self.bounds = Bounds { origin: self.bounds.origin, size };
    }

    /// The number of physical pixels to a point.
    pub fn scale_factor(&self) -> (scale_factor: ScaleFactor)
        ensures
            scale_factor == self.scale_factor,
    {
        self.scale_factor
    }

    /// The theme that the window is to have, by UIKit's number for the one that
    /// it is asked to have. It is dark unless it is asked to be light.
    pub fn appearance(&self, style: usize) -> (appearance: WindowAppearance)
        ensures
            appearance == if style == 1 {
                WindowAppearance::Light
            } else {
                WindowAppearance::Dark
            },
    {
        if style == USER_INTERFACE_STYLE_LIGHT {
            WindowAppearance::Light
        } else {
            WindowAppearance::Dark
        }
    }

    /// Where the latest touch began.
    pub fn mouse_position(&self) -> (position: Point<Pixels>)
        ensures
            position == self.last_touch_position,
    {
        self.last_touch_position
    }

    /// The modifiers held down: they are known only while a key is pressed.
    pub fn modifiers(&self) -> (modifiers: Modifiers)
        ensures
            modifiers == Modifiers::none(),
    {
        Modifiers::none()
    }

    /// Whether caps lock is on: it is not known to be.
    pub fn capslock(&self) -> (capslock: Capslock)
        ensures
            capslock == Capslock::Off,
    {
        Capslock::Off
    }

    /// Sets the input handler.
    pub fn set_input_handler(&mut self, input_handler: I)
        ensures
            *final(self) == (IosWindow { input_handler: Some(input_handler), ..*old(self) }),
    {
        self.input_handler = Some(input_handler);
    }

    /// Takes the input handler away.
    pub fn take_input_handler(&mut self) -> (input_handler: Option<I>)
        ensures
            input_handler == old(self).input_handler,
            *final(self) == (IosWindow { input_handler: None::<I>, ..*old(self) }),
    {
        self.input_handler.take()
    }

    /// Whether the window is active.
    pub fn is_active(&self) -> (active: bool)
        ensures
            active == self.is_active,
    {
        self.is_active
    }

    /// Whether the pointer hovers over the window: there is no hovering.
    pub fn is_hovered(&self) -> (hovered: bool)
        ensures
            !hovered,
    {
        false
    }

    /// What shows through the window: nothing.
    pub fn background_appearance(&self) -> (appearance: WindowBackgroundAppearance)
        ensures
            appearance == WindowBackgroundAppearance::Opaque,
    {
        WindowBackgroundAppearance::Opaque
    }

    /// Whether the window is in full-screen mode: it always is.
    pub fn is_fullscreen(&self) -> (fullscreen: bool)
        ensures
            fullscreen,
    {
        true
    }

    /// Whether text may be drawn with parts of pixels: it may not.
    pub fn is_subpixel_rendering_supported(&self) -> (supported: bool)
        ensures
            !supported,
    {
        false
    }
}

/// The window with a display link. One that has a link keeps it.
pub open spec fn with_display_link<C, I>(
    window: IosWindow<C, I>,
    display_link: ObjectPtr,
    handler: ObjectPtr,
) -> IosWindow<C, I> {
    if window.display_link == ObjectPtr::null() {
        IosWindow { display_link, display_link_handler: handler, ..window }
    } else {
        window
    }
}

/// The window without a display link. One without a link keeps what it has.
pub open spec fn without_display_link<C, I>(window: IosWindow<C, I>) -> IosWindow<C, I> {
    if window.display_link == ObjectPtr::null() {
        window
    } else {
        IosWindow {
            display_link: ObjectPtr::null(),
            display_link_handler: ObjectPtr::null(),
            ..window
        }
    }
}

/// The display link to stop, if one runs.
pub open spec fn running_display_link<C, I>(window: IosWindow<C, I>) -> Option<ObjectPtr> {
    if window.display_link == ObjectPtr::null() {
        None
    } else {
        Some(window.display_link)
    }
}

/// The window once it has been closed: no display link runs, and the function to
/// call is spent.
pub open spec fn after_close<C, I>(window: IosWindow<C, I>) -> IosWindow<C, I> {
    let stopped = without_display_link(window);
    IosWindow { callbacks: IosWindowCallbacks { close: None, ..stopped.callbacks }, ..stopped }
}

impl<C, I> IosWindow<C, I> {
    /// Whether a display link is still to be started.
    pub fn needs_display_link(&self) -> (needs: bool)
        ensures
            needs == (running_display_link(*self) is None),
    {
        self.display_link.is_null()
    }

    /// Takes note of a display link. A link that already runs is kept.
    pub fn start_display_link(&mut self, display_link: ObjectPtr, handler: ObjectPtr)
        ensures
            *final(self) == with_display_link(*old(self), display_link, handler),
    {
        if !self.display_link.is_null() {
            return;
        }
        self.display_link = display_link;
        self.display_link_handler = handler;
    }

    /// Forgets the display link, and returns it for it to be stopped.
    pub fn stop_display_link(&mut self) -> (display_link: Option<ObjectPtr>)
        ensures
            *final(self) == without_display_link(*old(self)),
            display_link == running_display_link(*old(self)),
    {
        if self.display_link.is_null() {
            return None;
        }
        let display_link = self.display_link;
        self.display_link = ObjectPtr::null();
        self.display_link_handler = ObjectPtr::null();
        Some(display_link)
    }

    /// Closes the window, and says what is left to do. The function registered
    /// for this is given out once.
    pub fn close(&mut self) -> (closing: WindowClosing<C>)
        ensures
            *final(self) == after_close(*old(self)),
            closing.display_link == running_display_link(*old(self)),
            closing.callback == old(self).callbacks.close,
    {
        let display_link = self.stop_display_link();
        let callback = self.callbacks.close.take();
        WindowClosing { display_link, callback }
    }

    /// Registers the function to call when a frame is due, and says whether a display link
    /// is to be started for it.
    pub fn on_request_frame(&mut self, callback: C) -> (start: bool)
        ensures
            *final(self) == (IosWindow {
                callbacks: IosWindowCallbacks {
                    request_frame: Some(callback),
                    ..old(self).callbacks
                },
                ..*old(self)
            }),
            start == (running_display_link(*old(self)) is None),
    {
        self.callbacks.request_frame = Some(callback);
        self.needs_display_link()
    }

    /// Whether a function is to be called when the display link fires.
    pub fn frame_is_due(&self) -> (due: bool)
        ensures
            due == (self.callbacks.request_frame is Some),
    {
        self.callbacks.request_frame.is_some()
    }

    /// The events to hand on: all of them if a function is registered for them,
    /// and else none.
    pub fn deliveries(&self, events: Vec<PlatformInput>) -> (due: Vec<PlatformInput>)
        ensures
            due@ == if self.callbacks.event is Some {
                events@
            } else {
                Seq::<PlatformInput>::empty()
            },
    {
        if self.callbacks.event.is_some() {
            events
        } else {
            Vec::new()
        }
    }

    /// Registers the function to call for every input event.
    pub fn on_input(&mut self, callback: C)
        ensures
            *final(self) == (IosWindow {
                callbacks: IosWindowCallbacks {
                    event: Some(callback),
                    ..old(self).callbacks
                },
                ..*old(self)
            }),
    {
        self.callbacks.event = Some(callback);
    }

    /// Registers the function to call when the window becomes active or stops being so.
    pub fn on_active_status_change(&mut self, callback: C)
        ensures
            *final(self) == (IosWindow {
                callbacks: IosWindowCallbacks {
                    activate: Some(callback),
                    ..old(self).callbacks
                },
                ..*old(self)
            }),
    {
        self.callbacks.activate = Some(callback);
    }

    /// Registers the function to call when the pointer enters or leaves.
    pub fn on_hover_status_change(&mut self, callback: C)
        ensures
            *final(self) == (IosWindow {
                callbacks: IosWindowCallbacks {
                    hover: Some(callback),
                    ..old(self).callbacks
                },
                ..*old(self)
            }),
    {
        self.callbacks.hover = Some(callback);
    }

    /// Registers the function to call when the size changes.
    pub fn on_resize(&mut self, callback: C)
        ensures
            *final(self) == (IosWindow {
                callbacks: IosWindowCallbacks {
                    resize: Some(callback),
                    ..old(self).callbacks
                },
                ..*old(self)
            }),
    {
        self.callbacks.resize = Some(callback);
    }

    /// Registers the function to call when the window moves.
    pub fn on_moved(&mut self, callback: C)
        ensures
            *final(self) == (IosWindow {
                callbacks: IosWindowCallbacks {
                    moved: Some(callback),
                    ..old(self).callbacks
                },
                ..*old(self)
            }),
    {
        self.callbacks.moved = Some(callback);
    }

    /// Registers the function to call to ask whether the window may close.
    pub fn on_should_close(&mut self, callback: C)
        ensures
            *final(self) == (IosWindow {
                callbacks: IosWindowCallbacks {
                    should_close: Some(callback),
                    ..old(self).callbacks
                },
                ..*old(self)
            }),
    {
        self.callbacks.should_close = Some(callback);
    }

    /// Registers the function to call to ask which control is at a place.
    pub fn on_hit_test_window_control(&mut self, callback: C)
        ensures
            *final(self) == (IosWindow {
                callbacks: IosWindowCallbacks {
                    hit_test_window_control: Some(callback),
                    ..old(self).callbacks
                },
                ..*old(self)
            }),
    {
        self.callbacks.hit_test_window_control = Some(callback);
    }

    /// Registers the function to call when the window closes.
    pub fn on_close(&mut self, callback: C)
        ensures
            *final(self) == (IosWindow {
                callbacks: IosWindowCallbacks {
                    close: Some(callback),
                    ..old(self).callbacks
                },
                ..*old(self)
            }),
    {
        self.callbacks.close = Some(callback);
    }

    /// Registers the function to call when the theme changes.
    pub fn on_appearance_changed(&mut self, callback: C)
        ensures
            *final(self) == (IosWindow {
                callbacks: IosWindowCallbacks {
                    appearance_changed: Some(callback),
                    ..old(self).callbacks
                },
                ..*old(self)
            }),
    {
        self.callbacks.appearance_changed = Some(callback);
    }
}

/// Only a touch that begins changes the window: the pointer stays where the
/// latest touch began, and its tap count stays, while touches move and end.
pub proof fn law_only_new_touches_are_remembered<C, I>(
    window: IosWindow<C, I>,
    phase: TouchPhase,
    touches: Seq<Option<Touch>>,
    n: int,
)
    requires
        phase != TouchPhase::Began,
    ensures
        after_touches(window, phase, touches, n) == window,
    decreases n,
{
    if n > 0 {
        law_only_new_touches_are_remembered(window, phase, touches, n - 1);
    }
}

/// After touches have begun, the pointer is where the last of them began.
pub proof fn law_pointer_is_where_the_last_touch_began<C, I>(
    window: IosWindow<C, I>,
    touches: Seq<Option<Touch>>,
    n: int,
)
    requires
        0 < n <= touches.len(),
    ensures
        after_touches(window, TouchPhase::Began, touches, n) == (IosWindow {
            last_touch_position: touches[n - 1]->0.position,
            touch_click_count: touches[n - 1]->0.tap_count,
            ..window
        }),
    decreases n,
{
    if n > 1 {
        law_pointer_is_where_the_last_touch_began(window, touches, n - 1);
    } else {
        assert(after_touches(window, TouchPhase::Began, touches, 0) == window);
    }
}

/// A touch that ends is reported with the tap count with which it began, however
/// it moved in between.
pub proof fn law_release_has_the_clicks_of_the_press<C, I>(
    window: IosWindow<C, I>,
    press: Touch,
    moves: Seq<Option<Touch>>,
    release: Touch,
)
    ensures
        ({
            let pressed = after_touch(window, TouchPhase::Began, press);
            let moved = after_touches(pressed, TouchPhase::Moved, moves, live_len(moves) as int);
            touch_event(moved.touch_click_count, TouchPhase::Ended, release)
                == PlatformInput::MouseUp(
                MouseUpEvent {
                    button: MouseButton::Left,
                    position: release.position,
                    modifiers: Modifiers::none(),
                    click_count: press.tap_count,
                },
            )
        }),
{
    let pressed = after_touch(window, TouchPhase::Began, press);
    law_only_new_touches_are_remembered(
        pressed,
        TouchPhase::Moved,
        moves,
        live_len(moves) as int,
    );
}

/// Stopping a display link undoes starting it, and only a link that runs is
/// stopped.
pub proof fn law_stopping_undoes_starting<C, I>(
    window: IosWindow<C, I>,
    display_link: ObjectPtr,
    handler: ObjectPtr,
)
    requires
        window.display_link == ObjectPtr::null(),
        window.display_link_handler == ObjectPtr::null(),
        display_link != ObjectPtr::null(),
    ensures
        running_display_link(with_display_link(window, display_link, handler)) == Some(
            display_link,
        ),
        without_display_link(with_display_link(window, display_link, handler)) == window,
        running_display_link(without_display_link(window)) is None,
{
}

/// At most one display link runs: once one has been started, starting another
/// changes nothing.
pub proof fn law_one_display_link_runs<C, I>(
    window: IosWindow<C, I>,
    first: ObjectPtr,
    first_handler: ObjectPtr,
    second: ObjectPtr,
    second_handler: ObjectPtr,
)
    requires
        first != ObjectPtr::null(),
    ensures
        ({
            let running = with_display_link(window, first, first_handler);
            with_display_link(running, second, second_handler) == running
        }),
{
}

/// Closing a window again leaves nothing to do: the display link is stopped
/// once, and the function registered for closing is called once.
pub proof fn law_closing_happens_once<C, I>(window: IosWindow<C, I>)
    ensures
        running_display_link(after_close(window)) is None,
        after_close(window).callbacks.close is None,
        after_close(after_close(window)) == after_close(window),
{
}

/// A touch is a mouse that holds down the left button and no modifier key: where
/// it begins the button goes down, with the taps it is the last of; where it moves
/// the mouse drags; where it ends the button comes up, with the taps that are
/// remembered. All of it happens at the place of the touch, whatever its tap
/// count.
pub proof fn law_touches_are_a_left_button(click_count: usize, touch: Touch)
    ensures
        touch_event(click_count, TouchPhase::Began, touch) matches PlatformInput::MouseDown(press)
            && {
            &&& press.button == MouseButton::Left
            &&& press.position == touch.position
            &&& press.click_count == touch.tap_count
            &&& !press.first_mouse
            &&& !press.modifiers.shift && !press.modifiers.control && !press.modifiers.alt
            &&& !press.modifiers.command && !press.modifiers.function
        },
        touch_event(click_count, TouchPhase::Moved, touch) matches PlatformInput::MouseMove(drag)
            && {
            &&& drag.pressed_button == Some(MouseButton::Left)
            &&& drag.position == touch.position
            &&& !drag.modifiers.shift && !drag.modifiers.control && !drag.modifiers.alt
            &&& !drag.modifiers.command && !drag.modifiers.function
        },
        touch_event(click_count, TouchPhase::Ended, touch) matches PlatformInput::MouseUp(release)
            && {
            &&& release.button == MouseButton::Left
            &&& release.position == touch.position
            &&& release.click_count == click_count
            &&& !release.modifiers.shift && !release.modifiers.control && !release.modifiers.alt
            &&& !release.modifiers.command && !release.modifiers.function
        },
{
}

/// A touch that begins is remembered, place and tap count; nothing else of the
/// window changes, and other touches change nothing at all.
pub proof fn law_one_touch_is_remembered<C, I>(window: IosWindow<C, I>, touch: Touch)
    ensures
        ({
            let began = after_touch(window, TouchPhase::Began, touch);
            &&& began.last_touch_position == touch.position
            &&& began.touch_click_count == touch.tap_count
            &&& began == (IosWindow {
                last_touch_position: began.last_touch_position,
                touch_click_count: began.touch_click_count,
                ..window
            })
        }),
        after_touch(window, TouchPhase::Moved, touch) == window,
        after_touch(window, TouchPhase::Ended, touch) == window,
{
}

/// Touches are taken note of one after the other.
pub proof fn law_touches_follow_one_another<C, I>(
    window: IosWindow<C, I>,
    phase: TouchPhase,
    touches: Seq<Option<Touch>>,
    n: int,
)
    requires
        0 <= n < touches.len(),
    ensures
        after_touches(window, phase, touches, 0) == window,
        after_touches(window, phase, touches, n + 1) == after_touch(
            after_touches(window, phase, touches, n),
            phase,
            touches[n]->0,
        ),
{
}

/// Items count up to the first that is missing: all before it are there, and it
/// is missing or past the end.
pub proof fn law_items_count_up_to_the_first_missing_one<T>(items: Seq<Option<T>>)
    ensures
        live_len(items) <= items.len(),
        forall|i: int| 0 <= i < live_len(items) ==> #[trigger] items[i] is Some,
        live_len(items) == items.len() || items[live_len(items) as int] is None,
    decreases items.len(),
{
    if items.len() > 0 && items[0] is Some {
        let rest = items.drop_first();
        law_items_count_up_to_the_first_missing_one(rest);
        assert forall|i: int| 0 <= i < live_len(items) implies #[trigger] items[i] is Some by {
            if i > 0 {
                assert(rest[i - 1] is Some);
            }
        }
    }
}

/// A window that asks for a place among others gets exactly that place; one that
/// asks to fill the screen, or for nothing, gets the whole display, whatever place
/// it names.
pub proof fn law_only_windowed_windows_choose_their_place(
    asked: Bounds<Pixels>,
    display_bounds: Bounds<Pixels>,
)
    ensures
        initial_bounds_of(
            (WindowParams { bounds: Some(WindowBounds::Windowed(asked)) }),
            display_bounds,
        ) == asked,
        initial_bounds_of(
            (WindowParams { bounds: Some(WindowBounds::Fullscreen(asked)) }),
            display_bounds,
        ) == display_bounds,
        initial_bounds_of(
            (WindowParams { bounds: Some(WindowBounds::Maximized(asked)) }),
            display_bounds,
        ) == display_bounds,
        initial_bounds_of((WindowParams { bounds: None }), display_bounds) == display_bounds,
{
}

/// A display link runs exactly where its address is not zero, and it is that
/// address that is given out to be stopped.
pub proof fn law_running_link_has_an_address<C, I>(window: IosWindow<C, I>)
    ensures
        running_display_link(window) is Some <==> window.display_link.address != 0,
        running_display_link(window) is Some ==> running_display_link(window)->0
            == window.display_link,
{
}

/// Starting a display link on a window without one sets the link and its handler;
/// nothing else of the window changes, and a window with a link stays as it is.
pub proof fn law_starting_sets_link_and_handler<C, I>(
    window: IosWindow<C, I>,
    display_link: ObjectPtr,
    handler: ObjectPtr,
)
    ensures
        ({
            let started = with_display_link(window, display_link, handler);
            &&& window.display_link.address == 0 ==> started.display_link == display_link
                && started.display_link_handler == handler
            &&& window.display_link.address != 0 ==> started == window
            &&& started == (IosWindow {
                display_link: started.display_link,
                display_link_handler: started.display_link_handler,
                ..window
            })
        }),
{
}

/// Stopping a display link that runs leaves neither link nor handler; nothing else
/// of the window changes, and a window without a link stays as it is.
pub proof fn law_stopping_leaves_no_link<C, I>(window: IosWindow<C, I>)
    ensures
        ({
            let stopped = without_display_link(window);
            &&& window.display_link.address != 0 ==> stopped.display_link.address == 0
                && stopped.display_link_handler.address == 0
            &&& window.display_link.address == 0 ==> stopped == window
            &&& stopped == (IosWindow {
                display_link: stopped.display_link,
                display_link_handler: stopped.display_link_handler,
                ..window
            })
        }),
{
}

/// Closing takes the function registered for it away, stops the display link, and
/// leaves all other functions and the rest of the window as they were.
pub proof fn law_closing_leaves_the_rest<C, I>(window: IosWindow<C, I>)
    ensures
        ({
            let closed = after_close(window);
            &&& closed.callbacks.close is None
            &&& closed.display_link.address == 0
            &&& closed == (IosWindow {
                callbacks: IosWindowCallbacks { close: None, ..window.callbacks },
                ..without_display_link(window)
            })
        }),
{
}

} // verus!
