//! The view that receives the messages of UIKit: which messages it takes, and
//! what it makes of key presses.

use crate::events::{key_down_event, key_up_event, keystroke_from_ui_key, PlatformInput};
use crate::window::{ObjectPtr, TouchPhase, UiKey, UiPress};
use vstd::prelude::*;

verus! {

/// A message that the view takes.
#[derive(Clone, Copy, Debug, PartialEq, Eq, Structural)]
pub enum ViewMessage {
    PressesBegan,
    PressesEnded,
    TouchesBegan,
    TouchesMoved,
    TouchesEnded,
}

/// What a message tells of.
#[derive(Clone, Copy, Debug, PartialEq, Eq, Structural)]
pub enum ViewInput {
    Keys { key_down: bool },
    Touches { phase: TouchPhase },
}

/// The selector of a message.
pub open spec fn selector_of(message: ViewMessage) -> Seq<char> {
    match message {
        ViewMessage::PressesBegan => "pressesBegan:withEvent:"@,
        ViewMessage::PressesEnded => "pressesEnded:withEvent:"@,
        ViewMessage::TouchesBegan => "touchesBegan:withEvent:"@,
        ViewMessage::TouchesMoved => "touchesMoved:withEvent:"@,
        ViewMessage::TouchesEnded => "touchesEnded:withEvent:"@,
    }
}

impl ViewMessage {
    /// The selector of the message.
    pub fn selector(self) -> (selector: &'static str)
        ensures
            selector@ == selector_of(self),
    {
        match self {
            ViewMessage::PressesBegan => "pressesBegan:withEvent:",
            ViewMessage::PressesEnded => "pressesEnded:withEvent:",
            ViewMessage::TouchesBegan => "touchesBegan:withEvent:",
            ViewMessage::TouchesMoved => "touchesMoved:withEvent:",
            ViewMessage::TouchesEnded => "touchesEnded:withEvent:",
        }
    }

    /// What the message tells of.
    pub fn input(self) -> (input: ViewInput)
        ensures
            input == match self {
                ViewMessage::PressesBegan => ViewInput::Keys { key_down: true },
                ViewMessage::PressesEnded => ViewInput::Keys { key_down: false },
                ViewMessage::TouchesBegan => ViewInput::Touches { phase: TouchPhase::Began },
                ViewMessage::TouchesMoved => ViewInput::Touches { phase: TouchPhase::Moved },
                ViewMessage::TouchesEnded => ViewInput::Touches { phase: TouchPhase::Ended },
            },
    {
        match self {
            ViewMessage::PressesBegan => ViewInput::Keys { key_down: true },
            ViewMessage::PressesEnded => ViewInput::Keys { key_down: false },
            ViewMessage::TouchesBegan => ViewInput::Touches { phase: TouchPhase::Began },
            ViewMessage::TouchesMoved => ViewInput::Touches { phase: TouchPhase::Moved },
            ViewMessage::TouchesEnded => ViewInput::Touches { phase: TouchPhase::Ended },
        }
    }
}

/// No two messages have the same selector.
pub proof fn law_selectors_are_distinct(a: ViewMessage, b: ViewMessage)
    requires
        selector_of(a) == selector_of(b),
    ensures
        a == b,
{
    reveal_strlit("pressesBegan:withEvent:");
    reveal_strlit("pressesEnded:withEvent:");
    reveal_strlit("touchesBegan:withEvent:");
    reveal_strlit("touchesMoved:withEvent:");
    reveal_strlit("touchesEnded:withEvent:");
    // The selectors differ in the first letter or in the first two of the phase.
    let (s, t) = (selector_of(a), selector_of(b));
    assert(s[0] == t[0] && s[7] == t[7]);
}

/// The Objective-C classes that the layer declares, once they are registered.
#[derive(Clone, Copy, Debug, PartialEq, Eq, Structural)]
pub struct IosClasses {
    pub metal_view: ObjectPtr,
    pub display_link_handler: ObjectPtr,
}

impl IosClasses {
    /// Whether the classes are known together or not at all.
    pub open spec fn wf(&self) -> bool {
        (self.metal_view == ObjectPtr::null()) == (self.display_link_handler == ObjectPtr::null())
    }

    /// No class registered.
    pub fn new() -> (classes: IosClasses)
        ensures
            classes.wf(),
            classes == (IosClasses {
                metal_view: ObjectPtr::null(),
                display_link_handler: ObjectPtr::null(),
            }),
    {
        IosClasses { metal_view: ObjectPtr::null(), display_link_handler: ObjectPtr::null() }
    }

    /// Whether the classes are still to be registered.
    pub fn must_register(&self) -> (must: bool)
        ensures
            must == (self.metal_view == ObjectPtr::null()),
    {
        self.metal_view.is_null()
    }

    /// Takes note of classes. Those that are already registered are kept.
    pub fn registered(&mut self, metal_view: ObjectPtr, display_link_handler: ObjectPtr)
        ensures
            *final(self) == with_classes(*old(self), metal_view, display_link_handler),
    {
        if !self.metal_view.is_null() {
            return;
        }
        self.metal_view = metal_view;
        self.display_link_handler = display_link_handler;
    }
}

/// The registered classes once the given ones were offered: the first ones stay.
pub open spec fn with_classes(
    classes: IosClasses,
    metal_view: ObjectPtr,
    display_link_handler: ObjectPtr,
) -> IosClasses {
    if classes.metal_view == ObjectPtr::null() {
        IosClasses { metal_view, display_link_handler }
    } else {
        classes
    }
}

/// Classes are registered once: after that both are known, and others change
/// nothing.
pub proof fn law_classes_are_registered_once(
    classes: IosClasses,
    metal_view: ObjectPtr,
    display_link_handler: ObjectPtr,
    other_view: ObjectPtr,
    other_handler: ObjectPtr,
)
    requires
        classes.wf(),
        metal_view != ObjectPtr::null(),
        display_link_handler != ObjectPtr::null(),
    ensures
        ({
            let known = with_classes(classes, metal_view, display_link_handler);
            &&& known.wf()
            &&& known.metal_view.address != 0
            &&& known.display_link_handler.address != 0
            &&& classes.metal_view.address == 0 ==> known.metal_view == metal_view
                && known.display_link_handler == display_link_handler
            &&& classes.metal_view.address != 0 ==> known == classes
            &&& with_classes(known, other_view, other_handler) == known
        }),
{
}

/// The keys of the first `n` of a number of presses, without the presses that
/// are none of a key.
pub open spec fn pressed_keys(presses: Seq<Option<UiPress>>, n: int) -> Seq<UiKey>
    decreases n,
{
    if n <= 0 {
        Seq::empty()
    } else {
        let before = pressed_keys(presses, n - 1);
        match presses[n - 1]->0.key {
            Some(key) => before.push(key),
            None => before,
        }
    }
}

/// The name of the key that was pressed.
pub open spec fn pressed_key_name(key: UiKey) -> Seq<char> {
    crate::events::key_name_of(
        key.characters@,
        key.characters_ignoring_modifiers@,
        key.key_code,
    )
}

/// Whether a key without a name of its own that types text in ASCII goes by that
/// text in lower case.
pub open spec fn spells_ascii_key(name: Seq<char>, key: UiKey) -> bool {
    crate::events::spells_ascii_text(
        name,
        key.characters@,
        key.characters_ignoring_modifiers@,
        key.key_code,
    )
}

/// Whether an event is the one of a key that went down or came up. A key that
/// went down has the text it types; one that came up types nothing.
pub open spec fn is_key_event(event: PlatformInput, key: UiKey, key_down: bool) -> bool {
    let modifiers = crate::events::modifiers_of(key.modifier_flags);
    match event {
        PlatformInput::KeyDown(down) => {
            &&& key_down
            &&& !down.is_repeat
            &&& down.keystroke.key@ == pressed_key_name(key)
            &&& spells_ascii_key(down.keystroke.key@, key)
            &&& down.keystroke.modifiers == modifiers
            &&& match down.keystroke.ime_key {
                Some(text) => crate::events::types_text(modifiers) && text@ == pressed_key_name(
                    key,
                ),
                None => !crate::events::types_text(modifiers),
            }
        },
        PlatformInput::KeyUp(up) => {
            &&& !key_down
            &&& up.keystroke.key@ == pressed_key_name(key)
            &&& spells_ascii_key(up.keystroke.key@, key)
            &&& up.keystroke.modifiers == modifiers
            &&& up.keystroke.ime_key is None
        },
        _ => false,
    }
}

/// Makes the event of a key that went down or came up.
pub fn key_event(key: &UiKey, key_down: bool) -> (event: PlatformInput)
    ensures
        is_key_event(event, *key, key_down),
{
    let keystroke = keystroke_from_ui_key(
        key.characters.as_str(),
        key.characters_ignoring_modifiers.as_str(),
        key.key_code,
        key.modifier_flags,
    );
    if key_down {
        key_down_event(keystroke, false)
    } else {
        key_up_event(keystroke)
    }
}

/// Makes the events of a number of presses, up to the first that is missing.
pub fn handle_key_presses(presses: &[Option<UiPress>], key_down: bool) -> (events: Vec<
    PlatformInput,
>)
    ensures
        ({
            let keys = pressed_keys(presses@, crate::window::live_len(presses@) as int);
            &&& events@.len() == keys.len()
            &&& forall|i: int|
                0 <= i < keys.len() ==> is_key_event(#[trigger] events@[i], keys[i], key_down)
        }),
{
    let mut events: Vec<PlatformInput> = Vec::new();
    let mut i: usize = 0;
    while i < presses.len() && presses[i].is_some()
        invariant
            i <= presses.len(),
            forall|j: int| 0 <= j < i ==> #[trigger] presses@[j] is Some,
            events@.len() == pressed_keys(presses@, i as int).len(),
            forall|j: int|
                0 <= j < events@.len() ==> is_key_event(
                    #[trigger] events@[j],
                    pressed_keys(presses@, i as int)[j],
                    key_down,
                ),
        decreases presses.len() - i,
    {
        match &presses[i] {
            Some(press) => match &press.key {
                Some(key) => {
                    events.push(key_event(key, key_down));
                },
                None => {},
            },
            None => {},
        }
        i = i + 1;
    }
    proof {
        crate::window::lemma_live_len(presses@, i as int);
    }
    events
}

/// A key comes up under the name and with the modifiers under which it went
/// down.
pub proof fn law_release_names_the_pressed_key(
    key: UiKey,
    down: PlatformInput,
    up: PlatformInput,
)
    requires
        is_key_event(down, key, true),
        is_key_event(up, key, false),
    ensures
        down is KeyDown,
        up is KeyUp,
        down->KeyDown_0.keystroke.key@ == up->KeyUp_0.keystroke.key@,
        down->KeyDown_0.keystroke.modifiers == up->KeyUp_0.keystroke.modifiers,
{
}

/// The keys that were pressed are those of the presses that have one, in the same
/// order: none is left out, and none is made up.
pub proof fn law_every_pressed_key_counts(presses: Seq<Option<UiPress>>, n: int)
    requires
        0 <= n <= presses.len(),
    ensures
        pressed_keys(presses, n) == presses.take(n).filter(
            |press: Option<UiPress>| press->0.key is Some,
        ).map_values(|press: Option<UiPress>| press->0.key->0),
    decreases n,
{
    reveal(Seq::filter);
    let has_key = |press: Option<UiPress>| press->0.key is Some;
    let key_of = |press: Option<UiPress>| press->0.key->0;
    let taken = presses.take(n);
    if n > 0 {
        law_every_pressed_key_counts(presses, n - 1);
        let rest = presses.take(n - 1);
        assert(taken.drop_last() =~= rest);
        if has_key(taken.last()) {
            assert(rest.filter(has_key).push(taken.last()).map_values(key_of) =~= rest.filter(
                has_key,
            ).map_values(key_of).push(key_of(taken.last())));
        }
    } else {
        assert(taken.filter(has_key).map_values(key_of) =~= Seq::<UiKey>::empty());
    }
}

/// The event of a key says what was pressed: whether it went down or came up, the
/// key by its name or by the text it types without modifiers, each modifier by its
/// bit, and the text it types unless command, control or option is held down.
pub proof fn law_key_event_says_what_was_pressed(event: PlatformInput, key: UiKey, key_down: bool)
    requires
        is_key_event(event, key, key_down),
    ensures
        key_down ==> event is KeyDown && !event->KeyDown_0.is_repeat,
        !key_down ==> event is KeyUp,
        ({
            let keystroke = if key_down {
                event->KeyDown_0.keystroke
            } else {
                event->KeyUp_0.keystroke
            };
            let named = crate::events::hid_key_name(key.key_code);
            let bare = key.characters_ignoring_modifiers@;
            let shortcut = (key.modifier_flags / 0x4_0000) % 2 == 1 || (key.modifier_flags
                / 0x8_0000) % 2 == 1 || (key.modifier_flags / 0x10_0000) % 2 == 1;
            &&& named is Some ==> keystroke.key@ == named->0
            &&& named is None && bare.len() > 0 ==> keystroke.key@ == crate::text::str_lowercase(
                bare,
            )
            &&& named is None && bare.len() == 0 ==> keystroke.key@ == crate::text::str_lowercase(
                key.characters@,
            )
            &&& named is None && bare.len() > 0 && vstd::utf8::is_ascii_chars(bare)
                ==> keystroke.key@ == crate::text::ascii_lowercase(bare)
            &&& named is None && bare.len() == 0 && vstd::utf8::is_ascii_chars(key.characters@)
                ==> keystroke.key@ == crate::text::ascii_lowercase(key.characters@)
            &&& keystroke.modifiers.shift <==> (key.modifier_flags / 0x2_0000) % 2 == 1
            &&& keystroke.modifiers.control <==> (key.modifier_flags / 0x4_0000) % 2 == 1
            &&& keystroke.modifiers.alt <==> (key.modifier_flags / 0x8_0000) % 2 == 1
            &&& keystroke.modifiers.command <==> (key.modifier_flags / 0x10_0000) % 2 == 1
            &&& !keystroke.modifiers.function
            &&& keystroke.ime_key is Some <==> key_down && !shortcut
            &&& keystroke.ime_key is Some ==> keystroke.ime_key->0@ == keystroke.key@
        }),
{
    crate::events::law_each_modifier_has_its_bit(key.modifier_flags);
}

/// The selector of a message says what it tells of: presses or touches, and
/// whether they began, moved or ended.
pub proof fn law_selectors_say_what_happened(message: ViewMessage)
    ensures
        selector_of(message) == (match message {
            ViewMessage::PressesBegan | ViewMessage::PressesEnded => "presses"@,
            _ => "touches"@,
        }) + (match message {
            ViewMessage::PressesBegan | ViewMessage::TouchesBegan => "Began"@,
            ViewMessage::TouchesMoved => "Moved"@,
            ViewMessage::PressesEnded | ViewMessage::TouchesEnded => "Ended"@,
        }) + ":withEvent:"@,
{
    reveal_strlit("pressesBegan:withEvent:");
    reveal_strlit("pressesEnded:withEvent:");
    reveal_strlit("touchesBegan:withEvent:");
    reveal_strlit("touchesMoved:withEvent:");
    reveal_strlit("touchesEnded:withEvent:");
    reveal_strlit("presses");
    reveal_strlit("touches");
    reveal_strlit("Began");
    reveal_strlit("Moved");
    reveal_strlit("Ended");
    reveal_strlit(":withEvent:");
    assert("pressesBegan:withEvent:"@ =~= "presses"@ + "Began"@ + ":withEvent:"@);
    assert("pressesEnded:withEvent:"@ =~= "presses"@ + "Ended"@ + ":withEvent:"@);
    assert("touchesBegan:withEvent:"@ =~= "touches"@ + "Began"@ + ":withEvent:"@);
    assert("touchesMoved:withEvent:"@ =~= "touches"@ + "Moved"@ + ":withEvent:"@);
    assert("touchesEnded:withEvent:"@ =~= "touches"@ + "Ended"@ + ":withEvent:"@);
}

} // verus!
