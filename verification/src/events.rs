//! Input events made from hardware keys and touches.

use crate::geometry::{Pixels, Point};
use vstd::prelude::*;

verus! {

/// The modifier bit of caps lock, as UIKit numbers it.
pub const ALPHA_SHIFT: usize = 0x0001_0000;

/// The modifier bit of the shift keys.
pub const SHIFT: usize = 0x0002_0000;

/// The modifier bit of the control keys.
pub const CONTROL: usize = 0x0004_0000;

/// The modifier bit of the option keys.
pub const ALTERNATE: usize = 0x0008_0000;

/// The modifier bit of the command keys.
pub const COMMAND: usize = 0x0010_0000;

/// The bit of a key on the numeric pad.
pub const NUMERIC_PAD: usize = 0x0020_0000;

/// The modifier keys that are held down.
#[derive(Clone, Copy, Debug, Default, PartialEq, Eq, Hash, Structural)]
pub struct Modifiers {
    pub shift: bool,
    pub control: bool,
    pub alt: bool,
    pub command: bool,
    pub function: bool,
}

/// One press of a key together with the modifiers held down.
#[derive(Clone, Debug, PartialEq, Eq, Hash)]
pub struct Keystroke {
    /// The name of the key, in lower case.
    pub key: String,
    pub modifiers: Modifiers,
    /// The text that the key types, where it types any.
    pub ime_key: Option<String>,
}

/// A button of a pointing device.
#[derive(Clone, Copy, Debug, PartialEq, Eq, Hash, Structural)]
pub enum MouseButton {
    Left,
    Right,
    Middle,
}

/// How far a scroll gesture has come.
#[derive(Clone, Copy, Debug, PartialEq, Eq, Hash, Structural)]
pub enum TouchPhase {
    Started,
    Moved,
    Ended,
}

/// The distance of a scroll gesture.
#[derive(Clone, Copy, Debug, PartialEq, Eq, Hash)]
pub enum ScrollDelta {
    Pixels(Point<Pixels>),
    Lines(Point<Pixels>),
}

#[derive(Clone, Debug, PartialEq, Eq)]
pub struct KeyDownEvent {
    pub keystroke: Keystroke,
    pub is_repeat: bool,
}

#[derive(Clone, Debug, PartialEq, Eq)]
pub struct KeyUpEvent {
    pub keystroke: Keystroke,
}

#[derive(Clone, Copy, Debug, PartialEq, Eq)]
pub struct ModifiersChangedEvent {
    pub modifiers: Modifiers,
}

#[derive(Clone, Copy, Debug, PartialEq, Eq)]
pub struct MouseDownEvent {
    pub button: MouseButton,
    pub position: Point<Pixels>,
    pub modifiers: Modifiers,
    pub click_count: usize,
    pub first_mouse: bool,
}

#[derive(Clone, Copy, Debug, PartialEq, Eq)]
pub struct MouseUpEvent {
    pub button: MouseButton,
    pub position: Point<Pixels>,
    pub modifiers: Modifiers,
    pub click_count: usize,
}

#[derive(Clone, Copy, Debug, PartialEq, Eq)]
pub struct MouseMoveEvent {
    pub position: Point<Pixels>,
    pub pressed_button: Option<MouseButton>,
    pub modifiers: Modifiers,
}

#[derive(Clone, Copy, Debug, PartialEq, Eq)]
pub struct ScrollWheelEvent {
    pub position: Point<Pixels>,
    pub delta: ScrollDelta,
    pub modifiers: Modifiers,
    pub touch_phase: TouchPhase,
}

/// An input event, as the framework receives it.
#[derive(Clone, Debug, PartialEq, Eq)]
pub enum PlatformInput {
    KeyDown(KeyDownEvent),
    KeyUp(KeyUpEvent),
    ModifiersChanged(ModifiersChangedEvent),
    MouseDown(MouseDownEvent),
    MouseUp(MouseUpEvent),
    MouseMove(MouseMoveEvent),
    ScrollWheel(ScrollWheelEvent),
}

impl Modifiers {
    /// No modifier held down.
    pub open spec fn spec_none() -> Modifiers {
        Modifiers { shift: false, control: false, alt: false, command: false, function: false }
    }

    /// No modifier held down.
    #[verifier::when_used_as_spec(spec_none)]
    pub fn none() -> (modifiers: Modifiers)
        ensures
            modifiers == Modifiers::none(),
    {
        Modifiers { shift: false, control: false, alt: false, command: false, function: false }
    }
}

/// The modifiers that a set of key modifier bits stands for. Caps lock and the
/// numeric pad are no modifiers, and UIKit does not report a function key.
pub open spec fn modifiers_of(flags: usize) -> Modifiers {
    Modifiers {
        shift: flags & SHIFT != 0,
        control: flags & CONTROL != 0,
        alt: flags & ALTERNATE != 0,
        command: flags & COMMAND != 0,
        function: false,
    }
}

/// Converts the modifier bits of a key press.
pub fn modifiers_from_flags(flags: usize) -> (modifiers: Modifiers)
    ensures
        modifiers == modifiers_of(flags),
{
    Modifiers {
        shift: flags & SHIFT != 0,
        control: flags & CONTROL != 0,
        alt: flags & ALTERNATE != 0,
        command: flags & COMMAND != 0,
        function: false,
    }
}

/// The name of the key with the given HID usage code, for the keys that are
/// known by name rather than by the character they type.
pub open spec fn hid_key_name(usage: u32) -> Option<Seq<char>> {
    match usage {
        0x0028 => Some("enter"@),
        0x0029 => Some("escape"@),
        0x002A => Some("backspace"@),
        0x002B => Some("tab"@),
        0x002C => Some("space"@),
        0x004F => Some("right"@),
        0x0050 => Some("left"@),
        0x0051 => Some("down"@),
        0x0052 => Some("up"@),
        0x004B => Some("pageup"@),
        0x004E => Some("pagedown"@),
        0x004A => Some("home"@),
        0x004D => Some("end"@),
        0x0049 => Some("insert"@),
        0x004C => Some("delete"@),
        0x003A => Some("f1"@),
        0x003B => Some("f2"@),
        0x003C => Some("f3"@),
        0x003D => Some("f4"@),
        0x003E => Some("f5"@),
        0x003F => Some("f6"@),
        0x0040 => Some("f7"@),
        0x0041 => Some("f8"@),
        0x0042 => Some("f9"@),
        0x0043 => Some("f10"@),
        0x0044 => Some("f11"@),
        0x0045 => Some("f12"@),
        _ => None,
    }
}

/// Maps a HID usage code to the name of its key.
///
/// Only the keys that need a name are listed; printable characters have none.
pub fn key_name_for_hid(usage: u32) -> (name: Option<&'static str>)
    ensures
        name is Some <==> hid_key_name(usage) is Some,
        name is Some ==> hid_key_name(usage) == Some(name->0@),
{
    match usage {
        0x0028 => Some("enter"),
        0x0029 => Some("escape"),
        0x002A => Some("backspace"),
        0x002B => Some("tab"),
        0x002C => Some("space"),
        0x004F => Some("right"),
        0x0050 => Some("left"),
        0x0051 => Some("down"),
        0x0052 => Some("up"),
        0x004B => Some("pageup"),
        0x004E => Some("pagedown"),
        0x004A => Some("home"),
        0x004D => Some("end"),
        0x0049 => Some("insert"),
        0x004C => Some("delete"),
        0x003A => Some("f1"),
        0x003B => Some("f2"),
        0x003C => Some("f3"),
        0x003D => Some("f4"),
        0x003E => Some("f5"),
        0x003F => Some("f6"),
        0x0040 => Some("f7"),
        0x0041 => Some("f8"),
        0x0042 => Some("f9"),
        0x0043 => Some("f10"),
        0x0044 => Some("f11"),
        0x0045 => Some("f12"),
        _ => None,
    }
}

/// The text by which a key without a name is known: what it types without
/// modifiers or, where that is nothing, what it types with them.
pub open spec fn key_text_of(
    characters: Seq<char>,
    characters_ignoring_modifiers: Seq<char>,
) -> Seq<char> {
    if characters_ignoring_modifiers.len() == 0 {
        characters
    } else {
        characters_ignoring_modifiers
    }
}

/// Picks the text by which a key without a name is known.
pub fn key_text<'a>(characters: &'a str, characters_ignoring_modifiers: &'a str) -> (text: &'a str)
    ensures
        text@ == key_text_of(characters@, characters_ignoring_modifiers@),
{
    if characters_ignoring_modifiers.is_empty() {
        characters
    } else {
        characters_ignoring_modifiers
    }
}

/// The keystroke of a key press: the key goes by its name where its usage code
/// has one, and else by `lowercase_text`.
pub fn keystroke_for_key(
    key_code: u32,
    modifier_flags: usize,
    lowercase_text: String,
) -> (keystroke: Keystroke)
    ensures
        keystroke.key@ == match hid_key_name(key_code) {
            Some(name) => name,
            None => lowercase_text@,
        },
        keystroke.modifiers == modifiers_of(modifier_flags),
        keystroke.ime_key is None,
{
    let key = match key_name_for_hid(key_code) {
        Some(name) => name.to_owned(),
        None => lowercase_text,
    };
    Keystroke { key, modifiers: modifiers_from_flags(modifier_flags), ime_key: None }
}

/// The name of the key in a key press: the name of its usage code, where that
/// has one, and else the text it types, in lower case.
pub open spec fn key_name_of(
    characters: Seq<char>,
    characters_ignoring_modifiers: Seq<char>,
    key_code: u32,
) -> Seq<char> {
    match hid_key_name(key_code) {
        Some(name) => name,
        None => crate::text::str_lowercase(key_text_of(characters, characters_ignoring_modifiers)),
    }
}

/// Whether `name` is the text that the key types with the letters A to Z in lower
/// case, where its usage code has no name and that text is ASCII.
pub open spec fn spells_ascii_text(
    name: Seq<char>,
    characters: Seq<char>,
    characters_ignoring_modifiers: Seq<char>,
    key_code: u32,
) -> bool {
    let text = key_text_of(characters, characters_ignoring_modifiers);
    hid_key_name(key_code) is None && vstd::utf8::is_ascii_chars(text) ==> name
        == crate::text::ascii_lowercase(text)
}

/// Converts a key press into a keystroke.
///
/// `characters` is the text that the key types, `characters_ignoring_modifiers`
/// the text that it would type without modifiers, `key_code` its HID usage code
/// and `modifier_flags` the modifier bits.
pub fn keystroke_from_ui_key(
    characters: &str,
    characters_ignoring_modifiers: &str,
    key_code: u32,
    modifier_flags: usize,
) -> (keystroke: Keystroke)
    ensures
        keystroke.key@ == key_name_of(characters@, characters_ignoring_modifiers@, key_code),
        spells_ascii_text(
            keystroke.key@,
            characters@,
            characters_ignoring_modifiers@,
            key_code,
        ),
        keystroke.modifiers == modifiers_of(modifier_flags),
        keystroke.ime_key is None,
{
    let text = key_text(characters, characters_ignoring_modifiers);
    keystroke_for_key(key_code, modifier_flags, text.to_lowercase())
}

/// Makes the event of a touch that began: the left button goes down.
pub fn mouse_down_from_touch(
    position: Point<Pixels>,
    click_count: usize,
    modifiers: Modifiers,
) -> (event: PlatformInput)
    ensures
        event == PlatformInput::MouseDown(
            (MouseDownEvent {
                button: MouseButton::Left,
                position,
                modifiers,
                click_count,
                first_mouse: false,
            }),
        ),
{
    PlatformInput::MouseDown(
        MouseDownEvent {
            button: MouseButton::Left,
            position,
            modifiers,
            click_count,
            first_mouse: false,
        },
    )
}

/// Makes the event of a touch that ended: the left button comes up.
pub fn mouse_up_from_touch(
    position: Point<Pixels>,
    click_count: usize,
    modifiers: Modifiers,
) -> (event: PlatformInput)
    ensures
        event == PlatformInput::MouseUp(
            (MouseUpEvent { button: MouseButton::Left, position, modifiers, click_count }),
        ),
{
    PlatformInput::MouseUp(
        MouseUpEvent { button: MouseButton::Left, position, modifiers, click_count },
    )
}

/// Makes the event of a pointer that moved.
pub fn mouse_move_from_pointer(
    position: Point<Pixels>,
    pressed_button: Option<MouseButton>,
    modifiers: Modifiers,
) -> (event: PlatformInput)
    ensures
        event == PlatformInput::MouseMove(
            (MouseMoveEvent { position, pressed_button, modifiers }),
        ),
{
    PlatformInput::MouseMove(MouseMoveEvent { position, pressed_button, modifiers })
}

/// Makes the event of a pan gesture: a scroll by the given distance.
pub fn scroll_wheel_from_pan(
    position: Point<Pixels>,
    delta_x: Pixels,
    delta_y: Pixels,
    modifiers: Modifiers,
) -> (event: PlatformInput)
    ensures
        event == PlatformInput::ScrollWheel(
            (ScrollWheelEvent {
                position,
                delta: ScrollDelta::Pixels(Point { x: delta_x, y: delta_y }),
                modifiers,
                touch_phase: TouchPhase::Moved,
            }),
        ),
{
    PlatformInput::ScrollWheel(
        ScrollWheelEvent {
            position,
            delta: ScrollDelta::Pixels(Point { x: delta_x, y: delta_y }),
            modifiers,
            touch_phase: TouchPhase::Moved,
        },
    )
}

/// Whether a keystroke with these modifiers types text: with command, control
/// or option held down it is a shortcut instead.
pub open spec fn types_text(modifiers: Modifiers) -> bool {
    !modifiers.command && !modifiers.control && !modifiers.alt
}

/// Makes the event of a key that went down. Where the keystroke types text, the
/// event says which.
pub fn key_down_event(keystroke: Keystroke, is_repeat: bool) -> (event: PlatformInput)
    ensures
        event == PlatformInput::KeyDown(
            (KeyDownEvent {
                keystroke: Keystroke {
                    key: keystroke.key,
                    modifiers: keystroke.modifiers,
                    ime_key: if types_text(keystroke.modifiers) {
                        Some(keystroke.key)
                    } else {
                        None
                    },
                },
                is_repeat,
            }),
        ),
{
    let ime_key = if !keystroke.modifiers.command && !keystroke.modifiers.control
        && !keystroke.modifiers.alt {
        Some(keystroke.key.clone())
    } else {
        None
    };
    PlatformInput::KeyDown(
        KeyDownEvent {
            keystroke: Keystroke { key: keystroke.key, modifiers: keystroke.modifiers, ime_key },
            is_repeat,
        },
    )
}

/// Makes the event of a key that came up.
pub fn key_up_event(keystroke: Keystroke) -> (event: PlatformInput)
    ensures
        event == PlatformInput::KeyUp((KeyUpEvent { keystroke })),
{
    PlatformInput::KeyUp(KeyUpEvent { keystroke })
}

/// Makes the event of a change of the modifiers held down.
pub fn modifiers_changed_event(modifiers: Modifiers) -> (event: PlatformInput)
    ensures
        event == PlatformInput::ModifiersChanged((ModifiersChangedEvent { modifiers })),
{
    PlatformInput::ModifiersChanged(ModifiersChangedEvent { modifiers })
}

/// Keys with different usage codes have different names.
pub proof fn law_key_names_are_distinct(a: u32, b: u32)
    requires
        hid_key_name(a) is Some,
        hid_key_name(a) == hid_key_name(b),
    ensures
        a == b,
{
    reveal_strlit("enter");
    reveal_strlit("escape");
    reveal_strlit("backspace");
    reveal_strlit("tab");
    reveal_strlit("space");
    reveal_strlit("right");
    reveal_strlit("left");
    reveal_strlit("down");
    reveal_strlit("up");
    reveal_strlit("pageup");
    reveal_strlit("pagedown");
    reveal_strlit("home");
    reveal_strlit("end");
    reveal_strlit("insert");
    reveal_strlit("delete");
    reveal_strlit("f1");
    reveal_strlit("f2");
    reveal_strlit("f3");
    reveal_strlit("f4");
    reveal_strlit("f5");
    reveal_strlit("f6");
    reveal_strlit("f7");
    reveal_strlit("f8");
    reveal_strlit("f9");
    reveal_strlit("f10");
    reveal_strlit("f11");
    reveal_strlit("f12");
    let (s, t) = (hid_key_name(a)->0, hid_key_name(b)->0);
    assert(s.len() == t.len() && s[0] == t[0] && s[1] == t[1] && s[2] == t[2]);
}

/// Bits that stand for no modifier do not matter: caps lock, the numeric pad and
/// all that UIKit leaves unnamed.
pub proof fn law_other_bits_are_ignored(flags: usize, other: usize)
    requires
        other & (SHIFT | CONTROL | ALTERNATE | COMMAND) == 0,
    ensures
        modifiers_of(flags | other) == modifiers_of(flags),
        modifiers_of(ALPHA_SHIFT) == Modifiers::none(),
        modifiers_of(NUMERIC_PAD) == Modifiers::none(),
{
    assert(other & 0x1e_0000 == 0 ==> {
        &&& (flags | other) & 0x2_0000 == flags & 0x2_0000
        &&& (flags | other) & 0x4_0000 == flags & 0x4_0000
        &&& (flags | other) & 0x8_0000 == flags & 0x8_0000
        &&& (flags | other) & 0x10_0000 == flags & 0x10_0000
    }) by (bit_vector);
    assert(0x2_0000usize | 0x4_0000 | 0x8_0000 | 0x10_0000 == 0x1e_0000) by (bit_vector);
    assert(0x1_0000usize & 0x2_0000 == 0 && 0x1_0000usize & 0x4_0000 == 0 && 0x1_0000usize
        & 0x8_0000 == 0 && 0x1_0000usize & 0x10_0000 == 0) by (bit_vector);
    assert(0x20_0000usize & 0x2_0000 == 0 && 0x20_0000usize & 0x4_0000 == 0 && 0x20_0000usize
        & 0x8_0000 == 0 && 0x20_0000usize & 0x10_0000 == 0) by (bit_vector);
}

/// Modifiers held down together are reported together.
pub proof fn law_modifiers_add_up(a: usize, b: usize)
    ensures
        modifiers_of(a | b) == (Modifiers {
            shift: modifiers_of(a).shift || modifiers_of(b).shift,
            control: modifiers_of(a).control || modifiers_of(b).control,
            alt: modifiers_of(a).alt || modifiers_of(b).alt,
            command: modifiers_of(a).command || modifiers_of(b).command,
            function: false,
        }),
{
    assert({
        &&& (a | b) & 0x2_0000 != 0 <==> a & 0x2_0000 != 0 || b & 0x2_0000 != 0
        &&& (a | b) & 0x4_0000 != 0 <==> a & 0x4_0000 != 0 || b & 0x4_0000 != 0
        &&& (a | b) & 0x8_0000 != 0 <==> a & 0x8_0000 != 0 || b & 0x8_0000 != 0
        &&& (a | b) & 0x10_0000 != 0 <==> a & 0x10_0000 != 0 || b & 0x10_0000 != 0
    }) by (bit_vector);
}

/// Each modifier is held down exactly where its own bit is set: shift is bit 17,
/// control bit 18, option bit 19 and command bit 20.
pub proof fn law_each_modifier_has_its_bit(flags: usize)
    ensures
        modifiers_of(flags).shift <==> (flags / 0x2_0000) % 2 == 1,
        modifiers_of(flags).control <==> (flags / 0x4_0000) % 2 == 1,
        modifiers_of(flags).alt <==> (flags / 0x8_0000) % 2 == 1,
        modifiers_of(flags).command <==> (flags / 0x10_0000) % 2 == 1,
        !modifiers_of(flags).function,
{
    assert({
        &&& flags & 0x2_0000 != 0 <==> (flags / 0x2_0000) % 2 == 1
        &&& flags & 0x4_0000 != 0 <==> (flags / 0x4_0000) % 2 == 1
        &&& flags & 0x8_0000 != 0 <==> (flags / 0x8_0000) % 2 == 1
        &&& flags & 0x10_0000 != 0 <==> (flags / 0x10_0000) % 2 == 1
    }) by (bit_vector);
}

/// The keys that have names are those from enter to space, the function keys, and
/// those from insert to the arrows; no other usage code has one.
pub proof fn law_only_special_keys_have_names(usage: u32)
    ensures
        hid_key_name(usage) is Some <==> 0x28 <= usage <= 0x2c || 0x3a <= usage <= 0x45 || 0x49
            <= usage <= 0x52,
{
}

/// A key that has a name goes by it, whatever it types and whatever modifiers are
/// held down.
pub proof fn law_named_keys_go_by_their_names(
    characters: Seq<char>,
    characters_ignoring_modifiers: Seq<char>,
    key_code: u32,
)
    requires
        hid_key_name(key_code) is Some,
    ensures
        key_name_of(characters, characters_ignoring_modifiers, key_code) == hid_key_name(
            key_code,
        )->0,
{
}

/// A key without a name goes by what it types without modifiers, if that is
/// anything: what it types with them does not matter, so that two presses of it
/// have the same key.
pub proof fn law_modifiers_do_not_rename_a_key(
    characters: Seq<char>,
    other_characters: Seq<char>,
    characters_ignoring_modifiers: Seq<char>,
    key_code: u32,
)
    requires
        characters_ignoring_modifiers.len() > 0,
    ensures
        key_text_of(characters, characters_ignoring_modifiers) == characters_ignoring_modifiers,
        key_name_of(characters, characters_ignoring_modifiers, key_code) == key_name_of(
            other_characters,
            characters_ignoring_modifiers,
            key_code,
        ),
        hid_key_name(key_code) is None ==> key_name_of(
            characters,
            characters_ignoring_modifiers,
            key_code,
        ) == crate::text::str_lowercase(characters_ignoring_modifiers),
{
}

/// A key without a name that types nothing without modifiers goes by what it
/// types with them.
pub proof fn law_typed_text_stands_in(characters: Seq<char>, key_code: u32)
    ensures
        key_text_of(characters, Seq::empty()) == characters,
        hid_key_name(key_code) is None ==> key_name_of(characters, Seq::empty(), key_code)
            == crate::text::str_lowercase(characters),
{
}

/// A key without a name whose text is in ASCII goes by that text with the letters
/// A to Z moved to lower case.
pub proof fn law_ascii_keys_are_spelled_in_lower_case(
    name: Seq<char>,
    characters: Seq<char>,
    characters_ignoring_modifiers: Seq<char>,
    key_code: u32,
    i: int,
)
    requires
        spells_ascii_text(name, characters, characters_ignoring_modifiers, key_code),
        hid_key_name(key_code) is None,
        vstd::utf8::is_ascii_chars(characters_ignoring_modifiers),
        0 <= i < characters_ignoring_modifiers.len(),
    ensures
        name.len() == characters_ignoring_modifiers.len(),
        name[i] as u32 == characters_ignoring_modifiers[i] as u32 + if 0x41
            <= characters_ignoring_modifiers[i] as u32 <= 0x5a {
            32int
        } else {
            0
        },
{
    crate::text::law_ascii_lowercase_moves_letters(characters_ignoring_modifiers, i);
}

/// With command, control or option held down a keystroke types nothing; without
/// them it types, with or without shift.
pub proof fn law_shortcuts_type_nothing(modifiers: Modifiers)
    ensures
        modifiers.command || modifiers.control || modifiers.alt ==> !types_text(modifiers),
        types_text(modifiers) || modifiers.command || modifiers.control || modifiers.alt,
{
}

} // verus!
