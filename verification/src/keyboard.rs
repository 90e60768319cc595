//! Translation of a Godot key event into the keyboard event the browser engine
//! receives.
use vstd::prelude::*;

use keyboard_types::Modifiers;

use crate::keys::{Code, Key, KeyView, code_of, godot_key_to_code, godot_key_to_key, key_of};

verus! {

#[verifier::external_type_specification]
#[verifier::external_body]
pub struct ExModifiers(keyboard_types::Modifiers);

/// The flags that a `keyboard_types::Modifiers` value holds, each flag given by
/// its bit value.
pub uninterp spec fn modifier_flags(m: Modifiers) -> Set<u32>;

/// Bit value of the Alt flag of `keyboard_types::Modifiers`.
pub const MODIFIER_ALT: u32 = 0x01;

/// Bit value of the Control flag of `keyboard_types::Modifiers`.
pub const MODIFIER_CONTROL: u32 = 0x08;

/// Bit value of the Meta flag of `keyboard_types::Modifiers`.
pub const MODIFIER_META: u32 = 0x40;

/// Bit value of the Shift flag of `keyboard_types::Modifiers`.
pub const MODIFIER_SHIFT: u32 = 0x200;

/// Calls `Modifiers::empty`, which gives a flags value with no bit set.
#[verifier::external_body]
fn modifiers_empty() -> (m: Modifiers)
    ensures
        modifier_flags(m) == Set::<u32>::empty(),
{
    Modifiers::empty()
}

/// Calls `Modifiers::from_bits_retain`, which keeps exactly the given bits; for
/// one flag bit the value holds that flag alone.
#[verifier::external_body]
fn modifier_flag(bit: u32) -> (m: Modifiers)
    requires
        bit == MODIFIER_ALT || bit == MODIFIER_CONTROL || bit == MODIFIER_META || bit
            == MODIFIER_SHIFT,
    ensures
        modifier_flags(m) == set![bit],
{
    Modifiers::from_bits_retain(bit)
}

/// Applies `|=` to two `Modifiers` values, which sets in `m` the bits of `other`.
#[verifier::external_body]
fn modifiers_insert(m: &mut Modifiers, other: Modifiers)
    ensures
        modifier_flags(*final(m)) == modifier_flags(*old(m)).union(modifier_flags(other)),
{
    *m |= other;
}

/// Calls `char::from_u32`, which gives the character with the given scalar
/// value, or `None` for a surrogate or a value past `0x10FFFF`.
#[verifier::external_body]
fn char_from_u32(value: u32) -> (c: Option<char>)
    ensures
        c is Some <==> is_unicode_scalar(value),
        c matches Some(ch) ==> ch == value as char,
{
    char::from_u32(value)
}

/// Calls `String::push`, which appends one character.
#[verifier::external_body]
fn string_push(s: &mut String, c: char)
    ensures
        final(s)@ == old(s)@.push(c),
{
    s.push(c);
}

/// Whether a value is a Unicode scalar value, that is, a valid `char`.
pub open spec fn is_unicode_scalar(value: u32) -> bool {
    value <= 0x10FFFF && !(0xD800 <= value && value <= 0xDFFF)
}

/// Whether the unicode value of a key event is sent as the key's character:
/// it is printable (no ASCII control character, no DEL) and Ctrl is not held,
/// since with Ctrl the value would be a control byte.
pub open spec fn uses_unicode(unicode: u32, ctrl: bool) -> bool {
    unicode > 0x1f && unicode != 0x7f && !ctrl
}

/// The key value of a key event: its character where the unicode value is used
/// and is a valid character, else the named key of its logical key code.
pub open spec fn key_of_event(unicode: u32, keycode: i32, ctrl: bool) -> KeyView {
    if uses_unicode(unicode, ctrl) && is_unicode_scalar(unicode) {
        KeyView::Character(seq![unicode as char])
    } else {
        key_of(keycode)
    }
}

/// The modifier flags that the held modifier keys stand for.
pub open spec fn modifier_set(ctrl: bool, shift: bool, alt: bool, meta: bool) -> Set<u32> {
    let c = if ctrl { set![MODIFIER_CONTROL] } else { Set::<u32>::empty() };
    let s = if shift { set![MODIFIER_SHIFT] } else { Set::<u32>::empty() };
    let a = if alt { set![MODIFIER_ALT] } else { Set::<u32>::empty() };
    let m = if meta { set![MODIFIER_META] } else { Set::<u32>::empty() };
    c.union(s).union(a).union(m)
}

/// Whether a key went down or up.
#[derive(Clone, Copy, Debug, PartialEq, Eq, Structural)]
pub enum KeyState {
    Down,
    Up,
}

/// What a Godot key event reports.
#[derive(Clone, Copy, Debug, PartialEq, Eq)]
pub struct GodotKeyInput {
    pub pressed: bool,
    /// The unicode value of the typed character, 0 where there is none.
    pub unicode: u32,
    /// The ordinal of the logical key code (layout dependent).
    pub keycode: i32,
    /// The ordinal of the physical key code (layout independent).
    pub physical_keycode: i32,
    pub ctrl: bool,
    pub shift: bool,
    pub alt: bool,
    pub meta: bool,
    /// Whether the event repeats a held key.
    pub echo: bool,
}

/// The keyboard event handed to the browser engine; its location is always the
/// standard one and it is never part of a composition.
#[derive(Debug)]
pub struct KeyboardInput {
    pub state: KeyState,
    pub key: Key,
    pub code: Code,
    pub modifiers: Modifiers,
    pub repeat: bool,
}

/// Builds the modifier flags for the held modifier keys.
pub fn key_modifiers(ctrl: bool, shift: bool, alt: bool, meta: bool) -> (m: Modifiers)
    ensures
        modifier_flags(m) == modifier_set(ctrl, shift, alt, meta),
        modifier_flags(m).contains(MODIFIER_CONTROL) == ctrl,
        modifier_flags(m).contains(MODIFIER_SHIFT) == shift,
        modifier_flags(m).contains(MODIFIER_ALT) == alt,
        modifier_flags(m).contains(MODIFIER_META) == meta,
{
    let mut modifiers = modifiers_empty();
    if ctrl {
        modifiers_insert(&mut modifiers, modifier_flag(MODIFIER_CONTROL));
    }
    if shift {
        modifiers_insert(&mut modifiers, modifier_flag(MODIFIER_SHIFT));
    }
    if alt {
        modifiers_insert(&mut modifiers, modifier_flag(MODIFIER_ALT));
    }
    if meta {
        modifiers_insert(&mut modifiers, modifier_flag(MODIFIER_META));
    }
    proof {
        assert(modifier_flags(modifiers) =~= modifier_set(ctrl, shift, alt, meta));
    }
    modifiers
}

/// The key value of a key event: the typed character where it is printable and
/// Ctrl is not held, else the named key of the logical key code.
pub fn event_key(unicode: u32, keycode: i32, ctrl: bool) -> (key: Key)
    ensures
        key@ == key_of_event(unicode, keycode, ctrl),
        (unicode > 0x1f && unicode != 0x7f && unicode <= 0x10FFFF && !(0xD800 <= unicode
            <= 0xDFFF) && !ctrl) ==> key@ == KeyView::Character(seq![unicode as char]),
        (unicode <= 0x1f || unicode == 0x7f || unicode > 0x10FFFF || (0xD800 <= unicode
            <= 0xDFFF) || ctrl) ==> key@ == key_of(keycode),
{
    let use_char = unicode > 0x1f && unicode != 0x7f && !ctrl;
    if use_char {
        match char_from_u32(unicode) {
            Some(c) => {
                let mut s = String::new();
                string_push(&mut s, c);
                proof {
                    assert(s@ =~= seq![unicode as char]);
                }
                Key::Character(s)
            },
            None => godot_key_to_key(keycode),
        }
    } else {
        godot_key_to_key(keycode)
    }
}

/// Whether `event` is the keyboard event for the Godot key event `input`: same
/// direction, the key value of [`key_of_event`], the physical code of the
/// physical key, the held modifiers, and the echo flag as the repeat flag.
pub open spec fn is_keyboard_event_for(input: GodotKeyInput, event: KeyboardInput) -> bool {
    &&& event.state == (if input.pressed {
        KeyState::Down
    } else {
        KeyState::Up
    })
    &&& event.key@ == key_of_event(input.unicode, input.keycode, input.ctrl)
    &&& event.code == code_of(input.physical_keycode)
    &&& modifier_flags(event.modifiers) == modifier_set(
        input.ctrl,
        input.shift,
        input.alt,
        input.meta,
    )
    &&& event.repeat == input.echo
}

/// Translates a Godot key event into the keyboard event for the browser engine.
pub fn translate_key_event(input: &GodotKeyInput) -> (event: KeyboardInput)
    ensures
        is_keyboard_event_for(*input, event),
        event.state == KeyState::Down <==> input.pressed,
        event.code == code_of(input.physical_keycode),
        modifier_flags(event.modifiers).contains(MODIFIER_CONTROL) == input.ctrl,
        modifier_flags(event.modifiers).contains(MODIFIER_SHIFT) == input.shift,
        modifier_flags(event.modifiers).contains(MODIFIER_ALT) == input.alt,
        modifier_flags(event.modifiers).contains(MODIFIER_META) == input.meta,
        event.repeat == input.echo,
{
    let state = if input.pressed {
        KeyState::Down
    } else {
        KeyState::Up
    };
    let key = event_key(input.unicode, input.keycode, input.ctrl);
    let code = godot_key_to_code(input.physical_keycode);
    let modifiers = key_modifiers(input.ctrl, input.shift, input.alt, input.meta);
    KeyboardInput { state, key, code, modifiers, repeat: input.echo }
}

/// With Ctrl held the unicode value is never used: the key value is the named
/// key of the logical key code, whatever character Godot reports.
pub proof fn lemma_ctrl_uses_named_key(unicode: u32, keycode: i32)
    ensures
        key_of_event(unicode, keycode, true) == key_of(keycode),
{
}

/// ASCII control characters and DEL are never sent as characters.
pub proof fn lemma_control_characters_not_sent(unicode: u32, keycode: i32, ctrl: bool)
    requires
        unicode <= 0x1f || unicode == 0x7f,
    ensures
        key_of_event(unicode, keycode, ctrl) == key_of(keycode),
{
}

/// Each held modifier key sets its own flag and no other; a released one sets
/// none.
pub proof fn lemma_modifier_flags_match_keys(ctrl: bool, shift: bool, alt: bool, meta: bool)
    ensures
        modifier_set(ctrl, shift, alt, meta).contains(MODIFIER_CONTROL) == ctrl,
        modifier_set(ctrl, shift, alt, meta).contains(MODIFIER_SHIFT) == shift,
        modifier_set(ctrl, shift, alt, meta).contains(MODIFIER_ALT) == alt,
        modifier_set(ctrl, shift, alt, meta).contains(MODIFIER_META) == meta,
        forall|b: u32|
            #[trigger] modifier_set(ctrl, shift, alt, meta).contains(b) ==> b == MODIFIER_CONTROL
                || b == MODIFIER_SHIFT || b == MODIFIER_ALT || b == MODIFIER_META,
{
}

/// A printable character typed without Ctrl is sent as exactly that
/// character: any value above the ASCII control range, other than DEL, that is
/// a Unicode scalar value.
pub proof fn lemma_printable_character_is_sent(unicode: u32, keycode: i32)
    requires
        unicode > 0x1f,
        unicode != 0x7f,
        unicode <= 0x10FFFF,
        !(0xD800 <= unicode <= 0xDFFF),
    ensures
        key_of_event(unicode, keycode, false) == KeyView::Character(seq![unicode as char]),
{
}

/// In the keyboard event for a Godot key event, each modifier flag is set
/// exactly when its key is held, and no other flag is set; the event goes down
/// exactly when the key is pressed.
pub proof fn lemma_keyboard_event_follows_input(input: GodotKeyInput, event: KeyboardInput)
    requires
        is_keyboard_event_for(input, event),
    ensures
        modifier_flags(event.modifiers).contains(MODIFIER_CONTROL) == input.ctrl,
        modifier_flags(event.modifiers).contains(MODIFIER_SHIFT) == input.shift,
        modifier_flags(event.modifiers).contains(MODIFIER_ALT) == input.alt,
        modifier_flags(event.modifiers).contains(MODIFIER_META) == input.meta,
        forall|b: u32|
            #[trigger] modifier_flags(event.modifiers).contains(b) ==> b == MODIFIER_CONTROL || b
                == MODIFIER_SHIFT || b == MODIFIER_ALT || b == MODIFIER_META,
        event.state == KeyState::Down <==> input.pressed,
        event.repeat == input.echo,
{
}

} // verus!
