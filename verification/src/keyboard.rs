//! Translation of keyboard events from the windowing layer's vocabulary
//! into the web engine's: the W3C `KeyboardEvent` `key` and `code` values,
//! the key location and the modifier keys.
//!
//! The windowing layer names its physical keys and named logical keys by
//! the identifiers of its key enumerations (`KeyA`, `SuperLeft`, `ArrowUp`,
//! ...); the engine takes W3C key and code values. Most keys carry the same
//! name on both sides; the few that do not are translated here, and keys the
//! engine is not told about become `Unidentified`.
use vstd::prelude::*;
use crate::text::{str_eq, to_owned_string};

verus! {

/// Whether a key went down or up, as the windowing layer reports it.
#[derive(PartialEq, Eq, Structural, Clone, Copy, Debug)]
pub enum ElementState {
    Pressed,
    Released,
}

/// Whether a key went down or up, as the engine takes it.
#[derive(PartialEq, Eq, Structural, Clone, Copy, Debug)]
pub enum KeyState {
    Down,
    Up,
}

/// Where on the keyboard a key is, as the windowing layer reports it.
#[derive(PartialEq, Eq, Structural, Clone, Copy, Debug)]
pub enum KeyLocation {
    Standard,
    Left,
    Right,
    Numpad,
}

/// Where on the keyboard a key is, as the engine takes it.
#[derive(PartialEq, Eq, Structural, Clone, Copy, Debug)]
pub enum Location {
    Standard,
    Left,
    Right,
    Numpad,
}

/// The logical key of an event, as the windowing layer reports it.
pub enum LogicalKey {
    /// A key that produces text.
    Character(String),
    /// A named key, by the identifier of the windowing layer's named keys.
    Named(String),
    /// A key the windowing layer could not identify.
    Unidentified,
    /// A dead key (one that composes with the next).
    Dead,
}

/// The physical key of an event, as the windowing layer reports it.
pub enum PhysicalKey {
    /// A known key, by the identifier of the windowing layer's key codes.
    Code(String),
    /// A key the windowing layer could not identify.
    Unidentified,
}

/// The modifier keys held, as the windowing layer reports them.
#[derive(PartialEq, Eq, Structural, Clone, Copy, Debug)]
pub struct ModifierKeys {
    pub shift: bool,
    pub control: bool,
    pub alt: bool,
    pub super_key: bool,
}

/// The modifier flags of an engine event.
#[derive(PartialEq, Eq, Structural, Clone, Copy, Debug)]
pub struct Modifiers {
    pub shift: bool,
    pub control: bool,
    pub alt: bool,
    pub meta: bool,
}

/// A W3C key value: text, or a named key.
pub enum KeyValue {
    Character(String),
    Named(String),
}

/// A keyboard event as the windowing layer reports it.
pub struct KeyInput {
    pub state: ElementState,
    pub logical_key: LogicalKey,
    pub physical_key: PhysicalKey,
    pub location: KeyLocation,
    pub repeat: bool,
}

/// A keyboard event as the engine takes it.
pub struct KeyboardEvent {
    pub state: KeyState,
    pub key: KeyValue,
    pub code: String,
    pub location: Location,
    pub modifiers: Modifiers,
    pub repeat: bool,
    pub is_composing: bool,
}

/// The physical keys that keep their name as a W3C code value.
pub open spec fn spec_same_name_codes() -> Seq<&'static str> {
    seq![
        "Backquote", "Backslash", "BracketLeft", "BracketRight", "Comma", "Digit0", "Digit1",
        "Digit2", "Digit3", "Digit4", "Digit5", "Digit6", "Digit7", "Digit8", "Digit9",
        "Equal", "KeyA", "KeyB", "KeyC", "KeyD", "KeyE", "KeyF", "KeyG", "KeyH", "KeyI",
        "KeyJ", "KeyK", "KeyL", "KeyM", "KeyN", "KeyO", "KeyP", "KeyQ", "KeyR", "KeyS", "KeyT",
        "KeyU", "KeyV", "KeyW", "KeyX", "KeyY", "KeyZ", "Minus", "Period", "Quote",
        "Semicolon", "Slash", "Backspace", "CapsLock", "Enter", "Space", "Tab", "Delete",
        "End", "Home", "Insert", "PageDown", "PageUp", "ArrowDown", "ArrowLeft", "ArrowRight",
        "ArrowUp", "Escape", "F1", "F2", "F3", "F4", "F5", "F6", "F7", "F8", "F9", "F10",
        "F11", "F12", "ShiftLeft", "ShiftRight", "ControlLeft", "ControlRight", "AltLeft",
        "AltRight"
    ]
}

/// The named keys that keep their name as a W3C key value.
pub open spec fn spec_same_name_keys() -> Seq<&'static str> {
    seq![
        "Enter", "Tab", "Backspace", "Escape", "Delete", "ArrowDown", "ArrowLeft",
        "ArrowRight", "ArrowUp", "End", "Home", "PageDown", "PageUp", "CapsLock", "Shift",
        "Control", "Alt", "Meta", "F1", "F2", "F3", "F4", "F5", "F6", "F7", "F8", "F9", "F10",
        "F11", "F12", "Insert", "ContextMenu", "ScrollLock", "NumLock", "PrintScreen", "Pause"
    ]
}

/// `name` is one of `names`.
pub open spec fn listed(names: Seq<&'static str>, name: Seq<char>) -> bool {
    exists|i: int| 0 <= i < names.len() && (#[trigger] names[i])@ == name
}

/// The W3C code value of a physical key: the same name for the listed keys,
/// `MetaLeft`/`MetaRight` for the super keys, `Unidentified` otherwise.
pub open spec fn spec_code_value(name: Seq<char>) -> Seq<char> {
    if name == "SuperLeft"@ {
        "MetaLeft"@
    } else if name == "SuperRight"@ {
        "MetaRight"@
    } else if listed(spec_same_name_codes(), name) {
        name
    } else {
        "Unidentified"@
    }
}

/// The model of a key value.
pub enum KeyValueView {
    Character(Seq<char>),
    Named(Seq<char>),
}

impl KeyValue {
    pub open spec fn view(&self) -> KeyValueView {
        match self {
            KeyValue::Character(s) => KeyValueView::Character(s@),
            KeyValue::Named(s) => KeyValueView::Named(s@),
        }
    }
}

/// The W3C key value of a named key: the space bar produces the text `" "`,
/// the listed keys keep their name, every other one is `Unidentified`.
pub open spec fn spec_named_key_value(name: Seq<char>) -> KeyValueView {
    if name == "Space"@ {
        KeyValueView::Character(" "@)
    } else if listed(spec_same_name_keys(), name) {
        KeyValueView::Named(name)
    } else {
        KeyValueView::Named("Unidentified"@)
    }
}

/// The W3C key value of a logical key.
pub open spec fn spec_key_value(key: LogicalKey) -> KeyValueView {
    match key {
        LogicalKey::Character(c) => KeyValueView::Character(c@),
        LogicalKey::Named(n) => spec_named_key_value(n@),
        LogicalKey::Unidentified => KeyValueView::Named("Unidentified"@),
        LogicalKey::Dead => KeyValueView::Named("Unidentified"@),
    }
}

/// The W3C code value of a physical key.
pub open spec fn spec_physical_code(key: PhysicalKey) -> Seq<char> {
    match key {
        PhysicalKey::Code(n) => spec_code_value(n@),
        PhysicalKey::Unidentified => "Unidentified"@,
    }
}

pub open spec fn spec_key_state(s: ElementState) -> KeyState {
    match s {
        ElementState::Pressed => KeyState::Down,
        ElementState::Released => KeyState::Up,
    }
}

pub open spec fn spec_location(l: KeyLocation) -> Location {
    match l {
        KeyLocation::Standard => Location::Standard,
        KeyLocation::Left => Location::Left,
        KeyLocation::Right => Location::Right,
        KeyLocation::Numpad => Location::Numpad,
    }
}

pub open spec fn spec_modifiers(m: ModifierKeys) -> Modifiers {
    Modifiers { shift: m.shift, control: m.control, alt: m.alt, meta: m.super_key }
}

/// Is `name` one of `names`?
fn is_listed(names: &Vec<&'static str>, name: &str) -> (r: bool)
    ensures
        r == listed(names@, name@),
{
    let mut i: usize = 0;
    while i < names.len()
        invariant
            i <= names@.len(),
            forall|k: int| 0 <= k < i ==> (#[trigger] names@[k])@ != name@,
        decreases names@.len() - i,
    {
        if str_eq(names[i], name) {
            return true;
        }
        i = i + 1;
    }
    false
}

fn same_name_codes() -> (r: Vec<&'static str>)
    ensures
        r@ == spec_same_name_codes(),
{
    let r = vec![
        "Backquote", "Backslash", "BracketLeft", "BracketRight", "Comma", "Digit0", "Digit1",
        "Digit2", "Digit3", "Digit4", "Digit5", "Digit6", "Digit7", "Digit8", "Digit9",
        "Equal", "KeyA", "KeyB", "KeyC", "KeyD", "KeyE", "KeyF", "KeyG", "KeyH", "KeyI",
        "KeyJ", "KeyK", "KeyL", "KeyM", "KeyN", "KeyO", "KeyP", "KeyQ", "KeyR", "KeyS", "KeyT",
        "KeyU", "KeyV", "KeyW", "KeyX", "KeyY", "KeyZ", "Minus", "Period", "Quote",
        "Semicolon", "Slash", "Backspace", "CapsLock", "Enter", "Space", "Tab", "Delete",
        "End", "Home", "Insert", "PageDown", "PageUp", "ArrowDown", "ArrowLeft", "ArrowRight",
        "ArrowUp", "Escape", "F1", "F2", "F3", "F4", "F5", "F6", "F7", "F8", "F9", "F10",
        "F11", "F12", "ShiftLeft", "ShiftRight", "ControlLeft", "ControlRight", "AltLeft",
        "AltRight"
    ];
    assert(r@ =~= spec_same_name_codes());
    r
}

fn same_name_keys() -> (r: Vec<&'static str>)
    ensures
        r@ == spec_same_name_keys(),
{
    let r = vec![
        "Enter", "Tab", "Backspace", "Escape", "Delete", "ArrowDown", "ArrowLeft",
        "ArrowRight", "ArrowUp", "End", "Home", "PageDown", "PageUp", "CapsLock", "Shift",
        "Control", "Alt", "Meta", "F1", "F2", "F3", "F4", "F5", "F6", "F7", "F8", "F9", "F10",
        "F11", "F12", "Insert", "ContextMenu", "ScrollLock", "NumLock", "PrintScreen", "Pause"
    ];
    assert(r@ =~= spec_same_name_keys());
    r
}

/// The W3C code value of a physical key, by its key-code name.
pub fn convert_key_code(name: &str) -> (r: String)
    ensures
        r@ == spec_code_value(name@),
{
    if str_eq(name, "SuperLeft") {
        "MetaLeft".to_string()
    } else if str_eq(name, "SuperRight") {
        "MetaRight".to_string()
    } else if is_listed(&same_name_codes(), name) {
        to_owned_string(name)
    } else {
        "Unidentified".to_string()
    }
}

/// The W3C key value of a named key, by its name.
pub fn convert_named_key(name: &str) -> (r: KeyValue)
    ensures
        r.view() == spec_named_key_value(name@),
{
    if str_eq(name, "Space") {
        KeyValue::Character(" ".to_string())
    } else if is_listed(&same_name_keys(), name) {
        KeyValue::Named(to_owned_string(name))
    } else {
        KeyValue::Named("Unidentified".to_string())
    }
}

/// The W3C key value of a logical key.
pub fn convert_key(key: &LogicalKey) -> (r: KeyValue)
    ensures
        r.view() == spec_key_value(*key),
{
    match key {
        LogicalKey::Character(c) => KeyValue::Character(c.clone()),
        LogicalKey::Named(n) => convert_named_key(n.as_str()),
        LogicalKey::Unidentified => KeyValue::Named("Unidentified".to_string()),
        LogicalKey::Dead => KeyValue::Named("Unidentified".to_string()),
    }
}

/// The W3C code value of a physical key.
pub fn convert_code(key: &PhysicalKey) -> (r: String)
    ensures
        r@ == spec_physical_code(*key),
{
    match key {
        PhysicalKey::Code(n) => convert_key_code(n.as_str()),
        PhysicalKey::Unidentified => "Unidentified".to_string(),
    }
}

/// Pressed keys go down, released keys go up.
pub fn convert_state(state: ElementState) -> (r: KeyState)
    ensures
        r == spec_key_state(state),
{
    match state {
        ElementState::Pressed => KeyState::Down,
        ElementState::Released => KeyState::Up,
    }
}

/// The location keeps its name.
pub fn convert_location(location: KeyLocation) -> (r: Location)
    ensures
        r == spec_location(location),
{
    match location {
        KeyLocation::Standard => Location::Standard,
        KeyLocation::Left => Location::Left,
        KeyLocation::Right => Location::Right,
        KeyLocation::Numpad => Location::Numpad,
    }
}

/// Shift, control and alt carry over; the super key becomes meta.
pub fn convert_modifiers(modifiers: &ModifierKeys) -> (r: Modifiers)
    ensures
        r == spec_modifiers(*modifiers),
{
    let mut m = Modifiers { shift: false, control: false, alt: false, meta: false };
    if modifiers.shift {
        m.shift = true;
    }
    if modifiers.control {
        m.control = true;
    }
    if modifiers.alt {
        m.alt = true;
    }
    if modifiers.super_key {
        m.meta = true;
    }
    m
}

/// The engine's view of a windowing-layer key event: each part translated,
/// the repeat flag kept, and never composing.
pub fn convert_key_event(event: &KeyInput, modifiers: &ModifierKeys) -> (r: KeyboardEvent)
    ensures
        r.state == spec_key_state(event.state),
        r.key.view() == spec_key_value(event.logical_key),
        r.code@ == spec_physical_code(event.physical_key),
        r.location == spec_location(event.location),
        r.modifiers == spec_modifiers(*modifiers),
        r.repeat == event.repeat,
        !r.is_composing,
{
    KeyboardEvent {
        state: convert_state(event.state),
        key: convert_key(&event.logical_key),
        code: convert_code(&event.physical_key),
        location: convert_location(event.location),
        modifiers: convert_modifiers(modifiers),
        repeat: event.repeat,
        is_composing: false,
    }
}


/// A physical key whose W3C code value has the same name keeps its name:
/// the letter, digit, punctuation, editing, navigation, arrow, function,
/// shift, control and alt keys (and no other key is renamed to one of these).
pub proof fn lemma_same_name_codes_kept(name: Seq<char>)
    requires
        name == "Backquote"@ ||
        name == "Backslash"@ ||
        name == "BracketLeft"@ ||
        name == "BracketRight"@ ||
        name == "Comma"@ ||
        name == "Digit0"@ ||
        name == "Digit1"@ ||
        name == "Digit2"@ ||
        name == "Digit3"@ ||
        name == "Digit4"@ ||
        name == "Digit5"@ ||
        name == "Digit6"@ ||
        name == "Digit7"@ ||
        name == "Digit8"@ ||
        name == "Digit9"@ ||
        name == "Equal"@ ||
        name == "KeyA"@ ||
        name == "KeyB"@ ||
        name == "KeyC"@ ||
        name == "KeyD"@ ||
        name == "KeyE"@ ||
        name == "KeyF"@ ||
        name == "KeyG"@ ||
        name == "KeyH"@ ||
        name == "KeyI"@ ||
        name == "KeyJ"@ ||
        name == "KeyK"@ ||
        name == "KeyL"@ ||
        name == "KeyM"@ ||
        name == "KeyN"@ ||
        name == "KeyO"@ ||
        name == "KeyP"@ ||
        name == "KeyQ"@ ||
        name == "KeyR"@ ||
        name == "KeyS"@ ||
        name == "KeyT"@ ||
        name == "KeyU"@ ||
        name == "KeyV"@ ||
        name == "KeyW"@ ||
        name == "KeyX"@ ||
        name == "KeyY"@ ||
        name == "KeyZ"@ ||
        name == "Minus"@ ||
        name == "Period"@ ||
        name == "Quote"@ ||
        name == "Semicolon"@ ||
        name == "Slash"@ ||
        name == "Backspace"@ ||
        name == "CapsLock"@ ||
        name == "Enter"@ ||
        name == "Space"@ ||
        name == "Tab"@ ||
        name == "Delete"@ ||
        name == "End"@ ||
        name == "Home"@ ||
        name == "Insert"@ ||
        name == "PageDown"@ ||
        name == "PageUp"@ ||
        name == "ArrowDown"@ ||
        name == "ArrowLeft"@ ||
        name == "ArrowRight"@ ||
        name == "ArrowUp"@ ||
        name == "Escape"@ ||
        name == "F1"@ ||
        name == "F2"@ ||
        name == "F3"@ ||
        name == "F4"@ ||
        name == "F5"@ ||
        name == "F6"@ ||
        name == "F7"@ ||
        name == "F8"@ ||
        name == "F9"@ ||
        name == "F10"@ ||
        name == "F11"@ ||
        name == "F12"@ ||
        name == "ShiftLeft"@ ||
        name == "ShiftRight"@ ||
        name == "ControlLeft"@ ||
        name == "ControlRight"@ ||
        name == "AltLeft"@ ||
        name == "AltRight"@,
    ensures
        spec_code_value(name) == name,
{
    if name == "Backquote"@ {
        assert(name != "SuperLeft"@ && name != "SuperRight"@) by {
            reveal_strlit("Backquote");
            reveal_strlit("SuperLeft");
            reveal_strlit("SuperRight");
            assert(name[0] != "SuperLeft"@[0]);
            assert(name.len() != "SuperRight"@.len());
        }
        assert(spec_same_name_codes()[0]@ == name);
    } else if name == "Backslash"@ {
        assert(name != "SuperLeft"@ && name != "SuperRight"@) by {
            reveal_strlit("Backslash");
            reveal_strlit("SuperLeft");
            reveal_strlit("SuperRight");
            assert(name[0] != "SuperLeft"@[0]);
            assert(name.len() != "SuperRight"@.len());
        }
        assert(spec_same_name_codes()[1]@ == name);
    } else if name == "BracketLeft"@ {
        assert(name != "SuperLeft"@ && name != "SuperRight"@) by {
            reveal_strlit("BracketLeft");
            reveal_strlit("SuperLeft");
            reveal_strlit("SuperRight");
            assert(name.len() != "SuperLeft"@.len());
            assert(name.len() != "SuperRight"@.len());
        }
        assert(spec_same_name_codes()[2]@ == name);
    } else if name == "BracketRight"@ {
        assert(name != "SuperLeft"@ && name != "SuperRight"@) by {
            reveal_strlit("BracketRight");
            reveal_strlit("SuperLeft");
            reveal_strlit("SuperRight");
            assert(name.len() != "SuperLeft"@.len());
            assert(name.len() != "SuperRight"@.len());
        }
        assert(spec_same_name_codes()[3]@ == name);
    } else if name == "Comma"@ {
        assert(name != "SuperLeft"@ && name != "SuperRight"@) by {
            reveal_strlit("Comma");
            reveal_strlit("SuperLeft");
            reveal_strlit("SuperRight");
            assert(name.len() != "SuperLeft"@.len());
            assert(name.len() != "SuperRight"@.len());
        }
        assert(spec_same_name_codes()[4]@ == name);
    } else if name == "Digit0"@ {
        assert(name != "SuperLeft"@ && name != "SuperRight"@) by {
            reveal_strlit("Digit0");
            reveal_strlit("SuperLeft");
            reveal_strlit("SuperRight");
            assert(name.len() != "SuperLeft"@.len());
            assert(name.len() != "SuperRight"@.len());
        }
        assert(spec_same_name_codes()[5]@ == name);
    } else if name == "Digit1"@ {
        assert(name != "SuperLeft"@ && name != "SuperRight"@) by {
            reveal_strlit("Digit1");
            reveal_strlit("SuperLeft");
            reveal_strlit("SuperRight");
            assert(name.len() != "SuperLeft"@.len());
            assert(name.len() != "SuperRight"@.len());
        }
        assert(spec_same_name_codes()[6]@ == name);
    } else if name == "Digit2"@ {
        assert(name != "SuperLeft"@ && name != "SuperRight"@) by {
            reveal_strlit("Digit2");
            reveal_strlit("SuperLeft");
            reveal_strlit("SuperRight");
            assert(name.len() != "SuperLeft"@.len());
            assert(name.len() != "SuperRight"@.len());
        }
        assert(spec_same_name_codes()[7]@ == name);
    } else if name == "Digit3"@ {
        assert(name != "SuperLeft"@ && name != "SuperRight"@) by {
            reveal_strlit("Digit3");
            reveal_strlit("SuperLeft");
            reveal_strlit("SuperRight");
            assert(name.len() != "SuperLeft"@.len());
            assert(name.len() != "SuperRight"@.len());
        }
        assert(spec_same_name_codes()[8]@ == name);
    } else if name == "Digit4"@ {
        assert(name != "SuperLeft"@ && name != "SuperRight"@) by {
            reveal_strlit("Digit4");
            reveal_strlit("SuperLeft");
            reveal_strlit("SuperRight");
            assert(name.len() != "SuperLeft"@.len());
            assert(name.len() != "SuperRight"@.len());
        }
        assert(spec_same_name_codes()[9]@ == name);
    } else if name == "Digit5"@ {
        assert(name != "SuperLeft"@ && name != "SuperRight"@) by {
            reveal_strlit("Digit5");
            reveal_strlit("SuperLeft");
            reveal_strlit("SuperRight");
            assert(name.len() != "SuperLeft"@.len());
            assert(name.len() != "SuperRight"@.len());
        }
        assert(spec_same_name_codes()[10]@ == name);
    } else if name == "Digit6"@ {
        assert(name != "SuperLeft"@ && name != "SuperRight"@) by {
            reveal_strlit("Digit6");
            reveal_strlit("SuperLeft");
            reveal_strlit("SuperRight");
            assert(name.len() != "SuperLeft"@.len());
            assert(name.len() != "SuperRight"@.len());
        }
        assert(spec_same_name_codes()[11]@ == name);
    } else if name == "Digit7"@ {
        assert(name != "SuperLeft"@ && name != "SuperRight"@) by {
            reveal_strlit("Digit7");
            reveal_strlit("SuperLeft");
            reveal_strlit("SuperRight");
            assert(name.len() != "SuperLeft"@.len());
            assert(name.len() != "SuperRight"@.len());
        }
        assert(spec_same_name_codes()[12]@ == name);
    } else if name == "Digit8"@ {
        assert(name != "SuperLeft"@ && name != "SuperRight"@) by {
            reveal_strlit("Digit8");
            reveal_strlit("SuperLeft");
            reveal_strlit("SuperRight");
            assert(name.len() != "SuperLeft"@.len());
            assert(name.len() != "SuperRight"@.len());
        }
        assert(spec_same_name_codes()[13]@ == name);
    } else if name == "Digit9"@ {
        assert(name != "SuperLeft"@ && name != "SuperRight"@) by {
            reveal_strlit("Digit9");
            reveal_strlit("SuperLeft");
            reveal_strlit("SuperRight");
            assert(name.len() != "SuperLeft"@.len());
            assert(name.len() != "SuperRight"@.len());
        }
        assert(spec_same_name_codes()[14]@ == name);
    } else if name == "Equal"@ {
        assert(name != "SuperLeft"@ && name != "SuperRight"@) by {
            reveal_strlit("Equal");
            reveal_strlit("SuperLeft");
            reveal_strlit("SuperRight");
            assert(name.len() != "SuperLeft"@.len());
            assert(name.len() != "SuperRight"@.len());
        }
        assert(spec_same_name_codes()[15]@ == name);
    } else if name == "KeyA"@ {
        assert(name != "SuperLeft"@ && name != "SuperRight"@) by {
            reveal_strlit("KeyA");
            reveal_strlit("SuperLeft");
            reveal_strlit("SuperRight");
            assert(name.len() != "SuperLeft"@.len());
            assert(name.len() != "SuperRight"@.len());
        }
        assert(spec_same_name_codes()[16]@ == name);
    } else if name == "KeyB"@ {
        assert(name != "SuperLeft"@ && name != "SuperRight"@) by {
            reveal_strlit("KeyB");
            reveal_strlit("SuperLeft");
            reveal_strlit("SuperRight");
            assert(name.len() != "SuperLeft"@.len());
            assert(name.len() != "SuperRight"@.len());
        }
        assert(spec_same_name_codes()[17]@ == name);
    } else if name == "KeyC"@ {
        assert(name != "SuperLeft"@ && name != "SuperRight"@) by {
            reveal_strlit("KeyC");
            reveal_strlit("SuperLeft");
            reveal_strlit("SuperRight");
            assert(name.len() != "SuperLeft"@.len());
            assert(name.len() != "SuperRight"@.len());
        }
        assert(spec_same_name_codes()[18]@ == name);
    } else if name == "KeyD"@ {
        assert(name != "SuperLeft"@ && name != "SuperRight"@) by {
            reveal_strlit("KeyD");
            reveal_strlit("SuperLeft");
            reveal_strlit("SuperRight");
            assert(name.len() != "SuperLeft"@.len());
            assert(name.len() != "SuperRight"@.len());
        }
        assert(spec_same_name_codes()[19]@ == name);
    } else if name == "KeyE"@ {
        assert(name != "SuperLeft"@ && name != "SuperRight"@) by {
            reveal_strlit("KeyE");
            reveal_strlit("SuperLeft");
            reveal_strlit("SuperRight");
            assert(name.len() != "SuperLeft"@.len());
            assert(name.len() != "SuperRight"@.len());
        }
        assert(spec_same_name_codes()[20]@ == name);
    } else if name == "KeyF"@ {
        assert(name != "SuperLeft"@ && name != "SuperRight"@) by {
            reveal_strlit("KeyF");
            reveal_strlit("SuperLeft");
            reveal_strlit("SuperRight");
            assert(name.len() != "SuperLeft"@.len());
            assert(name.len() != "SuperRight"@.len());
        }
        assert(spec_same_name_codes()[21]@ == name);
    } else if name == "KeyG"@ {
        assert(name != "SuperLeft"@ && name != "SuperRight"@) by {
            reveal_strlit("KeyG");
            reveal_strlit("SuperLeft");
            reveal_strlit("SuperRight");
            assert(name.len() != "SuperLeft"@.len());
            assert(name.len() != "SuperRight"@.len());
        }
        assert(spec_same_name_codes()[22]@ == name);
    } else if name == "KeyH"@ {
        assert(name != "SuperLeft"@ && name != "SuperRight"@) by {
            reveal_strlit("KeyH");
            reveal_strlit("SuperLeft");
            reveal_strlit("SuperRight");
            assert(name.len() != "SuperLeft"@.len());
            assert(name.len() != "SuperRight"@.len());
        }
        assert(spec_same_name_codes()[23]@ == name);
    } else if name == "KeyI"@ {
        assert(name != "SuperLeft"@ && name != "SuperRight"@) by {
            reveal_strlit("KeyI");
            reveal_strlit("SuperLeft");
            reveal_strlit("SuperRight");
            assert(name.len() != "SuperLeft"@.len());
            assert(name.len() != "SuperRight"@.len());
        }
        assert(spec_same_name_codes()[24]@ == name);
    } else if name == "KeyJ"@ {
        assert(name != "SuperLeft"@ && name != "SuperRight"@) by {
            reveal_strlit("KeyJ");
            reveal_strlit("SuperLeft");
            reveal_strlit("SuperRight");
            assert(name.len() != "SuperLeft"@.len());
            assert(name.len() != "SuperRight"@.len());
        }
        assert(spec_same_name_codes()[25]@ == name);
    } else if name == "KeyK"@ {
        assert(name != "SuperLeft"@ && name != "SuperRight"@) by {
            reveal_strlit("KeyK");
            reveal_strlit("SuperLeft");
            reveal_strlit("SuperRight");
            assert(name.len() != "SuperLeft"@.len());
            assert(name.len() != "SuperRight"@.len());
        }
        assert(spec_same_name_codes()[26]@ == name);
    } else if name == "KeyL"@ {
        assert(name != "SuperLeft"@ && name != "SuperRight"@) by {
            reveal_strlit("KeyL");
            reveal_strlit("SuperLeft");
            reveal_strlit("SuperRight");
            assert(name.len() != "SuperLeft"@.len());
            assert(name.len() != "SuperRight"@.len());
        }
        assert(spec_same_name_codes()[27]@ == name);
    } else if name == "KeyM"@ {
        assert(name != "SuperLeft"@ && name != "SuperRight"@) by {
            reveal_strlit("KeyM");
            reveal_strlit("SuperLeft");
            reveal_strlit("SuperRight");
            assert(name.len() != "SuperLeft"@.len());
            assert(name.len() != "SuperRight"@.len());
        }
        assert(spec_same_name_codes()[28]@ == name);
    } else if name == "KeyN"@ {
        assert(name != "SuperLeft"@ && name != "SuperRight"@) by {
            reveal_strlit("KeyN");
            reveal_strlit("SuperLeft");
            reveal_strlit("SuperRight");
            assert(name.len() != "SuperLeft"@.len());
            assert(name.len() != "SuperRight"@.len());
        }
        assert(spec_same_name_codes()[29]@ == name);
    } else if name == "KeyO"@ {
        assert(name != "SuperLeft"@ && name != "SuperRight"@) by {
            reveal_strlit("KeyO");
            reveal_strlit("SuperLeft");
            reveal_strlit("SuperRight");
            assert(name.len() != "SuperLeft"@.len());
            assert(name.len() != "SuperRight"@.len());
        }
        assert(spec_same_name_codes()[30]@ == name);
    } else if name == "KeyP"@ {
        assert(name != "SuperLeft"@ && name != "SuperRight"@) by {
            reveal_strlit("KeyP");
            reveal_strlit("SuperLeft");
            reveal_strlit("SuperRight");
            assert(name.len() != "SuperLeft"@.len());
            assert(name.len() != "SuperRight"@.len());
        }
        assert(spec_same_name_codes()[31]@ == name);
    } else if name == "KeyQ"@ {
        assert(name != "SuperLeft"@ && name != "SuperRight"@) by {
            reveal_strlit("KeyQ");
            reveal_strlit("SuperLeft");
            reveal_strlit("SuperRight");
            assert(name.len() != "SuperLeft"@.len());
            assert(name.len() != "SuperRight"@.len());
        }
        assert(spec_same_name_codes()[32]@ == name);
    } else if name == "KeyR"@ {
        assert(name != "SuperLeft"@ && name != "SuperRight"@) by {
            reveal_strlit("KeyR");
            reveal_strlit("SuperLeft");
            reveal_strlit("SuperRight");
            assert(name.len() != "SuperLeft"@.len());
            assert(name.len() != "SuperRight"@.len());
        }
        assert(spec_same_name_codes()[33]@ == name);
    } else if name == "KeyS"@ {
        assert(name != "SuperLeft"@ && name != "SuperRight"@) by {
            reveal_strlit("KeyS");
            reveal_strlit("SuperLeft");
            reveal_strlit("SuperRight");
            assert(name.len() != "SuperLeft"@.len());
            assert(name.len() != "SuperRight"@.len());
        }
        assert(spec_same_name_codes()[34]@ == name);
    } else if name == "KeyT"@ {
        assert(name != "SuperLeft"@ && name != "SuperRight"@) by {
            reveal_strlit("KeyT");
            reveal_strlit("SuperLeft");
            reveal_strlit("SuperRight");
            assert(name.len() != "SuperLeft"@.len());
            assert(name.len() != "SuperRight"@.len());
        }
        assert(spec_same_name_codes()[35]@ == name);
    } else if name == "KeyU"@ {
        assert(name != "SuperLeft"@ && name != "SuperRight"@) by {
            reveal_strlit("KeyU");
            reveal_strlit("SuperLeft");
            reveal_strlit("SuperRight");
            assert(name.len() != "SuperLeft"@.len());
            assert(name.len() != "SuperRight"@.len());
        }
        assert(spec_same_name_codes()[36]@ == name);
    } else if name == "KeyV"@ {
        assert(name != "SuperLeft"@ && name != "SuperRight"@) by {
            reveal_strlit("KeyV");
            reveal_strlit("SuperLeft");
            reveal_strlit("SuperRight");
            assert(name.len() != "SuperLeft"@.len());
            assert(name.len() != "SuperRight"@.len());
        }
        assert(spec_same_name_codes()[37]@ == name);
    } else if name == "KeyW"@ {
        assert(name != "SuperLeft"@ && name != "SuperRight"@) by {
            reveal_strlit("KeyW");
            reveal_strlit("SuperLeft");
            reveal_strlit("SuperRight");
            assert(name.len() != "SuperLeft"@.len());
            assert(name.len() != "SuperRight"@.len());
        }
        assert(spec_same_name_codes()[38]@ == name);
    } else if name == "KeyX"@ {
        assert(name != "SuperLeft"@ && name != "SuperRight"@) by {
            reveal_strlit("KeyX");
            reveal_strlit("SuperLeft");
            reveal_strlit("SuperRight");
            assert(name.len() != "SuperLeft"@.len());
            assert(name.len() != "SuperRight"@.len());
        }
        assert(spec_same_name_codes()[39]@ == name);
    } else if name == "KeyY"@ {
        assert(name != "SuperLeft"@ && name != "SuperRight"@) by {
            reveal_strlit("KeyY");
            reveal_strlit("SuperLeft");
            reveal_strlit("SuperRight");
            assert(name.len() != "SuperLeft"@.len());
            assert(name.len() != "SuperRight"@.len());
        }
        assert(spec_same_name_codes()[40]@ == name);
    } else if name == "KeyZ"@ {
        assert(name != "SuperLeft"@ && name != "SuperRight"@) by {
            reveal_strlit("KeyZ");
            reveal_strlit("SuperLeft");
            reveal_strlit("SuperRight");
            assert(name.len() != "SuperLeft"@.len());
            assert(name.len() != "SuperRight"@.len());
        }
        assert(spec_same_name_codes()[41]@ == name);
    } else if name == "Minus"@ {
        assert(name != "SuperLeft"@ && name != "SuperRight"@) by {
            reveal_strlit("Minus");
            reveal_strlit("SuperLeft");
            reveal_strlit("SuperRight");
            assert(name.len() != "SuperLeft"@.len());
            assert(name.len() != "SuperRight"@.len());
        }
        assert(spec_same_name_codes()[42]@ == name);
    } else if name == "Period"@ {
        assert(name != "SuperLeft"@ && name != "SuperRight"@) by {
            reveal_strlit("Period");
            reveal_strlit("SuperLeft");
            reveal_strlit("SuperRight");
            assert(name.len() != "SuperLeft"@.len());
            assert(name.len() != "SuperRight"@.len());
        }
        assert(spec_same_name_codes()[43]@ == name);
    } else if name == "Quote"@ {
        assert(name != "SuperLeft"@ && name != "SuperRight"@) by {
            reveal_strlit("Quote");
            reveal_strlit("SuperLeft");
            reveal_strlit("SuperRight");
            assert(name.len() != "SuperLeft"@.len());
            assert(name.len() != "SuperRight"@.len());
        }
        assert(spec_same_name_codes()[44]@ == name);
    } else if name == "Semicolon"@ {
        assert(name != "SuperLeft"@ && name != "SuperRight"@) by {
            reveal_strlit("Semicolon");
            reveal_strlit("SuperLeft");
            reveal_strlit("SuperRight");
            assert(name[1] != "SuperLeft"@[1]);
            assert(name.len() != "SuperRight"@.len());
        }
        assert(spec_same_name_codes()[45]@ == name);
    } else if name == "Slash"@ {
        assert(name != "SuperLeft"@ && name != "SuperRight"@) by {
            reveal_strlit("Slash");
            reveal_strlit("SuperLeft");
            reveal_strlit("SuperRight");
            assert(name.len() != "SuperLeft"@.len());
            assert(name.len() != "SuperRight"@.len());
        }
        assert(spec_same_name_codes()[46]@ == name);
    } else if name == "Backspace"@ {
        assert(name != "SuperLeft"@ && name != "SuperRight"@) by {
            reveal_strlit("Backspace");
            reveal_strlit("SuperLeft");
            reveal_strlit("SuperRight");
            assert(name[0] != "SuperLeft"@[0]);
            assert(name.len() != "SuperRight"@.len());
        }
        assert(spec_same_name_codes()[47]@ == name);
    } else if name == "CapsLock"@ {
        assert(name != "SuperLeft"@ && name != "SuperRight"@) by {
            reveal_strlit("CapsLock");
            reveal_strlit("SuperLeft");
            reveal_strlit("SuperRight");
            assert(name.len() != "SuperLeft"@.len());
            assert(name.len() != "SuperRight"@.len());
        }
        assert(spec_same_name_codes()[48]@ == name);
    } else if name == "Enter"@ {
        assert(name != "SuperLeft"@ && name != "SuperRight"@) by {
            reveal_strlit("Enter");
            reveal_strlit("SuperLeft");
            reveal_strlit("SuperRight");
            assert(name.len() != "SuperLeft"@.len());
            assert(name.len() != "SuperRight"@.len());
        }
        assert(spec_same_name_codes()[49]@ == name);
    } else if name == "Space"@ {
        assert(name != "SuperLeft"@ && name != "SuperRight"@) by {
            reveal_strlit("Space");
            reveal_strlit("SuperLeft");
            reveal_strlit("SuperRight");
            assert(name.len() != "SuperLeft"@.len());
            assert(name.len() != "SuperRight"@.len());
        }
        assert(spec_same_name_codes()[50]@ == name);
    } else if name == "Tab"@ {
        assert(name != "SuperLeft"@ && name != "SuperRight"@) by {
            reveal_strlit("Tab");
            reveal_strlit("SuperLeft");
            reveal_strlit("SuperRight");
            assert(name.len() != "SuperLeft"@.len());
            assert(name.len() != "SuperRight"@.len());
        }
        assert(spec_same_name_codes()[51]@ == name);
    } else if name == "Delete"@ {
        assert(name != "SuperLeft"@ && name != "SuperRight"@) by {
            reveal_strlit("Delete");
            reveal_strlit("SuperLeft");
            reveal_strlit("SuperRight");
            assert(name.len() != "SuperLeft"@.len());
            assert(name.len() != "SuperRight"@.len());
        }
        assert(spec_same_name_codes()[52]@ == name);
    } else if name == "End"@ {
        assert(name != "SuperLeft"@ && name != "SuperRight"@) by {
            reveal_strlit("End");
            reveal_strlit("SuperLeft");
            reveal_strlit("SuperRight");
            assert(name.len() != "SuperLeft"@.len());
            assert(name.len() != "SuperRight"@.len());
        }
        assert(spec_same_name_codes()[53]@ == name);
    } else if name == "Home"@ {
        assert(name != "SuperLeft"@ && name != "SuperRight"@) by {
            reveal_strlit("Home");
            reveal_strlit("SuperLeft");
            reveal_strlit("SuperRight");
            assert(name.len() != "SuperLeft"@.len());
            assert(name.len() != "SuperRight"@.len());
        }
        assert(spec_same_name_codes()[54]@ == name);
    } else if name == "Insert"@ {
        assert(name != "SuperLeft"@ && name != "SuperRight"@) by {
            reveal_strlit("Insert");
            reveal_strlit("SuperLeft");
            reveal_strlit("SuperRight");
            assert(name.len() != "SuperLeft"@.len());
            assert(name.len() != "SuperRight"@.len());
        }
        assert(spec_same_name_codes()[55]@ == name);
    } else if name == "PageDown"@ {
        assert(name != "SuperLeft"@ && name != "SuperRight"@) by {
            reveal_strlit("PageDown");
            reveal_strlit("SuperLeft");
            reveal_strlit("SuperRight");
            assert(name.len() != "SuperLeft"@.len());
            assert(name.len() != "SuperRight"@.len());
        }
        assert(spec_same_name_codes()[56]@ == name);
    } else if name == "PageUp"@ {
        assert(name != "SuperLeft"@ && name != "SuperRight"@) by {
            reveal_strlit("PageUp");
            reveal_strlit("SuperLeft");
            reveal_strlit("SuperRight");
            assert(name.len() != "SuperLeft"@.len());
            assert(name.len() != "SuperRight"@.len());
        }
        assert(spec_same_name_codes()[57]@ == name);
    } else if name == "ArrowDown"@ {
        assert(name != "SuperLeft"@ && name != "SuperRight"@) by {
            reveal_strlit("ArrowDown");
            reveal_strlit("SuperLeft");
            reveal_strlit("SuperRight");
            assert(name[0] != "SuperLeft"@[0]);
            assert(name.len() != "SuperRight"@.len());
        }
        assert(spec_same_name_codes()[58]@ == name);
    } else if name == "ArrowLeft"@ {
        assert(name != "SuperLeft"@ && name != "SuperRight"@) by {
            reveal_strlit("ArrowLeft");
            reveal_strlit("SuperLeft");
            reveal_strlit("SuperRight");
            assert(name[0] != "SuperLeft"@[0]);
            assert(name.len() != "SuperRight"@.len());
        }
        assert(spec_same_name_codes()[59]@ == name);
    } else if name == "ArrowRight"@ {
        assert(name != "SuperLeft"@ && name != "SuperRight"@) by {
            reveal_strlit("ArrowRight");
            reveal_strlit("SuperLeft");
            reveal_strlit("SuperRight");
            assert(name.len() != "SuperLeft"@.len());
            assert(name[0] != "SuperRight"@[0]);
        }
        assert(spec_same_name_codes()[60]@ == name);
    } else if name == "ArrowUp"@ {
        assert(name != "SuperLeft"@ && name != "SuperRight"@) by {
            reveal_strlit("ArrowUp");
            reveal_strlit("SuperLeft");
            reveal_strlit("SuperRight");
            assert(name.len() != "SuperLeft"@.len());
            assert(name.len() != "SuperRight"@.len());
        }
        assert(spec_same_name_codes()[61]@ == name);
    } else if name == "Escape"@ {
        assert(name != "SuperLeft"@ && name != "SuperRight"@) by {
            reveal_strlit("Escape");
            reveal_strlit("SuperLeft");
            reveal_strlit("SuperRight");
            assert(name.len() != "SuperLeft"@.len());
            assert(name.len() != "SuperRight"@.len());
        }
        assert(spec_same_name_codes()[62]@ == name);
    } else if name == "F1"@ {
        assert(name != "SuperLeft"@ && name != "SuperRight"@) by {
            reveal_strlit("F1");
            reveal_strlit("SuperLeft");
            reveal_strlit("SuperRight");
            assert(name.len() != "SuperLeft"@.len());
            assert(name.len() != "SuperRight"@.len());
        }
        assert(spec_same_name_codes()[63]@ == name);
    } else if name == "F2"@ {
        assert(name != "SuperLeft"@ && name != "SuperRight"@) by {
            reveal_strlit("F2");
            reveal_strlit("SuperLeft");
            reveal_strlit("SuperRight");
            assert(name.len() != "SuperLeft"@.len());
            assert(name.len() != "SuperRight"@.len());
        }
        assert(spec_same_name_codes()[64]@ == name);
    } else if name == "F3"@ {
        assert(name != "SuperLeft"@ && name != "SuperRight"@) by {
            reveal_strlit("F3");
            reveal_strlit("SuperLeft");
            reveal_strlit("SuperRight");
            assert(name.len() != "SuperLeft"@.len());
            assert(name.len() != "SuperRight"@.len());
        }
        assert(spec_same_name_codes()[65]@ == name);
    } else if name == "F4"@ {
        assert(name != "SuperLeft"@ && name != "SuperRight"@) by {
            reveal_strlit("F4");
            reveal_strlit("SuperLeft");
            reveal_strlit("SuperRight");
            assert(name.len() != "SuperLeft"@.len());
            assert(name.len() != "SuperRight"@.len());
        }
        assert(spec_same_name_codes()[66]@ == name);
    } else if name == "F5"@ {
        assert(name != "SuperLeft"@ && name != "SuperRight"@) by {
            reveal_strlit("F5");
            reveal_strlit("SuperLeft");
            reveal_strlit("SuperRight");
            assert(name.len() != "SuperLeft"@.len());
            assert(name.len() != "SuperRight"@.len());
        }
        assert(spec_same_name_codes()[67]@ == name);
    } else if name == "F6"@ {
        assert(name != "SuperLeft"@ && name != "SuperRight"@) by {
            reveal_strlit("F6");
            reveal_strlit("SuperLeft");
            reveal_strlit("SuperRight");
            assert(name.len() != "SuperLeft"@.len());
            assert(name.len() != "SuperRight"@.len());
        }
        assert(spec_same_name_codes()[68]@ == name);
    } else if name == "F7"@ {
        assert(name != "SuperLeft"@ && name != "SuperRight"@) by {
            reveal_strlit("F7");
            reveal_strlit("SuperLeft");
            reveal_strlit("SuperRight");
            assert(name.len() != "SuperLeft"@.len());
            assert(name.len() != "SuperRight"@.len());
        }
        assert(spec_same_name_codes()[69]@ == name);
    } else if name == "F8"@ {
        assert(name != "SuperLeft"@ && name != "SuperRight"@) by {
            reveal_strlit("F8");
            reveal_strlit("SuperLeft");
            reveal_strlit("SuperRight");
            assert(name.len() != "SuperLeft"@.len());
            assert(name.len() != "SuperRight"@.len());
        }
        assert(spec_same_name_codes()[70]@ == name);
    } else if name == "F9"@ {
        assert(name != "SuperLeft"@ && name != "SuperRight"@) by {
            reveal_strlit("F9");
            reveal_strlit("SuperLeft");
            reveal_strlit("SuperRight");
            assert(name.len() != "SuperLeft"@.len());
            assert(name.len() != "SuperRight"@.len());
        }
        assert(spec_same_name_codes()[71]@ == name);
    } else if name == "F10"@ {
        assert(name != "SuperLeft"@ && name != "SuperRight"@) by {
            reveal_strlit("F10");
            reveal_strlit("SuperLeft");
            reveal_strlit("SuperRight");
            assert(name.len() != "SuperLeft"@.len());
            assert(name.len() != "SuperRight"@.len());
        }
        assert(spec_same_name_codes()[72]@ == name);
    } else if name == "F11"@ {
        assert(name != "SuperLeft"@ && name != "SuperRight"@) by {
            reveal_strlit("F11");
            reveal_strlit("SuperLeft");
            reveal_strlit("SuperRight");
            assert(name.len() != "SuperLeft"@.len());
            assert(name.len() != "SuperRight"@.len());
        }
        assert(spec_same_name_codes()[73]@ == name);
    } else if name == "F12"@ {
        assert(name != "SuperLeft"@ && name != "SuperRight"@) by {
            reveal_strlit("F12");
            reveal_strlit("SuperLeft");
            reveal_strlit("SuperRight");
            assert(name.len() != "SuperLeft"@.len());
            assert(name.len() != "SuperRight"@.len());
        }
        assert(spec_same_name_codes()[74]@ == name);
    } else if name == "ShiftLeft"@ {
        assert(name != "SuperLeft"@ && name != "SuperRight"@) by {
            reveal_strlit("ShiftLeft");
            reveal_strlit("SuperLeft");
            reveal_strlit("SuperRight");
            assert(name[1] != "SuperLeft"@[1]);
            assert(name.len() != "SuperRight"@.len());
        }
        assert(spec_same_name_codes()[75]@ == name);
    } else if name == "ShiftRight"@ {
        assert(name != "SuperLeft"@ && name != "SuperRight"@) by {
            reveal_strlit("ShiftRight");
            reveal_strlit("SuperLeft");
            reveal_strlit("SuperRight");
            assert(name.len() != "SuperLeft"@.len());
            assert(name[1] != "SuperRight"@[1]);
        }
        assert(spec_same_name_codes()[76]@ == name);
    } else if name == "ControlLeft"@ {
        assert(name != "SuperLeft"@ && name != "SuperRight"@) by {
            reveal_strlit("ControlLeft");
            reveal_strlit("SuperLeft");
            reveal_strlit("SuperRight");
            assert(name.len() != "SuperLeft"@.len());
            assert(name.len() != "SuperRight"@.len());
        }
        assert(spec_same_name_codes()[77]@ == name);
    } else if name == "ControlRight"@ {
        assert(name != "SuperLeft"@ && name != "SuperRight"@) by {
            reveal_strlit("ControlRight");
            reveal_strlit("SuperLeft");
            reveal_strlit("SuperRight");
            assert(name.len() != "SuperLeft"@.len());
            assert(name.len() != "SuperRight"@.len());
        }
        assert(spec_same_name_codes()[78]@ == name);
    } else if name == "AltLeft"@ {
        assert(name != "SuperLeft"@ && name != "SuperRight"@) by {
            reveal_strlit("AltLeft");
            reveal_strlit("SuperLeft");
            reveal_strlit("SuperRight");
            assert(name.len() != "SuperLeft"@.len());
            assert(name.len() != "SuperRight"@.len());
        }
        assert(spec_same_name_codes()[79]@ == name);
    } else if name == "AltRight"@ {
        assert(name != "SuperLeft"@ && name != "SuperRight"@) by {
            reveal_strlit("AltRight");
            reveal_strlit("SuperLeft");
            reveal_strlit("SuperRight");
            assert(name.len() != "SuperLeft"@.len());
            assert(name.len() != "SuperRight"@.len());
        }
        assert(spec_same_name_codes()[80]@ == name);
    }
}

/// The super keys are the W3C meta keys.
pub proof fn lemma_super_keys_are_meta()
    ensures
        spec_code_value("SuperLeft"@) == "MetaLeft"@,
        spec_code_value("SuperRight"@) == "MetaRight"@,
{
    assert("SuperRight"@ != "SuperLeft"@) by {
        reveal_strlit("SuperRight");
        reveal_strlit("SuperLeft");
        assert("SuperRight"@.len() != "SuperLeft"@.len());
    }
}

/// Every other physical key is `Unidentified` to the engine.
pub proof fn lemma_other_codes_unidentified(name: Seq<char>)
    requires
        name != "Backquote"@,
        name != "Backslash"@,
        name != "BracketLeft"@,
        name != "BracketRight"@,
        name != "Comma"@,
        name != "Digit0"@,
        name != "Digit1"@,
        name != "Digit2"@,
        name != "Digit3"@,
        name != "Digit4"@,
        name != "Digit5"@,
        name != "Digit6"@,
        name != "Digit7"@,
        name != "Digit8"@,
        name != "Digit9"@,
        name != "Equal"@,
        name != "KeyA"@,
        name != "KeyB"@,
        name != "KeyC"@,
        name != "KeyD"@,
        name != "KeyE"@,
        name != "KeyF"@,
        name != "KeyG"@,
        name != "KeyH"@,
        name != "KeyI"@,
        name != "KeyJ"@,
        name != "KeyK"@,
        name != "KeyL"@,
        name != "KeyM"@,
        name != "KeyN"@,
        name != "KeyO"@,
        name != "KeyP"@,
        name != "KeyQ"@,
        name != "KeyR"@,
        name != "KeyS"@,
        name != "KeyT"@,
        name != "KeyU"@,
        name != "KeyV"@,
        name != "KeyW"@,
        name != "KeyX"@,
        name != "KeyY"@,
        name != "KeyZ"@,
        name != "Minus"@,
        name != "Period"@,
        name != "Quote"@,
        name != "Semicolon"@,
        name != "Slash"@,
        name != "Backspace"@,
        name != "CapsLock"@,
        name != "Enter"@,
        name != "Space"@,
        name != "Tab"@,
        name != "Delete"@,
        name != "End"@,
        name != "Home"@,
        name != "Insert"@,
        name != "PageDown"@,
        name != "PageUp"@,
        name != "ArrowDown"@,
        name != "ArrowLeft"@,
        name != "ArrowRight"@,
        name != "ArrowUp"@,
        name != "Escape"@,
        name != "F1"@,
        name != "F2"@,
        name != "F3"@,
        name != "F4"@,
        name != "F5"@,
        name != "F6"@,
        name != "F7"@,
        name != "F8"@,
        name != "F9"@,
        name != "F10"@,
        name != "F11"@,
        name != "F12"@,
        name != "ShiftLeft"@,
        name != "ShiftRight"@,
        name != "ControlLeft"@,
        name != "ControlRight"@,
        name != "AltLeft"@,
        name != "AltRight"@,
        name != "SuperLeft"@,
        name != "SuperRight"@,
    ensures
        spec_code_value(name) == "Unidentified"@,
{
    if listed(spec_same_name_codes(), name) {
        let i = choose|i: int| 0 <= i < spec_same_name_codes().len() && (#[trigger] spec_same_name_codes()[i])@ == name;
        if i == 0 {
            assert(spec_same_name_codes()[0]@ == "Backquote"@);
        } else if i == 1 {
            assert(spec_same_name_codes()[1]@ == "Backslash"@);
        } else if i == 2 {
            assert(spec_same_name_codes()[2]@ == "BracketLeft"@);
        } else if i == 3 {
            assert(spec_same_name_codes()[3]@ == "BracketRight"@);
        } else if i == 4 {
            assert(spec_same_name_codes()[4]@ == "Comma"@);
        } else if i == 5 {
            assert(spec_same_name_codes()[5]@ == "Digit0"@);
        } else if i == 6 {
            assert(spec_same_name_codes()[6]@ == "Digit1"@);
        } else if i == 7 {
            assert(spec_same_name_codes()[7]@ == "Digit2"@);
        } else if i == 8 {
            assert(spec_same_name_codes()[8]@ == "Digit3"@);
        } else if i == 9 {
            assert(spec_same_name_codes()[9]@ == "Digit4"@);
        } else if i == 10 {
            assert(spec_same_name_codes()[10]@ == "Digit5"@);
        } else if i == 11 {
            assert(spec_same_name_codes()[11]@ == "Digit6"@);
        } else if i == 12 {
            assert(spec_same_name_codes()[12]@ == "Digit7"@);
        } else if i == 13 {
            assert(spec_same_name_codes()[13]@ == "Digit8"@);
        } else if i == 14 {
            assert(spec_same_name_codes()[14]@ == "Digit9"@);
        } else if i == 15 {
            assert(spec_same_name_codes()[15]@ == "Equal"@);
        } else if i == 16 {
            assert(spec_same_name_codes()[16]@ == "KeyA"@);
        } else if i == 17 {
            assert(spec_same_name_codes()[17]@ == "KeyB"@);
        } else if i == 18 {
            assert(spec_same_name_codes()[18]@ == "KeyC"@);
        } else if i == 19 {
            assert(spec_same_name_codes()[19]@ == "KeyD"@);
        } else if i == 20 {
            assert(spec_same_name_codes()[20]@ == "KeyE"@);
        } else if i == 21 {
            assert(spec_same_name_codes()[21]@ == "KeyF"@);
        } else if i == 22 {
            assert(spec_same_name_codes()[22]@ == "KeyG"@);
        } else if i == 23 {
            assert(spec_same_name_codes()[23]@ == "KeyH"@);
        } else if i == 24 {
            assert(spec_same_name_codes()[24]@ == "KeyI"@);
        } else if i == 25 {
            assert(spec_same_name_codes()[25]@ == "KeyJ"@);
        } else if i == 26 {
            assert(spec_same_name_codes()[26]@ == "KeyK"@);
        } else if i == 27 {
            assert(spec_same_name_codes()[27]@ == "KeyL"@);
        } else if i == 28 {
            assert(spec_same_name_codes()[28]@ == "KeyM"@);
        } else if i == 29 {
            assert(spec_same_name_codes()[29]@ == "KeyN"@);
        } else if i == 30 {
            assert(spec_same_name_codes()[30]@ == "KeyO"@);
        } else if i == 31 {
            assert(spec_same_name_codes()[31]@ == "KeyP"@);
        } else if i == 32 {
            assert(spec_same_name_codes()[32]@ == "KeyQ"@);
        } else if i == 33 {
            assert(spec_same_name_codes()[33]@ == "KeyR"@);
        } else if i == 34 {
            assert(spec_same_name_codes()[34]@ == "KeyS"@);
        } else if i == 35 {
            assert(spec_same_name_codes()[35]@ == "KeyT"@);
        } else if i == 36 {
            assert(spec_same_name_codes()[36]@ == "KeyU"@);
        } else if i == 37 {
            assert(spec_same_name_codes()[37]@ == "KeyV"@);
        } else if i == 38 {
            assert(spec_same_name_codes()[38]@ == "KeyW"@);
        } else if i == 39 {
            assert(spec_same_name_codes()[39]@ == "KeyX"@);
        } else if i == 40 {
            assert(spec_same_name_codes()[40]@ == "KeyY"@);
        } else if i == 41 {
            assert(spec_same_name_codes()[41]@ == "KeyZ"@);
        } else if i == 42 {
            assert(spec_same_name_codes()[42]@ == "Minus"@);
        } else if i == 43 {
            assert(spec_same_name_codes()[43]@ == "Period"@);
        } else if i == 44 {
            assert(spec_same_name_codes()[44]@ == "Quote"@);
        } else if i == 45 {
            assert(spec_same_name_codes()[45]@ == "Semicolon"@);
        } else if i == 46 {
            assert(spec_same_name_codes()[46]@ == "Slash"@);
        } else if i == 47 {
            assert(spec_same_name_codes()[47]@ == "Backspace"@);
        } else if i == 48 {
            assert(spec_same_name_codes()[48]@ == "CapsLock"@);
        } else if i == 49 {
            assert(spec_same_name_codes()[49]@ == "Enter"@);
        } else if i == 50 {
            assert(spec_same_name_codes()[50]@ == "Space"@);
        } else if i == 51 {
            assert(spec_same_name_codes()[51]@ == "Tab"@);
        } else if i == 52 {
            assert(spec_same_name_codes()[52]@ == "Delete"@);
        } else if i == 53 {
            assert(spec_same_name_codes()[53]@ == "End"@);
        } else if i == 54 {
            assert(spec_same_name_codes()[54]@ == "Home"@);
        } else if i == 55 {
            assert(spec_same_name_codes()[55]@ == "Insert"@);
        } else if i == 56 {
            assert(spec_same_name_codes()[56]@ == "PageDown"@);
        } else if i == 57 {
            assert(spec_same_name_codes()[57]@ == "PageUp"@);
        } else if i == 58 {
            assert(spec_same_name_codes()[58]@ == "ArrowDown"@);
        } else if i == 59 {
            assert(spec_same_name_codes()[59]@ == "ArrowLeft"@);
        } else if i == 60 {
            assert(spec_same_name_codes()[60]@ == "ArrowRight"@);
        } else if i == 61 {
            assert(spec_same_name_codes()[61]@ == "ArrowUp"@);
        } else if i == 62 {
            assert(spec_same_name_codes()[62]@ == "Escape"@);
        } else if i == 63 {
            assert(spec_same_name_codes()[63]@ == "F1"@);
        } else if i == 64 {
            assert(spec_same_name_codes()[64]@ == "F2"@);
        } else if i == 65 {
            assert(spec_same_name_codes()[65]@ == "F3"@);
        } else if i == 66 {
            assert(spec_same_name_codes()[66]@ == "F4"@);
        } else if i == 67 {
            assert(spec_same_name_codes()[67]@ == "F5"@);
        } else if i == 68 {
            assert(spec_same_name_codes()[68]@ == "F6"@);
        } else if i == 69 {
            assert(spec_same_name_codes()[69]@ == "F7"@);
        } else if i == 70 {
            assert(spec_same_name_codes()[70]@ == "F8"@);
        } else if i == 71 {
            assert(spec_same_name_codes()[71]@ == "F9"@);
        } else if i == 72 {
            assert(spec_same_name_codes()[72]@ == "F10"@);
        } else if i == 73 {
            assert(spec_same_name_codes()[73]@ == "F11"@);
        } else if i == 74 {
            assert(spec_same_name_codes()[74]@ == "F12"@);
        } else if i == 75 {
            assert(spec_same_name_codes()[75]@ == "ShiftLeft"@);
        } else if i == 76 {
            assert(spec_same_name_codes()[76]@ == "ShiftRight"@);
        } else if i == 77 {
            assert(spec_same_name_codes()[77]@ == "ControlLeft"@);
        } else if i == 78 {
            assert(spec_same_name_codes()[78]@ == "ControlRight"@);
        } else if i == 79 {
            assert(spec_same_name_codes()[79]@ == "AltLeft"@);
        } else if i == 80 {
            assert(spec_same_name_codes()[80]@ == "AltRight"@);
        }
    }
}

/// A named key whose W3C key value has the same name keeps its name: Enter,
/// Tab, the editing, navigation and arrow keys, the modifiers, F1 to F12 and
/// the lock, menu, print and pause keys.
pub proof fn lemma_same_name_keys_kept(name: Seq<char>)
    requires
        name == "Enter"@ ||
        name == "Tab"@ ||
        name == "Backspace"@ ||
        name == "Escape"@ ||
        name == "Delete"@ ||
        name == "ArrowDown"@ ||
        name == "ArrowLeft"@ ||
        name == "ArrowRight"@ ||
        name == "ArrowUp"@ ||
        name == "End"@ ||
        name == "Home"@ ||
        name == "PageDown"@ ||
        name == "PageUp"@ ||
        name == "CapsLock"@ ||
        name == "Shift"@ ||
        name == "Control"@ ||
        name == "Alt"@ ||
        name == "Meta"@ ||
        name == "F1"@ ||
        name == "F2"@ ||
        name == "F3"@ ||
        name == "F4"@ ||
        name == "F5"@ ||
        name == "F6"@ ||
        name == "F7"@ ||
        name == "F8"@ ||
        name == "F9"@ ||
        name == "F10"@ ||
        name == "F11"@ ||
        name == "F12"@ ||
        name == "Insert"@ ||
        name == "ContextMenu"@ ||
        name == "ScrollLock"@ ||
        name == "NumLock"@ ||
        name == "PrintScreen"@ ||
        name == "Pause"@,
    ensures
        spec_named_key_value(name) == KeyValueView::Named(name),
{
    if name == "Enter"@ {
        assert(name != "Space"@) by {
            reveal_strlit("Enter");
            reveal_strlit("Space");
            assert(name[0] != "Space"@[0]);
        }
        assert(spec_same_name_keys()[0]@ == name);
    } else if name == "Tab"@ {
        assert(name != "Space"@) by {
            reveal_strlit("Tab");
            reveal_strlit("Space");
            assert(name.len() != "Space"@.len());
        }
        assert(spec_same_name_keys()[1]@ == name);
    } else if name == "Backspace"@ {
        assert(name != "Space"@) by {
            reveal_strlit("Backspace");
            reveal_strlit("Space");
            assert(name.len() != "Space"@.len());
        }
        assert(spec_same_name_keys()[2]@ == name);
    } else if name == "Escape"@ {
        assert(name != "Space"@) by {
            reveal_strlit("Escape");
            reveal_strlit("Space");
            assert(name.len() != "Space"@.len());
        }
        assert(spec_same_name_keys()[3]@ == name);
    } else if name == "Delete"@ {
        assert(name != "Space"@) by {
            reveal_strlit("Delete");
            reveal_strlit("Space");
            assert(name.len() != "Space"@.len());
        }
        assert(spec_same_name_keys()[4]@ == name);
    } else if name == "ArrowDown"@ {
        assert(name != "Space"@) by {
            reveal_strlit("ArrowDown");
            reveal_strlit("Space");
            assert(name.len() != "Space"@.len());
        }
        assert(spec_same_name_keys()[5]@ == name);
    } else if name == "ArrowLeft"@ {
        assert(name != "Space"@) by {
            reveal_strlit("ArrowLeft");
            reveal_strlit("Space");
            assert(name.len() != "Space"@.len());
        }
        assert(spec_same_name_keys()[6]@ == name);
    } else if name == "ArrowRight"@ {
        assert(name != "Space"@) by {
            reveal_strlit("ArrowRight");
            reveal_strlit("Space");
            assert(name.len() != "Space"@.len());
        }
        assert(spec_same_name_keys()[7]@ == name);
    } else if name == "ArrowUp"@ {
        assert(name != "Space"@) by {
            reveal_strlit("ArrowUp");
            reveal_strlit("Space");
            assert(name.len() != "Space"@.len());
        }
        assert(spec_same_name_keys()[8]@ == name);
    } else if name == "End"@ {
        assert(name != "Space"@) by {
            reveal_strlit("End");
            reveal_strlit("Space");
            assert(name.len() != "Space"@.len());
        }
        assert(spec_same_name_keys()[9]@ == name);
    } else if name == "Home"@ {
        assert(name != "Space"@) by {
            reveal_strlit("Home");
            reveal_strlit("Space");
            assert(name.len() != "Space"@.len());
        }
        assert(spec_same_name_keys()[10]@ == name);
    } else if name == "PageDown"@ {
        assert(name != "Space"@) by {
            reveal_strlit("PageDown");
            reveal_strlit("Space");
            assert(name.len() != "Space"@.len());
        }
        assert(spec_same_name_keys()[11]@ == name);
    } else if name == "PageUp"@ {
        assert(name != "Space"@) by {
            reveal_strlit("PageUp");
            reveal_strlit("Space");
            assert(name.len() != "Space"@.len());
        }
        assert(spec_same_name_keys()[12]@ == name);
    } else if name == "CapsLock"@ {
        assert(name != "Space"@) by {
            reveal_strlit("CapsLock");
            reveal_strlit("Space");
            assert(name.len() != "Space"@.len());
        }
        assert(spec_same_name_keys()[13]@ == name);
    } else if name == "Shift"@ {
        assert(name != "Space"@) by {
            reveal_strlit("Shift");
            reveal_strlit("Space");
            assert(name[1] != "Space"@[1]);
        }
        assert(spec_same_name_keys()[14]@ == name);
    } else if name == "Control"@ {
        assert(name != "Space"@) by {
            reveal_strlit("Control");
            reveal_strlit("Space");
            assert(name.len() != "Space"@.len());
        }
        assert(spec_same_name_keys()[15]@ == name);
    } else if name == "Alt"@ {
        assert(name != "Space"@) by {
            reveal_strlit("Alt");
            reveal_strlit("Space");
            assert(name.len() != "Space"@.len());
        }
        assert(spec_same_name_keys()[16]@ == name);
    } else if name == "Meta"@ {
        assert(name != "Space"@) by {
            reveal_strlit("Meta");
            reveal_strlit("Space");
            assert(name.len() != "Space"@.len());
        }
        assert(spec_same_name_keys()[17]@ == name);
    } else if name == "F1"@ {
        assert(name != "Space"@) by {
            reveal_strlit("F1");
            reveal_strlit("Space");
            assert(name.len() != "Space"@.len());
        }
        assert(spec_same_name_keys()[18]@ == name);
    } else if name == "F2"@ {
        assert(name != "Space"@) by {
            reveal_strlit("F2");
            reveal_strlit("Space");
            assert(name.len() != "Space"@.len());
        }
        assert(spec_same_name_keys()[19]@ == name);
    } else if name == "F3"@ {
        assert(name != "Space"@) by {
            reveal_strlit("F3");
            reveal_strlit("Space");
            assert(name.len() != "Space"@.len());
        }
        assert(spec_same_name_keys()[20]@ == name);
    } else if name == "F4"@ {
        assert(name != "Space"@) by {
            reveal_strlit("F4");
            reveal_strlit("Space");
            assert(name.len() != "Space"@.len());
        }
        assert(spec_same_name_keys()[21]@ == name);
    } else if name == "F5"@ {
        assert(name != "Space"@) by {
            reveal_strlit("F5");
            reveal_strlit("Space");
            assert(name.len() != "Space"@.len());
        }
        assert(spec_same_name_keys()[22]@ == name);
    } else if name == "F6"@ {
        assert(name != "Space"@) by {
            reveal_strlit("F6");
            reveal_strlit("Space");
            assert(name.len() != "Space"@.len());
        }
        assert(spec_same_name_keys()[23]@ == name);
    } else if name == "F7"@ {
        assert(name != "Space"@) by {
            reveal_strlit("F7");
            reveal_strlit("Space");
            assert(name.len() != "Space"@.len());
        }
        assert(spec_same_name_keys()[24]@ == name);
    } else if name == "F8"@ {
        assert(name != "Space"@) by {
            reveal_strlit("F8");
            reveal_strlit("Space");
            assert(name.len() != "Space"@.len());
        }
        assert(spec_same_name_keys()[25]@ == name);
    } else if name == "F9"@ {
        assert(name != "Space"@) by {
            reveal_strlit("F9");
            reveal_strlit("Space");
            assert(name.len() != "Space"@.len());
        }
        assert(spec_same_name_keys()[26]@ == name);
    } else if name == "F10"@ {
        assert(name != "Space"@) by {
            reveal_strlit("F10");
            reveal_strlit("Space");
            assert(name.len() != "Space"@.len());
        }
        assert(spec_same_name_keys()[27]@ == name);
    } else if name == "F11"@ {
        assert(name != "Space"@) by {
            reveal_strlit("F11");
            reveal_strlit("Space");
            assert(name.len() != "Space"@.len());
        }
        assert(spec_same_name_keys()[28]@ == name);
    } else if name == "F12"@ {
        assert(name != "Space"@) by {
            reveal_strlit("F12");
            reveal_strlit("Space");
            assert(name.len() != "Space"@.len());
        }
        assert(spec_same_name_keys()[29]@ == name);
    } else if name == "Insert"@ {
        assert(name != "Space"@) by {
            reveal_strlit("Insert");
            reveal_strlit("Space");
            assert(name.len() != "Space"@.len());
        }
        assert(spec_same_name_keys()[30]@ == name);
    } else if name == "ContextMenu"@ {
        assert(name != "Space"@) by {
            reveal_strlit("ContextMenu");
            reveal_strlit("Space");
            assert(name.len() != "Space"@.len());
        }
        assert(spec_same_name_keys()[31]@ == name);
    } else if name == "ScrollLock"@ {
        assert(name != "Space"@) by {
            reveal_strlit("ScrollLock");
            reveal_strlit("Space");
            assert(name.len() != "Space"@.len());
        }
        assert(spec_same_name_keys()[32]@ == name);
    } else if name == "NumLock"@ {
        assert(name != "Space"@) by {
            reveal_strlit("NumLock");
            reveal_strlit("Space");
            assert(name.len() != "Space"@.len());
        }
        assert(spec_same_name_keys()[33]@ == name);
    } else if name == "PrintScreen"@ {
        assert(name != "Space"@) by {
            reveal_strlit("PrintScreen");
            reveal_strlit("Space");
            assert(name.len() != "Space"@.len());
        }
        assert(spec_same_name_keys()[34]@ == name);
    } else if name == "Pause"@ {
        assert(name != "Space"@) by {
            reveal_strlit("Pause");
            reveal_strlit("Space");
            assert(name[0] != "Space"@[0]);
        }
        assert(spec_same_name_keys()[35]@ == name);
    }
}

/// The space bar produces the text of one space.
pub proof fn lemma_space_is_text()
    ensures
        spec_named_key_value("Space"@) == KeyValueView::Character(" "@),
{
}

/// Every other named key is `Unidentified` to the engine.
pub proof fn lemma_other_named_keys_unidentified(name: Seq<char>)
    requires
        name != "Enter"@,
        name != "Tab"@,
        name != "Backspace"@,
        name != "Escape"@,
        name != "Delete"@,
        name != "ArrowDown"@,
        name != "ArrowLeft"@,
        name != "ArrowRight"@,
        name != "ArrowUp"@,
        name != "End"@,
        name != "Home"@,
        name != "PageDown"@,
        name != "PageUp"@,
        name != "CapsLock"@,
        name != "Shift"@,
        name != "Control"@,
        name != "Alt"@,
        name != "Meta"@,
        name != "F1"@,
        name != "F2"@,
        name != "F3"@,
        name != "F4"@,
        name != "F5"@,
        name != "F6"@,
        name != "F7"@,
        name != "F8"@,
        name != "F9"@,
        name != "F10"@,
        name != "F11"@,
        name != "F12"@,
        name != "Insert"@,
        name != "ContextMenu"@,
        name != "ScrollLock"@,
        name != "NumLock"@,
        name != "PrintScreen"@,
        name != "Pause"@,
        name != "Space"@,
    ensures
        spec_named_key_value(name) == KeyValueView::Named("Unidentified"@),
{
    if listed(spec_same_name_keys(), name) {
        let i = choose|i: int| 0 <= i < spec_same_name_keys().len() && (#[trigger] spec_same_name_keys()[i])@ == name;
        if i == 0 {
            assert(spec_same_name_keys()[0]@ == "Enter"@);
        } else if i == 1 {
            assert(spec_same_name_keys()[1]@ == "Tab"@);
        } else if i == 2 {
            assert(spec_same_name_keys()[2]@ == "Backspace"@);
        } else if i == 3 {
            assert(spec_same_name_keys()[3]@ == "Escape"@);
        } else if i == 4 {
            assert(spec_same_name_keys()[4]@ == "Delete"@);
        } else if i == 5 {
            assert(spec_same_name_keys()[5]@ == "ArrowDown"@);
        } else if i == 6 {
            assert(spec_same_name_keys()[6]@ == "ArrowLeft"@);
        } else if i == 7 {
            assert(spec_same_name_keys()[7]@ == "ArrowRight"@);
        } else if i == 8 {
            assert(spec_same_name_keys()[8]@ == "ArrowUp"@);
        } else if i == 9 {
            assert(spec_same_name_keys()[9]@ == "End"@);
        } else if i == 10 {
            assert(spec_same_name_keys()[10]@ == "Home"@);
        } else if i == 11 {
            assert(spec_same_name_keys()[11]@ == "PageDown"@);
        } else if i == 12 {
            assert(spec_same_name_keys()[12]@ == "PageUp"@);
        } else if i == 13 {
            assert(spec_same_name_keys()[13]@ == "CapsLock"@);
        } else if i == 14 {
            assert(spec_same_name_keys()[14]@ == "Shift"@);
        } else if i == 15 {
            assert(spec_same_name_keys()[15]@ == "Control"@);
        } else if i == 16 {
            assert(spec_same_name_keys()[16]@ == "Alt"@);
        } else if i == 17 {
            assert(spec_same_name_keys()[17]@ == "Meta"@);
        } else if i == 18 {
            assert(spec_same_name_keys()[18]@ == "F1"@);
        } else if i == 19 {
            assert(spec_same_name_keys()[19]@ == "F2"@);
        } else if i == 20 {
            assert(spec_same_name_keys()[20]@ == "F3"@);
        } else if i == 21 {
            assert(spec_same_name_keys()[21]@ == "F4"@);
        } else if i == 22 {
            assert(spec_same_name_keys()[22]@ == "F5"@);
        } else if i == 23 {
            assert(spec_same_name_keys()[23]@ == "F6"@);
        } else if i == 24 {
            assert(spec_same_name_keys()[24]@ == "F7"@);
        } else if i == 25 {
            assert(spec_same_name_keys()[25]@ == "F8"@);
        } else if i == 26 {
            assert(spec_same_name_keys()[26]@ == "F9"@);
        } else if i == 27 {
            assert(spec_same_name_keys()[27]@ == "F10"@);
        } else if i == 28 {
            assert(spec_same_name_keys()[28]@ == "F11"@);
        } else if i == 29 {
            assert(spec_same_name_keys()[29]@ == "F12"@);
        } else if i == 30 {
            assert(spec_same_name_keys()[30]@ == "Insert"@);
        } else if i == 31 {
            assert(spec_same_name_keys()[31]@ == "ContextMenu"@);
        } else if i == 32 {
            assert(spec_same_name_keys()[32]@ == "ScrollLock"@);
        } else if i == 33 {
            assert(spec_same_name_keys()[33]@ == "NumLock"@);
        } else if i == 34 {
            assert(spec_same_name_keys()[34]@ == "PrintScreen"@);
        } else if i == 35 {
            assert(spec_same_name_keys()[35]@ == "Pause"@);
        }
    }
}

} // verus!
