use app_runtime::keyboard::{
    convert_code, convert_key, convert_key_code, convert_key_event, convert_location, convert_modifiers,
    convert_named_key, convert_state, ElementState, KeyInput, KeyLocation, KeyState, KeyValue, Location,
    LogicalKey, ModifierKeys, Modifiers, PhysicalKey,
};

fn named(v: KeyValue) -> Option<String> {
    match v {
        KeyValue::Named(n) => Some(n),
        KeyValue::Character(_) => None,
    }
}

#[test]
fn physical_keys_keep_their_names() {
    assert_eq!(convert_key_code("KeyA"), "KeyA");
    assert_eq!(convert_key_code("Digit7"), "Digit7");
    assert_eq!(convert_key_code("F12"), "F12");
    assert_eq!(convert_key_code("AltRight"), "AltRight");
}

#[test]
fn super_keys_become_meta() {
    assert_eq!(convert_key_code("SuperLeft"), "MetaLeft");
    assert_eq!(convert_key_code("SuperRight"), "MetaRight");
}

#[test]
fn unknown_physical_keys_are_unidentified() {
    assert_eq!(convert_key_code("NumpadAdd"), "Unidentified");
    assert_eq!(convert_key_code("F13"), "Unidentified");
    assert_eq!(convert_code(&PhysicalKey::Unidentified), "Unidentified");
}

#[test]
fn named_keys() {
    assert_eq!(named(convert_named_key("Enter")).as_deref(), Some("Enter"));
    assert_eq!(named(convert_named_key("Meta")).as_deref(), Some("Meta"));
    assert_eq!(named(convert_named_key("MediaPlay")).as_deref(), Some("Unidentified"));
    match convert_named_key("Space") {
        KeyValue::Character(c) => assert_eq!(c, " "),
        KeyValue::Named(_) => panic!("space should be text"),
    }
}

#[test]
fn logical_keys() {
    match convert_key(&LogicalKey::Character("é".to_string())) {
        KeyValue::Character(c) => assert_eq!(c, "é"),
        KeyValue::Named(_) => panic!("expected text"),
    }
    assert_eq!(named(convert_key(&LogicalKey::Dead)).as_deref(), Some("Unidentified"));
    assert_eq!(named(convert_key(&LogicalKey::Unidentified)).as_deref(), Some("Unidentified"));
}

#[test]
fn states_locations_modifiers() {
    assert_eq!(convert_state(ElementState::Pressed), KeyState::Down);
    assert_eq!(convert_state(ElementState::Released), KeyState::Up);
    assert_eq!(convert_location(KeyLocation::Numpad), Location::Numpad);
    let m = convert_modifiers(&ModifierKeys { shift: true, control: false, alt: true, super_key: true });
    assert_eq!(m, Modifiers { shift: true, control: false, alt: true, meta: true });
}

#[test]
fn whole_event() {
    let input = KeyInput {
        state: ElementState::Pressed,
        logical_key: LogicalKey::Named("ArrowUp".to_string()),
        physical_key: PhysicalKey::Code("ArrowUp".to_string()),
        location: KeyLocation::Standard,
        repeat: true,
    };
    let e = convert_key_event(&input, &ModifierKeys { shift: false, control: true, alt: false, super_key: false });
    assert_eq!(e.state, KeyState::Down);
    assert_eq!(named(e.key).as_deref(), Some("ArrowUp"));
    assert_eq!(e.code, "ArrowUp");
    assert_eq!(e.location, Location::Standard);
    assert!(e.modifiers.control && !e.modifiers.meta);
    assert!(e.repeat);
    assert!(!e.is_composing);
}
