use ripclip::config::{parse_config, Config, Hotkey, LineError, ParseError};
use ripclip::hotkey::{Modifiers, VirtualKey, MOD_ALT, MOD_CONTROL, MOD_SHIFT, MOD_WIN};

const DEFAULT_CONFIG: &[u8] = b"max_stack_size = 100
show_tray_icon = true
pop_keybinding = Control + Shift + C
swap_keybinding = None
clear_keybinding = None
prevent_duplicate_push = false
";

#[test]
fn parses_default_config() {
    assert_eq!(parse_config(DEFAULT_CONFIG).unwrap(), Config::default());
}

#[test]
fn ignores_blank_lines() {
    let config_blank_lines: &[u8] = b"



      max_stack_size = 100




      ";
    assert!(parse_config(config_blank_lines).is_ok());
}

#[test]
fn empty_input_gives_defaults() {
    assert_eq!(parse_config(b"").unwrap(), Config::default());
}

#[test]
fn parses_each_option() {
    let text: &[u8] = b"max_stack_size = 5
show_tray_icon = false
pop_keybinding = Alt + P
swap_keybinding = Win + S
clear_keybinding = None
prevent_duplicate_push = true
";
    let config = parse_config(text).unwrap();
    assert_eq!(config.max_stack_size, Some(5));
    assert!(!config.show_tray_icon);
    assert_eq!(
        config.pop_keybinding,
        Some(Hotkey { key: VirtualKey::P, modifiers: Modifiers { bits: MOD_ALT } })
    );
    assert_eq!(
        config.swap_keybinding,
        Some(Hotkey { key: VirtualKey::S, modifiers: Modifiers { bits: MOD_WIN } })
    );
    assert_eq!(config.clear_keybinding, None);
    assert!(config.prevent_duplicate_push);
}

#[test]
fn max_stack_size_none_disables_bound() {
    let config = parse_config(b"max_stack_size = None").unwrap();
    assert_eq!(config.max_stack_size, None);
}

#[test]
fn unknown_option_is_reported_with_line() {
    match parse_config(b"max_stack_size = 3\nbogus = 1") {
        Err(ParseError::Line(LineError::UnknownOption(token), 1)) => {
            assert_eq!(token, b"bogus".to_vec());
        }
        other => panic!("expected an unknown-option error, got {:?}", other),
    }
}

#[test]
fn malformed_line_is_reported() {
    assert!(matches!(
        parse_config(b"no equals sign here"),
        Err(ParseError::Line(LineError::Malformed, 0))
    ));
    assert!(matches!(
        parse_config(b"a = b = c"),
        Err(ParseError::Line(LineError::Malformed, 0))
    ));
}

#[test]
fn bad_boolean_is_reported() {
    match parse_config(b"show_tray_icon = yes") {
        Err(ParseError::Line(LineError::ExpectedBool(token), 0)) => {
            assert_eq!(token, b"yes".to_vec());
        }
        other => panic!("expected a boolean error, got {:?}", other),
    }
}

#[test]
fn bad_integer_is_reported() {
    assert!(matches!(
        parse_config(b"max_stack_size = ten"),
        Err(ParseError::Line(LineError::ExpectedInt(_), 0))
    ));
    assert!(matches!(
        parse_config(b"max_stack_size = 99999999999999999999999999"),
        Err(ParseError::Line(LineError::ExpectedInt(_), 0))
    ));
    assert!(matches!(
        parse_config(b"max_stack_size ="),
        Err(ParseError::Line(LineError::ExpectedInt(_), 0))
    ));
}

#[test]
fn leading_plus_integer_is_accepted() {
    let config = parse_config(b"max_stack_size = +7").unwrap();
    assert_eq!(config.max_stack_size, Some(7));
}

#[test]
fn hotkey_none_with_modifiers_is_rejected() {
    assert!(matches!(
        parse_config(b"pop_keybinding = Shift + None"),
        Err(ParseError::Line(LineError::ModifierWithNoKey, 0))
    ));
}

#[test]
fn unknown_key_is_reported_lower_cased() {
    match parse_config(b"pop_keybinding = Control + Qux") {
        Err(ParseError::Line(LineError::UnknownKey(token), 0)) => {
            assert_eq!(token, b"qux".to_vec());
        }
        other => panic!("expected an unknown-key error, got {:?}", other),
    }
}

#[test]
fn unknown_modifier_is_reported_lower_cased() {
    match parse_config(b"pop_keybinding = Meta + C") {
        Err(ParseError::Line(LineError::UnknownModifier(token), 0)) => {
            assert_eq!(token, b"meta".to_vec());
        }
        other => panic!("expected an unknown-modifier error, got {:?}", other),
    }
}

#[test]
fn hotkey_names_are_case_insensitive() {
    let config = parse_config(b"pop_keybinding = CONTROL + shift + c").unwrap();
    assert_eq!(
        config.pop_keybinding,
        Some(Hotkey {
            key: VirtualKey::C,
            modifiers: Modifiers { bits: MOD_CONTROL | MOD_SHIFT },
        })
    );
}

#[test]
fn bare_key_has_no_modifiers() {
    let config = parse_config(b"clear_keybinding = F5").unwrap();
    assert_eq!(
        config.clear_keybinding,
        Some(Hotkey { key: VirtualKey::F5, modifiers: Modifiers { bits: 0 } })
    );
}

#[test]
fn modifier_names_parse_to_their_bits() {
    assert_eq!(Modifiers::parse(b"alt").unwrap().bits, MOD_ALT);
    assert_eq!(Modifiers::parse(b"Ctrl").unwrap().bits, MOD_CONTROL);
    assert_eq!(Modifiers::parse(b"SHIFT").unwrap().bits, MOD_SHIFT);
    assert_eq!(Modifiers::parse(b"windows").unwrap().bits, MOD_WIN);
    assert!(Modifiers::parse(b"hyper").is_err());
}

#[test]
fn key_names_parse_to_their_keys() {
    assert_eq!(VirtualKey::parse(b"space").unwrap(), VirtualKey::Space);
    assert_eq!(VirtualKey::parse(b"Page Up").unwrap(), VirtualKey::PageUp);
    assert_eq!(VirtualKey::parse(b"numpad 7").unwrap(), VirtualKey::NumpadSeven);
    assert_eq!(VirtualKey::parse(b"F24").unwrap(), VirtualKey::F24);
    assert_eq!(VirtualKey::parse(b"left super").unwrap(), VirtualKey::LeftWindows);
    assert!(VirtualKey::parse(b"escape key").is_err());
}

#[test]
fn modifier_keys_are_recognized_as_modifiers() {
    assert!(VirtualKey::Shift.is_modifier());
    assert!(VirtualKey::LeftAlt.is_modifier());
    assert!(VirtualKey::RightControl.is_modifier());
    assert!(!VirtualKey::C.is_modifier());
    assert!(!VirtualKey::F1.is_modifier());
}

#[test]
fn later_lines_override_earlier_ones() {
    let config = parse_config(b"max_stack_size = 3\nmax_stack_size = 9").unwrap();
    assert_eq!(config.max_stack_size, Some(9));
}

#[test]
fn windows_line_endings_are_accepted() {
    let config = parse_config(b"max_stack_size = 42\r\nshow_tray_icon = false\r\n").unwrap();
    assert_eq!(config.max_stack_size, Some(42));
    assert!(!config.show_tray_icon);
}
