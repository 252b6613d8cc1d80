use translator::shortcut::{
    find_key, key_of_token, modifier_of_token, parse_shortcut, KeyCode, Modifier, Modifiers,
    ParseError, ShortcutSpec,
};

fn chars(s: &str) -> Vec<char> {
    s.chars().collect()
}

fn mods(control: bool, shift: bool, alt: bool, super_key: bool) -> Modifiers {
    Modifiers { control, shift, alt, super_key }
}

#[test]
fn a_shortcut_is_modifiers_and_a_key() {
    assert_eq!(
        parse_shortcut("Ctrl+Shift+T"),
        Ok(ShortcutSpec { modifiers: mods(true, true, false, false), key: KeyCode::KeyT })
    );
    assert_eq!(
        parse_shortcut("Alt+F4"),
        Ok(ShortcutSpec { modifiers: mods(false, false, true, false), key: KeyCode::F4 })
    );
    assert_eq!(
        parse_shortcut("F12"),
        Ok(ShortcutSpec { modifiers: Modifiers::none(), key: KeyCode::F12 })
    );
    assert_eq!(
        parse_shortcut("super+space"),
        Ok(ShortcutSpec { modifiers: mods(false, false, false, true), key: KeyCode::Space })
    );
}

#[test]
fn names_are_matched_without_regard_to_case_and_blanks() {
    let expected =
        Ok(ShortcutSpec { modifiers: mods(true, false, true, true), key: KeyCode::PageDown });
    assert_eq!(parse_shortcut("ctrl+alt+win+pagedown"), expected);
    assert_eq!(parse_shortcut("CONTROL+ALT+META+PAGEDOWN"), expected);
    assert_eq!(parse_shortcut(" Control + Alt + Super + PageDown "), expected);
    assert_eq!(parse_shortcut("cTrL+aLt+sUpEr+pAgEdOwN"), expected);
}

#[test]
fn a_modifier_may_be_named_twice() {
    assert_eq!(
        parse_shortcut("Ctrl+Control+ctrl+A"),
        Ok(ShortcutSpec { modifiers: mods(true, false, false, false), key: KeyCode::KeyA })
    );
}

#[test]
fn every_key_of_the_table_is_found_by_its_name() {
    let table = [
        ("A", KeyCode::KeyA), ("B", KeyCode::KeyB), ("C", KeyCode::KeyC), ("D", KeyCode::KeyD),
        ("E", KeyCode::KeyE), ("F", KeyCode::KeyF), ("G", KeyCode::KeyG), ("H", KeyCode::KeyH),
        ("I", KeyCode::KeyI), ("J", KeyCode::KeyJ), ("K", KeyCode::KeyK), ("L", KeyCode::KeyL),
        ("M", KeyCode::KeyM), ("N", KeyCode::KeyN), ("O", KeyCode::KeyO), ("P", KeyCode::KeyP),
        ("Q", KeyCode::KeyQ), ("R", KeyCode::KeyR), ("S", KeyCode::KeyS), ("T", KeyCode::KeyT),
        ("U", KeyCode::KeyU), ("V", KeyCode::KeyV), ("W", KeyCode::KeyW), ("X", KeyCode::KeyX),
        ("Y", KeyCode::KeyY), ("Z", KeyCode::KeyZ),
        ("0", KeyCode::Digit0), ("1", KeyCode::Digit1), ("2", KeyCode::Digit2),
        ("3", KeyCode::Digit3), ("4", KeyCode::Digit4), ("5", KeyCode::Digit5),
        ("6", KeyCode::Digit6), ("7", KeyCode::Digit7), ("8", KeyCode::Digit8),
        ("9", KeyCode::Digit9),
        ("F1", KeyCode::F1), ("F2", KeyCode::F2), ("F3", KeyCode::F3), ("F4", KeyCode::F4),
        ("F5", KeyCode::F5), ("F6", KeyCode::F6), ("F7", KeyCode::F7), ("F8", KeyCode::F8),
        ("F9", KeyCode::F9), ("F10", KeyCode::F10), ("F11", KeyCode::F11), ("F12", KeyCode::F12),
        ("SPACE", KeyCode::Space), ("ENTER", KeyCode::Enter), ("ESCAPE", KeyCode::Escape),
        ("TAB", KeyCode::Tab), ("BACKSPACE", KeyCode::Backspace), ("DELETE", KeyCode::Delete),
        ("HOME", KeyCode::Home), ("END", KeyCode::End), ("PAGEUP", KeyCode::PageUp),
        ("PAGEDOWN", KeyCode::PageDown), ("ARROWUP", KeyCode::ArrowUp),
        ("ARROWDOWN", KeyCode::ArrowDown), ("ARROWLEFT", KeyCode::ArrowLeft),
        ("ARROWRIGHT", KeyCode::ArrowRight), ("INSERT", KeyCode::Insert),
    ];
    assert_eq!(table.len(), 63);
    for (name, key) in table {
        assert_eq!(key.name(), name);
        assert_eq!(find_key(&chars(name)), Some(key));
        assert_eq!(key_of_token(&chars(&name.to_lowercase())), Some(key));
        assert_eq!(
            parse_shortcut(name),
            Ok(ShortcutSpec { modifiers: Modifiers::none(), key })
        );
    }
    assert_eq!(find_key(&chars("a")), None);
    assert_eq!(find_key(&chars("F13")), None);
    assert_eq!(find_key(&chars("F0")), None);
    assert_eq!(find_key(&chars("")), None);
    assert_eq!(find_key(&chars("KEYA")), None);
}

#[test]
fn modifiers_have_synonyms() {
    for name in ["ctrl", "control", "CTRL", " Control "] {
        assert_eq!(modifier_of_token(&chars(name)), Some(Modifier::Control));
    }
    assert_eq!(modifier_of_token(&chars("shift")), Some(Modifier::Shift));
    assert_eq!(modifier_of_token(&chars("alt")), Some(Modifier::Alt));
    for name in ["super", "win", "meta", "WIN", "Meta"] {
        assert_eq!(modifier_of_token(&chars(name)), Some(Modifier::Super));
    }
    for name in ["", "cmd", "option", "ctl", "ctrl+", "a", "altgr", "SHİFT"] {
        assert_eq!(modifier_of_token(&chars(name)), None);
    }
}

#[test]
fn the_empty_text_is_refused_as_such() {
    let error = parse_shortcut("").unwrap_err();
    assert_eq!(error, ParseError::Empty);
    assert_eq!(error.message(), "Empty shortcut string");
}

#[test]
fn an_unknown_modifier_is_named_as_it_was_written() {
    let error = parse_shortcut("Ctrl+ Hyper +A").unwrap_err();
    assert_eq!(error, ParseError::UnknownModifier { token: " Hyper ".to_string() });
    assert_eq!(error.message(), "Unknown modifier:  Hyper ");
    assert_eq!(
        parse_shortcut("Foo+Bar+A"),
        Err(ParseError::UnknownModifier { token: "Foo".to_string() })
    );
    assert_eq!(
        parse_shortcut("Foo+Bar+Nope"),
        Err(ParseError::UnknownModifier { token: "Foo".to_string() })
    );
    assert_eq!(
        parse_shortcut("+A"),
        Err(ParseError::UnknownModifier { token: "".to_string() })
    );
    assert_eq!(
        parse_shortcut("A+Ctrl"),
        Err(ParseError::UnknownModifier { token: "A".to_string() })
    );
    assert_eq!(
        parse_shortcut("Ctrl++"),
        Err(ParseError::UnknownModifier { token: "".to_string() })
    );
}

#[test]
fn an_unknown_key_is_named_without_the_blanks_around_it() {
    let error = parse_shortcut("Ctrl+ F13 ").unwrap_err();
    assert_eq!(error, ParseError::UnknownKey { token: "F13".to_string() });
    assert_eq!(error.message(), "Unknown key: F13");
    assert_eq!(parse_shortcut("Ctrl+"), Err(ParseError::UnknownKey { token: "".to_string() }));
    assert_eq!(parse_shortcut("  "), Err(ParseError::UnknownKey { token: "".to_string() }));
    assert_eq!(parse_shortcut("Ctrl"), Err(ParseError::UnknownKey { token: "Ctrl".to_string() }));
    assert_eq!(
        parse_shortcut("Shift+plus"),
        Err(ParseError::UnknownKey { token: "plus".to_string() })
    );
}

#[test]
fn a_key_name_is_folded_by_the_unicode_rules() {
    assert_eq!(
        parse_shortcut("Ctrl+\u{17f}"),
        Ok(ShortcutSpec { modifiers: mods(true, false, false, false), key: KeyCode::KeyS })
    );
    assert_eq!(
        parse_shortcut("in\u{17f}ert"),
        Ok(ShortcutSpec { modifiers: Modifiers::none(), key: KeyCode::Insert })
    );
    assert_eq!(
        parse_shortcut("Ctrl+é"),
        Err(ParseError::UnknownKey { token: "é".to_string() })
    );
}

#[test]
fn the_canonical_spelling_reads_back_as_the_same_shortcut() {
    let keys = [KeyCode::KeyA, KeyCode::Digit0, KeyCode::F10, KeyCode::ArrowLeft, KeyCode::End];
    for bits in 0..16u8 {
        let modifiers = mods(bits & 1 != 0, bits & 2 != 0, bits & 4 != 0, bits & 8 != 0);
        for key in keys {
            let spec = ShortcutSpec { modifiers, key };
            let written = spec.to_canonical_string();
            assert_eq!(parse_shortcut(&written), Ok(spec));
            assert_eq!(parse_shortcut(&written).unwrap().to_canonical_string(), written);
        }
    }
    let spec = ShortcutSpec { modifiers: mods(true, true, true, true), key: KeyCode::Space };
    assert_eq!(spec.to_canonical_string(), "Ctrl+Shift+Alt+Super+SPACE");
    let spec = ShortcutSpec { modifiers: Modifiers::none(), key: KeyCode::KeyQ };
    assert_eq!(spec.to_canonical_string(), "Q");
}

#[test]
fn reading_is_a_function_of_the_text() {
    for text in ["Ctrl+Shift+T", "meta + f5", "", "Ctrl+Nope", "Nope+A"] {
        assert_eq!(parse_shortcut(text), parse_shortcut(text));
    }
    let once = parse_shortcut(" control+SHIFT + t").unwrap();
    let again = parse_shortcut(&once.to_canonical_string()).unwrap();
    assert_eq!(once, again);
    assert_eq!(once.to_canonical_string(), "Ctrl+Shift+T");
}

#[test]
fn modifier_sets_can_be_built_up() {
    let set = Modifiers::none().with(Modifier::Alt).with(Modifier::Control).with(Modifier::Alt);
    assert_eq!(set, mods(true, false, true, false));
    assert!(Modifiers::none().is_empty());
    assert!(!set.is_empty());
    assert_eq!(Modifiers::none().with(Modifier::Shift), mods(false, true, false, false));
    assert_eq!(Modifiers::none().with(Modifier::Super), mods(false, false, false, true));
}
