use translator::registry::{
    RegistryAction, RegistryEvent, RegistryPhase, ShortcutError, ShortcutRegistry,
};
use translator::shortcut::{parse_shortcut, ParseError, ShortcutSpec};

fn spec(text: &str) -> ShortcutSpec {
    parse_shortcut(text).unwrap()
}

fn requested(text: &str) -> RegistryEvent {
    RegistryEvent::Requested { text: text.to_string() }
}

/// A hotkey facility that does as it is asked, and remembers what it holds.
fn replace(registry: &mut ShortcutRegistry, held: &mut Vec<ShortcutSpec>, text: &str) -> Result<(), ShortcutError> {
    let mut action = registry.step(requested(text));
    loop {
        action = match action {
            RegistryAction::Release { shortcut } => {
                held.retain(|s| *s != shortcut);
                registry.step(RegistryEvent::Released { released: true })
            }
            RegistryAction::Bind { shortcut } => {
                held.push(shortcut);
                registry.step(RegistryEvent::Bound { failure: None })
            }
            RegistryAction::Accept => return Ok(()),
            RegistryAction::Reject { error } => return Err(error),
            RegistryAction::Ignore => panic!("the registry was not at rest"),
        };
    }
}

#[test]
fn nothing_is_active_at_startup() {
    let registry = ShortcutRegistry::new();
    assert_eq!(registry.active(), None);
    assert_eq!(registry.phase(), RegistryPhase::Idle);
}

#[test]
fn the_first_shortcut_is_bound_without_a_release() {
    let mut registry = ShortcutRegistry::new();
    let action = registry.step(requested("Ctrl+Shift+T"));
    assert!(matches!(action, RegistryAction::Bind { shortcut } if shortcut == spec("Ctrl+Shift+T")));
    assert_eq!(registry.phase(), RegistryPhase::Binding { next: spec("Ctrl+Shift+T") });
    assert_eq!(registry.active(), None);
    let action = registry.step(RegistryEvent::Bound { failure: None });
    assert!(matches!(action, RegistryAction::Accept));
    assert_eq!(registry.active(), Some(spec("Ctrl+Shift+T")));
    assert_eq!(registry.phase(), RegistryPhase::Idle);
}

#[test]
fn a_replacement_releases_the_old_shortcut_first() {
    let mut registry = ShortcutRegistry::new();
    let mut held = Vec::new();
    replace(&mut registry, &mut held, "Ctrl+Shift+T").unwrap();
    let action = registry.step(requested("Alt+F2"));
    assert!(matches!(action, RegistryAction::Release { shortcut } if shortcut == spec("Ctrl+Shift+T")));
    assert_eq!(registry.phase(), RegistryPhase::Releasing { next: spec("Alt+F2") });
    assert_eq!(registry.active(), Some(spec("Ctrl+Shift+T")));
    let action = registry.step(RegistryEvent::Released { released: true });
    assert!(matches!(action, RegistryAction::Bind { shortcut } if shortcut == spec("Alt+F2")));
    assert_eq!(registry.active(), Some(spec("Ctrl+Shift+T")));
    let action = registry.step(RegistryEvent::Bound { failure: None });
    assert!(matches!(action, RegistryAction::Accept));
    assert_eq!(registry.active(), Some(spec("Alt+F2")));
}

#[test]
fn two_replacements_in_a_row_leave_one_shortcut_bound() {
    let mut registry = ShortcutRegistry::new();
    let mut held = Vec::new();
    replace(&mut registry, &mut held, "Ctrl+Shift+T").unwrap();
    assert_eq!(held, vec![spec("Ctrl+Shift+T")]);
    replace(&mut registry, &mut held, "Alt+F2").unwrap();
    replace(&mut registry, &mut held, "Super+Space").unwrap();
    assert_eq!(held, vec![spec("Super+Space")]);
    assert_eq!(registry.active(), Some(spec("Super+Space")));
    assert_eq!(registry.phase(), RegistryPhase::Idle);
    replace(&mut registry, &mut held, "Super+Space").unwrap();
    assert_eq!(held, vec![spec("Super+Space")]);
    assert_eq!(registry.active(), Some(spec("Super+Space")));
}

#[test]
fn a_text_that_is_no_shortcut_changes_nothing() {
    let mut registry = ShortcutRegistry::new();
    let mut held = Vec::new();
    for text in ["", "Ctrl+Nope", "Hyper+A"] {
        assert!(matches!(
            replace(&mut registry, &mut held, text),
            Err(ShortcutError::Parse { .. })
        ));
        assert_eq!(registry.active(), None);
        assert_eq!(registry.phase(), RegistryPhase::Idle);
    }
    replace(&mut registry, &mut held, "Ctrl+Shift+T").unwrap();
    let error = replace(&mut registry, &mut held, "Ctrl+Nope").unwrap_err();
    assert_eq!(
        error,
        ShortcutError::Parse { error: ParseError::UnknownKey { token: "Nope".to_string() } }
    );
    assert_eq!(error.message(), "Unknown key: Nope");
    let error = replace(&mut registry, &mut held, "Hyper+A").unwrap_err();
    assert_eq!(
        error,
        ShortcutError::Parse { error: ParseError::UnknownModifier { token: "Hyper".to_string() } }
    );
    let error = replace(&mut registry, &mut held, "").unwrap_err();
    assert_eq!(error, ShortcutError::Parse { error: ParseError::Empty });
    assert_eq!(registry.active(), Some(spec("Ctrl+Shift+T")));
    assert_eq!(registry.phase(), RegistryPhase::Idle);
    assert_eq!(held, vec![spec("Ctrl+Shift+T")]);
}

#[test]
fn a_refused_binding_keeps_the_old_shortcut_active() {
    let mut registry = ShortcutRegistry::new();
    let mut held = Vec::new();
    replace(&mut registry, &mut held, "Ctrl+Shift+T").unwrap();
    registry.step(requested("Alt+F2"));
    registry.step(RegistryEvent::Released { released: true });
    let action = registry.step(RegistryEvent::Bound { failure: Some("already taken".to_string()) });
    match action {
        RegistryAction::Reject { error } => {
            assert_eq!(error, ShortcutError::Registration { detail: "already taken".to_string() });
            assert_eq!(error.message(), "Failed to register shortcut: already taken");
        }
        other => panic!("unexpected action {:?}", other),
    }
    assert_eq!(registry.active(), Some(spec("Ctrl+Shift+T")));
    assert_eq!(registry.phase(), RegistryPhase::Idle);
}

#[test]
fn a_release_that_fails_does_not_stop_the_binding() {
    let mut registry = ShortcutRegistry::new();
    let mut held = Vec::new();
    replace(&mut registry, &mut held, "Ctrl+Shift+T").unwrap();
    registry.step(requested("Alt+F2"));
    let action = registry.step(RegistryEvent::Released { released: false });
    assert!(matches!(action, RegistryAction::Bind { shortcut } if shortcut == spec("Alt+F2")));
    registry.step(RegistryEvent::Bound { failure: None });
    assert_eq!(registry.active(), Some(spec("Alt+F2")));
}

#[test]
fn a_request_in_the_middle_of_a_replacement_is_ignored() {
    let mut registry = ShortcutRegistry::new();
    let mut held = Vec::new();
    replace(&mut registry, &mut held, "Ctrl+Shift+T").unwrap();
    registry.step(requested("Alt+F2"));
    assert!(matches!(registry.step(requested("Alt+F3")), RegistryAction::Ignore));
    assert!(matches!(
        registry.step(RegistryEvent::Bound { failure: None }),
        RegistryAction::Ignore
    ));
    assert_eq!(registry.phase(), RegistryPhase::Releasing { next: spec("Alt+F2") });
    registry.step(RegistryEvent::Released { released: true });
    assert!(matches!(registry.step(requested("Alt+F3")), RegistryAction::Ignore));
    assert!(matches!(
        registry.step(RegistryEvent::Released { released: true }),
        RegistryAction::Ignore
    ));
    registry.step(RegistryEvent::Bound { failure: None });
    assert_eq!(registry.active(), Some(spec("Alt+F2")));
    assert!(matches!(
        registry.step(RegistryEvent::Bound { failure: None }),
        RegistryAction::Ignore
    ));
    assert!(matches!(
        registry.step(RegistryEvent::Released { released: true }),
        RegistryAction::Ignore
    ));
    assert_eq!(registry.active(), Some(spec("Alt+F2")));
}
