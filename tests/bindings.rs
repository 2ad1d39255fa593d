use cli_tui_starter::bindings::{key_list_display, key_list_labels, Action, BindingError, KeyBindings};
use cli_tui_starter::keys::{parse_key_spec, KeyCode, KeyEvent, KeyModifiers, KeySpec};

fn key(s: &str) -> KeySpec {
    parse_key_spec(s).unwrap()
}

fn event(code: KeyCode, control: bool) -> KeyEvent {
    KeyEvent {
        code,
        modifiers: KeyModifiers { control, alt: false, shift: false },
        extra_modifiers: false,
    }
}

#[test]
fn default_keymap_is_valid() {
    KeyBindings::default().validate().unwrap();
}

#[test]
fn default_keymap_lists() {
    let kb = KeyBindings::default();
    assert_eq!(kb.cycle_theme, vec![key("t")]);
    assert_eq!(kb.next_panel, vec![key("tab")]);
    assert_eq!(kb.prev_panel, vec![key("backtab")]);
    assert_eq!(kb.list_up, vec![key("up")]);
    assert_eq!(kb.list_down, vec![key("down")]);
    assert_eq!(kb.toggle_high_contrast, vec![key("h")]);
    assert_eq!(kb.toggle_color, vec![key("c")]);
    assert_eq!(kb.toggle_reduced_motion, vec![key("r")]);
    assert_eq!(kb.toggle_help, vec![key("?")]);
    assert_eq!(kb.quit, vec![key("q")]);
}

#[test]
fn validation_rejects_empty_list() {
    let kb = KeyBindings { toggle_help: vec![], ..KeyBindings::default() };
    assert_eq!(kb.validate(), Err(BindingError::Empty { action: Action::ToggleHelp }));
}

#[test]
fn validation_rejects_reserved_key_outside_quit() {
    let kb = KeyBindings { cycle_theme: vec![key("esc")], ..KeyBindings::default() };
    assert_eq!(
        kb.validate(),
        Err(BindingError::Reserved { action: Action::CycleTheme, key: key("esc") })
    );
    let kb = KeyBindings { toggle_color: vec![key("ctrl+c")], ..KeyBindings::default() };
    assert_eq!(
        kb.validate(),
        Err(BindingError::Reserved { action: Action::ToggleColor, key: key("ctrl+c") })
    );
    let kb = KeyBindings { quit: vec![key("q"), key("esc"), key("ctrl+c")], ..KeyBindings::default() };
    assert_eq!(kb.validate(), Ok(()));
}

#[test]
fn validation_rejects_duplicates_across_actions() {
    let kb = KeyBindings { toggle_color: vec![key("t")], ..KeyBindings::default() };
    assert_eq!(kb.validate(), Err(BindingError::Duplicate { key: key("t") }));
    let kb = KeyBindings { quit: vec![key("x"), key("X")], ..KeyBindings::default() };
    assert_eq!(kb.validate(), Err(BindingError::Duplicate { key: key("x") }));
}

#[test]
fn validation_reports_empty_lists_first() {
    let kb = KeyBindings {
        cycle_theme: vec![key("esc")],
        quit: vec![],
        ..KeyBindings::default()
    };
    assert_eq!(kb.validate(), Err(BindingError::Empty { action: Action::Quit }));
}

#[test]
fn binding_error_messages() {
    assert_eq!(
        BindingError::Duplicate { key: key("t") }.message(),
        "duplicate key binding 't' used for multiple actions"
    );
    assert_eq!(
        BindingError::Reserved { action: Action::CycleTheme, key: key("esc") }.message(),
        "key 'esc' is reserved for quitting and cannot be used for 'cycle_theme'"
    );
    assert_eq!(
        BindingError::Empty { action: Action::ListUp }.message(),
        "key binding 'list_up' must not be empty"
    );
}

#[test]
fn labels_drop_repeats_and_join() {
    let keys = vec![key("x"), key("ctrl+a"), key("X"), key("space")];
    assert_eq!(key_list_labels(&keys), vec!["x", "ctrl+a", "space"]);
    assert_eq!(key_list_display(&keys), "x/ctrl+a/space");
    assert_eq!(key_list_display(&[]), "");
}

#[test]
fn quit_label_always_offers_esc_and_ctrl_c() {
    let kb = KeyBindings { quit: vec![key("x")], ..KeyBindings::default() };
    assert_eq!(kb.quit_label(), "x/esc/ctrl+c");
    let kb = KeyBindings { quit: vec![key("esc"), key("q")], ..KeyBindings::default() };
    assert_eq!(kb.quit_labels(), vec!["esc", "q", "ctrl+c"]);
}

#[test]
fn action_for_uses_priority_order() {
    let kb = KeyBindings::default();
    assert_eq!(kb.action_for(event(KeyCode::Esc, false), false), Some(Action::Quit));
    assert_eq!(kb.action_for(event(KeyCode::Esc, true), true), Some(Action::Quit));
    assert_eq!(kb.action_for(event(KeyCode::Char('c'), true), false), Some(Action::Quit));
    assert_eq!(kb.action_for(event(KeyCode::Char('c'), false), false), Some(Action::ToggleColor));
    assert_eq!(kb.action_for(event(KeyCode::Char('t'), false), false), Some(Action::CycleTheme));
    assert_eq!(kb.action_for(event(KeyCode::Tab, false), false), Some(Action::NextPanel));
    assert_eq!(kb.action_for(event(KeyCode::Up, false), false), None);
    assert_eq!(kb.action_for(event(KeyCode::Up, false), true), Some(Action::ListUp));
    assert_eq!(kb.action_for(event(KeyCode::Down, false), true), Some(Action::ListDown));
    assert_eq!(kb.action_for(event(KeyCode::Char('z'), false), true), None);
}

#[test]
fn action_names() {
    assert_eq!(Action::CycleTheme.name(), "cycle_theme");
    assert_eq!(Action::ToggleReducedMotion.name(), "toggle_reduced_motion");
    assert_eq!(Action::at(9), Action::Quit);
    assert_eq!(Action::at(1), Action::NextPanel);
}
