use cli_tui_starter::app::{App, DemoPanel, MouseEvent, MouseEventKind};
use cli_tui_starter::bindings::KeyBindings;
use cli_tui_starter::cli::ThemeName;
use cli_tui_starter::keys::{parse_key_spec, KeyCode, KeyEvent, KeyModifiers};
use cli_tui_starter::layout::{list_viewport_start, Area, MouseRegions};
use cli_tui_starter::theme::Color;

fn mouse_event(kind: MouseEventKind, column: u16, row: u16) -> MouseEvent {
    MouseEvent { kind, column, row }
}

fn key(code: KeyCode) -> KeyEvent {
    KeyEvent {
        code,
        modifiers: KeyModifiers { control: false, alt: false, shift: false },
        extra_modifiers: false,
    }
}

fn area(width: u16, height: u16) -> Area {
    Area { x: 0, y: 0, width, height }
}

#[test]
fn mouse_scroll_moves_list_when_enabled() {
    let mut app = App::new_with_mouse(
        ThemeName::Aurora,
        true,
        false,
        true,
        KeyBindings::default(),
        true,
        DemoPanel::List,
    );
    let area = area(120, 24);

    app.handle_mouse(mouse_event(MouseEventKind::ScrollDown, 10, 10), area);
    assert_eq!(app.list_selected(), 1);
    app.handle_mouse(mouse_event(MouseEventKind::ScrollUp, 10, 10), area);
    assert_eq!(app.list_selected(), 0);
}

#[test]
fn mouse_scroll_is_ignored_when_disabled() {
    let mut app = App::new(
        ThemeName::Aurora,
        true,
        false,
        true,
        KeyBindings::default(),
        DemoPanel::List,
    );
    let area = area(120, 24);

    app.handle_mouse(mouse_event(MouseEventKind::ScrollDown, 10, 10), area);
    assert_eq!(app.list_selected(), 0);
}

#[test]
fn mouse_click_switches_tabs() {
    let mut app = App::new_with_mouse(
        ThemeName::Aurora,
        true,
        false,
        true,
        KeyBindings::default(),
        true,
        DemoPanel::Overview,
    );
    let area = area(120, 24);
    let regions = MouseRegions::for_area(area).expect("regions");

    app.handle_mouse(
        mouse_event(
            MouseEventKind::LeftDown,
            regions.tabs_x + regions.tabs_width.saturating_sub(1),
            regions.tabs_row,
        ),
        area,
    );
    assert_eq!(app.panel(), DemoPanel::List);

    app.handle_mouse(
        mouse_event(MouseEventKind::LeftDown, regions.tabs_x, regions.tabs_row),
        area,
    );
    assert_eq!(app.panel(), DemoPanel::Overview);
}

#[test]
fn mouse_click_selects_visible_list_row() {
    let mut app = App::new_with_mouse(
        ThemeName::Aurora,
        true,
        false,
        true,
        KeyBindings::default(),
        true,
        DemoPanel::List,
    );
    app.list_selected = 8;

    let area = area(120, 24);
    let regions = MouseRegions::for_area(area).expect("regions");
    let target_offset = 3_u16.min(regions.list_area.height.saturating_sub(1));
    let target_row = regions.list_area.y + target_offset;

    app.handle_mouse(
        mouse_event(MouseEventKind::LeftDown, regions.list_area.x, target_row),
        area,
    );

    let start = list_viewport_start(8, app.list_len(), regions.list_area.height as usize);
    assert_eq!(
        app.list_selected(),
        (start + target_offset as usize).min(app.list_len() - 1)
    );
}

#[test]
fn click_on_80x24_right_tab_half_selects_list_then_row() {
    let mut app = App::new_with_mouse(
        ThemeName::Aurora,
        false,
        false,
        false,
        KeyBindings::default(),
        true,
        DemoPanel::Overview,
    );
    let area = area(80, 24);
    let regions = MouseRegions::for_area(area).expect("regions");
    let right_half = regions.tabs_x + regions.tabs_width / 2 + 1;
    app.handle_mouse(mouse_event(MouseEventKind::LeftDown, right_half, regions.tabs_row), area);
    assert_eq!(app.panel(), DemoPanel::List);

    app.list_selected = 8;
    let viewport = regions.list_area.height as usize;
    let offset = 3_u16.min(regions.list_area.height - 1);
    app.handle_mouse(
        mouse_event(MouseEventKind::LeftDown, regions.list_area.x + 1, regions.list_area.y + offset),
        area,
    );
    let expected = (list_viewport_start(8, 40, viewport) + offset as usize).min(39);
    assert_eq!(app.list_selected(), expected);
}

#[test]
fn click_in_list_ignored_on_overview_panel() {
    let mut app = App::new_with_mouse(
        ThemeName::Aurora,
        false,
        false,
        false,
        KeyBindings::default(),
        true,
        DemoPanel::Overview,
    );
    let area = area(120, 24);
    let regions = MouseRegions::for_area(area).unwrap();
    app.handle_mouse(
        mouse_event(MouseEventKind::LeftDown, regions.list_area.x, regions.list_area.y + 1),
        area,
    );
    assert_eq!(app.list_selected(), 0);
    assert_eq!(app.panel(), DemoPanel::Overview);
}

#[test]
fn keys_drive_the_session() {
    let mut app = App::new(
        ThemeName::Mono,
        false,
        false,
        false,
        KeyBindings::default(),
        DemoPanel::Overview,
    );
    assert_eq!(app.current_theme_name(), "mono");
    app.handle_key(key(KeyCode::Char('t')));
    assert_eq!(app.current_theme_name(), "solar");
    app.handle_key(key(KeyCode::Char('t')));
    assert_eq!(app.current_theme_name(), "aurora");

    app.handle_key(key(KeyCode::Down));
    assert_eq!(app.list_selected(), 0);
    app.handle_key(key(KeyCode::Tab));
    assert_eq!(app.panel(), DemoPanel::List);
    app.handle_key(key(KeyCode::Down));
    app.handle_key(key(KeyCode::Down));
    assert_eq!(app.list_selected(), 2);
    app.handle_key(key(KeyCode::Up));
    assert_eq!(app.list_selected(), 1);
    app.handle_key(key(KeyCode::BackTab));
    assert_eq!(app.panel(), DemoPanel::Overview);

    app.handle_key(key(KeyCode::Char('h')));
    assert!(app.high_contrast);
    app.handle_key(key(KeyCode::Char('c')));
    assert!(app.no_color);
    app.handle_key(key(KeyCode::Char('r')));
    assert!(app.reduced_motion);
    app.handle_key(key(KeyCode::Char('?')));
    assert!(app.show_help);
    app.handle_key(key(KeyCode::Char('z')));
    assert!(!app.should_quit);
    app.handle_key(key(KeyCode::Esc));
    assert!(app.should_quit);
}

#[test]
fn list_selection_stays_in_bounds() {
    let mut app = App::new(
        ThemeName::Aurora,
        false,
        false,
        false,
        KeyBindings::default(),
        DemoPanel::List,
    );
    app.handle_key(key(KeyCode::Up));
    assert_eq!(app.list_selected(), 0);
    for _ in 0..100 {
        app.handle_key(key(KeyCode::Down));
    }
    assert_eq!(app.list_selected(), 39);
}

#[test]
fn custom_quit_key_and_implicit_quit_keys() {
    let keymap = KeyBindings { quit: vec![parse_key_spec("x").unwrap()], ..KeyBindings::default() };
    let mut app = App::new(ThemeName::Aurora, false, false, false, keymap.clone(), DemoPanel::Overview);
    app.handle_key(key(KeyCode::Char('q')));
    assert!(!app.should_quit);
    app.handle_key(key(KeyCode::Char('x')));
    assert!(app.should_quit);

    let mut app = App::new(ThemeName::Aurora, false, false, false, keymap, DemoPanel::Overview);
    app.handle_key(KeyEvent {
        code: KeyCode::Char('c'),
        modifiers: KeyModifiers { control: true, alt: false, shift: false },
        extra_modifiers: false,
    });
    assert!(app.should_quit);
}

#[test]
fn spinner_and_theme_follow_switches() {
    let mut app = App::new(ThemeName::Aurora, false, false, false, KeyBindings::default(), DemoPanel::Overview);
    assert_eq!(app.spinner_frame(), "-");
    app.tick();
    assert_eq!(app.spinner_frame(), "\\");
    app.tick();
    assert_eq!(app.spinner_frame(), "|");
    app.tick();
    assert_eq!(app.spinner_frame(), "/");
    assert_eq!(app.current_theme().palette.accent, Color::LightBlue);
    app.high_contrast = true;
    assert_eq!(app.current_theme().palette.accent, Color::Yellow);
    app.no_color = true;
    assert_eq!(app.current_theme().palette.accent, Color::Reset);
    assert_eq!(app.spinner_frame(), "\u{2022}");
    app.tick();
    assert_eq!(app.spinner_index, 3);
    assert_eq!(app.current_theme_description(), "Cool blues with a calm accent");
    assert_eq!(DemoPanel::List.index(), 1);
    assert_eq!(DemoPanel::Overview.next(), DemoPanel::List);
    assert_eq!(DemoPanel::Overview.prev(), DemoPanel::List);
}
