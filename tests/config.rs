use cli_tui_starter::bindings::{Action, BindingError, KeyBindings};
use cli_tui_starter::cli::{DemoArgs, ThemeName};
use cli_tui_starter::config::{
    env_disables_color, resolve_with_sources, starter_config_toml, DemoDefaults, DemoSettings,
};
use cli_tui_starter::config_file::{
    apply_keys_overrides, bundle_from_file_config, default_bundle, runtime_from_sources,
    ConfigError, DemoDefaultsRaw, FileConfig, KeysOverridesRaw, OneOrManyStrings,
};
use cli_tui_starter::keys::{parse_key_spec, KeyCode, KeyEvent, KeyModifiers, KeySpecError};

fn default_args() -> DemoArgs {
    DemoArgs {
        theme: None,
        no_color: false,
        color: false,
        high_contrast: false,
        normal_contrast: false,
        reduced_motion: false,
        motion: false,
        mouse: false,
        config: None,
        no_tty: false,
        width: None,
        height: None,
    }
}

fn empty_demo() -> DemoDefaultsRaw {
    DemoDefaultsRaw { theme: None, no_color: None, high_contrast: None, reduced_motion: None }
}

fn one(s: &str) -> Option<OneOrManyStrings> {
    Some(OneOrManyStrings::One(s.to_string()))
}

fn many(v: &[&str]) -> Option<OneOrManyStrings> {
    Some(OneOrManyStrings::Many(v.iter().map(|s| s.to_string()).collect()))
}

fn plain(code: KeyCode) -> KeyEvent {
    KeyEvent {
        code,
        modifiers: KeyModifiers { control: false, alt: false, shift: false },
        extra_modifiers: false,
    }
}

#[test]
fn resolve_prefers_cli_over_config_and_env() {
    let mut args = default_args();
    args.theme = Some(ThemeName::Mono);
    args.color = true;
    args.normal_contrast = true;
    args.motion = true;

    let defaults = DemoDefaults {
        theme: Some(ThemeName::Solar),
        no_color: Some(true),
        high_contrast: Some(true),
        reduced_motion: Some(true),
    };

    let resolved = resolve_with_sources(&args, &defaults, true);
    assert_eq!(
        resolved,
        DemoSettings {
            theme: ThemeName::Mono,
            no_color: false,
            high_contrast: false,
            reduced_motion: false,
        }
    );
}

#[test]
fn resolve_prefers_config_over_env_default() {
    let args = default_args();
    let defaults = DemoDefaults {
        theme: Some(ThemeName::Solar),
        no_color: Some(false),
        high_contrast: Some(true),
        reduced_motion: Some(true),
    };

    let resolved = resolve_with_sources(&args, &defaults, true);
    assert_eq!(resolved.theme, ThemeName::Solar);
    assert!(!resolved.no_color);
    assert!(resolved.high_contrast);
    assert!(resolved.reduced_motion);
}

#[test]
fn resolve_force_on_flags_beat_file_values() {
    let mut args = default_args();
    args.no_color = true;
    args.high_contrast = true;
    args.reduced_motion = true;
    let defaults = DemoDefaults {
        theme: None,
        no_color: Some(false),
        high_contrast: Some(false),
        reduced_motion: Some(false),
    };
    let resolved = resolve_with_sources(&args, &defaults, false);
    assert!(resolved.no_color);
    assert!(resolved.high_contrast);
    assert!(resolved.reduced_motion);
    assert_eq!(resolved.theme, ThemeName::Aurora);
}

#[test]
fn resolve_falls_back_to_env_then_builtin() {
    let args = default_args();
    let defaults = DemoDefaults::default();
    let with_env = resolve_with_sources(&args, &defaults, true);
    assert!(with_env.no_color);
    let without_env = resolve_with_sources(&args, &defaults, false);
    assert_eq!(
        without_env,
        DemoSettings {
            theme: ThemeName::Aurora,
            no_color: false,
            high_contrast: false,
            reduced_motion: false,
        }
    );
}

#[test]
fn env_disables_color_cases() {
    assert!(env_disables_color(Some(""), Some("1"), Some("xterm-256color")));
    assert!(env_disables_color(None, Some("0"), Some("xterm-256color")));
    assert!(env_disables_color(None, None, Some("dumb")));
    assert!(!env_disables_color(None, Some("1"), Some("xterm-256color")));
    assert!(!env_disables_color(None, None, None));
}

#[test]
fn parse_config_bundle_reads_demo_section() {
    let raw = FileConfig {
        demo: DemoDefaultsRaw {
            theme: Some("solar".to_string()),
            no_color: Some(true),
            high_contrast: Some(false),
            reduced_motion: Some(true),
        },
        keys: KeysOverridesRaw::empty(),
    };
    let parsed = bundle_from_file_config(&raw).expect("config should parse");

    assert_eq!(parsed.demo.theme, Some(ThemeName::Solar));
    assert_eq!(parsed.demo.no_color, Some(true));
    assert_eq!(parsed.demo.high_contrast, Some(false));
    assert_eq!(parsed.demo.reduced_motion, Some(true));
}

#[test]
fn parse_config_bundle_rejects_unknown_theme() {
    let raw = FileConfig {
        demo: DemoDefaultsRaw { theme: Some("neon".to_string()), ..empty_demo() },
        keys: KeysOverridesRaw::empty(),
    };
    let error = bundle_from_file_config(&raw).expect_err("invalid theme must fail");

    assert!(error.message().contains("valid themes: aurora, mono, solar"));
    assert_eq!(error, ConfigError::InvalidTheme { name: "neon".to_string() });
}

#[test]
fn parse_config_bundle_reads_keys_section() {
    let raw = FileConfig {
        demo: empty_demo(),
        keys: KeysOverridesRaw {
            cycle_theme: one("n"),
            toggle_help: many(&["?", "g"]),
            quit: one("x"),
            ..KeysOverridesRaw::empty()
        },
    };
    let parsed = bundle_from_file_config(&raw).expect("config should parse");

    assert!(parsed.keys.cycle_theme.iter().any(|k| k.code == KeyCode::Char('n')));
    assert!(parsed.keys.toggle_help.iter().any(|k| k.code == KeyCode::Char('?')));
    assert!(parsed.keys.toggle_help.iter().any(|k| k.code == KeyCode::Char('g')));
    assert!(parsed.keys.quit.iter().any(|k| k.code == KeyCode::Char('x')));
}

#[test]
fn parse_config_bundle_rejects_duplicate_keys_across_actions() {
    let raw = FileConfig {
        demo: empty_demo(),
        keys: KeysOverridesRaw {
            cycle_theme: one("t"),
            toggle_color: one("t"),
            ..KeysOverridesRaw::empty()
        },
    };
    let error = bundle_from_file_config(&raw).expect_err("duplicates must fail");

    let msg = error.message();
    assert!(msg.contains("duplicate key binding"), "msg was: {}", msg);
}

#[test]
fn moving_a_default_key_to_another_action_is_no_duplicate() {
    let raw = FileConfig {
        demo: empty_demo(),
        keys: KeysOverridesRaw {
            cycle_theme: one("n"),
            toggle_color: one("t"),
            ..KeysOverridesRaw::empty()
        },
    };
    let parsed = bundle_from_file_config(&raw).unwrap();
    assert_eq!(parsed.keys.toggle_color, vec![parse_key_spec("t").unwrap()]);
}

#[test]
fn overrides_report_empty_and_invalid_lists() {
    let o = KeysOverridesRaw { list_up: many(&[]), ..KeysOverridesRaw::empty() };
    assert_eq!(
        apply_keys_overrides(KeyBindings::default(), &o),
        Err(ConfigError::EmptyBinding { action: Action::ListUp })
    );
    let o = KeysOverridesRaw { quit: many(&["q", "nope"]), ..KeysOverridesRaw::empty() };
    let err = apply_keys_overrides(KeyBindings::default(), &o).unwrap_err();
    assert_eq!(
        err,
        ConfigError::InvalidKeySpec {
            action: Action::Quit,
            spec: "nope".to_string(),
            error: KeySpecError::MultiCharacter { token: "nope".to_string() },
        }
    );
    assert_eq!(
        err.message(),
        "invalid key spec 'nope' for 'quit': unsupported multi-character key spec 'nope'"
    );
    let o = KeysOverridesRaw { toggle_help: one("esc"), ..KeysOverridesRaw::empty() };
    assert_eq!(
        apply_keys_overrides(KeyBindings::default(), &o),
        Err(ConfigError::Bindings(BindingError::Reserved {
            action: Action::ToggleHelp,
            key: parse_key_spec("esc").unwrap(),
        }))
    );
}

#[test]
fn config_overrides_resolve_cycle_theme_and_quit() {
    let raw = FileConfig {
        demo: empty_demo(),
        keys: KeysOverridesRaw { cycle_theme: one("n"), quit: one("x"), ..KeysOverridesRaw::empty() },
    };
    let keys = bundle_from_file_config(&raw).unwrap().keys;
    assert_eq!(keys.action_for(plain(KeyCode::Char('n')), false), Some(Action::CycleTheme));
    assert_eq!(keys.action_for(plain(KeyCode::Char('x')), false), Some(Action::Quit));
    assert_eq!(keys.action_for(plain(KeyCode::Esc), false), Some(Action::Quit));
    assert_eq!(keys.action_for(plain(KeyCode::Char('t')), false), None);
    assert_eq!(keys.quit_label(), "x/esc/ctrl+c");
}

#[test]
fn runtime_combines_file_flags_and_env() {
    let mut loaded = default_bundle();
    loaded.demo.theme = Some(ThemeName::Mono);
    let mut args = default_args();
    args.reduced_motion = true;
    let rt = runtime_from_sources(&args, loaded, true);
    assert_eq!(
        rt.settings,
        DemoSettings {
            theme: ThemeName::Mono,
            no_color: true,
            high_contrast: false,
            reduced_motion: true,
        }
    );
    assert_eq!(rt.keys, KeyBindings::default());
}

#[test]
fn one_or_many_into_vec() {
    assert_eq!(OneOrManyStrings::One("a".to_string()).into_vec(), vec!["a".to_string()]);
    assert_eq!(
        OneOrManyStrings::Many(vec!["a".to_string(), "b".to_string()]).into_vec(),
        vec!["a".to_string(), "b".to_string()]
    );
}

#[test]
fn starter_config_mentions_sections() {
    let text = starter_config_toml();
    assert!(text.starts_with("# cli-tui-starter config"));
    assert!(text.contains("[demo]"));
    assert!(text.contains("[keys]"));
    assert!(text.contains("next_panel = \"tab\""));
}
