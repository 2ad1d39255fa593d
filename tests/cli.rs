use cli_tui_starter::cli::ThemeName;

#[test]
fn theme_name_strings_are_stable() {
    assert_eq!(ThemeName::Aurora.as_str(), "aurora");
    assert_eq!(ThemeName::Mono.as_str(), "mono");
    assert_eq!(ThemeName::Solar.as_str(), "solar");
}

#[test]
fn theme_name_parsing_is_case_insensitive() {
    assert_eq!(ThemeName::parse("AURORA"), Some(ThemeName::Aurora));
    assert_eq!(ThemeName::parse("mono"), Some(ThemeName::Mono));
    assert_eq!(ThemeName::parse(" Solar "), Some(ThemeName::Solar));
    assert_eq!(ThemeName::parse("unknown"), None);
}

#[test]
fn theme_names_round_trip() {
    for t in [ThemeName::Aurora, ThemeName::Mono, ThemeName::Solar] {
        assert_eq!(ThemeName::parse(t.as_str()), Some(t));
    }
    assert_eq!(ThemeName::parse(""), None);
}
