use cli_tui_starter::theme::{themes, Color};

#[test]
fn themes_have_unique_names() {
    let list = themes();
    let mut names: Vec<&str> = list.iter().map(|theme| theme.name).collect();
    names.sort_unstable();
    names.dedup();
    assert_eq!(names.len(), list.len());
}

#[test]
fn accessibility_overrides_palette() {
    let solar = themes()[2];
    assert_eq!(solar.name, "solar");
    assert_eq!(solar.with_accessibility(false, false).palette, solar.palette);
    let hc = solar.with_accessibility(true, false).palette;
    assert_eq!((hc.fg, hc.bg, hc.danger), (Color::White, Color::Black, Color::Red));
    let nc = solar.with_accessibility(true, true).palette;
    assert_eq!((nc.fg, nc.accent, nc.success), (Color::Reset, Color::Reset, Color::Reset));
}
