use cli_tui_starter::app::DemoPanel;
use cli_tui_starter::layout::{
    centered_popup_rect, hit_test, is_narrow, list_viewport_start, on_off, point_in_rect, Area,
    ClickTarget, MouseRegions,
};

fn area(width: u16, height: u16) -> Area {
    Area { x: 0, y: 0, width, height }
}

#[test]
fn scroll_window_contains_selection() {
    let start = list_viewport_start(8, 40, 10);
    assert!(start <= 8 && 8 < start + 10);
    assert!(start <= 40 - 10);
    assert_eq!(start, 0);
    assert_eq!(list_viewport_start(12, 40, 10), 3);
    assert_eq!(list_viewport_start(39, 40, 10), 30);
    assert_eq!(list_viewport_start(5, 3, 10), 0);
    assert_eq!(list_viewport_start(5, 0, 10), 0);
    assert_eq!(list_viewport_start(5, 40, 0), 0);
    assert_eq!(list_viewport_start(50, 40, 10), 30);
}

#[test]
fn regions_for_narrow_80x24() {
    let rg = MouseRegions::for_area(area(80, 24)).unwrap();
    assert_eq!(rg.tabs_row, 10);
    assert_eq!(rg.tabs_x, 1);
    assert_eq!(rg.tabs_width, 78);
    assert_eq!(rg.list_area, Area { x: 1, y: 13, width: 78, height: 3 });
}

#[test]
fn regions_for_wide_120x24() {
    let rg = MouseRegions::for_area(area(120, 24)).unwrap();
    assert_eq!(rg.tabs_row, 5);
    assert_eq!(rg.list_area.y, 8);
    assert_eq!(rg.list_area.height, 5);
    assert!(rg.tabs_x > 60);
    assert_eq!(rg.list_area.x, rg.tabs_x);
}

#[test]
fn regions_absent_when_too_small() {
    assert_eq!(MouseRegions::for_area(area(2, 24)), None);
    assert_eq!(MouseRegions::for_area(area(80, 2)), None);
    assert_eq!(MouseRegions::for_area(area(80, 8)), None);
}

#[test]
fn hit_test_classifies_clicks() {
    let rg = MouseRegions::for_area(area(80, 24)).unwrap();
    assert_eq!(hit_test(1, 10, &rg, false, 0, 40), ClickTarget::Tab(DemoPanel::Overview));
    assert_eq!(hit_test(78, 10, &rg, false, 0, 40), ClickTarget::Tab(DemoPanel::List));
    assert_eq!(hit_test(5, 14, &rg, false, 0, 40), ClickTarget::Nothing);
    assert_eq!(hit_test(5, 14, &rg, true, 8, 40), ClickTarget::ListRow(7));
    assert_eq!(hit_test(5, 15, &rg, true, 39, 40), ClickTarget::ListRow(39));
    assert_eq!(hit_test(5, 14, &rg, true, 0, 0), ClickTarget::Nothing);
    assert_eq!(hit_test(0, 14, &rg, true, 0, 40), ClickTarget::Nothing);
}

#[test]
fn point_in_rect_edges() {
    let r = Area { x: 2, y: 3, width: 4, height: 2 };
    assert!(point_in_rect(2, 3, r));
    assert!(point_in_rect(5, 4, r));
    assert!(!point_in_rect(6, 4, r));
    assert!(!point_in_rect(5, 5, r));
    assert!(!point_in_rect(1, 3, r));
}

#[test]
fn popup_is_centered_and_clamped() {
    assert_eq!(centered_popup_rect(area(120, 40)), Area { x: 18, y: 12, width: 84, height: 16 });
    assert_eq!(centered_popup_rect(area(30, 12)), Area { x: 2, y: 1, width: 26, height: 10 });
    assert_eq!(centered_popup_rect(area(2, 2)), area(2, 2));
}

#[test]
fn breakpoint_and_switch_labels() {
    assert!(is_narrow(area(89, 24)));
    assert!(!is_narrow(area(90, 24)));
    assert_eq!(on_off(true), "on");
    assert_eq!(on_off(false), "off");
}
