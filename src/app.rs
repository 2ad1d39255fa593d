//! The interactive session's state and its transitions on key and mouse events.
use crate::bindings::{key_action, Action, KeyBindings};
use crate::cli::ThemeName;
use crate::keys::KeyEvent;
use crate::layout::{hit_spec, hit_test, regions_spec, Area, ClickTarget, MouseRegions};
use crate::text::{chars_eq, chars_of};
use crate::theme::{high_contrast_palette, reset_palette, themes, Theme};
use vstd::prelude::*;

verus! {

/// The panel shown in the showcase.
#[derive(Debug, Clone, Copy, PartialEq, Eq, Hash, Structural)]
pub enum DemoPanel {
    Overview,
    List,
}

impl DemoPanel {
    pub open spec fn other(self) -> DemoPanel {
        match self {
            DemoPanel::Overview => DemoPanel::List,
            DemoPanel::List => DemoPanel::Overview,
        }
    }

    pub fn next(self) -> (r: DemoPanel)
        ensures
            r == self.other(),
    {
        match self {
            DemoPanel::Overview => DemoPanel::List,
            DemoPanel::List => DemoPanel::Overview,
        }
    }

    pub fn prev(self) -> (r: DemoPanel)
        ensures
            r == self.other(),
    {
        match self {
            DemoPanel::Overview => DemoPanel::List,
            DemoPanel::List => DemoPanel::Overview,
        }
    }

    /// Position of the panel's tab.
    pub fn index(self) -> (r: usize)
        ensures
            r == (match self {
                DemoPanel::Overview => 0usize,
                DemoPanel::List => 1usize,
            }),
    {
        match self {
            DemoPanel::Overview => 0,
            DemoPanel::List => 1,
        }
    }
}

/// Number of items in the demo list.
pub const LIST_DEMO_LEN: usize = 40;

pub fn list_demo_len() -> (r: usize)
    ensures
        r == LIST_DEMO_LEN,
{
    LIST_DEMO_LEN
}

/// What the mouse did.
#[derive(Debug, Clone, Copy, PartialEq, Eq, Hash, Structural)]
pub enum MouseEventKind {
    ScrollUp,
    ScrollDown,
    /// The left button went down.
    LeftDown,
    Other,
}

/// A mouse event at a terminal cell.
#[derive(Debug, Clone, Copy, PartialEq, Eq, Hash, Structural)]
pub struct MouseEvent {
    pub kind: MouseEventKind,
    pub column: u16,
    pub row: u16,
}

/// The interactive session. Its switches start from the resolved settings and may then be
/// toggled; `wf` holds between events.
pub struct App {
    pub themes: Vec<Theme>,
    pub theme_index: usize,
    pub keymap: KeyBindings,
    pub no_color: bool,
    pub high_contrast: bool,
    pub reduced_motion: bool,
    pub mouse_enabled: bool,
    pub panel: DemoPanel,
    pub list_selected: usize,
    pub show_help: bool,
    pub should_quit: bool,
    pub spinner_index: usize,
}

/// Selection one up, on the list panel only.
pub open spec fn move_up_spec(a: App) -> App {
    if a.panel == DemoPanel::List {
        App {
            list_selected: if a.list_selected > 0 {
                (a.list_selected - 1) as usize
            } else {
                0
            },
            ..a
        }
    } else {
        a
    }
}

/// Selection one down, on the list panel only, stopping at the last item.
pub open spec fn move_down_spec(a: App) -> App {
    if a.panel == DemoPanel::List {
        App {
            list_selected: if a.list_selected + 1 < LIST_DEMO_LEN {
                (a.list_selected + 1) as usize
            } else {
                (LIST_DEMO_LEN - 1) as usize
            },
            ..a
        }
    } else {
        a
    }
}

/// The session after an action (or none).
pub open spec fn after_action(a: App, act: Option<Action>) -> App {
    match act {
        None => a,
        Some(Action::Quit) => App { should_quit: true, ..a },
        Some(Action::CycleTheme) => App {
            theme_index: ((a.theme_index + 1) % (a.themes@.len() as int)) as usize,
            ..a
        },
        Some(Action::NextPanel) => App { panel: a.panel.other(), ..a },
        Some(Action::PrevPanel) => App { panel: a.panel.other(), ..a },
        Some(Action::ListUp) => move_up_spec(a),
        Some(Action::ListDown) => move_down_spec(a),
        Some(Action::ToggleHighContrast) => App { high_contrast: !a.high_contrast, ..a },
        Some(Action::ToggleColor) => App { no_color: !a.no_color, ..a },
        Some(Action::ToggleReducedMotion) => App { reduced_motion: !a.reduced_motion, ..a },
        Some(Action::ToggleHelp) => App { show_help: !a.show_help, ..a },
    }
}

/// The session after a left click: a tab sets the panel, a list row sets the selection.
pub open spec fn after_click(a: App, column: u16, row: u16, regions: Option<MouseRegions>) -> App {
    match regions {
        None => a,
        Some(rg) => match hit_spec(
            column,
            row,
            rg,
            a.panel == DemoPanel::List,
            a.list_selected as int,
            LIST_DEMO_LEN as int,
        ) {
            ClickTarget::Tab(p) => App { panel: p, ..a },
            ClickTarget::ListRow(i) => App { list_selected: i, ..a },
            ClickTarget::Nothing => a,
        },
    }
}

/// The session after a mouse event on a terminal of the given area.
pub open spec fn after_mouse(a: App, m: MouseEvent, area: Area) -> App {
    if !a.mouse_enabled {
        a
    } else {
        match m.kind {
            MouseEventKind::ScrollUp => move_up_spec(a),
            MouseEventKind::ScrollDown => move_down_spec(a),
            MouseEventKind::LeftDown => after_click(a, m.column, m.row, regions_spec(area)),
            MouseEventKind::Other => a,
        }
    }
}

/// The spinner's frame: a still dot when color or motion is off, else one of four strokes.
pub open spec fn spinner_spec(a: App) -> Seq<char> {
    if a.no_color || a.reduced_motion {
        "\u{2022}"@
    } else if a.spinner_index % 4 == 0 {
        "-"@
    } else if a.spinner_index % 4 == 1 {
        "\\"@
    } else if a.spinner_index % 4 == 2 {
        "|"@
    } else {
        "/"@
    }
}

fn theme_position(list: &Vec<Theme>, name: &str) -> (r: Option<usize>)
    ensures
        match r {
            Some(i) => i < list@.len() && list@[i as int].name@ == name@,
            None => forall|j: int| 0 <= j < list@.len() ==> list@[j].name@ != name@,
        },
{
    let mut i: usize = 0;
    while i < list.len()
        invariant
            i <= list@.len(),
            forall|j: int| 0 <= j < i ==> list@[j].name@ != name@,
        decreases list@.len() - i,
    {
        let chars = chars_of(list[i].name);
        if chars_eq(&chars, name) {
            return Some(i);
        }
        i += 1;
    }
    None
}

impl App {
    pub open spec fn wf(&self) -> bool {
        &&& self.themes@.len() > 0
        &&& self.theme_index < self.themes@.len()
        &&& self.list_selected < LIST_DEMO_LEN
    }

    pub fn new(
        theme: ThemeName,
        no_color: bool,
        high_contrast: bool,
        reduced_motion: bool,
        keymap: KeyBindings,
        panel: DemoPanel,
    ) -> (r: App)
        ensures
            r.wf(),
            r.themes@[r.theme_index as int].name@ == theme.name_spec(),
            r.keymap == keymap,
            r.no_color == no_color,
            r.high_contrast == high_contrast,
            r.reduced_motion == reduced_motion,
            !r.mouse_enabled,
            r.panel == panel,
            r.list_selected == 0,
            !r.show_help,
            !r.should_quit,
    {
        Self::new_with_mouse(theme, no_color, high_contrast, reduced_motion, keymap, false, panel)
    }

    pub fn new_with_mouse(
        theme: ThemeName,
        no_color: bool,
        high_contrast: bool,
        reduced_motion: bool,
        keymap: KeyBindings,
        mouse_enabled: bool,
        panel: DemoPanel,
    ) -> (r: App)
        ensures
            r.wf(),
            r.themes@[r.theme_index as int].name@ == theme.name_spec(),
            r.keymap == keymap,
            r.no_color == no_color,
            r.high_contrast == high_contrast,
            r.reduced_motion == reduced_motion,
            r.mouse_enabled == mouse_enabled,
            r.panel == panel,
            r.list_selected == 0,
            !r.show_help,
            !r.should_quit,
    {
        let list = themes();
        let theme_index = match theme_position(&list, theme.as_str()) {
            Some(i) => i,
            None => {
                proof {
                    let k: int = match theme {
                        ThemeName::Aurora => 0,
                        ThemeName::Mono => 1,
                        ThemeName::Solar => 2,
                    };
                    assert(list@[k].name@ == theme.name_spec());
                }
                0
            },
        };
        App {
            themes: list,
            theme_index,
            keymap,
            no_color,
            high_contrast,
            reduced_motion,
            mouse_enabled,
            panel,
            list_selected: 0,
            show_help: false,
            should_quit: false,
            spinner_index: 0,
        }
    }

    pub fn panel(&self) -> (r: DemoPanel)
        ensures
            r == self.panel,
    {
        self.panel
    }

    pub fn list_selected(&self) -> (r: usize)
        ensures
            r == self.list_selected,
    {
        self.list_selected
    }

    pub fn list_len(&self) -> (r: usize)
        ensures
            r == LIST_DEMO_LEN,
    {
        list_demo_len()
    }

    /// The current theme under the current accessibility switches.
    pub fn current_theme(&self) -> (r: Theme)
        requires
            self.wf(),
        ensures
            r.name == self.themes@[self.theme_index as int].name,
            r.description == self.themes@[self.theme_index as int].description,
            r.palette == (if self.no_color {
                reset_palette()
            } else if self.high_contrast {
                high_contrast_palette()
            } else {
                self.themes@[self.theme_index as int].palette
            }),
    {
        self.themes[self.theme_index].with_accessibility(self.high_contrast, self.no_color)
    }

    pub fn current_theme_name(&self) -> (r: &str)
        requires
            self.wf(),
        ensures
            r == self.themes@[self.theme_index as int].name,
    {
        self.themes[self.theme_index].name
    }

    pub fn current_theme_description(&self) -> (r: &str)
        requires
            self.wf(),
        ensures
            r == self.themes@[self.theme_index as int].description,
    {
        self.themes[self.theme_index].description
    }

    pub fn spinner_frame(&self) -> (r: &'static str)
        ensures
            r@ == spinner_spec(*self),
    {
        if self.no_color || self.reduced_motion {
            "\u{2022}"
        } else {
            let k = self.spinner_index % 4;
            if k == 0 {
                "-"
            } else if k == 1 {
                "\\"
            } else if k == 2 {
                "|"
            } else {
                "/"
            }
        }
    }

    /// Advances the spinner, unless color or motion is off.
    pub fn tick(&mut self)
        ensures
            *final(self) == (App {
                spinner_index: if !old(self).no_color && !old(self).reduced_motion {
                    if old(self).spinner_index == usize::MAX {
                        0
                    } else {
                        (old(self).spinner_index + 1) as usize
                    }
                } else {
                    old(self).spinner_index
                },
                ..*old(self)
            }),
    {
        if !self.no_color && !self.reduced_motion {
            self.spinner_index = if self.spinner_index == usize::MAX {
                0
            } else {
                self.spinner_index + 1
            };
        }
    }

    /// Applies the action, if any, that the key event triggers.
    pub fn handle_key(&mut self, key: KeyEvent)
        requires
            old(self).wf(),
        ensures
            final(self).wf(),
            *final(self) == after_action(
                *old(self),
                key_action(old(self).keymap@, old(self).panel == DemoPanel::List, key),
            ),
    {
        let act = self.keymap.action_for(key, self.panel == DemoPanel::List);
        match act {
            None => {},
            Some(Action::Quit) => {
                self.should_quit = true;
            },
            Some(Action::CycleTheme) => {
                let n = self.themes.len();
                self.theme_index = (self.theme_index + 1) % n;
            },
            Some(Action::NextPanel) => {
                self.panel = self.panel.next();
            },
            Some(Action::PrevPanel) => {
                self.panel = self.panel.prev();
            },
            Some(Action::ListUp) => {
                self.list_move_up();
            },
            Some(Action::ListDown) => {
                self.list_move_down();
            },
            Some(Action::ToggleHighContrast) => {
                self.high_contrast = !self.high_contrast;
            },
            Some(Action::ToggleColor) => {
                self.no_color = !self.no_color;
            },
            Some(Action::ToggleReducedMotion) => {
                self.reduced_motion = !self.reduced_motion;
            },
            Some(Action::ToggleHelp) => {
                self.show_help = !self.show_help;
            },
        }
    }

    /// Applies a mouse event, when the mouse is enabled: scrolling moves the selection, a left
    /// click goes through the hit-test.
    pub fn handle_mouse(&mut self, mouse: MouseEvent, area: Area)
        requires
            old(self).wf(),
        ensures
            final(self).wf(),
            *final(self) == after_mouse(*old(self), mouse, area),
    {
        if !self.mouse_enabled {
            return;
        }
        match mouse.kind {
            MouseEventKind::ScrollUp => self.list_move_up(),
            MouseEventKind::ScrollDown => self.list_move_down(),
            MouseEventKind::LeftDown => self.handle_left_click(mouse.column, mouse.row, area),
            MouseEventKind::Other => {},
        }
    }

    fn handle_left_click(&mut self, column: u16, row: u16, area: Area)
        requires
            old(self).wf(),
        ensures
            final(self).wf(),
            *final(self) == after_click(*old(self), column, row, regions_spec(area)),
    {
        let regions = match MouseRegions::for_area(area) {
            Some(r) => r,
            None => {
                return;
            },
        };
        let target = hit_test(
            column,
            row,
            &regions,
            self.panel == DemoPanel::List,
            self.list_selected,
            list_demo_len(),
        );
        match target {
            ClickTarget::Tab(p) => {
                self.panel = p;
            },
            ClickTarget::ListRow(i) => {
                self.list_selected = i;
            },
            ClickTarget::Nothing => {},
        }
    }

    fn list_move_up(&mut self)
        requires
            old(self).wf(),
        ensures
            final(self).wf(),
            *final(self) == move_up_spec(*old(self)),
    {
        if self.panel == DemoPanel::List {
            self.list_selected = self.list_selected.saturating_sub(1);
        }
    }

    fn list_move_down(&mut self)
        requires
            old(self).wf(),
        ensures
            final(self).wf(),
            *final(self) == move_down_spec(*old(self)),
    {
        if self.panel == DemoPanel::List {
            let max = list_demo_len() - 1;
            self.list_selected = if self.list_selected + 1 < max {
                self.list_selected + 1
            } else {
                max
            };
        }
    }
}

} // verus!
