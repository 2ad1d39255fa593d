//! The binding table: which key chords trigger which action, and its validation rules.
use crate::keys::{display_spec, key_spec_display, matches_spec, KeyCode, KeyEvent, KeyModifiers, KeySpec};
use vstd::prelude::*;

verus! {

/// The fixed set of user-triggerable actions, in table order.
#[derive(Debug, Clone, Copy, PartialEq, Eq, Hash, Structural)]
pub enum Action {
    CycleTheme,
    NextPanel,
    PrevPanel,
    ListUp,
    ListDown,
    ToggleHighContrast,
    ToggleColor,
    ToggleReducedMotion,
    ToggleHelp,
    Quit,
}

pub const ACTION_COUNT: usize = 10;

/// The action at position `i` of the table order.
pub open spec fn action_at(i: int) -> Action {
    if i <= 0 {
        Action::CycleTheme
    } else if i == 1 {
        Action::NextPanel
    } else if i == 2 {
        Action::PrevPanel
    } else if i == 3 {
        Action::ListUp
    } else if i == 4 {
        Action::ListDown
    } else if i == 5 {
        Action::ToggleHighContrast
    } else if i == 6 {
        Action::ToggleColor
    } else if i == 7 {
        Action::ToggleReducedMotion
    } else if i == 8 {
        Action::ToggleHelp
    } else {
        Action::Quit
    }
}

impl Action {
    /// Position of the action in table order.
    pub open spec fn index_spec(self) -> int {
        match self {
            Action::CycleTheme => 0,
            Action::NextPanel => 1,
            Action::PrevPanel => 2,
            Action::ListUp => 3,
            Action::ListDown => 4,
            Action::ToggleHighContrast => 5,
            Action::ToggleColor => 6,
            Action::ToggleReducedMotion => 7,
            Action::ToggleHelp => 8,
            Action::Quit => 9,
        }
    }

    pub fn at(i: usize) -> (r: Action)
        requires
            i < ACTION_COUNT,
        ensures
            r == action_at(i as int),
            r.index_spec() == i,
    {
        if i == 0 {
            Action::CycleTheme
        } else if i == 1 {
            Action::NextPanel
        } else if i == 2 {
            Action::PrevPanel
        } else if i == 3 {
            Action::ListUp
        } else if i == 4 {
            Action::ListDown
        } else if i == 5 {
            Action::ToggleHighContrast
        } else if i == 6 {
            Action::ToggleColor
        } else if i == 7 {
            Action::ToggleReducedMotion
        } else if i == 8 {
            Action::ToggleHelp
        } else {
            Action::Quit
        }
    }

    /// The action's name as configuration files write it.
    pub open spec fn name_spec(self) -> Seq<char> {
        match self {
            Action::CycleTheme => "cycle_theme"@,
            Action::NextPanel => "next_panel"@,
            Action::PrevPanel => "prev_panel"@,
            Action::ListUp => "list_up"@,
            Action::ListDown => "list_down"@,
            Action::ToggleHighContrast => "toggle_high_contrast"@,
            Action::ToggleColor => "toggle_color"@,
            Action::ToggleReducedMotion => "toggle_reduced_motion"@,
            Action::ToggleHelp => "toggle_help"@,
            Action::Quit => "quit"@,
        }
    }

    pub fn name(self) -> (r: &'static str)
        ensures
            r@ == self.name_spec(),
    {
        match self {
            Action::CycleTheme => "cycle_theme",
            Action::NextPanel => "next_panel",
            Action::PrevPanel => "prev_panel",
            Action::ListUp => "list_up",
            Action::ListDown => "list_down",
            Action::ToggleHighContrast => "toggle_high_contrast",
            Action::ToggleColor => "toggle_color",
            Action::ToggleReducedMotion => "toggle_reduced_motion",
            Action::ToggleHelp => "toggle_help",
            Action::Quit => "quit",
        }
    }
}

pub proof fn lemma_action_at_index(a: Action)
    ensures
        action_at(a.index_spec()) == a,
        0 <= a.index_spec() < ACTION_COUNT,
{
}

/// Why a binding table is refused.
#[derive(Debug, Clone, Copy, PartialEq, Eq, Structural)]
pub enum BindingError {
    /// The action has no chord.
    Empty { action: Action },
    /// Escape or Ctrl+C under an action other than quit.
    Reserved { action: Action, key: KeySpec },
    /// The chord appears twice in the table.
    Duplicate { key: KeySpec },
}

/// Per action, the chords that trigger it; all chords of a list are equally active.
#[derive(Debug, Clone, PartialEq, Eq)]
pub struct KeyBindings {
    pub cycle_theme: Vec<KeySpec>,
    pub next_panel: Vec<KeySpec>,
    pub prev_panel: Vec<KeySpec>,
    pub list_up: Vec<KeySpec>,
    pub list_down: Vec<KeySpec>,
    pub toggle_high_contrast: Vec<KeySpec>,
    pub toggle_color: Vec<KeySpec>,
    pub toggle_reduced_motion: Vec<KeySpec>,
    pub toggle_help: Vec<KeySpec>,
    /// Additional quit keys: Escape and Ctrl+C quit whether or not they are listed.
    pub quit: Vec<KeySpec>,
}

/// The table as plain sequences, one per action.
pub struct BindingsView {
    pub cycle_theme: Seq<KeySpec>,
    pub next_panel: Seq<KeySpec>,
    pub prev_panel: Seq<KeySpec>,
    pub list_up: Seq<KeySpec>,
    pub list_down: Seq<KeySpec>,
    pub toggle_high_contrast: Seq<KeySpec>,
    pub toggle_color: Seq<KeySpec>,
    pub toggle_reduced_motion: Seq<KeySpec>,
    pub toggle_help: Seq<KeySpec>,
    pub quit: Seq<KeySpec>,
}

impl BindingsView {
    /// The chords of action `a`.
    pub open spec fn list(self, a: Action) -> Seq<KeySpec> {
        match a {
            Action::CycleTheme => self.cycle_theme,
            Action::NextPanel => self.next_panel,
            Action::PrevPanel => self.prev_panel,
            Action::ListUp => self.list_up,
            Action::ListDown => self.list_down,
            Action::ToggleHighContrast => self.toggle_high_contrast,
            Action::ToggleColor => self.toggle_color,
            Action::ToggleReducedMotion => self.toggle_reduced_motion,
            Action::ToggleHelp => self.toggle_help,
            Action::Quit => self.quit,
        }
    }

    /// The table with the chords of `a` replaced by `l`.
    pub open spec fn replace(self, a: Action, l: Seq<KeySpec>) -> BindingsView {
        match a {
            Action::CycleTheme => BindingsView { cycle_theme: l, ..self },
            Action::NextPanel => BindingsView { next_panel: l, ..self },
            Action::PrevPanel => BindingsView { prev_panel: l, ..self },
            Action::ListUp => BindingsView { list_up: l, ..self },
            Action::ListDown => BindingsView { list_down: l, ..self },
            Action::ToggleHighContrast => BindingsView { toggle_high_contrast: l, ..self },
            Action::ToggleColor => BindingsView { toggle_color: l, ..self },
            Action::ToggleReducedMotion => BindingsView { toggle_reduced_motion: l, ..self },
            Action::ToggleHelp => BindingsView { toggle_help: l, ..self },
            Action::Quit => BindingsView { quit: l, ..self },
        }
    }
}

impl View for KeyBindings {
    type V = BindingsView;

    open spec fn view(&self) -> BindingsView {
        BindingsView {
            cycle_theme: self.cycle_theme@,
            next_panel: self.next_panel@,
            prev_panel: self.prev_panel@,
            list_up: self.list_up@,
            list_down: self.list_down@,
            toggle_high_contrast: self.toggle_high_contrast@,
            toggle_color: self.toggle_color@,
            toggle_reduced_motion: self.toggle_reduced_motion@,
            toggle_help: self.toggle_help@,
            quit: self.quit@,
        }
    }
}

pub open spec fn esc_chord() -> KeySpec {
    KeySpec { code: KeyCode::Esc, modifiers: KeyModifiers { control: false, alt: false, shift: false } }
}

pub open spec fn ctrl_c_chord() -> KeySpec {
    KeySpec { code: KeyCode::Char('c'), modifiers: KeyModifiers { control: true, alt: false, shift: false } }
}

/// The chords reserved for quitting.
pub open spec fn is_reserved(k: KeySpec) -> bool {
    k == esc_chord() || k == ctrl_c_chord()
}

pub fn is_reserved_key(k: KeySpec) -> (r: bool)
    ensures
        r == is_reserved(k),
{
    let none = KeyModifiers { control: false, alt: false, shift: false };
    k == KeySpec { code: KeyCode::Esc, modifiers: none } || k == KeySpec {
        code: KeyCode::Char('c'),
        modifiers: KeyModifiers { control: true, ..none },
    }
}

/// The table's (action, chord) entries, action by action for the first `n` actions.
pub open spec fn entries_upto(kb: BindingsView, n: int) -> Seq<(Action, KeySpec)>
    decreases n,
{
    if n <= 0 {
        Seq::empty()
    } else {
        let a = action_at(n - 1);
        entries_upto(kb, n - 1) + kb.list(a).map_values(|k: KeySpec| (a, k))
    }
}

pub open spec fn entries(kb: BindingsView) -> Seq<(Action, KeySpec)> {
    entries_upto(kb, ACTION_COUNT as int)
}

/// The first action, from position `i` on, that has no chord.
pub open spec fn first_empty_from(kb: BindingsView, i: int) -> Option<Action>
    decreases ACTION_COUNT - i,
{
    if i >= ACTION_COUNT {
        None
    } else if kb.list(action_at(i)).len() == 0 {
        Some(action_at(i))
    } else {
        first_empty_from(kb, i + 1)
    }
}

/// Checks the entries from position `i` on for a reserved chord outside quit, or a chord seen
/// before.
pub open spec fn scan_entries(e: Seq<(Action, KeySpec)>, i: int) -> Result<(), BindingError>
    decreases e.len() - i,
{
    if i < 0 || i >= e.len() {
        Ok(())
    } else if is_reserved(e[i].1) && e[i].0 != Action::Quit {
        Err(BindingError::Reserved { action: e[i].0, key: e[i].1 })
    } else if exists|j: int| 0 <= j < i && e[j].1 == e[i].1 {
        Err(BindingError::Duplicate { key: e[i].1 })
    } else {
        scan_entries(e, i + 1)
    }
}

/// The outcome of validation: empty lists first, in table order, then entry by entry.
pub open spec fn validate_spec(kb: BindingsView) -> Result<(), BindingError> {
    match first_empty_from(kb, 0) {
        Some(a) => Err(BindingError::Empty { action: a }),
        None => scan_entries(entries(kb), 0),
    }
}

/// The chord of a character key without modifiers.
pub fn plain_char(c: char) -> (r: KeySpec)
    ensures
        r == (KeySpec {
            code: KeyCode::Char(c),
            modifiers: KeyModifiers { control: false, alt: false, shift: false },
        }),
{
    KeySpec { code: KeyCode::Char(c), modifiers: KeyModifiers { control: false, alt: false, shift: false } }
}

/// The chord of a key without modifiers.
pub fn plain(code: KeyCode) -> (r: KeySpec)
    ensures
        r == (KeySpec { code, modifiers: KeyModifiers { control: false, alt: false, shift: false } }),
{
    KeySpec { code, modifiers: KeyModifiers { control: false, alt: false, shift: false } }
}

fn contains_key(v: &Vec<KeySpec>, k: KeySpec) -> (r: bool)
    ensures
        r == exists|j: int| 0 <= j < v@.len() && v@[j] == k,
{
    let mut i: usize = 0;
    while i < v.len()
        invariant
            i <= v.len(),
            forall|j: int| 0 <= j < i ==> v@[j] != k,
        decreases v.len() - i,
    {
        if v[i] == k {
            return true;
        }
        i += 1;
    }
    false
}

/// The entries of the first `n` actions are a prefix of those of the first `m`.
pub proof fn lemma_entries_prefix(kb: BindingsView, n: int, m: int)
    requires
        0 <= n <= m,
    ensures
        entries_upto(kb, n).len() <= entries_upto(kb, m).len(),
        forall|i: int|
            0 <= i < entries_upto(kb, n).len() ==> entries_upto(kb, m)[i] == entries_upto(kb, n)[i],
    decreases m - n,
{
    if n < m {
        lemma_entries_prefix(kb, n, m - 1);
    }
}

impl KeyBindings {
    pub fn chords(&self, a: Action) -> (r: &Vec<KeySpec>)
        ensures
            r@ == self@.list(a),
    {
        match a {
            Action::CycleTheme => &self.cycle_theme,
            Action::NextPanel => &self.next_panel,
            Action::PrevPanel => &self.prev_panel,
            Action::ListUp => &self.list_up,
            Action::ListDown => &self.list_down,
            Action::ToggleHighContrast => &self.toggle_high_contrast,
            Action::ToggleColor => &self.toggle_color,
            Action::ToggleReducedMotion => &self.toggle_reduced_motion,
            Action::ToggleHelp => &self.toggle_help,
            Action::Quit => &self.quit,
        }
    }

    /// Replaces the chords of action `a`, leaving the other actions as they were.
    pub fn set_chords(&mut self, a: Action, keys: Vec<KeySpec>)
        ensures
            final(self)@ == old(self)@.replace(a, keys@),
    {
        match a {
            Action::CycleTheme => self.cycle_theme = keys,
            Action::NextPanel => self.next_panel = keys,
            Action::PrevPanel => self.prev_panel = keys,
            Action::ListUp => self.list_up = keys,
            Action::ListDown => self.list_down = keys,
            Action::ToggleHighContrast => self.toggle_high_contrast = keys,
            Action::ToggleColor => self.toggle_color = keys,
            Action::ToggleReducedMotion => self.toggle_reduced_motion = keys,
            Action::ToggleHelp => self.toggle_help = keys,
            Action::Quit => self.quit = keys,
        }
    }

    /// Checks the table: no action without chords, Escape and Ctrl+C only under quit, and no
    /// chord listed twice.
    pub fn validate(&self) -> (r: Result<(), BindingError>)
        ensures
            r == validate_spec(self@),
    {
        let mut ai: usize = 0;
        while ai < ACTION_COUNT
            invariant
                ai <= ACTION_COUNT,
                first_empty_from(self@, 0) == first_empty_from(self@, ai as int),
            decreases ACTION_COUNT - ai,
        {
            let a = Action::at(ai);
            if self.chords(a).len() == 0 {
                return Err(BindingError::Empty { action: a });
            }
            ai += 1;
        }
        let ghost e = entries(self@);
        let mut seen: Vec<KeySpec> = Vec::new();
        let mut ai: usize = 0;
        while ai < ACTION_COUNT
            invariant
                ai <= ACTION_COUNT,
                e == entries(self@),
                validate_spec(self@) == scan_entries(e, seen@.len() as int),
                seen@.len() == entries_upto(self@, ai as int).len(),
                seen@.len() <= e.len(),
                forall|j: int| 0 <= j < seen@.len() ==> seen@[j] == e[j].1,
            decreases ACTION_COUNT - ai,
        {
            let a = Action::at(ai);
            let keys = self.chords(a);
            let ghost base = entries_upto(self@, ai as int);
            proof {
                lemma_entries_prefix(self@, (ai + 1) as int, ACTION_COUNT as int);
                assert(entries_upto(self@, (ai + 1) as int) == base + keys@.map_values(
                    |k: KeySpec| (a, k),
                ));
            }
            let mut j: usize = 0;
            while j < keys.len()
                invariant
                    ai < ACTION_COUNT,
                    a == action_at(ai as int),
                    keys@ == self@.list(a),
                    e == entries(self@),
                    base == entries_upto(self@, ai as int),
                    entries_upto(self@, (ai + 1) as int) == base + keys@.map_values(
                        |k: KeySpec| (a, k),
                    ),
                    entries_upto(self@, (ai + 1) as int).len() <= e.len(),
                    forall|i: int|
                        0 <= i < entries_upto(self@, (ai + 1) as int).len() ==> e[i]
                            == entries_upto(self@, (ai + 1) as int)[i],
                    j <= keys.len(),
                    validate_spec(self@) == scan_entries(e, seen@.len() as int),
                    seen@.len() == base.len() + j,
                    forall|i: int| 0 <= i < seen@.len() ==> seen@[i] == e[i].1,
                decreases keys.len() - j,
            {
                let key = keys[j];
                let ghost pos = seen@.len() as int;
                assert(e[pos] == (a, key));
                if is_reserved_key(key) && a != Action::Quit {
                    return Err(BindingError::Reserved { action: a, key });
                }
                if contains_key(&seen, key) {
                    return Err(BindingError::Duplicate { key });
                }
                assert forall|i: int| 0 <= i < pos implies e[i].1 != e[pos].1 by {
                    assert(seen@[i] == e[i].1);
                }
                seen.push(key);
                j += 1;
            }
            ai += 1;
        }
        assert(scan_entries(e, seen@.len() as int) == Ok::<(), BindingError>(()));
        Ok(())
    }

    /// Whether `event` matches any chord of `keys`.
    pub fn matches_any(keys: &[KeySpec], event: KeyEvent) -> (r: bool)
        ensures
            r == exists|i: int| 0 <= i < keys@.len() && matches_spec(keys@[i], event),
    {
        let mut i: usize = 0;
        while i < keys.len()
            invariant
                i <= keys@.len(),
                forall|j: int| 0 <= j < i ==> !matches_spec(keys@[j], event),
            decreases keys@.len() - i,
        {
            if keys[i].matches(event) {
                return true;
            }
            i += 1;
        }
        false
    }
}

/// Whether an event matches some chord of `keys`.
pub open spec fn any_match(keys: Seq<KeySpec>, e: KeyEvent) -> bool {
    exists|i: int| 0 <= i < keys.len() && matches_spec(keys[i], e)
}

/// Escape (with any modifiers) or exactly Ctrl+C: these quit whatever the table says.
pub open spec fn is_emergency_quit(e: KeyEvent) -> bool {
    e.code == KeyCode::Esc || (e.code == KeyCode::Char('c') && e.modifiers == ctrl_c_chord().modifiers
        && !e.extra_modifiers)
}

/// The action that a key event triggers: quit first, then the table in its fixed priority
/// order; list moves only count on the list panel.
pub open spec fn key_action(kb: BindingsView, on_list: bool, e: KeyEvent) -> Option<Action> {
    if is_emergency_quit(e) || any_match(kb.list(Action::Quit), e) {
        Some(Action::Quit)
    } else if any_match(kb.list(Action::CycleTheme), e) {
        Some(Action::CycleTheme)
    } else if any_match(kb.list(Action::NextPanel), e) {
        Some(Action::NextPanel)
    } else if any_match(kb.list(Action::PrevPanel), e) {
        Some(Action::PrevPanel)
    } else if on_list && any_match(kb.list(Action::ListUp), e) {
        Some(Action::ListUp)
    } else if on_list && any_match(kb.list(Action::ListDown), e) {
        Some(Action::ListDown)
    } else if any_match(kb.list(Action::ToggleHighContrast), e) {
        Some(Action::ToggleHighContrast)
    } else if any_match(kb.list(Action::ToggleColor), e) {
        Some(Action::ToggleColor)
    } else if any_match(kb.list(Action::ToggleReducedMotion), e) {
        Some(Action::ToggleReducedMotion)
    } else if any_match(kb.list(Action::ToggleHelp), e) {
        Some(Action::ToggleHelp)
    } else {
        None
    }
}

/// The canonical texts of `keys`, first occurrence kept, repeats dropped.
pub open spec fn dedup_labels(keys: Seq<KeySpec>) -> Seq<Seq<char>>
    decreases keys.len(),
{
    if keys.len() == 0 {
        Seq::empty()
    } else {
        with_label(dedup_labels(keys.drop_last()), display_spec(keys.last()))
    }
}

/// `ls` with `l` added at the end, unless already there.
pub open spec fn with_label(ls: Seq<Seq<char>>, l: Seq<char>) -> Seq<Seq<char>> {
    if ls.contains(l) {
        ls
    } else {
        ls.push(l)
    }
}

/// The labels joined with `/`.
pub open spec fn join_slash(ls: Seq<Seq<char>>) -> Seq<char>
    decreases ls.len(),
{
    if ls.len() == 0 {
        Seq::empty()
    } else if ls.len() == 1 {
        ls[0]
    } else {
        join_slash(ls.drop_last()) + "/"@ + ls.last()
    }
}

/// The quit labels: the listed chords, then `esc` and `ctrl+c` unless already listed.
pub open spec fn quit_labels_spec(keys: Seq<KeySpec>) -> Seq<Seq<char>> {
    with_label(with_label(dedup_labels(keys), "esc"@), "ctrl+c"@)
}

pub open spec fn strings_view(v: Seq<String>) -> Seq<Seq<char>> {
    v.map_values(|s: String| s@)
}

fn contains_label(v: &Vec<String>, l: &String) -> (r: bool)
    ensures
        r == strings_view(v@).contains(l@),
{
    let mut i: usize = 0;
    while i < v.len()
        invariant
            i <= v.len(),
            forall|j: int| 0 <= j < i ==> v@[j]@ != l@,
        decreases v.len() - i,
    {
        if v[i] == *l {
            assert(strings_view(v@)[i as int] == l@);
            return true;
        }
        i += 1;
    }
    assert(!strings_view(v@).contains(l@)) by {
        assert forall|j: int| 0 <= j < v@.len() implies strings_view(v@)[j] != l@ by {
            assert(strings_view(v@)[j] == v@[j]@);
        }
    }
    false
}

fn push_label(v: &mut Vec<String>, l: String)
    ensures
        strings_view(final(v)@) == with_label(strings_view(old(v)@), l@),
{
    if !contains_label(v, &l) {
        let ghost before = v@;
        v.push(l);
        assert(strings_view(v@) =~= strings_view(before).push(l@));
    }
}

/// The canonical texts of `keys`, without repeats, in order of first appearance.
pub fn key_list_labels(keys: &[KeySpec]) -> (r: Vec<String>)
    ensures
        strings_view(r@) == dedup_labels(keys@),
{
    let mut out: Vec<String> = Vec::new();
    let mut i: usize = 0;
    assert(strings_view(out@) =~= Seq::<Seq<char>>::empty());
    while i < keys.len()
        invariant
            i <= keys@.len(),
            strings_view(out@) == dedup_labels(keys@.subrange(0, i as int)),
        decreases keys@.len() - i,
    {
        let label = key_spec_display(keys[i]);
        push_label(&mut out, label);
        assert(keys@.subrange(0, (i + 1) as int).drop_last() =~= keys@.subrange(0, i as int));
        i += 1;
    }
    assert(keys@.subrange(0, keys@.len() as int) =~= keys@);
    out
}

/// The labels joined with `/`.
pub fn join_labels(v: &Vec<String>) -> (r: String)
    ensures
        r@ == join_slash(strings_view(v@)),
{
    let mut out = String::new();
    let mut i: usize = 0;
    assert(out@ =~= join_slash(strings_view(v@.subrange(0, 0))));
    while i < v.len()
        invariant
            i <= v.len(),
            out@ == join_slash(strings_view(v@.subrange(0, i as int))),
        decreases v.len() - i,
    {
        let ghost prev = strings_view(v@.subrange(0, i as int));
        let ghost next = strings_view(v@.subrange(0, (i + 1) as int));
        assert(next.drop_last() =~= prev);
        if i > 0 {
            out.append("/");
        }
        out.append(v[i].as_str());
        assert(next.last() == v@[i as int]@);
        proof {
            if i == 0 {
                assert(out@ =~= next[0]);
            }
        }
        i += 1;
    }
    assert(v@.subrange(0, v@.len() as int) =~= v@);
    out
}

/// The canonical texts of `keys`, without repeats, joined with `/`.
pub fn key_list_display(keys: &[KeySpec]) -> (r: String)
    ensures
        r@ == join_slash(dedup_labels(keys@)),
{
    let labels = key_list_labels(keys);
    join_labels(&labels)
}

impl Default for KeyBindings {
    fn default() -> (r: KeyBindings)
        ensures
            r@ == default_bindings_view(),
    {
        let r = KeyBindings {
            cycle_theme: vec![plain_char('t')],
            next_panel: vec![plain(KeyCode::Tab)],
            prev_panel: vec![plain(KeyCode::BackTab)],
            list_up: vec![plain(KeyCode::Up)],
            list_down: vec![plain(KeyCode::Down)],
            toggle_high_contrast: vec![plain_char('h')],
            toggle_color: vec![plain_char('c')],
            toggle_reduced_motion: vec![plain_char('r')],
            toggle_help: vec![plain_char('?')],
            quit: vec![plain_char('q')],
        };
        assert(r.cycle_theme@ =~= seq![plain_char_spec('t')]);
        assert(r.next_panel@ =~= seq![plain_spec(KeyCode::Tab)]);
        assert(r.prev_panel@ =~= seq![plain_spec(KeyCode::BackTab)]);
        assert(r.list_up@ =~= seq![plain_spec(KeyCode::Up)]);
        assert(r.list_down@ =~= seq![plain_spec(KeyCode::Down)]);
        assert(r.toggle_high_contrast@ =~= seq![plain_char_spec('h')]);
        assert(r.toggle_color@ =~= seq![plain_char_spec('c')]);
        assert(r.toggle_reduced_motion@ =~= seq![plain_char_spec('r')]);
        assert(r.toggle_help@ =~= seq![plain_char_spec('?')]);
        assert(r.quit@ =~= seq![plain_char_spec('q')]);
        r
    }
}

impl KeyBindings {
    /// The labels of the quit keys, then `esc` and `ctrl+c`, which always quit.
    pub fn quit_labels(&self) -> (r: Vec<String>)
        ensures
            strings_view(r@) == quit_labels_spec(self.quit@),
    {
        let mut out = key_list_labels(self.quit.as_slice());
        push_label(&mut out, String::from_str("esc"));
        push_label(&mut out, String::from_str("ctrl+c"));
        out
    }

    /// The quit labels joined with `/`, e.g. `"q/esc/ctrl+c"`.
    pub fn quit_label(&self) -> (r: String)
        ensures
            r@ == join_slash(quit_labels_spec(self.quit@)),
    {
        let labels = self.quit_labels();
        join_labels(&labels)
    }

    /// The action that `event` triggers; `on_list` tells whether the list panel is shown.
    pub fn action_for(&self, event: KeyEvent, on_list: bool) -> (r: Option<Action>)
        ensures
            r == key_action(self@, on_list, event),
    {
        let ctrl = KeyModifiers { control: true, alt: false, shift: false };
        if event.code == KeyCode::Esc || (event.code == KeyCode::Char('c') && event.modifiers == ctrl
            && !event.extra_modifiers) || Self::matches_any(self.quit.as_slice(), event) {
            Some(Action::Quit)
        } else if Self::matches_any(self.cycle_theme.as_slice(), event) {
            Some(Action::CycleTheme)
        } else if Self::matches_any(self.next_panel.as_slice(), event) {
            Some(Action::NextPanel)
        } else if Self::matches_any(self.prev_panel.as_slice(), event) {
            Some(Action::PrevPanel)
        } else if on_list && Self::matches_any(self.list_up.as_slice(), event) {
            Some(Action::ListUp)
        } else if on_list && Self::matches_any(self.list_down.as_slice(), event) {
            Some(Action::ListDown)
        } else if Self::matches_any(self.toggle_high_contrast.as_slice(), event) {
            Some(Action::ToggleHighContrast)
        } else if Self::matches_any(self.toggle_color.as_slice(), event) {
            Some(Action::ToggleColor)
        } else if Self::matches_any(self.toggle_reduced_motion.as_slice(), event) {
            Some(Action::ToggleReducedMotion)
        } else if Self::matches_any(self.toggle_help.as_slice(), event) {
            Some(Action::ToggleHelp)
        } else {
            None
        }
    }
}

/// The built-in table: t, tab, backtab, up, down, h, c, r, ? and q.
pub open spec fn default_bindings_view() -> BindingsView {
    BindingsView {
        cycle_theme: seq![plain_char_spec('t')],
        next_panel: seq![plain_spec(KeyCode::Tab)],
        prev_panel: seq![plain_spec(KeyCode::BackTab)],
        list_up: seq![plain_spec(KeyCode::Up)],
        list_down: seq![plain_spec(KeyCode::Down)],
        toggle_high_contrast: seq![plain_char_spec('h')],
        toggle_color: seq![plain_char_spec('c')],
        toggle_reduced_motion: seq![plain_char_spec('r')],
        toggle_help: seq![plain_char_spec('?')],
        quit: seq![plain_char_spec('q')],
    }
}

pub open spec fn plain_char_spec(c: char) -> KeySpec {
    KeySpec { code: KeyCode::Char(c), modifiers: KeyModifiers { control: false, alt: false, shift: false } }
}

pub open spec fn plain_spec(code: KeyCode) -> KeySpec {
    KeySpec { code, modifiers: KeyModifiers { control: false, alt: false, shift: false } }
}

impl BindingError {
    pub open spec fn message_spec(self) -> Seq<char> {
        match self {
            BindingError::Empty { action } => "key binding '"@ + action.name_spec()
                + "' must not be empty"@,
            BindingError::Reserved { action, key } => "key '"@ + display_spec(key)
                + "' is reserved for quitting and cannot be used for '"@ + action.name_spec() + "'"@,
            BindingError::Duplicate { key } => "duplicate key binding '"@ + display_spec(key)
                + "' used for multiple actions"@,
        }
    }

    /// A human-readable description of the error.
    pub fn message(&self) -> (r: String)
        ensures
            r@ == self.message_spec(),
    {
        let mut out = String::new();
        match self {
            BindingError::Empty { action } => {
                out.append("key binding '");
                out.append(action.name());
                out.append("' must not be empty");
            },
            BindingError::Reserved { action, key } => {
                out.append("key '");
                out.append(key_spec_display(*key).as_str());
                out.append("' is reserved for quitting and cannot be used for '");
                out.append(action.name());
                out.append("'");
            },
            BindingError::Duplicate { key } => {
                out.append("duplicate key binding '");
                out.append(key_spec_display(*key).as_str());
                out.append("' used for multiple actions");
            },
        }
        assert(out@ =~= self.message_spec());
        out
    }
}

} // verus!
