//! A configuration file's values, as read from its document, and their merge into settings and
//! a validated binding table.
use crate::bindings::{
    action_at, default_bindings_view, strings_view, validate_spec, Action, BindingError,
    BindingsView, KeyBindings, ACTION_COUNT,
};
use crate::cli::{theme_named, ThemeName};
use crate::cli::DemoArgs;
use crate::config::{resolve_spec, resolve_with_sources, DemoDefaults, DemoSettings};
use crate::keys::{parse_key_spec, parse_spec, KeySpec, KeySpecError, KeySpecFault};
use crate::text::{lower, trim};
use vstd::prelude::*;

verus! {

/// The `[demo]` section: every field optional.
#[derive(Debug, Clone, PartialEq, Eq)]
pub struct DemoDefaultsRaw {
    pub theme: Option<String>,
    pub no_color: Option<bool>,
    pub high_contrast: Option<bool>,
    pub reduced_motion: Option<bool>,
}

/// One key-spec string, or a list of them.
#[derive(Debug, Clone, PartialEq, Eq)]
pub enum OneOrManyStrings {
    One(String),
    Many(Vec<String>),
}

impl OneOrManyStrings {
    pub open spec fn strings_spec(&self) -> Seq<Seq<char>> {
        match self {
            OneOrManyStrings::One(s) => seq![s@],
            OneOrManyStrings::Many(v) => strings_view(v@),
        }
    }

    pub fn into_vec(self) -> (r: Vec<String>)
        ensures
            strings_view(r@) == self.strings_spec(),
    {
        match self {
            OneOrManyStrings::One(v) => {
                let r = vec![v];
                assert(strings_view(r@) =~= self.strings_spec());
                r
            },
            OneOrManyStrings::Many(v) => v,
        }
    }
}

/// The `[keys]` section: per action, chords that replace the built-in ones.
#[derive(Debug, Clone, PartialEq, Eq)]
pub struct KeysOverridesRaw {
    pub cycle_theme: Option<OneOrManyStrings>,
    pub next_panel: Option<OneOrManyStrings>,
    pub prev_panel: Option<OneOrManyStrings>,
    pub list_up: Option<OneOrManyStrings>,
    pub list_down: Option<OneOrManyStrings>,
    pub toggle_high_contrast: Option<OneOrManyStrings>,
    pub toggle_color: Option<OneOrManyStrings>,
    pub toggle_reduced_motion: Option<OneOrManyStrings>,
    pub toggle_help: Option<OneOrManyStrings>,
    pub quit: Option<OneOrManyStrings>,
}

impl KeysOverridesRaw {
    pub open spec fn field(&self, a: Action) -> Option<OneOrManyStrings> {
        match a {
            Action::CycleTheme => self.cycle_theme,
            Action::NextPanel => self.next_panel,
            Action::PrevPanel => self.prev_panel,
            Action::ListUp => self.list_up,
            Action::ListDown => self.list_down,
            Action::ToggleHighContrast => self.toggle_high_contrast,
            Action::ToggleColor => self.toggle_color,
            Action::ToggleReducedMotion => self.toggle_reduced_motion,
            Action::ToggleHelp => self.toggle_help,
            Action::Quit => self.quit,
        }
    }

    pub fn get(&self, a: Action) -> (r: &Option<OneOrManyStrings>)
        ensures
            *r == self.field(a),
    {
        match a {
            Action::CycleTheme => &self.cycle_theme,
            Action::NextPanel => &self.next_panel,
            Action::PrevPanel => &self.prev_panel,
            Action::ListUp => &self.list_up,
            Action::ListDown => &self.list_down,
            Action::ToggleHighContrast => &self.toggle_high_contrast,
            Action::ToggleColor => &self.toggle_color,
            Action::ToggleReducedMotion => &self.toggle_reduced_motion,
            Action::ToggleHelp => &self.toggle_help,
            Action::Quit => &self.quit,
        }
    }

    /// A section that overrides nothing.
    pub fn empty() -> (r: KeysOverridesRaw)
        ensures
            forall|a: Action| r.field(a) is None,
    {
        KeysOverridesRaw {
            cycle_theme: None,
            next_panel: None,
            prev_panel: None,
            list_up: None,
            list_down: None,
            toggle_high_contrast: None,
            toggle_color: None,
            toggle_reduced_motion: None,
            toggle_help: None,
            quit: None,
        }
    }
}

/// The strings that the file gives for action `a`, if any.
pub open spec fn override_of(o: KeysOverridesRaw, a: Action) -> Option<Seq<Seq<char>>> {
    match o.field(a) {
        Some(v) => Some(v.strings_spec()),
        None => None,
    }
}

/// A whole configuration file.
#[derive(Debug, Clone, PartialEq, Eq)]
pub struct FileConfig {
    pub demo: DemoDefaultsRaw,
    pub keys: KeysOverridesRaw,
}

/// What a configuration file resolves to.
#[derive(Debug, Clone, PartialEq, Eq)]
pub struct LoadedConfigBundle {
    pub demo: DemoDefaults,
    pub keys: KeyBindings,
}

/// Why a configuration file is refused, over plain sequences.
pub enum ConfigFault {
    InvalidTheme(Seq<char>),
    EmptyBinding(Action),
    InvalidKeySpec(Action, Seq<char>, KeySpecFault),
    Bindings(BindingError),
}

/// Why a configuration file is refused.
#[derive(Debug, Clone, PartialEq, Eq)]
pub enum ConfigError {
    /// The theme name is not one of the built-in themes.
    InvalidTheme { name: String },
    /// An action is given an empty list of key specs.
    EmptyBinding { action: Action },
    /// A key-spec string for an action does not parse.
    InvalidKeySpec { action: Action, spec: String, error: KeySpecError },
    /// The merged binding table breaks a rule.
    Bindings(BindingError),
}

impl View for ConfigError {
    type V = ConfigFault;

    open spec fn view(&self) -> ConfigFault {
        match self {
            ConfigError::InvalidTheme { name } => ConfigFault::InvalidTheme(name@),
            ConfigError::EmptyBinding { action } => ConfigFault::EmptyBinding(*action),
            ConfigError::InvalidKeySpec { action, spec, error } => ConfigFault::InvalidKeySpec(
                *action,
                spec@,
                error@,
            ),
            ConfigError::Bindings(e) => ConfigFault::Bindings(*e),
        }
    }
}

/// Parses the strings in order and stops at the first that fails.
pub open spec fn parse_all(a: Action, v: Seq<Seq<char>>) -> Result<Seq<KeySpec>, ConfigFault>
    decreases v.len(),
{
    if v.len() == 0 {
        Ok(Seq::empty())
    } else {
        match parse_all(a, v.drop_last()) {
            Err(f) => Err(f),
            Ok(ks) => match parse_spec(v.last()) {
                Ok(k) => Ok(ks.push(k)),
                Err(f) => Err(ConfigFault::InvalidKeySpec(a, v.last(), f)),
            },
        }
    }
}

/// The chords that the strings for action `a` denote; an empty list is refused.
pub open spec fn parse_list_spec(a: Action, v: Seq<Seq<char>>) -> Result<Seq<KeySpec>, ConfigFault> {
    if v.len() == 0 {
        Err(ConfigFault::EmptyBinding(a))
    } else {
        parse_all(a, v)
    }
}

/// Replaces, from action `i` on in table order, each overridden list; stops at the first error.
pub open spec fn merge_from(base: BindingsView, o: KeysOverridesRaw, i: int) -> Result<
    BindingsView,
    ConfigFault,
>
    decreases ACTION_COUNT - i,
{
    if i >= ACTION_COUNT {
        Ok(base)
    } else {
        let a = action_at(i);
        match override_of(o, a) {
            None => merge_from(base, o, i + 1),
            Some(v) => match parse_list_spec(a, v) {
                Err(f) => Err(f),
                Ok(l) => merge_from(base.replace(a, l), o, i + 1),
            },
        }
    }
}

/// The table after the overrides, validated as a whole.
pub open spec fn apply_overrides_spec(base: BindingsView, o: KeysOverridesRaw) -> Result<
    BindingsView,
    ConfigFault,
> {
    match merge_from(base, o, 0) {
        Err(f) => Err(f),
        Ok(m) => match validate_spec(m) {
            Ok(_) => Ok(m),
            Err(e) => Err(ConfigFault::Bindings(e)),
        },
    }
}

pub open spec fn bindings_result_view(r: Result<KeyBindings, ConfigError>) -> Result<
    BindingsView,
    ConfigFault,
> {
    match r {
        Ok(kb) => Ok(kb@),
        Err(e) => Err(e@),
    }
}

proof fn lemma_parse_all_err_stays(a: Action, v: Seq<Seq<char>>, n: int, m: int)
    requires
        0 <= n <= m <= v.len(),
        parse_all(a, v.subrange(0, n)) is Err,
    ensures
        parse_all(a, v.subrange(0, m)) == parse_all(a, v.subrange(0, n)),
    decreases m - n,
{
    if n < m {
        lemma_parse_all_err_stays(a, v, n, m - 1);
        assert(v.subrange(0, m).drop_last() =~= v.subrange(0, m - 1));
    }
}

fn parse_strings(a: Action, v: &Vec<String>) -> (r: Result<Vec<KeySpec>, ConfigError>)
    ensures
        match r {
            Ok(ks) => parse_all(a, strings_view(v@)) == Ok::<Seq<KeySpec>, ConfigFault>(ks@),
            Err(e) => parse_all(a, strings_view(v@)) == Err::<Seq<KeySpec>, ConfigFault>(e@),
        },
{
    let ghost sv = strings_view(v@);
    let mut out: Vec<KeySpec> = Vec::new();
    let mut i: usize = 0;
    assert(sv.subrange(0, 0) =~= Seq::<Seq<char>>::empty());
    while i < v.len()
        invariant
            i <= v.len(),
            sv == strings_view(v@),
            parse_all(a, sv.subrange(0, i as int)) == Ok::<Seq<KeySpec>, ConfigFault>(out@),
        decreases v.len() - i,
    {
        let ghost pre = sv.subrange(0, (i + 1) as int);
        assert(pre.drop_last() =~= sv.subrange(0, i as int));
        assert(pre.last() == v@[i as int]@);
        match parse_key_spec(v[i].as_str()) {
            Ok(k) => {
                out.push(k);
            },
            Err(err) => {
                let e = ConfigError::InvalidKeySpec { action: a, spec: v[i].clone(), error: err };
                proof {
                    lemma_parse_all_err_stays(a, sv, (i + 1) as int, sv.len() as int);
                    assert(sv.subrange(0, sv.len() as int) =~= sv);
                }
                return Err(e);
            },
        }
        i += 1;
    }
    assert(sv.subrange(0, sv.len() as int) =~= sv);
    Ok(out)
}

/// The chords for action `a` from the file's strings.
fn parse_list(a: Action, values: &OneOrManyStrings) -> (r: Result<Vec<KeySpec>, ConfigError>)
    ensures
        match r {
            Ok(ks) => parse_list_spec(a, values.strings_spec()) == Ok::<
                Seq<KeySpec>,
                ConfigFault,
            >(ks@),
            Err(e) => parse_list_spec(a, values.strings_spec()) == Err::<
                Seq<KeySpec>,
                ConfigFault,
            >(e@),
        },
{
    match values {
        OneOrManyStrings::One(s) => {
            let ghost sv = values.strings_spec();
            assert(sv.drop_last() =~= Seq::<Seq<char>>::empty());
            assert(parse_all(a, sv.drop_last()) == Ok::<Seq<KeySpec>, ConfigFault>(Seq::empty()));
            match parse_key_spec(s.as_str()) {
                Ok(k) => {
                    let r = vec![k];
                    assert(r@ =~= Seq::<KeySpec>::empty().push(k));
                    Ok(r)
                },
                Err(err) => Err(ConfigError::InvalidKeySpec { action: a, spec: s.clone(), error: err }),
            }
        },
        OneOrManyStrings::Many(v) => {
            if v.len() == 0 {
                return Err(ConfigError::EmptyBinding { action: a });
            }
            parse_strings(a, v)
        },
    }
}

/// Replaces each overridden action's chords in `keymap`, then validates the merged table.
pub fn apply_keys_overrides(keymap: KeyBindings, overrides: &KeysOverridesRaw) -> (r: Result<
    KeyBindings,
    ConfigError,
>)
    ensures
        bindings_result_view(r) == apply_overrides_spec(keymap@, *overrides),
{
    let mut merged = keymap;
    let ghost base = merged@;
    let mut ai: usize = 0;
    while ai < ACTION_COUNT
        invariant
            ai <= ACTION_COUNT,
            base == keymap@,
            merge_from(base, *overrides, 0) == merge_from(merged@, *overrides, ai as int),
        decreases ACTION_COUNT - ai,
    {
        let a = crate::bindings::Action::at(ai);
        match overrides.get(a) {
            Some(values) => {
                match parse_list(a, values) {
                    Ok(list) => {
                        merged.set_chords(a, list);
                    },
                    Err(e) => {
                        assert(merge_from(merged@, *overrides, ai as int) == Err::<
                            BindingsView,
                            ConfigFault,
                        >(e@));
                        return Err(e);
                    },
                }
            },
            None => {},
        }
        ai += 1;
    }
    match merged.validate() {
        Ok(()) => Ok(merged),
        Err(e) => Err(ConfigError::Bindings(e)),
    }
}

/// What a configuration file resolves to: its optional settings and the built-in table with
/// its overrides.
pub open spec fn bundle_spec(raw: FileConfig) -> Result<(DemoDefaults, BindingsView), ConfigFault> {
    let theme = match raw.demo.theme {
        Some(n) => theme_named(trim(lower(n@))),
        None => None,
    };
    if raw.demo.theme is Some && theme is None {
        Err(ConfigFault::InvalidTheme(raw.demo.theme->Some_0@))
    } else {
        match apply_overrides_spec(default_bindings_view(), raw.keys) {
            Err(f) => Err(f),
            Ok(kb) => Ok(
                (
                    DemoDefaults {
                        theme,
                        no_color: raw.demo.no_color,
                        high_contrast: raw.demo.high_contrast,
                        reduced_motion: raw.demo.reduced_motion,
                    },
                    kb,
                ),
            ),
        }
    }
}

pub open spec fn bundle_result_view(r: Result<LoadedConfigBundle, ConfigError>) -> Result<
    (DemoDefaults, BindingsView),
    ConfigFault,
> {
    match r {
        Ok(b) => Ok((b.demo, b.keys@)),
        Err(e) => Err(e@),
    }
}

/// Resolves a configuration file's values: the theme name must be a built-in theme, and the key
/// overrides must parse and leave a valid table.
pub fn bundle_from_file_config(raw: &FileConfig) -> (r: Result<LoadedConfigBundle, ConfigError>)
    ensures
        bundle_result_view(r) == bundle_spec(*raw),
{
    let theme = match &raw.demo.theme {
        Some(name) => match ThemeName::parse(name.as_str()) {
            Some(t) => Some(t),
            None => {
                return Err(ConfigError::InvalidTheme { name: name.clone() });
            },
        },
        None => None,
    };
    let demo = DemoDefaults {
        theme,
        no_color: raw.demo.no_color,
        high_contrast: raw.demo.high_contrast,
        reduced_motion: raw.demo.reduced_motion,
    };
    let keys = match apply_keys_overrides(KeyBindings::default(), &raw.keys) {
        Ok(k) => k,
        Err(e) => {
            return Err(e);
        },
    };
    Ok(LoadedConfigBundle { demo, keys })
}

/// The bundle when no configuration file exists: nothing set, the built-in table.
pub fn default_bundle() -> (r: LoadedConfigBundle)
    ensures
        r.demo == (DemoDefaults {
            theme: None,
            no_color: None,
            high_contrast: None,
            reduced_motion: None,
        }),
        r.keys@ == default_bindings_view(),
{
    LoadedConfigBundle { demo: DemoDefaults::default(), keys: KeyBindings::default() }
}

/// The validated runtime configuration of the interactive demo.
#[derive(Debug, Clone, PartialEq, Eq)]
pub struct DemoRuntime {
    pub settings: DemoSettings,
    pub keys: KeyBindings,
}

/// The runtime configuration from the flags, the loaded configuration file and the
/// environment's no-color signal.
pub fn runtime_from_sources(args: &DemoArgs, loaded: LoadedConfigBundle, env_no_color: bool) -> (r:
    DemoRuntime)
    ensures
        r.settings == resolve_spec(*args, loaded.demo, env_no_color),
        r.keys == loaded.keys,
{
    let settings = resolve_with_sources(args, &loaded.demo, env_no_color);
    DemoRuntime { settings, keys: loaded.keys }
}

impl ConfigError {
    pub open spec fn message_spec(&self) -> Seq<char> {
        match self {
            ConfigError::InvalidTheme { name } => "invalid theme '"@ + name@
                + "'. valid themes: aurora, mono, solar"@,
            ConfigError::EmptyBinding { action } => "key binding '"@ + action.name_spec()
                + "' must not be empty"@,
            ConfigError::InvalidKeySpec { action, spec, error } => "invalid key spec '"@ + spec@
                + "' for '"@ + action.name_spec() + "': "@ + error.message_spec(),
            ConfigError::Bindings(e) => "invalid key bindings configuration: "@ + e.message_spec(),
        }
    }

    /// A human-readable description of the error.
    pub fn message(&self) -> (r: String)
        ensures
            r@ == self.message_spec(),
    {
        let mut out = String::new();
        match self {
            ConfigError::InvalidTheme { name } => {
                out.append("invalid theme '");
                out.append(name.as_str());
                out.append("'. valid themes: aurora, mono, solar");
            },
            ConfigError::EmptyBinding { action } => {
                out.append("key binding '");
                out.append(action.name());
                out.append("' must not be empty");
            },
            ConfigError::InvalidKeySpec { action, spec, error } => {
                out.append("invalid key spec '");
                out.append(spec.as_str());
                out.append("' for '");
                out.append(action.name());
                out.append("': ");
                out.append(error.message().as_str());
            },
            ConfigError::Bindings(e) => {
                out.append("invalid key bindings configuration: ");
                out.append(e.message().as_str());
            },
        }
        assert(out@ =~= self.message_spec());
        out
    }
}

} // verus!
