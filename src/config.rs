//! Settings resolution: command-line flags over the configuration file over the environment over
//! the built-in defaults, field by field.
use crate::cli::{DemoArgs, ThemeName};
use crate::text::{chars_eq, chars_of};
use vstd::prelude::*;

verus! {

/// The resolved startup settings.
#[derive(Debug, Clone, Copy, PartialEq, Eq, Structural)]
pub struct DemoSettings {
    pub theme: ThemeName,
    pub no_color: bool,
    pub high_contrast: bool,
    pub reduced_motion: bool,
}

/// The settings that a configuration file gives, each optional.
#[derive(Debug, Clone, Copy, PartialEq, Eq, Structural)]
pub struct DemoDefaults {
    pub theme: Option<ThemeName>,
    pub no_color: Option<bool>,
    pub high_contrast: Option<bool>,
    pub reduced_motion: Option<bool>,
}

impl Default for DemoDefaults {
    fn default() -> (r: DemoDefaults)
        ensures
            r == (DemoDefaults {
                theme: None,
                no_color: None,
                high_contrast: None,
                reduced_motion: None,
            }),
    {
        DemoDefaults { theme: None, no_color: None, high_contrast: None, reduced_motion: None }
    }
}

/// Field by field: an explicit flag, else the file's value, else the environment (color only),
/// else the built-in default.
pub open spec fn resolve_spec(args: DemoArgs, d: DemoDefaults, env_no_color: bool) -> DemoSettings {
    DemoSettings {
        theme: match args.theme {
            Some(t) => t,
            None => match d.theme {
                Some(t) => t,
                None => ThemeName::Aurora,
            },
        },
        no_color: if args.no_color {
            true
        } else if args.color {
            false
        } else {
            match d.no_color {
                Some(v) => v,
                None => env_no_color,
            }
        },
        high_contrast: if args.high_contrast {
            true
        } else if args.normal_contrast {
            false
        } else {
            match d.high_contrast {
                Some(v) => v,
                None => false,
            }
        },
        reduced_motion: if args.reduced_motion {
            true
        } else if args.motion {
            false
        } else {
            match d.reduced_motion {
                Some(v) => v,
                None => false,
            }
        },
    }
}

pub fn resolve_with_sources(args: &DemoArgs, defaults: &DemoDefaults, env_no_color: bool) -> (r:
    DemoSettings)
    ensures
        r == resolve_spec(*args, *defaults, env_no_color),
{
    let theme = match args.theme {
        Some(t) => t,
        None => match defaults.theme {
            Some(t) => t,
            None => ThemeName::Aurora,
        },
    };
    let no_color = if args.no_color {
        true
    } else if args.color {
        false
    } else {
        match defaults.no_color {
            Some(v) => v,
            None => env_no_color,
        }
    };
    let high_contrast = if args.high_contrast {
        true
    } else if args.normal_contrast {
        false
    } else {
        match defaults.high_contrast {
            Some(v) => v,
            None => false,
        }
    };
    let reduced_motion = if args.reduced_motion {
        true
    } else if args.motion {
        false
    } else {
        match defaults.reduced_motion {
            Some(v) => v,
            None => false,
        }
    };
    DemoSettings { theme, no_color, high_contrast, reduced_motion }
}

/// Precedence of the settings sources: an explicit flag beats the file and the environment; a
/// file value beats the environment and the built-in default; with neither, a no-color signal
/// from the environment disables color.
pub proof fn lemma_settings_precedence(args: DemoArgs, d: DemoDefaults, env_no_color: bool)
    ensures
        args.theme is Some ==> resolve_spec(args, d, env_no_color).theme == args.theme->Some_0,
        args.no_color ==> resolve_spec(args, d, env_no_color).no_color,
        args.color && !args.no_color ==> !resolve_spec(args, d, env_no_color).no_color,
        args.high_contrast ==> resolve_spec(args, d, env_no_color).high_contrast,
        args.normal_contrast && !args.high_contrast ==> !resolve_spec(
            args,
            d,
            env_no_color,
        ).high_contrast,
        args.reduced_motion ==> resolve_spec(args, d, env_no_color).reduced_motion,
        args.motion && !args.reduced_motion ==> !resolve_spec(args, d, env_no_color).reduced_motion,
        args.theme is None && d.theme is Some ==> resolve_spec(args, d, env_no_color).theme
            == d.theme->Some_0,
        !args.no_color && !args.color && d.no_color is Some ==> resolve_spec(
            args,
            d,
            env_no_color,
        ).no_color == d.no_color->Some_0,
        !args.high_contrast && !args.normal_contrast && d.high_contrast is Some ==> resolve_spec(
            args,
            d,
            env_no_color,
        ).high_contrast == d.high_contrast->Some_0,
        !args.reduced_motion && !args.motion && d.reduced_motion is Some ==> resolve_spec(
            args,
            d,
            env_no_color,
        ).reduced_motion == d.reduced_motion->Some_0,
        !args.no_color && !args.color && d.no_color is None && env_no_color ==> resolve_spec(
            args,
            d,
            env_no_color,
        ).no_color,
{
}

/// Color is off when `NO_COLOR` is present (whatever its value), when `TERM` is `dumb`, or when
/// `CLICOLOR` is `0`.
pub open spec fn env_disables_color_spec(
    no_color: Option<Seq<char>>,
    clicolor: Option<Seq<char>>,
    term: Option<Seq<char>>,
) -> bool {
    no_color is Some || term == Some("dumb"@) || clicolor == Some("0"@)
}

pub open spec fn opt_view(o: Option<&str>) -> Option<Seq<char>> {
    match o {
        Some(s) => Some(s@),
        None => None,
    }
}

fn is_some_text(o: Option<&str>, w: &str) -> (r: bool)
    ensures
        r == (opt_view(o) == Some(w@)),
{
    match o {
        Some(s) => {
            let v = chars_of(s);
            chars_eq(&v, w)
        },
        None => false,
    }
}

/// Whether the environment asks for no color; the values are those of `NO_COLOR`, `CLICOLOR` and
/// `TERM`, `None` where unset or not valid UTF-8.
pub fn env_disables_color(no_color: Option<&str>, clicolor: Option<&str>, term: Option<&str>) -> (r:
    bool)
    ensures
        r == env_disables_color_spec(opt_view(no_color), opt_view(clicolor), opt_view(term)),
{
    if no_color.is_some() {
        return true;
    }
    if is_some_text(term, "dumb") {
        return true;
    }
    is_some_text(clicolor, "0")
}

/// A commented starter configuration file holding the built-in settings and keys.
pub fn starter_config_toml() -> &'static str {
    "# cli-tui-starter config
#
# Precedence:
# 1) CLI flags
# 2) Config file values
# 3) Built-in defaults and NO_COLOR/CLICOLOR=0/TERM=dumb

[demo]
# theme = \"aurora\"         # aurora | mono | solar
theme = \"aurora\"
no_color = false
high_contrast = false
reduced_motion = false

[keys]
cycle_theme = \"t\"
next_panel = \"tab\"
prev_panel = \"backtab\"
list_up = \"up\"
list_down = \"down\"
toggle_high_contrast = \"h\"
toggle_color = \"c\"
toggle_reduced_motion = \"r\"
toggle_help = \"?\"
quit = [\"q\", \"esc\"]        # `esc` and `ctrl+c` always quit even if not listed
"
}

} // verus!
