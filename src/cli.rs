//! The command-line model: subcommands, their flags, and theme names.
use crate::text::{chars_eq, chars_of, lower, lower_chars, trim, trim_chars};
use vstd::prelude::*;

verus! {

/// The built-in themes.
#[derive(Debug, Clone, Copy, PartialEq, Eq, Hash, Structural)]
pub enum ThemeName {
    Aurora,
    Mono,
    Solar,
}

/// The theme that a (trimmed, lowercase) name denotes.
pub open spec fn theme_named(t: Seq<char>) -> Option<ThemeName> {
    if t == "aurora"@ {
        Some(ThemeName::Aurora)
    } else if t == "mono"@ {
        Some(ThemeName::Mono)
    } else if t == "solar"@ {
        Some(ThemeName::Solar)
    } else {
        None
    }
}

impl ThemeName {
    pub open spec fn name_spec(self) -> Seq<char> {
        match self {
            ThemeName::Aurora => "aurora"@,
            ThemeName::Mono => "mono"@,
            ThemeName::Solar => "solar"@,
        }
    }

    pub fn as_str(self) -> (r: &'static str)
        ensures
            r@ == self.name_spec(),
    {
        match self {
            ThemeName::Aurora => "aurora",
            ThemeName::Mono => "mono",
            ThemeName::Solar => "solar",
        }
    }

    /// The theme named by `value`, ignoring surrounding white space and ASCII case.
    pub fn parse(value: &str) -> (r: Option<ThemeName>)
        ensures
            r == theme_named(trim(lower(value@))),
    {
        let raw = chars_of(value);
        let low = lower_chars(&raw);
        let t = trim_chars(&low);
        if chars_eq(&t, "aurora") {
            Some(ThemeName::Aurora)
        } else if chars_eq(&t, "mono") {
            Some(ThemeName::Mono)
        } else if chars_eq(&t, "solar") {
            Some(ThemeName::Solar)
        } else {
            None
        }
    }
}

/// Every theme's name parses back to that theme.
pub proof fn lemma_theme_name_round_trip(t: ThemeName)
    ensures
        theme_named(trim(lower(t.name_spec()))) == Some(t),
{
    reveal_strlit("aurora");
    reveal_strlit("mono");
    reveal_strlit("solar");
    let n = t.name_spec();
    assert(lower(n) =~= n);
    assert(trim(n) == n);
}

/// Human-readable or machine-readable output.
#[derive(Debug, Clone, Copy, PartialEq, Eq, Structural)]
pub enum OutputFormat {
    Text,
    Json,
}

/// Flags of the interactive demo. Each force-on flag has a force-off partner; the two are never
/// both set.
#[derive(Debug, Clone, PartialEq, Eq)]
pub struct DemoArgs {
    pub theme: Option<ThemeName>,
    pub no_color: bool,
    pub color: bool,
    pub high_contrast: bool,
    pub normal_contrast: bool,
    pub reduced_motion: bool,
    pub motion: bool,
    pub mouse: bool,
    pub config: Option<String>,
    pub no_tty: bool,
    pub width: Option<u16>,
    pub height: Option<u16>,
}

#[derive(Debug, Clone, PartialEq, Eq)]
pub struct ThemesArgs {
    pub format: OutputFormat,
}

#[derive(Debug, Clone, PartialEq, Eq)]
pub struct KeysArgs {
    pub config: Option<String>,
    pub format: OutputFormat,
}

#[derive(Debug, Clone, PartialEq, Eq)]
pub struct ConfigInitArgs {
    pub force: bool,
    pub stdout: bool,
}

#[derive(Debug, Clone, PartialEq, Eq)]
pub struct ConfigValidateArgs {
    pub config: Option<String>,
    pub format: OutputFormat,
}

#[derive(Debug, Clone, PartialEq, Eq)]
pub enum ConfigCommands {
    Init(ConfigInitArgs),
    Validate(ConfigValidateArgs),
}

#[derive(Debug, Clone, PartialEq, Eq)]
pub struct ConfigArgs {
    pub command: ConfigCommands,
}

#[derive(Debug, Clone, PartialEq, Eq)]
pub enum Commands {
    Demo(DemoArgs),
    Themes(ThemesArgs),
    Keys(KeysArgs),
    Config(ConfigArgs),
}

#[derive(Debug, Clone, PartialEq, Eq)]
pub struct Cli {
    pub command: Commands,
}

} // verus!
