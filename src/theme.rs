//! The built-in themes and their accessibility variants.
use crate::cli::ThemeName;
use vstd::prelude::*;

verus! {

/// A terminal color, named as the terminal knows it.
#[derive(Debug, Clone, Copy, PartialEq, Eq, Hash, Structural)]
pub enum Color {
    Reset,
    Black,
    Red,
    Green,
    Yellow,
    Gray,
    DarkGray,
    LightRed,
    LightGreen,
    LightBlue,
    White,
}

/// The colors a theme paints with.
#[derive(Debug, Clone, Copy, PartialEq, Eq, Hash, Structural)]
pub struct ThemePalette {
    pub fg: Color,
    pub bg: Color,
    pub accent: Color,
    pub muted: Color,
    pub success: Color,
    pub danger: Color,
}

#[derive(Debug, Clone, Copy)]
pub struct Theme {
    pub name: &'static str,
    pub description: &'static str,
    pub palette: ThemePalette,
}

/// Every color left to the terminal.
pub open spec fn reset_palette() -> ThemePalette {
    ThemePalette {
        fg: Color::Reset,
        bg: Color::Reset,
        accent: Color::Reset,
        muted: Color::Reset,
        success: Color::Reset,
        danger: Color::Reset,
    }
}

/// White on black with bright accents.
pub open spec fn high_contrast_palette() -> ThemePalette {
    ThemePalette {
        fg: Color::White,
        bg: Color::Black,
        accent: Color::Yellow,
        muted: Color::Gray,
        success: Color::Green,
        danger: Color::Red,
    }
}

impl Theme {
    /// The theme as shown under the accessibility switches: no color wins over high contrast.
    pub fn with_accessibility(self, high_contrast: bool, no_color: bool) -> (r: Theme)
        ensures
            r.name == self.name,
            r.description == self.description,
            r.palette == (if no_color {
                reset_palette()
            } else if high_contrast {
                high_contrast_palette()
            } else {
                self.palette
            }),
    {
        let mut out = self;
        if no_color {
            out.palette = ThemePalette {
                fg: Color::Reset,
                bg: Color::Reset,
                accent: Color::Reset,
                muted: Color::Reset,
                success: Color::Reset,
                danger: Color::Reset,
            };
            return out;
        }
        if high_contrast {
            out.palette = ThemePalette {
                fg: Color::White,
                bg: Color::Black,
                accent: Color::Yellow,
                muted: Color::Gray,
                success: Color::Green,
                danger: Color::Red,
            };
        }
        out
    }
}

pub const THEME_COUNT: usize = 3;

/// The built-in themes, in the order of `ThemeName`, each under its name.
pub fn themes() -> (r: Vec<Theme>)
    ensures
        r@.len() == THEME_COUNT,
        r@[0].name@ == ThemeName::Aurora.name_spec(),
        r@[1].name@ == ThemeName::Mono.name_spec(),
        r@[2].name@ == ThemeName::Solar.name_spec(),
        r@[0].palette.accent == Color::LightBlue,
        r@[1].palette.accent == Color::Gray,
        r@[2].palette.accent == Color::Yellow,
{
    vec![
        Theme {
            name: ThemeName::Aurora.as_str(),
            description: "Cool blues with a calm accent",
            palette: ThemePalette {
                fg: Color::White,
                bg: Color::Black,
                accent: Color::LightBlue,
                muted: Color::Gray,
                success: Color::LightGreen,
                danger: Color::LightRed,
            },
        },
        Theme {
            name: ThemeName::Mono.as_str(),
            description: "Neutral monochrome for maximum focus",
            palette: ThemePalette {
                fg: Color::White,
                bg: Color::Black,
                accent: Color::Gray,
                muted: Color::DarkGray,
                success: Color::White,
                danger: Color::White,
            },
        },
        Theme {
            name: ThemeName::Solar.as_str(),
            description: "Warm highlights with soft contrast",
            palette: ThemePalette {
                fg: Color::White,
                bg: Color::Black,
                accent: Color::Yellow,
                muted: Color::Gray,
                success: Color::LightGreen,
                danger: Color::LightRed,
            },
        },
    ]
}

} // verus!
