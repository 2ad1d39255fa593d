//! Key chords: the key-spec language, its canonical display, and matching against key events.
use crate::text::{
    chars_eq, chars_of, lower, lower_chars, push_char, slice_chars, string_of,
    trim, trim_chars,
};
use vstd::prelude::*;

verus! {

/// The key of a chord or of a key event.
#[derive(Debug, Clone, Copy, PartialEq, Eq, Hash, Structural)]
pub enum KeyCode {
    Char(char),
    Esc,
    Enter,
    Tab,
    BackTab,
    Up,
    Down,
    Left,
    Right,
    /// A key outside the key-spec vocabulary (function keys, Home, ...); only events carry it.
    Other,
}

/// The modifier set of a chord: each of control, alt and shift present or absent.
#[derive(Debug, Clone, Copy, PartialEq, Eq, Hash, Structural)]
pub struct KeyModifiers {
    pub control: bool,
    pub alt: bool,
    pub shift: bool,
}

/// A key chord: one key plus an exact modifier set.
#[derive(Debug, Clone, Copy, PartialEq, Eq, Hash, Structural)]
pub struct KeySpec {
    pub code: KeyCode,
    pub modifiers: KeyModifiers,
}

/// A key press as the terminal reports it.
#[derive(Debug, Clone, Copy, PartialEq, Eq, Hash, Structural)]
pub struct KeyEvent {
    pub code: KeyCode,
    pub modifiers: KeyModifiers,
    /// Some modifier other than control, alt and shift was held (super, hyper, meta).
    pub extra_modifiers: bool,
}

/// Why a key-spec string was rejected, over plain sequences.
pub enum KeySpecFault {
    Empty,
    UnsupportedModifier(Seq<char>),
    MultiCharacter(Seq<char>),
}

/// Why a key-spec string was rejected; the token is lowercased.
#[derive(Debug, Clone, PartialEq, Eq)]
pub enum KeySpecError {
    Empty,
    UnsupportedModifier { token: String },
    MultiCharacter { token: String },
}

impl View for KeySpecError {
    type V = KeySpecFault;

    open spec fn view(&self) -> KeySpecFault {
        match self {
            KeySpecError::Empty => KeySpecFault::Empty,
            KeySpecError::UnsupportedModifier { token } => KeySpecFault::UnsupportedModifier(token@),
            KeySpecError::MultiCharacter { token } => KeySpecFault::MultiCharacter(token@),
        }
    }
}

pub open spec fn parse_result_view(r: Result<KeySpec, KeySpecError>) -> Result<KeySpec, KeySpecFault> {
    match r {
        Ok(k) => Ok(k),
        Err(e) => Err(e@),
    }
}

pub open spec fn no_modifiers() -> KeyModifiers {
    KeyModifiers { control: false, alt: false, shift: false }
}

pub open spec fn mods_union(a: KeyModifiers, b: KeyModifiers) -> KeyModifiers {
    KeyModifiers { control: a.control || b.control, alt: a.alt || b.alt, shift: a.shift || b.shift }
}

/// The modifier that a (lowercase, trimmed) token names.
pub open spec fn modifier_of(tok: Seq<char>) -> Option<KeyModifiers> {
    if tok == "ctrl"@ || tok == "control"@ {
        Some(KeyModifiers { control: true, ..no_modifiers() })
    } else if tok == "alt"@ {
        Some(KeyModifiers { alt: true, ..no_modifiers() })
    } else if tok == "shift"@ {
        Some(KeyModifiers { shift: true, ..no_modifiers() })
    } else {
        None
    }
}

/// The key that a (lowercase) name denotes.
pub open spec fn named_key(tok: Seq<char>) -> Option<KeyCode> {
    if tok == "esc"@ || tok == "escape"@ {
        Some(KeyCode::Esc)
    } else if tok == "enter"@ || tok == "return"@ {
        Some(KeyCode::Enter)
    } else if tok == "tab"@ {
        Some(KeyCode::Tab)
    } else if tok == "backtab"@ {
        Some(KeyCode::BackTab)
    } else if tok == "space"@ {
        Some(KeyCode::Char(' '))
    } else if tok == "up"@ {
        Some(KeyCode::Up)
    } else if tok == "down"@ {
        Some(KeyCode::Down)
    } else if tok == "left"@ {
        Some(KeyCode::Left)
    } else if tok == "right"@ {
        Some(KeyCode::Right)
    } else {
        None
    }
}

/// The chord for the key segment `tok` (trimmed, lowercase) under `mods`.
pub open spec fn key_of(tok: Seq<char>, mods: KeyModifiers) -> Result<KeySpec, KeySpecFault> {
    match named_key(tok) {
        Some(code) => Ok(KeySpec { code, modifiers: mods }),
        None => if tok.len() == 0 {
            Err(KeySpecFault::Empty)
        } else if tok.len() == 1 {
            Ok(KeySpec { code: KeyCode::Char(tok[0]), modifiers: mods })
        } else {
            Err(KeySpecFault::MultiCharacter(tok))
        },
    }
}

/// Index of the first `+` in `s`, or `s.len()` if there is none.
pub open spec fn plus_index(s: Seq<char>) -> int
    decreases s.len(),
{
    if s.len() == 0 {
        0
    } else if s[0] == '+' {
        0
    } else {
        1 + plus_index(s.drop_first())
    }
}

/// Parses `t` as `modifier + ... + key`, adding the modifiers met to `mods`.
pub open spec fn parse_segments(t: Seq<char>, mods: KeyModifiers) -> Result<KeySpec, KeySpecFault>
    decreases t.len(),
{
    let i = plus_index(t);
    if 0 <= i < t.len() {
        let tok = trim(t.subrange(0, i));
        match modifier_of(tok) {
            Some(m) => parse_segments(t.subrange(i + 1, t.len() as int), mods_union(mods, m)),
            None => Err(KeySpecFault::UnsupportedModifier(tok)),
        }
    } else {
        key_of(trim(t), mods)
    }
}

/// What a key-spec string denotes. Letters are matched without regard to ASCII case.
pub open spec fn parse_spec(s: Seq<char>) -> Result<KeySpec, KeySpecFault> {
    let t = trim(lower(s));
    if t.len() == 0 {
        Err(KeySpecFault::Empty)
    } else {
        parse_segments(t, no_modifiers())
    }
}

/// The canonical name of a key.
pub open spec fn code_name(code: KeyCode) -> Seq<char> {
    match code {
        KeyCode::Char(c) => if c == ' ' {
            "space"@
        } else {
            seq![c]
        },
        KeyCode::Esc => "esc"@,
        KeyCode::Enter => "enter"@,
        KeyCode::Tab => "tab"@,
        KeyCode::BackTab => "backtab"@,
        KeyCode::Up => "up"@,
        KeyCode::Down => "down"@,
        KeyCode::Left => "left"@,
        KeyCode::Right => "right"@,
        KeyCode::Other => "unknown"@,
    }
}

/// The canonical text of a chord: modifiers in the order ctrl, alt, shift, then the key.
pub open spec fn display_spec(k: KeySpec) -> Seq<char> {
    (if k.modifiers.control {
        "ctrl+"@
    } else {
        Seq::empty()
    }) + (if k.modifiers.alt {
        "alt+"@
    } else {
        Seq::empty()
    }) + (if k.modifiers.shift {
        "shift+"@
    } else {
        Seq::empty()
    }) + code_name(k.code)
}

/// An event matches a chord when key and modifiers are exactly equal.
pub open spec fn matches_spec(k: KeySpec, e: KeyEvent) -> bool {
    e.code == k.code && e.modifiers == k.modifiers && !e.extra_modifiers
}

impl KeySpec {
    pub fn matches(self, event: KeyEvent) -> (r: bool)
        ensures
            r == matches_spec(self, event),
    {
        event.code == self.code && event.modifiers == self.modifiers && !event.extra_modifiers
    }
}

pub proof fn lemma_plus_index(u: Seq<char>, j: int)
    requires
        0 <= j <= u.len(),
        forall|k: int| 0 <= k < j ==> u[k] != '+',
        j == u.len() || u[j] == '+',
    ensures
        plus_index(u) == j,
    decreases j,
{
    if j > 0 {
        lemma_plus_index(u.drop_first(), j - 1);
    }
}

fn modifier_of_chars(tok: &Vec<char>) -> (r: Option<KeyModifiers>)
    ensures
        r == modifier_of(tok@),
{
    let none = KeyModifiers { control: false, alt: false, shift: false };
    if chars_eq(tok, "ctrl") || chars_eq(tok, "control") {
        Some(KeyModifiers { control: true, ..none })
    } else if chars_eq(tok, "alt") {
        Some(KeyModifiers { alt: true, ..none })
    } else if chars_eq(tok, "shift") {
        Some(KeyModifiers { shift: true, ..none })
    } else {
        None
    }
}

fn named_key_chars(tok: &Vec<char>) -> (r: Option<KeyCode>)
    ensures
        r == named_key(tok@),
{
    if chars_eq(tok, "esc") || chars_eq(tok, "escape") {
        Some(KeyCode::Esc)
    } else if chars_eq(tok, "enter") || chars_eq(tok, "return") {
        Some(KeyCode::Enter)
    } else if chars_eq(tok, "tab") {
        Some(KeyCode::Tab)
    } else if chars_eq(tok, "backtab") {
        Some(KeyCode::BackTab)
    } else if chars_eq(tok, "space") {
        Some(KeyCode::Char(' '))
    } else if chars_eq(tok, "up") {
        Some(KeyCode::Up)
    } else if chars_eq(tok, "down") {
        Some(KeyCode::Down)
    } else if chars_eq(tok, "left") {
        Some(KeyCode::Left)
    } else if chars_eq(tok, "right") {
        Some(KeyCode::Right)
    } else {
        None
    }
}

fn key_of_chars(tok: &Vec<char>, mods: KeyModifiers) -> (r: Result<KeySpec, KeySpecError>)
    ensures
        parse_result_view(r) == key_of(tok@, mods),
{
    match named_key_chars(tok) {
        Some(code) => Ok(KeySpec { code, modifiers: mods }),
        None => {
            if tok.len() == 0 {
                Err(KeySpecError::Empty)
            } else if tok.len() == 1 {
                Ok(KeySpec { code: KeyCode::Char(tok[0]), modifiers: mods })
            } else {
                Err(KeySpecError::MultiCharacter { token: string_of(tok) })
            }
        },
    }
}

/// Parses a key spec such as `"t"`, `"ctrl+c"` or `"shift+alt+tab"`.
pub fn parse_key_spec(value: &str) -> (r: Result<KeySpec, KeySpecError>)
    ensures
        parse_result_view(r) == parse_spec(value@),
{
    let raw = chars_of(value);
    let low = lower_chars(&raw);
    let t = trim_chars(&low);
    if t.len() == 0 {
        return Err(KeySpecError::Empty);
    }
    let n = t.len();
    let mut mods = KeyModifiers { control: false, alt: false, shift: false };
    let mut start: usize = 0;
    let mut i: usize = 0;
    assert(t@.subrange(0, n as int) =~= t@);
    while i < n
        invariant
            n == t.len(),
            start <= i <= n,
            parse_spec(value@) == parse_segments(t@, no_modifiers()),
            forall|k: int| start <= k < i ==> t@[k] != '+',
            parse_segments(t@, no_modifiers()) == parse_segments(
                t@.subrange(start as int, n as int),
                mods,
            ),
        decreases n - i,
    {
        if t[i] == '+' {
            let ghost u = t@.subrange(start as int, n as int);
            proof {
                lemma_plus_index(u, (i - start) as int);
                assert(u.subrange(0, (i - start) as int) =~= t@.subrange(start as int, i as int));
                assert(u.subrange((i - start + 1) as int, u.len() as int) =~= t@.subrange(
                    (i + 1) as int,
                    n as int,
                ));
            }
            let seg = slice_chars(&t, start, i);
            let tok = trim_chars(&seg);
            match modifier_of_chars(&tok) {
                Some(m) => {
                    mods = KeyModifiers {
                        control: mods.control || m.control,
                        alt: mods.alt || m.alt,
                        shift: mods.shift || m.shift,
                    };
                },
                None => {
                    assert(parse_segments(u, mods) == Err::<KeySpec, KeySpecFault>(
                        KeySpecFault::UnsupportedModifier(tok@),
                    ));
                    let token = string_of(&tok);
                    let e = KeySpecError::UnsupportedModifier { token };
                    assert(e@ == KeySpecFault::UnsupportedModifier(tok@));
                    return Err(e);
                },
            }
            start = i + 1;
        }
        i += 1;
    }
    let ghost u = t@.subrange(start as int, n as int);
    proof {
        lemma_plus_index(u, u.len() as int);
    }
    let seg = slice_chars(&t, start, n);
    let key = trim_chars(&seg);
    key_of_chars(&key, mods)
}

/// The canonical text of a chord, e.g. `"ctrl+alt+x"`.
pub fn key_spec_display(spec: KeySpec) -> (r: String)
    ensures
        r@ == display_spec(spec),
{
    let mut out = String::new();
    let ghost p0 = out@;
    if spec.modifiers.control {
        out.append("ctrl+");
    }
    let ghost p1 = out@;
    if spec.modifiers.alt {
        out.append("alt+");
    }
    let ghost p2 = out@;
    if spec.modifiers.shift {
        out.append("shift+");
    }
    let ghost p3 = out@;
    match spec.code {
        KeyCode::Char(c) => {
            if c == ' ' {
                out.append("space");
            } else {
                push_char(&mut out, c);
            }
        },
        KeyCode::Esc => out.append("esc"),
        KeyCode::Enter => out.append("enter"),
        KeyCode::Tab => out.append("tab"),
        KeyCode::BackTab => out.append("backtab"),
        KeyCode::Up => out.append("up"),
        KeyCode::Down => out.append("down"),
        KeyCode::Left => out.append("left"),
        KeyCode::Right => out.append("right"),
        KeyCode::Other => out.append("unknown"),
    }
    assert(out@ =~= display_spec(spec));
    out
}

impl KeySpecError {
    pub open spec fn message_spec(&self) -> Seq<char> {
        match self {
            KeySpecError::Empty => "empty key spec"@,
            KeySpecError::UnsupportedModifier { token } => "unsupported modifier '"@ + token@
                + "'"@,
            KeySpecError::MultiCharacter { token } => "unsupported multi-character key spec '"@
                + token@ + "'"@,
        }
    }

    /// A human-readable description of the error.
    pub fn message(&self) -> (r: String)
        ensures
            r@ == self.message_spec(),
    {
        let mut out = String::new();
        match self {
            KeySpecError::Empty => {
                out.append("empty key spec");
            },
            KeySpecError::UnsupportedModifier { token } => {
                out.append("unsupported modifier '");
                out.append(token.as_str());
                out.append("'");
            },
            KeySpecError::MultiCharacter { token } => {
                out.append("unsupported multi-character key spec '");
                out.append(token.as_str());
                out.append("'");
            },
        }
        assert(out@ =~= self.message_spec());
        out
    }
}

} // verus!
