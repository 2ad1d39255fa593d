//! Laws of the key-spec language: canonical display round-trips, and case does not matter.
use crate::keys::{
    code_name, display_spec, modifier_of, mods_union, named_key, no_modifiers,
    parse_segments, parse_spec, plus_index, KeyCode, KeyModifiers, KeySpec,
};
use crate::text::{is_space_spec, lower, lower_char, trim, trim_end, trim_start};
use vstd::prelude::*;

verus! {

/// The chords that parsing can produce: keys of the vocabulary, and character keys that are
/// space, or else neither white space, `+`, nor an ASCII capital.
pub open spec fn canonical_chord(k: KeySpec) -> bool {
    match k.code {
        KeyCode::Char(c) => c == ' ' || (!is_space_spec(c) && c != '+' && lower_char(c) == c),
        KeyCode::Other => false,
        _ => true,
    }
}

proof fn lemma_trim_start_keeps(s: Seq<char>, p: spec_fn(char) -> bool)
    requires
        forall|i: int| 0 <= i < s.len() ==> p(s[i]),
    ensures
        forall|i: int| 0 <= i < trim_start(s).len() ==> p(trim_start(s)[i]),
    decreases s.len(),
{
    if s.len() > 0 && is_space_spec(s[0]) {
        assert forall|i: int| 0 <= i < s.drop_first().len() implies p(s.drop_first()[i]) by {
            assert(s.drop_first()[i] == s[i + 1]);
        }
        lemma_trim_start_keeps(s.drop_first(), p);
        assert(trim_start(s) == trim_start(s.drop_first()));
    } else {
        assert(trim_start(s) == s);
    }
}

proof fn lemma_trim_end_prefix(s: Seq<char>)
    ensures
        trim_end(s).len() <= s.len(),
        trim_end(s) == s.subrange(0, trim_end(s).len() as int),
    decreases s.len(),
{
    if s.len() > 0 && is_space_spec(s.last()) {
        lemma_trim_end_prefix(s.drop_last());
    } else {
        assert(s.subrange(0, s.len() as int) =~= s);
    }
}

proof fn lemma_trim_start_first(s: Seq<char>)
    ensures
        trim_start(s).len() > 0 ==> !is_space_spec(trim_start(s)[0]),
    decreases s.len(),
{
    if s.len() > 0 && is_space_spec(s[0]) {
        lemma_trim_start_first(s.drop_first());
    }
}

/// Every property of all chars of `s` holds of all chars of `trim(s)`, whose first char is no
/// white space.
proof fn lemma_trim_keeps(s: Seq<char>, p: spec_fn(char) -> bool)
    requires
        forall|i: int| 0 <= i < s.len() ==> p(s[i]),
    ensures
        forall|i: int| 0 <= i < trim(s).len() ==> p(trim(s)[i]),
        trim(s).len() > 0 ==> !is_space_spec(trim(s)[0]),
{
    lemma_trim_start_keeps(s, p);
    lemma_trim_start_first(s);
    lemma_trim_end_prefix(trim_start(s));
}

proof fn lemma_no_plus(t: Seq<char>)
    requires
        plus_index(t) >= t.len(),
    ensures
        forall|k: int| 0 <= k < t.len() ==> t[k] != '+',
    decreases t.len(),
{
    if t.len() > 0 {
        lemma_no_plus(t.drop_first());
        assert forall|k: int| 0 <= k < t.len() implies t[k] != '+' by {
            if k > 0 {
                assert(t[k] == t.drop_first()[k - 1]);
            }
        }
    }
}

proof fn lemma_plus_index_bounds(t: Seq<char>)
    ensures
        0 <= plus_index(t) <= t.len(),
    decreases t.len(),
{
    if t.len() > 0 {
        lemma_plus_index_bounds(t.drop_first());
    }
}

proof fn lemma_segments_canonical(t: Seq<char>, mods: KeyModifiers)
    requires
        forall|i: int| 0 <= i < t.len() ==> lower_char(t[i]) == t[i],
        parse_segments(t, mods) is Ok,
    ensures
        canonical_chord(parse_segments(t, mods)->Ok_0),
    decreases t.len(),
{
    let i = plus_index(t);
    lemma_plus_index_bounds(t);
    if 0 <= i < t.len() {
        let tok = trim(t.subrange(0, i));
        if let Some(m) = modifier_of(tok) {
            lemma_segments_canonical(t.subrange(i + 1, t.len() as int), mods_union(mods, m));
        }
    } else {
        let tok = trim(t);
        lemma_no_plus(t);
        lemma_trim_keeps(t, |c: char| c != '+' && lower_char(c) == c);
        if named_key(tok) is None && tok.len() == 1 {
            assert(tok[0] != '+' && lower_char(tok[0]) == tok[0]);
        }
    }
}

proof fn lemma_lower_char_idempotent(c: char)
    ensures
        lower_char(lower_char(c)) == lower_char(c),
{
}

/// Every chord that a key-spec string parses to is canonical.
pub proof fn lemma_parse_canonical(s: Seq<char>)
    requires
        parse_spec(s) is Ok,
    ensures
        canonical_chord(parse_spec(s)->Ok_0),
{
    let l = lower(s);
    assert forall|i: int| 0 <= i < l.len() implies lower_char(l[i]) == l[i] by {
        lemma_lower_char_idempotent(s[i]);
    }
    lemma_trim_keeps(l, |c: char| lower_char(c) == c);
    lemma_segments_canonical(trim(l), no_modifiers());
}

proof fn lemma_trim_id(s: Seq<char>)
    requires
        s.len() > 0,
        !is_space_spec(s[0]),
        !is_space_spec(s.last()),
    ensures
        trim(s) == s,
{
}

proof fn lemma_modifier_prefix(w: Seq<char>, rest: Seq<char>, mods: KeyModifiers)
    requires
        w.len() > 0,
        forall|k: int| 0 <= k < w.len() ==> w[k] != '+',
        !is_space_spec(w[0]),
        !is_space_spec(w.last()),
        modifier_of(w) is Some,
    ensures
        parse_segments(w.push('+') + rest, mods) == parse_segments(
            rest,
            mods_union(mods, modifier_of(w)->Some_0),
        ),
{
    let t = w.push('+') + rest;
    crate::keys::lemma_plus_index(t, w.len() as int);
    assert(t.subrange(0, w.len() as int) =~= w);
    lemma_trim_id(w);
    assert(t.subrange((w.len() + 1) as int, t.len() as int) =~= rest);
}

proof fn lemma_name_parses(code: KeyCode, mods: KeyModifiers)
    requires
        canonical_chord(KeySpec { code, modifiers: mods }),
    ensures
        parse_segments(code_name(code), mods) == Ok::<KeySpec, crate::keys::KeySpecFault>(
            KeySpec { code, modifiers: mods },
        ),
        code_name(code).len() > 0,
        !is_space_spec(code_name(code)[0]),
        !is_space_spec(code_name(code).last()),
        lower(code_name(code)) == code_name(code),
{
    reveal_strlit("esc");
    reveal_strlit("escape");
    reveal_strlit("enter");
    reveal_strlit("return");
    reveal_strlit("tab");
    reveal_strlit("backtab");
    reveal_strlit("space");
    reveal_strlit("up");
    reveal_strlit("down");
    reveal_strlit("left");
    reveal_strlit("right");
    let n = code_name(code);
    assert(n.len() > 0);
    assert forall|k: int| 0 <= k < n.len() implies n[k] != '+' by {}
    crate::keys::lemma_plus_index(n, n.len() as int);
    lemma_trim_id(n);
    assert(lower(n) =~= n);
}

/// Parsing the canonical text of a canonical chord gives back that chord; the text is lowercase.
pub proof fn lemma_display_parses(k: KeySpec)
    requires
        canonical_chord(k),
    ensures
        parse_spec(display_spec(k)) == Ok::<KeySpec, crate::keys::KeySpecFault>(k),
        lower(display_spec(k)) == display_spec(k),
{
    reveal_strlit("ctrl+");
    reveal_strlit("alt+");
    reveal_strlit("shift+");
    reveal_strlit("ctrl");
    reveal_strlit("control");
    reveal_strlit("alt");
    reveal_strlit("shift");
    let m = k.modifiers;
    let n = code_name(k.code);
    lemma_name_parses(k.code, k.modifiers);
    let ctrl: Seq<char> = if m.control { "ctrl+"@ } else { Seq::empty() };
    let alt: Seq<char> = if m.alt { "alt+"@ } else { Seq::empty() };
    let shift: Seq<char> = if m.shift { "shift+"@ } else { Seq::empty() };
    let d = display_spec(k);
    assert(d =~= ctrl + (alt + (shift + n)));
    // lowercase
    assert(lower(d) =~= d);
    // trimmed
    assert(d.last() == n.last());
    assert(!is_space_spec(d[0]));
    lemma_trim_id(d);
    assert(trim(lower(d)) == d);
    // peel the modifiers
    let m0 = no_modifiers();
    let m1 = if m.control { mods_union(m0, modifier_of("ctrl"@)->Some_0) } else { m0 };
    if m.control {
        assert("ctrl+"@ =~= "ctrl"@.push('+'));
        lemma_modifier_prefix("ctrl"@, alt + (shift + n), m0);
    }
    assert(parse_segments(d, m0) == parse_segments(alt + (shift + n), m1));
    let m2 = if m.alt { mods_union(m1, modifier_of("alt"@)->Some_0) } else { m1 };
    if m.alt {
        assert("alt+"@ =~= "alt"@.push('+'));
        lemma_modifier_prefix("alt"@, shift + n, m1);
    }
    assert(alt + (shift + n) == if m.alt { "alt+"@ + (shift + n) } else { shift + n });
    assert(parse_segments(alt + (shift + n), m1) == parse_segments(shift + n, m2));
    let m3 = if m.shift { mods_union(m2, modifier_of("shift"@)->Some_0) } else { m2 };
    if m.shift {
        assert("shift+"@ =~= "shift"@.push('+'));
        lemma_modifier_prefix("shift"@, n, m2);
    }
    assert(shift + n == if m.shift { "shift+"@ + n } else { n });
    assert(parse_segments(shift + n, m2) == parse_segments(n, m3));
    assert(m3 == m);
    lemma_name_parses(k.code, m3);
}

/// Canonical display round-trips: whatever a key-spec string parses to, its canonical text is
/// lowercase and parses back to the same chord.
pub proof fn lemma_display_round_trip(s: Seq<char>)
    requires
        parse_spec(s) is Ok,
    ensures
        parse_spec(display_spec(parse_spec(s)->Ok_0)) == parse_spec(s),
        lower(display_spec(parse_spec(s)->Ok_0)) == display_spec(parse_spec(s)->Ok_0),
{
    lemma_parse_canonical(s);
    lemma_display_parses(parse_spec(s)->Ok_0);
}

/// Key specs are case-insensitive: a string and its ASCII-lowercase form parse alike.
pub proof fn lemma_parse_ignores_case(s: Seq<char>)
    ensures
        parse_spec(lower(s)) == parse_spec(s),
{
    assert forall|i: int| 0 <= i < s.len() implies lower(lower(s))[i] == lower(s)[i] by {
        lemma_lower_char_idempotent(s[i]);
    }
    assert(lower(lower(s)) =~= lower(s));
}

} // verus!
