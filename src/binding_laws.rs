//! Laws of binding-table validation.
use crate::bindings::{
    action_at, entries, entries_upto, first_empty_from, is_emergency_quit, is_reserved,
    default_bindings_view, key_action, lemma_action_at_index, scan_entries, validate_spec, Action, BindingsView,
    ACTION_COUNT,
};
use crate::keys::{KeyCode, KeyEvent, KeySpec};
use vstd::prelude::*;

verus! {

proof fn lemma_first_empty_found(kb: BindingsView, i: int, k: int)
    requires
        0 <= i <= k < ACTION_COUNT,
        kb.list(action_at(k)).len() == 0,
    ensures
        first_empty_from(kb, i) is Some,
    decreases k - i,
{
    if i < k && kb.list(action_at(i)).len() != 0 {
        lemma_first_empty_found(kb, i + 1, k);
    }
}

/// Entry `p` breaks a rule: a reserved chord outside quit, or a chord seen at an earlier entry.
pub open spec fn violation(e: Seq<(Action, KeySpec)>, p: int) -> bool {
    (is_reserved(e[p].1) && e[p].0 != Action::Quit) || exists|j: int| 0 <= j < p && e[j].1 == e[p].1
}

proof fn lemma_scan_finds(e: Seq<(Action, KeySpec)>, start: int, p: int)
    requires
        0 <= start <= p < e.len(),
        violation(e, p),
    ensures
        scan_entries(e, start) is Err,
    decreases p - start,
{
    if start < p {
        if scan_entries(e, start) is Ok {
            lemma_scan_finds(e, start + 1, p);
        }
    }
}

/// Chord `i` of action `a` stands in the entries at a position that names `a`.
proof fn lemma_entry_position(kb: BindingsView, a: Action, i: int) -> (p: int)
    requires
        0 <= i < kb.list(a).len(),
    ensures
        0 <= p < entries(kb).len(),
        entries(kb)[p] == (a, kb.list(a)[i]),
{
    lemma_action_at_index(a);
    let n = a.index_spec();
    crate::bindings::lemma_entries_prefix(kb, n + 1, ACTION_COUNT as int);
    let p = entries_upto(kb, n).len() + i;
    assert(entries_upto(kb, n + 1) == entries_upto(kb, n) + kb.list(a).map_values(
        |k: KeySpec| (a, k),
    ));
    p
}

/// Validation refuses a table in which some action has no chord, in which a reserved chord
/// (Escape, Ctrl+C) stands under an action other than quit, or in which two different actions
/// share a chord.
pub proof fn lemma_validation_rejects(kb: BindingsView, a: Action, b: Action, i: int, j: int)
    ensures
        kb.list(a).len() == 0 ==> validate_spec(kb) is Err,
        a != Action::Quit && 0 <= i < kb.list(a).len() && is_reserved(kb.list(a)[i])
            ==> validate_spec(kb) is Err,
        a != b && 0 <= i < kb.list(a).len() && 0 <= j < kb.list(b).len() && kb.list(a)[i]
            == kb.list(b)[j] ==> validate_spec(kb) is Err,
{
    lemma_action_at_index(a);
    if kb.list(a).len() == 0 {
        lemma_first_empty_found(kb, 0, a.index_spec());
    }
    if first_empty_from(kb, 0) is None {
        let e = entries(kb);
        if a != Action::Quit && 0 <= i < kb.list(a).len() && is_reserved(kb.list(a)[i]) {
            let p = lemma_entry_position(kb, a, i);
            lemma_scan_finds(e, 0, p);
        }
        if a != b && 0 <= i < kb.list(a).len() && 0 <= j < kb.list(b).len() && kb.list(a)[i]
            == kb.list(b)[j] {
            let p = lemma_entry_position(kb, a, i);
            let q = lemma_entry_position(kb, b, j);
            assert(p != q);
            if p < q {
                assert(violation(e, q));
                lemma_scan_finds(e, 0, q);
            } else {
                assert(violation(e, p));
                lemma_scan_finds(e, 0, p);
            }
        }
    }
}

/// The built-in table passes validation.
pub proof fn lemma_default_valid()
    ensures
        validate_spec(default_bindings_view()) is Ok,
{
    reveal_with_fuel(first_empty_from, 11);
    reveal_with_fuel(entries_upto, 11);
    reveal_with_fuel(scan_entries, 11);
    let kb = default_bindings_view();
    let e = entries(kb);
    assert(e =~= seq![
        (Action::CycleTheme, crate::bindings::plain_char_spec('t')),
        (Action::NextPanel, crate::bindings::plain_spec(KeyCode::Tab)),
        (Action::PrevPanel, crate::bindings::plain_spec(KeyCode::BackTab)),
        (Action::ListUp, crate::bindings::plain_spec(KeyCode::Up)),
        (Action::ListDown, crate::bindings::plain_spec(KeyCode::Down)),
        (Action::ToggleHighContrast, crate::bindings::plain_char_spec('h')),
        (Action::ToggleColor, crate::bindings::plain_char_spec('c')),
        (Action::ToggleReducedMotion, crate::bindings::plain_char_spec('r')),
        (Action::ToggleHelp, crate::bindings::plain_char_spec('?')),
        (Action::Quit, crate::bindings::plain_char_spec('q')),
    ]);
}

/// Escape and Ctrl+C trigger quit whatever the table holds and whichever panel is shown.
pub proof fn lemma_emergency_quit(kb: BindingsView, on_list: bool, e: KeyEvent)
    requires
        is_emergency_quit(e),
    ensures
        key_action(kb, on_list, e) == Some(Action::Quit),
{
}

} // verus!
