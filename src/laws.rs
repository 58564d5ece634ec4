//! Properties of the key-driven state machine, stated over its model.
use vstd::prelude::*;

use crate::app::{run, step, without_last, AppView, CurrentlyEditing, Key, KeyInput, KeyKind, State};
use crate::item::EntryView;
use crate::list_items::{previous_selection, toggle_at};
use crate::status::{lemma_toggled_twice, Status};

verus! {

/// A key press.
pub open spec fn press(code: Key) -> KeyInput {
    KeyInput { code, kind: KeyKind::Press }
}

/// The press of a character key.
pub open spec fn press_char(c: char) -> KeyInput {
    press(Key::Char(c))
}

/// The presses that type the given characters.
pub open spec fn typed(cs: Seq<char>) -> Seq<KeyInput>
    decreases cs.len(),
{
    if cs.len() == 0 {
        Seq::empty()
    } else {
        seq![press_char(cs[0])] + typed(cs.drop_first())
    }
}

/// Handling two sequences of keys one after the other is handling their
/// concatenation.
pub proof fn lemma_run_concat(s: AppView, a: Seq<KeyInput>, b: Seq<KeyInput>)
    ensures
        run(s, a + b) == run(run(s, a), b),
    decreases a.len(),
{
    if a.len() == 0 {
        assert(a + b =~= b);
    } else {
        assert((a + b).drop_first() =~= a.drop_first() + b);
        lemma_run_concat(step(s, a[0]), a.drop_first(), b);
    }
}

/// Every key keeps the selection on an existing entry, or on none.
pub proof fn lemma_step_keeps_selection_valid(s: AppView, key: KeyInput)
    requires
        s.wf(),
    ensures
        step(s, key).wf(),
{
    if let Some(i) = s.list.selection {
        assert(i < s.list.entries.len());
    }
}

/// Whatever keys are pressed, the selection stays on an existing entry, or
/// on none.
pub proof fn lemma_run_keeps_selection_valid(s: AppView, keys: Seq<KeyInput>)
    requires
        s.wf(),
    ensures
        run(s, keys).wf(),
    decreases keys.len(),
{
    if keys.len() > 0 {
        lemma_step_keeps_selection_valid(s, keys[0]);
        lemma_run_keeps_selection_valid(step(s, keys[0]), keys.drop_first());
    }
}

/// In browse mode, moving down then up from an entry that is not the last
/// comes back to it.
pub proof fn lemma_down_then_up(s: AppView, i: usize)
    requires
        s.list.entries.len() <= usize::MAX,
        s.mode == State::Look,
        s.list.selection == Some(i),
        i + 1 < s.list.entries.len(),
    ensures
        step(step(s, press(Key::Down)), press(Key::Up)) == s,
{
    let t = step(s, press(Key::Down));
    assert(t.list.selection == Some((i + 1) as usize));
    let u = step(t, press(Key::Up));
    assert(u.list.selection == previous_selection(t.list.selection, t.list.entries.len()));
    assert(u.list == s.list);
}

/// In browse mode, pressing down any number of times on the last entry
/// leaves the selection there.
pub proof fn lemma_down_saturates(s: AppView, n: nat)
    requires
        s.wf(),
        s.list.entries.len() <= usize::MAX,
        s.mode == State::Look,
        s.list.entries.len() > 0,
        s.list.selection == Some((s.list.entries.len() - 1) as usize),
    ensures
        run(s, Seq::new(n, |k: int| press(Key::Down))) == s,
    decreases n,
{
    let keys = Seq::new(n, |k: int| press(Key::Down));
    if n > 0 {
        assert(keys[0] == press(Key::Down));
        assert(step(s, keys[0]).list.selection == s.list.selection);
        assert(step(s, keys[0]) == s);
        assert(keys.drop_first() =~= Seq::new((n - 1) as nat, |k: int| press(Key::Down)));
        lemma_down_saturates(s, (n - 1) as nat);
    }
}

/// In browse mode, pressing up any number of times on the first entry leaves
/// the selection there.
pub proof fn lemma_up_saturates(s: AppView, n: nat)
    requires
        s.wf(),
        s.list.entries.len() <= usize::MAX,
        s.mode == State::Look,
        s.list.entries.len() > 0,
        s.list.selection == Some(0usize),
    ensures
        run(s, Seq::new(n, |k: int| press(Key::Up))) == s,
    decreases n,
{
    let keys = Seq::new(n, |k: int| press(Key::Up));
    if n > 0 {
        assert(keys[0] == press(Key::Up));
        assert(step(s, keys[0]).list.selection == s.list.selection);
        assert(step(s, keys[0]) == s);
        assert(keys.drop_first() =~= Seq::new((n - 1) as nat, |k: int| press(Key::Up)));
        lemma_up_saturates(s, (n - 1) as nat);
    }
}

/// Flipping the status of the same entry twice gives back the entries one
/// started from.
pub proof fn lemma_toggle_twice(entries: Seq<EntryView>, sel: Option<usize>)
    ensures
        toggle_at(toggle_at(entries, sel), sel) == entries,
{
    if let Some(i) = sel {
        if i < entries.len() {
            lemma_toggled_twice(entries[i as int].status);
            assert(toggle_at(toggle_at(entries, sel), sel) =~= entries);
        }
    }
}

/// In browse mode, pressing the status key twice gives back the state one
/// started from.
pub proof fn lemma_toggle_key_twice(s: AppView)
    requires
        s.mode == State::Look,
    ensures
        step(step(s, press(Key::Right)), press(Key::Right)) == s,
{
    lemma_toggle_twice(s.list.entries, s.list.selection);
}

/// In edit mode, typing characters appends them to the active buffer.
pub proof fn lemma_typing(s: AppView, cs: Seq<char>)
    requires
        s.mode == State::Edit,
    ensures
        run(s, typed(cs)) == (match s.editing {
            Some(CurrentlyEditing::Name) => AppView { name: s.name + cs, ..s },
            Some(CurrentlyEditing::Description) => AppView {
                description: s.description + cs,
                ..s
            },
            None => s,
        }),
    decreases cs.len(),
{
    if cs.len() == 0 {
        assert(s.name + cs =~= s.name);
        assert(s.description + cs =~= s.description);
    } else {
        let t = step(s, press_char(cs[0]));
        lemma_run_concat(s, seq![press_char(cs[0])], typed(cs.drop_first()));
        lemma_run_one(s, press_char(cs[0]));
        lemma_typing(t, cs.drop_first());
        assert(s.name.push(cs[0]) + cs.drop_first() =~= s.name + cs);
        assert(s.description.push(cs[0]) + cs.drop_first() =~= s.description + cs);
    }
}

/// Handling a single key is one step.
proof fn lemma_run_one(s: AppView, key: KeyInput)
    ensures
        run(s, seq![key]) == step(s, key),
{
    assert(seq![key].drop_first() =~= Seq::<KeyInput>::empty());
    assert(run(step(s, key), Seq::<KeyInput>::empty()) == step(s, key));
}

/// Opening the editor from browse mode, typing a name, switching to the
/// description with Tab, typing it and pressing Backspace leaves the name
/// typed in full and the description without its last character.
pub proof fn lemma_type_then_backspace(s: AppView, name: Seq<char>, description: Seq<char>)
    requires
        s.mode == State::Look,
    ensures
        run(
            s,
            seq![press_char('e')] + typed(name) + seq![press(Key::Tab)] + typed(description)
                + seq![press(Key::Backspace)],
        ).name == s.name + name,
        run(
            s,
            seq![press_char('e')] + typed(name) + seq![press(Key::Tab)] + typed(description)
                + seq![press(Key::Backspace)],
        ).description == without_last(s.description + description),
        run(
            s,
            seq![press_char('e')] + typed(name) + seq![press(Key::Tab)] + typed(description)
                + seq![press(Key::Backspace)],
        ).mode == State::Edit,
{
    let k0 = seq![press_char('e')];
    let k1 = typed(name);
    let k2 = seq![press(Key::Tab)];
    let k3 = typed(description);
    let k4 = seq![press(Key::Backspace)];
    let s1 = run(s, k0);
    lemma_run_one(s, press_char('e'));
    lemma_typing(s1, name);
    let s2 = run(s1, k1);
    let s3 = run(s2, k2);
    lemma_run_one(s2, press(Key::Tab));
    lemma_typing(s3, description);
    let s4 = run(s3, k3);
    lemma_run_one(s4, press(Key::Backspace));
    lemma_run_concat(s, k0, k1);
    lemma_run_concat(s, k0 + k1, k2);
    lemma_run_concat(s, k0 + k1 + k2, k3);
    lemma_run_concat(s, k0 + k1 + k2 + k3, k4);
}

/// Committing a new entry leaves the selection as it was.
pub proof fn lemma_commit_keeps_selection(s: AppView)
    requires
        s.mode == State::Valid,
    ensures
        step(s, press(Key::Enter)).list.selection == s.list.selection,
        step(s, press(Key::Enter)).list.entries == s.list.entries.push(
            EntryView { todo: s.name, info: s.description, status: Status::Todo },
        ),
{
}

} // verus!
