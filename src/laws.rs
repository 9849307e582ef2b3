use vstd::prelude::*;

use vstd::arithmetic::div_mod::{lemma_add_mod_noop_right, lemma_mod_add_multiples_vanish, lemma_small_mod};

use crate::app::AppModel;
use crate::input::{Event, KeyCode, KeyEvent, KeyEventKind};
use crate::list::ListModel;

verus! {

/// For `0 <= x < 2m`, `x % m` is `x` or `x - m`.
proof fn lemma_mod_once(x: int, m: int)
    requires
        0 < m,
        0 <= x < 2 * m,
    ensures
        x % m == if x < m {
            x
        } else {
            x - m
        },
{
    if x < m {
        lemma_small_mod(x as nat, m as nat);
    } else {
        lemma_small_mod((x - m) as nat, m as nat);
        lemma_mod_add_multiples_vanish(x - m, m);
    }
}

/// From a selection `i` in a list of `len` items, `k` forward steps select
/// `(i + k) mod len` and leave the items alone.
pub proof fn lemma_next_n_selects(l: ListModel, k: nat)
    requires
        l.wf(),
        l.items.len() > 0,
        l.selected is Some,
    ensures
        l.next_n(k).items == l.items,
        l.next_n(k).selected == Some(
            ((l.selected.unwrap() + k) % (l.items.len() as int)) as usize,
        ),
    decreases k,
{
    let len = l.items.len() as int;
    let i = l.selected.unwrap() as int;
    if k == 0 {
        lemma_small_mod(i as nat, len as nat);
    } else {
        lemma_next_n_selects(l, (k - 1) as nat);
        let r = (i + k - 1) % len;
        vstd::arithmetic::div_mod::lemma_mod_pos_bound(i + k - 1, len);
        lemma_add_mod_noop_right(1, i + k - 1, len);
        assert((1 + r) % len == (i + k) % len);
    }
}

/// Some forward step among the first `n` selects index `j`.
pub open spec fn reached_within(l: ListModel, j: int, n: nat) -> bool {
    exists|k: nat| 1 <= k <= n && (#[trigger] l.next_n(k)).selected == Some(j as usize)
}

/// Repeated forward steps on a non-empty list with a selection visit every
/// index exactly once in `len` steps, and come back to the start after `len`.
pub proof fn law_next_cycles_through_every_index(l: ListModel)
    requires
        l.wf(),
        l.items.len() > 0,
        l.selected is Some,
    ensures
        l.next_n(l.items.len()) == l,
        forall|j: int| 0 <= j < l.items.len() ==> #[trigger] reached_within(l, j, l.items.len()),
        forall|k1: nat, k2: nat|
            1 <= k1 < k2 <= l.items.len() ==> (#[trigger] l.next_n(k1)).selected != (
            #[trigger] l.next_n(k2)).selected,
{
    let len = l.items.len() as int;
    let i = l.selected.unwrap() as int;
    lemma_next_n_selects(l, len as nat);
    lemma_mod_once(i + len, len);
    assert forall|j: int| 0 <= j < l.items.len() implies #[trigger] reached_within(
        l,
        j,
        l.items.len(),
    ) by {
        let k: nat = if j > i {
            (j - i) as nat
        } else {
            (j - i + len) as nat
        };
        lemma_next_n_selects(l, k);
        lemma_mod_once(i + k, len);
        assert(l.next_n(k).selected == Some(j as usize));
    }
    assert forall|k1: nat, k2: nat| 1 <= k1 < k2 <= l.items.len() implies (#[trigger] l.next_n(
        k1,
    )).selected != (#[trigger] l.next_n(k2)).selected by {
        lemma_next_n_selects(l, k1);
        lemma_next_n_selects(l, k2);
        lemma_mod_once(i + k1, len);
        lemma_mod_once(i + k2, len);
    }
}

/// On a non-empty list with a selection, a forward step undoes a backward
/// step and the other way round.
pub proof fn law_next_and_previous_are_inverse(l: ListModel)
    requires
        l.wf(),
        l.items.len() > 0,
        l.selected is Some,
    ensures
        l.next().previous() == l,
        l.previous().next() == l,
{
    let len = l.items.len() as int;
    let i = l.selected.unwrap() as int;
    lemma_mod_once(i + 1, len);
    let p = if i == 0 {
        len - 1
    } else {
        i - 1
    };
    lemma_mod_once(p + 1, len);
}

/// Forward or backward steps on an empty list never select anything.
pub proof fn law_empty_list_stays_unselected(l: ListModel, n: nat)
    requires
        l.wf(),
        l.items.len() == 0,
    ensures
        l.next_n(n) == l,
        l.previous_n(n) == l,
        l.next_n(n).selected is None,
        l.previous_n(n).selected is None,
    decreases n,
{
    if n > 0 {
        law_empty_list_stays_unselected(l, (n - 1) as nat);
    }
}

/// Completing takes exactly the selected pending item out of the pending
/// list and appends it, unchanged, to the completed list.
pub proof fn law_complete_moves_selected_item(a: AppModel)
    requires
        a.wf(),
        a.todos.selected is Some,
    ensures
        a.complete_todo().todos.items == a.todos.items.remove(a.todos.selected.unwrap() as int),
        a.complete_todo().completed.items == a.completed.items.push(
            a.todos.items[a.todos.selected.unwrap() as int],
        ),
        a.complete_todo().completed.items.last() == a.todos.items[a.todos.selected.unwrap() as int],
        a.complete_todo().task_count() == a.task_count(),
{
}

/// Completing and reverting never change the number of tasks.
pub proof fn law_moves_keep_task_count(a: AppModel)
    requires
        a.wf(),
    ensures
        a.complete_todo().task_count() == a.task_count(),
        a.revert_todo().task_count() == a.task_count(),
{
}

/// The state after completing, with the completed item (the last one) then
/// selected in the completed list.
pub open spec fn completed_then_reselected(a: AppModel) -> AppModel {
    let b = a.complete_todo();
    AppModel {
        completed: ListModel {
            selected: Some((b.completed.items.len() - 1) as usize),
            ..b.completed
        },
        ..b
    }
}

/// Reverting the item that completing just moved restores the completed list
/// exactly, and the pending list up to where that item now stands: it holds
/// the same tasks, with the item moved to the end.
pub proof fn law_revert_undoes_complete(a: AppModel)
    requires
        a.wf(),
        a.todos.selected is Some,
    ensures
        completed_then_reselected(a).revert_todo().completed.items == a.completed.items,
        completed_then_reselected(a).revert_todo().todos.items == a.todos.items.remove(
            a.todos.selected.unwrap() as int,
        ).push(a.todos.items[a.todos.selected.unwrap() as int]),
        completed_then_reselected(a).revert_todo().todos.items.to_multiset()
            == a.todos.items.to_multiset(),
{
    broadcast use vstd::seq_lib::group_to_multiset_ensures;

    let i = a.todos.selected.unwrap() as int;
    let c = completed_then_reselected(a);
    assert(c.completed.items.remove(c.completed.items.len() - 1) =~= a.completed.items);
    let s = a.todos.items;
    assert(s.remove(i).push(s[i]).to_multiset() =~= s.remove(i).to_multiset().insert(s[i]));
    assert(s.remove(i).to_multiset() =~= s.to_multiset().remove(s[i]));
    assert(s.to_multiset().count(s[i]) > 0);
    assert(s.to_multiset().remove(s[i]).insert(s[i]) =~= s.to_multiset());
}

/// Deleting the only item of the focused list, while it is selected, leaves
/// that list empty with nothing selected and the other list as it was.
pub proof fn law_delete_only_item(a: AppModel)
    requires
        a.wf(),
        a.focused().items.len() == 1,
        a.focused().selected is Some,
    ensures
        a.delete().focused().items.len() == 0,
        a.delete().focused().selected is None,
        a.delete().pane_in_focus == a.pane_in_focus,
        a.delete().task_count() + 1 == a.task_count(),
{
}

/// Escape while a task is being typed drops the draft and returns to normal
/// mode without touching either list.
pub proof fn law_escape_discards_draft(a: AppModel)
    requires
        a.wf(),
        a.adding_new,
    ensures
        a.event(Event::Key(KeyEvent { code: KeyCode::Esc, kind: KeyEventKind::Press })).new_value
            == Seq::<char>::empty(),
        !a.event(Event::Key(KeyEvent { code: KeyCode::Esc, kind: KeyEventKind::Press })).adding_new,
        a.event(Event::Key(KeyEvent { code: KeyCode::Esc, kind: KeyEventKind::Press })).todos
            == a.todos,
        a.event(Event::Key(KeyEvent { code: KeyCode::Esc, kind: KeyEventKind::Press })).completed
            == a.completed,
{
}

} // verus!
