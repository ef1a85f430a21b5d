use vstd::prelude::*;

use crate::decimal::lemma_numbered_injective;
use crate::state::{added_label, initial_items, initial_label, AppView, Key};

verus! {

/// The state after `n` ticks.
pub open spec fn ticked_times(v: AppView, n: nat) -> AppView
    decreases n,
{
    if n == 0 {
        v
    } else {
        ticked_times(v.ticked(), (n - 1) as nat)
    }
}

/// Ticking saturates: after `n` ticks the counter is its old value plus `n`,
/// held at the maximum of its type, so it never exceeds that maximum and never
/// goes down from one tick to the next.
pub proof fn lemma_ticks_saturate(v: AppView, m: nat, n: nat)
    requires
        m <= n,
    ensures
        ticked_times(v, n).counter == if v.counter + n <= u8::MAX {
            v.counter + n
        } else {
            u8::MAX as int
        },
        ticked_times(v, n).counter <= u8::MAX,
        v.counter <= ticked_times(v, m).counter <= ticked_times(v, n).counter,
    decreases n,
{
    if n > 0 {
        if m > 0 {
            lemma_ticks_saturate(v.ticked(), (m - 1) as nat, (n - 1) as nat);
        } else {
            lemma_ticks_saturate(v.ticked(), 0, (n - 1) as nat);
        }
    }
}

/// Handling any key keeps the selection valid.
pub proof fn lemma_step_wf(v: AppView, key: Key)
    requires
        v.wf(),
    ensures
        v.step(key).wf(),
{
}

/// After every key of every sequence of keys, a non-empty list has its
/// selection within bounds.
pub proof fn lemma_run_selection_in_bounds(v: AppView, keys: Seq<Key>)
    requires
        v.wf(),
    ensures
        forall|i: int|
            0 <= i <= keys.len() ==> {
                let w = #[trigger] v.run(keys.take(i));
                w.wf() && (w.items.len() > 0 ==> w.selected_index < w.items.len())
            },
    decreases keys.len(),
{
    if keys.len() > 0 {
        lemma_step_wf(v, keys[0]);
        let rest = keys.drop_first();
        lemma_run_selection_in_bounds(v.step(keys[0]), rest);
        assert forall|i: int| 0 <= i <= keys.len() implies #[trigger] v.run(keys.take(i)).wf() by {
            if i > 0 {
                assert(keys.take(i)[0] == keys[0]);
                assert(keys.take(i).drop_first() =~= rest.take(i - 1));
                assert(v.step(keys[0]).run(rest.take(i - 1)).wf());
                assert(v.run(keys.take(i)) == v.step(keys[0]).run(rest.take(i - 1)));
            } else {
                assert(keys.take(i).len() == 0);
            }
        }
    } else {
        assert forall|i: int| 0 <= i <= keys.len() implies #[trigger] v.run(keys.take(i)).wf() by {
            assert(keys.take(i).len() == 0);
        }
    }
}

/// The state the application starts in has a valid selection.
pub proof fn lemma_initial_wf()
    ensures
        AppView::initial().wf(),
        AppView::initial().items.len() == 5,
{
}

/// Up at the first item keeps the selection where it is.
pub proof fn lemma_up_at_first(v: AppView)
    requires
        v.selected_index == 0,
    ensures
        v.step(Key::Up).selected_index == 0,
{
}

/// Down at the last item keeps the selection where it is.
pub proof fn lemma_down_at_last(v: AppView)
    requires
        v.items.len() > 0,
        v.selected_index == v.items.len() - 1,
    ensures
        v.step(Key::Down).selected_index == v.selected_index,
{
}

/// Deleting from a non-empty list removes the selected item, one item in all;
/// the selection moves back by one exactly when the last item of several was
/// removed, and stays otherwise.
pub proof fn lemma_delete(v: AppView)
    requires
        v.wf(),
        v.items.len() > 0,
    ensures
        v.step(Key::Char('d')).items == v.items.remove(v.selected_index as int),
        v.step(Key::Char('d')).items.len() == v.items.len() - 1,
        v.step(Key::Char('d')).selected_index == if v.selected_index == v.items.len() - 1
            && v.selected_index > 0 {
            v.selected_index - 1
        } else {
            v.selected_index as int
        },
{
}

/// A label that the naming scheme gives when the list holds `n` items or fewer:
/// an initial label, or one appended when the list grew to at most `n` items.
pub open spec fn named_within(s: Seq<char>, n: nat) -> bool {
    (exists|k: nat| s == #[trigger] initial_label(k))
    || (exists|k: nat| k <= n && s == #[trigger] added_label(k))
}

/// The list holds only labels of the naming scheme given within its length.
pub open spec fn labels_within(items: Seq<Seq<char>>) -> bool {
    forall|i: int| 0 <= i < items.len() ==> named_within(#[trigger] items[i], items.len())
}

proof fn lemma_added_not_initial(n: nat, k: nat)
    ensures
        added_label(n) != initial_label(k),
{
    reveal_strlit("New Item ");
    reveal_strlit("Item ");
    assert(added_label(n)[0] == 'N');
    assert(initial_label(k)[0] == 'I');
}

/// The initial list holds only labels of the naming scheme.
pub proof fn lemma_initial_labels_within()
    ensures
        labels_within(initial_items()),
{
    assert forall|i: int| 0 <= i < initial_items().len() implies named_within(
        #[trigger] initial_items()[i],
        initial_items().len(),
    ) by {
        assert(initial_items()[i] == initial_label((i + 1) as nat));
    }
}

/// Adding an item appends exactly one item and keeps the selection; where the
/// list holds only labels of the naming scheme given within its length (as no
/// deletion has yet taken place), the new label differs from every earlier one,
/// and the list keeps that property.
pub proof fn lemma_add(v: AppView)
    ensures
        v.step(Key::Char('a')).items == v.items.push(added_label(v.items.len() + 1)),
        v.step(Key::Char('a')).items.len() == v.items.len() + 1,
        v.step(Key::Char('a')).selected_index == v.selected_index,
        labels_within(v.items) ==> {
            &&& forall|i: int|
                0 <= i < v.items.len() ==> #[trigger] v.items[i] != added_label(v.items.len() + 1)
            &&& labels_within(v.step(Key::Char('a')).items)
        },
{
    let n = v.items.len();
    let w = v.step(Key::Char('a'));
    if labels_within(v.items) {
        assert forall|i: int| 0 <= i < n implies #[trigger] v.items[i] != added_label(n + 1) by {
            assert(named_within(v.items[i], n));
            if exists|k: nat| v.items[i] == #[trigger] initial_label(k) {
                let k = choose|k: nat| v.items[i] == #[trigger] initial_label(k);
                lemma_added_not_initial(n + 1, k);
            } else {
                let k = choose|k: nat| k <= n && v.items[i] == #[trigger] added_label(k);
                if v.items[i] == added_label(n + 1) {
                    lemma_numbered_injective("New Item "@, k, n + 1);
                }
            }
        }
        assert forall|i: int| 0 <= i < w.items.len() implies named_within(
            #[trigger] w.items[i],
            w.items.len(),
        ) by {
            if i < n {
                assert(w.items[i] == v.items[i]);
                assert(named_within(v.items[i], n));
            } else {
                assert(w.items[i] == added_label(n + 1));
            }
        }
    }
}

} // verus!
