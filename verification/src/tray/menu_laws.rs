//! What a host may rely on across several operations on a menu.

use crate::error::UdaError;
use crate::text::{is_blank, is_space};
use crate::tray::event::{
    call_of, knows, swapped, ActionStore, ActionsView, TrayAction, TrayEvent,
};
use crate::tray::item::{
    relabelling_changes_the_label_alone, same_kind, ItemView, MenuItem, MenuItemId, MenuItemState,
    MenuRef,
};
use crate::tray::menu::{
    acting, blank_label_error, first_index, is_first, is_insertable, lemma_first_index_absent,
    lemma_first_index_found, lemma_position_is_first, with_id, without_id, MenuView, Row, TrayMenu,
    TrayMenuBuilder,
};
use vstd::prelude::*;

verus! {

/// The row at the first index at which `wanted` holds.
spec fn first_row(rows: Seq<Row>, wanted: spec_fn(Row) -> bool) -> Option<Row> {
    match first_index(rows, wanted) {
        Some(k) => Some(rows[k]),
        None => None,
    }
}

proof fn lemma_first_row_push(rows: Seq<Row>, wanted: spec_fn(Row) -> bool, last: Row)
    ensures
        first_row(rows.push(last), wanted) == (match first_row(rows, wanted) {
            Some(row) => Some(row),
            None => if wanted(last) {
                Some(last)
            } else {
                None
            },
        }),
{
    let all = rows.push(last);
    if let Some(k) = first_index(rows, wanted) {
        assert(is_first(rows, wanted, k));
        assert forall|j: int| 0 <= j < k implies !wanted(#[trigger] all[j]) by {
            assert(all[j] == rows[j]);
        }
        lemma_first_index_found(all, wanted, k);
    } else {
        assert forall|j: int| 0 <= j < rows.len() implies !wanted(#[trigger] rows[j]) by {
            if wanted(rows[j]) {
                lemma_wanted_is_found(rows, wanted, j);
            }
        }
        if wanted(last) {
            assert forall|j: int| 0 <= j < rows.len() implies !wanted(#[trigger] all[j]) by {
                assert(all[j] == rows[j]);
            }
            lemma_first_index_found(all, wanted, rows.len() as int);
        } else {
            assert forall|j: int| 0 <= j < all.len() implies !wanted(#[trigger] all[j]) by {
                if j < rows.len() {
                    assert(all[j] == rows[j]);
                }
            }
            lemma_first_index_absent(all, wanted);
        }
    }
}

proof fn lemma_wanted_is_found(rows: Seq<Row>, wanted: spec_fn(Row) -> bool, j: int)
    requires
        0 <= j < rows.len(),
        wanted(rows[j]),
    ensures
        first_index(rows, wanted) is Some,
    decreases j,
{
    if exists|i: int| 0 <= i < j && wanted(#[trigger] rows[i]) {
        let i = choose|i: int| 0 <= i < j && wanted(#[trigger] rows[i]);
        lemma_wanted_is_found(rows, wanted, i);
    } else {
        assert(is_first(rows, wanted, j));
    }
}

proof fn lemma_first_row_filter(
    rows: Seq<Row>,
    wanted: spec_fn(Row) -> bool,
    keep: spec_fn(Row) -> bool,
)
    requires
        forall|row: Row| wanted(row) ==> #[trigger] keep(row),
    ensures
        first_row(rows.filter(keep), wanted) == first_row(rows, wanted),
    decreases rows.len(),
{
    reveal(Seq::filter);
    if rows.len() > 0 {
        let head = rows.drop_last();
        let last = rows.last();
        lemma_first_row_filter(head, wanted, keep);
        assert(head.push(last) =~= rows);
        lemma_first_row_push(head, wanted, last);
        if keep(last) {
            lemma_first_row_push(head.filter(keep), wanted, last);
            assert(rows.filter(keep) == head.filter(keep).push(last));
        } else {
            assert(rows.filter(keep) == head.filter(keep));
            assert(!wanted(last));
        }
    } else {
        assert(rows.filter(keep) =~= rows);
    }
}

/// An id goes on naming the same row whatever is inserted around it, and the
/// inserted row is the one its own id names.
pub proof fn ids_survive_insertion(menu: MenuView, index: int, item: ItemView, id: MenuItemId)
    requires
        menu.well_formed(),
        menu.counter < u64::MAX,
        0 <= index,
    ensures
        id != menu.next_id() ==> menu.inserted(index, item).find(id) == menu.find(id),
        menu.inserted(index, item).find(menu.next_id()) == Some(item),
{
    let new = menu.inserted(index, item);
    let at = if index < menu.rows.len() {
        index
    } else {
        menu.rows.len() as int
    };
    let wanted = with_id(id);
    assert forall|j: int| 0 <= j < new.rows.len() implies #[trigger] new.rows[j] == (if j < at {
        menu.rows[j]
    } else if j == at {
        (menu.next_id(), item)
    } else {
        menu.rows[j - 1]
    }) by {}
    if id != menu.next_id() {
        lemma_position_is_first(menu, id);
        match menu.position(id) {
            Some(k) => {
                let moved = if k < at {
                    k
                } else {
                    k + 1
                };
                assert forall|j: int| 0 <= j < moved implies !wanted(#[trigger] new.rows[j]) by {
                    if j < at {
                        assert(!wanted(menu.rows[j]));
                    } else if j > at {
                        assert(!wanted(menu.rows[j - 1]));
                    }
                }
                lemma_first_index_found(new.rows, wanted, moved);
            },
            None => {
                assert forall|j: int| 0 <= j < new.rows.len() implies !wanted(
                    #[trigger] new.rows[j],
                ) by {
                    if j != at {
                        let o = if j < at {
                            j
                        } else {
                            j - 1
                        };
                        if wanted(menu.rows[o]) {
                            lemma_wanted_is_found(menu.rows, wanted, o);
                        }
                    }
                }
                lemma_first_index_absent(new.rows, wanted);
            },
        }
    }
    let own = with_id(menu.next_id());
    MenuItemId::lemma_numbered((menu.counter + 1) as u64);
    assert forall|j: int| 0 <= j < at implies !own(#[trigger] new.rows[j]) by {
        assert(menu.rows[j].0@ <= menu.counter);
    }
    assert(own(new.rows[at]));
    lemma_first_index_found(new.rows, own, at);
}

/// Removing one row leaves every other id naming its row.
pub proof fn ids_survive_removal(menu: MenuView, id: MenuItemId, other: MenuItemId)
    requires
        other != id,
    ensures
        menu.removed(id).find(other) == menu.find(other),
{
    lemma_first_row_filter(menu.rows, with_id(other), without_id(id));
}

/// A change to one row is seen through its id, and through no other.
pub proof fn a_change_is_seen_through_its_id(
    menu: MenuView,
    id: MenuItemId,
    other: MenuItemId,
    change: spec_fn(ItemView) -> ItemView,
)
    requires
        other != id,
    ensures
        menu.find(id) matches Some(item) ==> menu.changed(id, change).find(id) == Some(
            change(item),
        ),
        menu.find(id) is None ==> menu.changed(id, change) == menu,
        menu.changed(id, change).find(other) == menu.find(other),
        menu.changed(id, change).counter == menu.counter,
        menu.changed(id, change).rows.len() == menu.rows.len(),
{
    lemma_position_is_first(menu, id);
    if let Some(k) = menu.position(id) {
        let new = menu.changed(id, change);
        let wanted = with_id(id);
        assert(is_first(menu.rows, wanted, k));
        assert forall|j: int| 0 <= j < k implies !wanted(#[trigger] new.rows[j]) by {
            assert(new.rows[j] == menu.rows[j]);
        }
        assert(wanted(new.rows[k]));
        lemma_first_index_found(new.rows, wanted, k);
        let elsewhere = with_id(other);
        lemma_position_is_first(menu, other);
        match menu.position(other) {
            Some(m) => {
                assert(is_first(menu.rows, elsewhere, m));
                assert(m != k);
                assert forall|j: int| 0 <= j < m implies !elsewhere(#[trigger] new.rows[j]) by {
                    assert(!elsewhere(menu.rows[j]));
                }
                lemma_first_index_found(new.rows, elsewhere, m);
            },
            None => {
                assert forall|j: int| 0 <= j < new.rows.len() implies !elsewhere(
                    #[trigger] new.rows[j],
                ) by {
                    if j != k && elsewhere(menu.rows[j]) {
                        lemma_wanted_is_found(menu.rows, elsewhere, j);
                    }
                }
                lemma_first_index_absent(new.rows, elsewhere);
            },
        }
    }
}

/// Toggling a row twice gives the menu back.
pub proof fn toggling_a_row_twice_restores_the_menu(menu: MenuView, id: MenuItemId)
    ensures
        ({
            let toggle = |item: ItemView| item.toggled();
            menu.changed(id, toggle).changed(id, toggle) == menu
        }),
{
    let toggle = |item: ItemView| item.toggled();
    let other = MenuItemId::numbered(following_id(id));
    MenuItemId::lemma_numbered(following_id(id));
    a_change_is_seen_through_its_id(menu, id, other, toggle);
    if let Some(item) = menu.find(id) {
        let once = menu.changed(id, toggle);
        a_change_is_seen_through_its_id(once, id, other, toggle);
        lemma_position_is_first(menu, id);
        lemma_position_is_first(once, id);
        let k = menu.position(id)->0;
        assert(is_first(menu.rows, with_id(id), k));
        assert forall|j: int| 0 <= j < k implies !with_id(id)(#[trigger] once.rows[j]) by {
            assert(!with_id(id)(menu.rows[j]));
        }
        lemma_first_index_found(once.rows, with_id(id), k);
        let twice = once.changed(id, toggle);
        assert(twice.rows =~= menu.rows);
        assert(twice =~= menu);
    }
}

/// A raw value other than that of `id`.
spec fn following_id(id: MenuItemId) -> u64 {
    if id@ == 0 {
        1
    } else {
        0
    }
}

/// Clearing a menu and filling it again never gives a new row an old id: as long
/// as the counter has room, each id is larger than all before it.
pub proof fn a_cleared_menu_does_not_reuse_ids(menu: MenuView, old_id: MenuItemId)
    requires
        menu.well_formed(),
        menu.counter < u64::MAX,
        menu.position(old_id) is Some,
    ensures
        ({
            let cleared = MenuView { rows: Seq::empty(), counter: menu.counter };
            cleared.next_id() != old_id && cleared.next_id()@ > old_id@
        }),
{
    lemma_position_is_first(menu, old_id);
    let k = menu.position(old_id)->0;
    assert(menu.rows[k].0@ <= menu.counter);
    MenuItemId::lemma_numbered((menu.counter + 1) as u64);
}

/// A callback given to a row is what the row calls from then on, and so does
/// every copy of the row that was taken before and carried a callback.
pub proof fn a_new_callback_is_called_through_every_copy(
    menu: MenuView,
    id: MenuItemId,
    actions: ActionsView,
    action: TrayAction,
    event: TrayEvent,
)
    requires
        menu.find(id) matches Some(item) && (item is Text || item is Checkbox),
        knows(actions, action),
    ensures
        ({
            let copy = menu.find(id)->0;
            let after = menu.changed(id, acting(actions, Some(action)));
            let slots = swapped(actions, copy.action(), Some(action));
            &&& call_of(slots, after.action_at(id), event) == call_of(actions, Some(action), event)
            &&& (copy.action() matches Some(carried) && knows(actions, carried)) ==> call_of(
                slots,
                copy.action(),
                event,
            ) == call_of(actions, Some(action), event)
        }),
{
    let raw: u64 = if id@ == 0 {
        1
    } else {
        0
    };
    let other = MenuItemId::numbered(raw);
    MenuItemId::lemma_numbered(raw);
    a_change_is_seen_through_its_id(menu, id, other, acting(actions, Some(action)));
}

// ---------------------------------------------------------------------------
// What each operation leaves
// ---------------------------------------------------------------------------
/// A row lands at the index that was asked for, or at the end of a shorter menu;
/// the rows before it stay in place and the others move down by one.
pub proof fn a_row_lands_at_its_index(menu: MenuView, index: int, item: ItemView)
    requires
        0 <= index,
    ensures
        ({
            let n = menu.rows.len() as int;
            let at = if index < n {
                index
            } else {
                n
            };
            let after = menu.inserted(index, item);
            &&& after.rows.len() == n + 1
            &&& after.rows[at] == (menu.next_id(), item)
            &&& forall|j: int| 0 <= j < at ==> #[trigger] after.rows[j] == menu.rows[j]
            &&& forall|j: int| at < j <= n ==> #[trigger] after.rows[j] == menu.rows[j - 1]
            &&& menu.counter < u64::MAX ==> after.counter == menu.counter + 1
            &&& menu.counter < u64::MAX ==> menu.next_id()@ == menu.counter + 1
        }),
{
    MenuItemId::lemma_numbered(crate::tray::menu::following(menu.counter));
}

/// A row that is removed is the only one that goes; the others keep their order.
pub proof fn removal_takes_the_one_row(menu: MenuView, id: MenuItemId)
    requires
        menu.well_formed(),
        id@ < u64::MAX,
    ensures
        match menu.position(id) {
            Some(k) => menu.removed(id).rows == menu.rows.remove(k),
            None => menu.removed(id) == menu,
        },
{
    let keep = without_id(id);
    let wanted = with_id(id);
    lemma_position_is_first(menu, id);
    match menu.position(id) {
        Some(k) => {
            assert(is_first(menu.rows, wanted, k));
            let head = menu.rows.take(k);
            let tail = menu.rows.skip(k + 1);
            assert forall|j: int| 0 <= j < head.len() implies keep(#[trigger] head[j]) by {
                assert(!wanted(menu.rows[j]));
            }
            assert forall|j: int| 0 <= j < tail.len() implies keep(#[trigger] tail[j]) by {
                if menu.rows[k + 1 + j].0 == id {
                    assert(menu.rows[k].0 == menu.rows[k + 1 + j].0);
                }
            }
            lemma_all_kept(head, keep);
            lemma_all_kept(tail, keep);
            let one = seq![menu.rows[k]];
            assert(one.filter(keep) =~= Seq::empty()) by {
                reveal(Seq::filter);
                assert(one.drop_last() =~= Seq::empty());
                assert(one.drop_last().filter(keep) =~= Seq::empty());
            }
            lemma_filter_concat(head, one, keep);
            lemma_filter_concat(head + one, tail, keep);
            assert(menu.rows =~= head + one + tail);
            assert(menu.rows.remove(k) =~= head + tail);
            assert(head + Seq::<Row>::empty() =~= head);
        },
        None => {
            assert forall|j: int| 0 <= j < menu.rows.len() implies keep(
                #[trigger] menu.rows[j],
            ) by {
                if wanted(menu.rows[j]) {
                    lemma_wanted_is_found(menu.rows, wanted, j);
                }
            }
            lemma_all_kept(menu.rows, keep);
            assert(menu.removed(id) =~= menu);
        },
    }
}

proof fn lemma_all_kept(rows: Seq<Row>, keep: spec_fn(Row) -> bool)
    requires
        forall|j: int| 0 <= j < rows.len() ==> keep(#[trigger] rows[j]),
    ensures
        rows.filter(keep) == rows,
    decreases rows.len(),
{
    reveal(Seq::filter);
    if rows.len() > 0 {
        let head = rows.drop_last();
        assert forall|j: int| 0 <= j < head.len() implies keep(#[trigger] head[j]) by {
            assert(head[j] == rows[j]);
        }
        lemma_all_kept(head, keep);
        assert(keep(rows[rows.len() - 1]));
        assert(rows.filter(keep) =~= rows);
    } else {
        assert(rows.filter(keep) =~= rows);
    }
}

proof fn lemma_filter_concat(a: Seq<Row>, b: Seq<Row>, keep: spec_fn(Row) -> bool)
    ensures
        (a + b).filter(keep) == a.filter(keep) + b.filter(keep),
    decreases b.len(),
{
    reveal(Seq::filter);
    if b.len() == 0 {
        assert(a + b =~= a);
        assert(b.filter(keep) =~= Seq::empty());
        assert(a.filter(keep) + b.filter(keep) =~= a.filter(keep));
    } else {
        assert((a + b).drop_last() =~= a + b.drop_last());
        lemma_filter_concat(a, b.drop_last(), keep);
        assert((a + b).last() == b.last());
        assert((a + b).filter(keep) =~= a.filter(keep) + b.filter(keep));
    }
}

/// An id and a label lead to the first row that carries them, and to none when no
/// row does.
pub proof fn a_search_finds_the_first_row(menu: MenuView, id: MenuItemId, label: Seq<char>, j: int)
    requires
        0 <= j < menu.rows.len(),
    ensures
        menu.rows[j].0 == id ==> menu.position(id) is Some && menu.position(id)->0 <= j,
        menu.position(id) matches Some(k) ==> 0 <= k < menu.rows.len() && menu.rows[k].0 == id
            && menu.find(id) == Some(menu.rows[k].1),
        menu.position(id) is None ==> menu.find(id) is None,
        menu.rows[j].1.label() == Some(label) ==> menu.label_position(label) is Some
            && menu.label_position(label)->0 <= j,
        menu.label_position(label) matches Some(k) ==> 0 <= k < menu.rows.len()
            && menu.rows[k].1.label() == Some(label),
{
    let wanted = with_id(id);
    let named = crate::tray::menu::labelled(label);
    lemma_position_is_first(menu, id);
    if menu.rows[j].0 == id {
        assert(wanted(menu.rows[j]));
        lemma_wanted_is_found(menu.rows, wanted, j);
        let k = menu.position(id)->0;
        assert(is_first(menu.rows, wanted, k));
    }
    if menu.rows[j].1.label() == Some(label) {
        assert(named(menu.rows[j]));
        lemma_wanted_is_found(menu.rows, named, j);
        let k = menu.label_position(label)->0;
        assert(is_first(menu.rows, named, k));
    }
}

/// After a row was given another label, its id finds a row of the same kind that
/// shows the new label and is otherwise as before; a separator stays one, and
/// nothing is done when the row is gone.
pub proof fn a_relabelled_row_is_found_relabelled(
    menu: &mut TrayMenu,
    id: MenuItemId,
    label: &str,
    done: bool,
    other: MenuItemId,
)
    requires
        call_ensures(TrayMenu::set_label, (menu, id, label), done),
        other@ != id@,
    ensures
        done <==> old(menu)@.find(id) is Some,
        !done ==> final(menu)@ == old(menu)@,
        done ==> {
            let before = old(menu)@.find(id)->0;
            let found = final(menu)@.find(id);
            &&& found is Some
            &&& same_kind(found->0, before)
            &&& !(before is Separator) ==> found->0.label() == Some(label@)
            &&& found->0.state() == before.state()
            &&& found->0.action() == before.action()
            &&& found->0.children() == before.children()
        },
        final(menu)@.find(other) == old(menu)@.find(other),
        final(menu)@.rows.len() == old(menu)@.rows.len(),
{
    let change = |item: ItemView| item.with_label(label@);
    a_change_is_seen_through_its_id(old(menu)@, id, other, change);
    lemma_position_is_first(old(menu)@, id);
    if done {
        relabelling_changes_the_label_alone(old(menu)@.find(id)->0, label@);
    }
}

/// After a row was enabled or disabled, its id finds it that way, with its label,
/// its value, its callback and its nested menu as before; a separator stays
/// disabled.
pub proof fn an_enabled_row_is_found_enabled(
    menu: &mut TrayMenu,
    id: MenuItemId,
    enabled: bool,
    done: bool,
    other: MenuItemId,
)
    requires
        call_ensures(TrayMenu::set_enabled, (menu, id, enabled), done),
        other@ != id@,
    ensures
        done <==> old(menu)@.find(id) is Some,
        !done ==> final(menu)@ == old(menu)@,
        done ==> {
            let before = old(menu)@.find(id)->0;
            let found = final(menu)@.find(id);
            &&& found is Some
            &&& same_kind(found->0, before)
            &&& !(before is Separator) ==> found->0.state().enabled == enabled
            &&& found->0.state().checked == before.state().checked
            &&& found->0.label() == before.label()
            &&& found->0.action() == before.action()
            &&& found->0.children() == before.children()
        },
        final(menu)@.find(other) == old(menu)@.find(other),
        final(menu)@.rows.len() == old(menu)@.rows.len(),
{
    let change = |item: ItemView| item.with_enabled(enabled);
    a_change_is_seen_through_its_id(old(menu)@, id, other, change);
    lemma_position_is_first(old(menu)@, id);
}

/// After a checkbox was set, its id finds it with that value and otherwise as
/// before; a row of another kind is as before, and nothing is done to it.
pub proof fn a_checkbox_is_found_with_its_value(
    menu: &mut TrayMenu,
    id: MenuItemId,
    checked: bool,
    done: bool,
    other: MenuItemId,
)
    requires
        call_ensures(TrayMenu::set_checked, (menu, id, checked), done),
        other@ != id@,
    ensures
        done <==> old(menu)@.find(id) is Some && old(menu)@.find(id)->0 is Checkbox,
        old(menu)@.find(id) matches Some(before) ==> {
            let found = final(menu)@.find(id);
            &&& found is Some
            &&& done ==> found->0.state().checked == checked
            &&& !done ==> found->0 == before
            &&& same_kind(found->0, before)
            &&& found->0.state().enabled == before.state().enabled
            &&& found->0.label() == before.label()
            &&& found->0.action() == before.action()
        },
        final(menu)@.find(other) == old(menu)@.find(other),
        final(menu)@.rows.len() == old(menu)@.rows.len(),
{
    let change = |item: ItemView| item.with_checked(checked);
    a_change_is_seen_through_its_id(old(menu)@, id, other, change);
    lemma_position_is_first(old(menu)@, id);
}

/// After a row was given a state, its id finds it in that state and otherwise as
/// before.
pub proof fn a_row_is_found_in_its_state(
    menu: &mut TrayMenu,
    id: MenuItemId,
    state: MenuItemState,
    done: bool,
    other: MenuItemId,
)
    requires
        call_ensures(TrayMenu::set_state, (menu, id, state), done),
        other@ != id@,
    ensures
        done <==> old(menu)@.find(id) is Some,
        !done ==> final(menu)@ == old(menu)@,
        done ==> {
            let before = old(menu)@.find(id)->0;
            let found = final(menu)@.find(id);
            &&& found is Some
            &&& same_kind(found->0, before)
            &&& !(before is Separator) ==> found->0.state() == state
            &&& found->0.label() == before.label()
            &&& found->0.action() == before.action()
            &&& found->0.children() == before.children()
        },
        final(menu)@.find(other) == old(menu)@.find(other),
        final(menu)@.rows.len() == old(menu)@.rows.len(),
{
    let change = |item: ItemView| item.with_state(state);
    a_change_is_seen_through_its_id(old(menu)@, id, other, change);
    lemma_position_is_first(old(menu)@, id);
}

/// Toggling a row inverts the value of a checkbox and touches nothing else of it,
/// nor any other row.
pub proof fn a_toggled_row_is_found_inverted(
    menu: &mut TrayMenu,
    id: MenuItemId,
    done: bool,
    other: MenuItemId,
)
    requires
        call_ensures(TrayMenu::toggle, (menu, id), done),
        other@ != id@,
    ensures
        done <==> old(menu)@.find(id) is Some && old(menu)@.find(id)->0 is Checkbox,
        old(menu)@.find(id) matches Some(before) ==> {
            let found = final(menu)@.find(id);
            &&& found is Some
            &&& done ==> found->0.state().checked == !before.state().checked
            &&& !done ==> found->0 == before
            &&& same_kind(found->0, before)
            &&& found->0.state().enabled == before.state().enabled
            &&& found->0.label() == before.label()
            &&& found->0.action() == before.action()
        },
        final(menu)@.find(other) == old(menu)@.find(other),
        final(menu)@.rows.len() == old(menu)@.rows.len(),
{
    let change = |item: ItemView| item.toggled();
    a_change_is_seen_through_its_id(old(menu)@, id, other, change);
    lemma_position_is_first(old(menu)@, id);
}

/// A text or a checkbox that is given a callback calls it from then on, whichever
/// callback it carried; given none, a row calls nothing. Its label, its state and
/// the other rows stay as they are.
pub proof fn a_row_calls_what_it_was_given(
    menu: &mut TrayMenu,
    id: MenuItemId,
    actions: &mut ActionStore,
    action: Option<TrayAction>,
    done: bool,
    other: MenuItemId,
    event: TrayEvent,
)
    requires
        call_ensures(TrayMenu::set_action, (menu, id, actions, action), done),
        other@ != id@,
    ensures
        done <==> old(menu)@.find(id) is Some,
        !done ==> final(menu)@ == old(menu)@ && final(actions)@ == old(actions)@,
        done ==> {
            let before = old(menu)@.find(id)->0;
            let found = final(menu)@.find(id);
            &&& found is Some
            &&& same_kind(found->0, before)
            &&& found->0.label() == before.label()
            &&& found->0.state() == before.state()
            &&& found->0.children() == before.children()
            &&& before is Text || before is Checkbox ==> call_of(
                final(actions)@,
                found->0.action(),
                event,
            ) == call_of(old(actions)@, action, event)
            &&& action is None ==> found->0.action() is None
        },
        final(menu)@.find(other) == old(menu)@.find(other),
        final(menu)@.rows.len() == old(menu)@.rows.len(),
{
    let change = acting(old(actions)@, action);
    a_change_is_seen_through_its_id(old(menu)@, id, other, change);
    lemma_position_is_first(old(menu)@, id);
}

/// A row that was appended is the last one, under an id of its own; a row that
/// shows nothing is refused, and leaves the menu as it was.
pub proof fn an_appended_row_is_the_last(
    menu: &mut TrayMenu,
    item: MenuItem,
    res: Result<MenuItemId, UdaError>,
    i: int,
)
    requires
        call_ensures(TrayMenu::push, (menu, item), res),
    ensures
        res is Ok <==> item@ is Separator || exists|k: int|
            0 <= k < item@.label()->0.len() && !is_space(#[trigger] item@.label()->0[k]),
        res is Err ==> final(menu)@ == old(menu)@ && res->Err_0@ is NotSupported,
        res matches Ok(id) ==> {
            let n = old(menu)@.rows.len() as int;
            &&& final(menu)@.rows.len() == n + 1
            &&& final(menu)@.rows[n] == (id, item@)
            &&& 0 <= i < n ==> final(menu)@.rows[i] == old(menu)@.rows[i]
            &&& old(menu)@.counter < u64::MAX ==> id@ == old(menu)@.counter + 1
                && final(menu)@.counter == id@
        },
{
    let n = old(menu)@.rows.len() as int;
    only_visible_rows_are_inserted(item@);
    a_row_lands_at_its_index(old(menu)@, n, item@);
}

/// A row that was inserted stands at its index, or at the end of a shorter menu;
/// the rows before it stay in place and the others move down.
pub proof fn an_inserted_row_stands_at_its_index(
    menu: &mut TrayMenu,
    index: usize,
    item: MenuItem,
    res: Result<MenuItemId, UdaError>,
    i: int,
)
    requires
        call_ensures(TrayMenu::insert, (menu, index, item), res),
    ensures
        res is Ok <==> item@ is Separator || exists|k: int|
            0 <= k < item@.label()->0.len() && !is_space(#[trigger] item@.label()->0[k]),
        res is Err ==> final(menu)@ == old(menu)@ && res->Err_0@ is NotSupported,
        res matches Ok(id) ==> {
            let n = old(menu)@.rows.len() as int;
            let at = if index < n {
                index as int
            } else {
                n
            };
            &&& final(menu)@.rows.len() == n + 1
            &&& final(menu)@.rows[at] == (id, item@)
            &&& 0 <= i < at ==> final(menu)@.rows[i] == old(menu)@.rows[i]
            &&& at < i <= n ==> final(menu)@.rows[i] == old(menu)@.rows[i - 1]
            &&& old(menu)@.counter < u64::MAX ==> id@ == old(menu)@.counter + 1
        },
{
    only_visible_rows_are_inserted(item@);
    a_row_lands_at_its_index(old(menu)@, index as int, item@);
}

/// Removing a row takes that row alone; the others keep their order and their
/// ids, and nothing goes when no row has the id.
pub proof fn a_removed_row_is_gone(menu: &mut TrayMenu, id: MenuItemId, removed: bool)
    requires
        call_ensures(TrayMenu::remove, (menu, id), removed),
        old(menu)@.well_formed(),
        id@ < u64::MAX,
    ensures
        removed <==> old(menu)@.find(id) is Some,
        !removed ==> final(menu)@ == old(menu)@,
        removed ==> final(menu)@.find(id) is None && final(menu)@.rows == old(menu)@.rows.remove(
            old(menu)@.position(id)->0,
        ),
{
    let before = old(menu)@;
    removal_takes_the_one_row(before, id);
    lemma_position_is_first(before, id);
    if let Some(k) = before.position(id) {
        let rest = before.rows.remove(k);
        assert forall|j: int| 0 <= j < rest.len() implies !with_id(id)(#[trigger] rest[j]) by {
            if j < k {
                assert(rest[j] == before.rows[j]);
            } else {
                assert(rest[j] == before.rows[j + 1]);
            }
            if rest[j].0 == id {
                assert(before.rows[k].0 == id);
            }
        }
        lemma_first_index_absent(rest, with_id(id));
    }
}

/// Looking a row up gives the row as it is, or nothing; a label leads to the first
/// row that shows it.
pub proof fn a_row_is_looked_up(
    menu: TrayMenu,
    id: MenuItemId,
    label: &str,
    found: Option<MenuItem>,
    named: Option<(MenuItemId, MenuItem)>,
    j: int,
)
    requires
        call_ensures(TrayMenu::find, (&menu, id), found),
        call_ensures(TrayMenu::find_by_label, (&menu, label), named),
        0 <= j < menu@.rows.len(),
    ensures
        menu@.rows[j].0 == id && (forall|i: int|
            0 <= i < j ==> (#[trigger] menu@.rows[i]).0 != id) ==> found is Some && found->0@
            == menu@.rows[j].1,
        found is Some ==> menu@.position(id) is Some,
        menu@.rows[j].1.label() == Some(label@) && (forall|i: int|
            0 <= i < j ==> (#[trigger] menu@.rows[i]).1.label() != Some(label@)) ==> (
        named matches Some((at, row)) && at == menu@.rows[j].0 && row@ == menu@.rows[j].1),
        named matches Some((at, row)) ==> row@.label() == Some(label@),
{
    a_search_finds_the_first_row(menu@, id, label@, j);
}

/// A row can be inserted exactly when it is a separator or its label shows
/// something that is not white space.
pub proof fn only_visible_rows_are_inserted(item: ItemView)
    ensures
        is_insertable(item) <==> item is Separator || exists|i: int|
            0 <= i < item.label()->0.len() && !is_space(#[trigger] item.label()->0[i]),
        blank_label_error() is NotSupported,
{
}

/// A builder appends each row as asked, and the menu it builds holds the rows in
/// the order they were appended; a label that shows nothing is refused.
pub proof fn a_built_menu_holds_its_rows_in_order(
    builder: TrayMenuBuilder,
    label: &str,
    callback: TrayAction,
    children: MenuRef,
    text: Result<TrayMenuBuilder, UdaError>,
    calling: Result<TrayMenuBuilder, UdaError>,
    disabled: Result<TrayMenuBuilder, UdaError>,
    separator: Result<TrayMenuBuilder, UdaError>,
    unchecked: Result<TrayMenuBuilder, UdaError>,
    checked: Result<TrayMenuBuilder, UdaError>,
    nested: Result<TrayMenuBuilder, UdaError>,
    menu: TrayMenu,
)
    requires
        call_ensures(TrayMenuBuilder::text, (builder, label), text),
        call_ensures(TrayMenuBuilder::text_with_action, (builder, label, callback), calling),
        call_ensures(TrayMenuBuilder::text_disabled, (builder, label), disabled),
        call_ensures(TrayMenuBuilder::separator, (builder,), separator),
        call_ensures(TrayMenuBuilder::checkbox, (builder, label), unchecked),
        call_ensures(TrayMenuBuilder::checkbox_checked, (builder, label), checked),
        call_ensures(TrayMenuBuilder::submenu, (builder, label, children), nested),
        call_ensures(TrayMenuBuilder::build, (builder,), menu),
    ensures
        menu@ == builder@,
        separator matches Ok(longer) && is_extended(builder@, longer@, ItemView::Separator),
        is_blank(label@) ==> text is Err && calling is Err && disabled is Err && unchecked is Err
            && checked is Err && nested is Err,
        !is_blank(label@) ==> {
            let able = MenuItemState { enabled: true, checked: false };
            let unable = MenuItemState { enabled: false, checked: false };
            let ticked = MenuItemState { enabled: true, checked: true };
            let l = label@;
            &&& text matches Ok(longer) && is_extended(
                builder@,
                longer@,
                ItemView::Text { label: l, state: able, action: None },
            )
            &&& calling matches Ok(longer) && is_extended(
                builder@,
                longer@,
                ItemView::Text { label: l, state: able, action: Some(callback) },
            )
            &&& disabled matches Ok(longer) && is_extended(
                builder@,
                longer@,
                ItemView::Text { label: l, state: unable, action: None },
            )
            &&& unchecked matches Ok(longer) && is_extended(
                builder@,
                longer@,
                ItemView::Checkbox { label: l, state: able, action: None },
            )
            &&& checked matches Ok(longer) && is_extended(
                builder@,
                longer@,
                ItemView::Checkbox { label: l, state: ticked, action: None },
            )
            &&& nested matches Ok(longer) && is_extended(
                builder@,
                longer@,
                ItemView::Submenu { label: l, state: able, children },
            )
        },
{
    let able = MenuItemState { enabled: true, checked: false };
    let unable = MenuItemState { enabled: false, checked: false };
    let ticked = MenuItemState { enabled: true, checked: true };
    let l = label@;
    lemma_extended(builder@, ItemView::Separator);
    lemma_extended(builder@, ItemView::Text { label: l, state: able, action: None });
    lemma_extended(builder@, ItemView::Text { label: l, state: able, action: Some(callback) });
    lemma_extended(builder@, ItemView::Text { label: l, state: unable, action: None });
    lemma_extended(builder@, ItemView::Checkbox { label: l, state: able, action: None });
    lemma_extended(builder@, ItemView::Checkbox { label: l, state: ticked, action: None });
    lemma_extended(builder@, ItemView::Submenu { label: l, state: able, children });
}

proof fn lemma_extended(before: MenuView, item: ItemView)
    ensures
        is_extended(before, before.inserted(before.rows.len() as int, item), item),
{
    assert(before.inserted(before.rows.len() as int, item).rows.drop_last() =~= before.rows);
}

/// Whether a menu holds the rows of another and one more at the end.
pub open spec fn is_extended(before: MenuView, after: MenuView, item: ItemView) -> bool {
    &&& after.rows.len() == before.rows.len() + 1
    &&& after.rows.last().1 == item
    &&& after.rows.drop_last() == before.rows
}

/// Clearing a menu takes every row and keeps counting its ids; a menu tells how
/// many rows it has, and hands them out in order.
pub proof fn a_menu_tells_its_rows(
    menu: TrayMenu,
    cleared: &mut TrayMenu,
    count: usize,
    none: bool,
    items: Vec<MenuItem>,
    entries: Vec<(MenuItemId, MenuItem)>,
    i: int,
)
    requires
        call_ensures(TrayMenu::clear, (cleared,), ()),
        call_ensures(TrayMenu::len, (&menu,), count),
        call_ensures(TrayMenu::is_empty, (&menu,), none),
        call_ensures(TrayMenu::items, (&menu,), items),
        call_ensures(TrayMenu::entries, (&menu,), entries),
    ensures
        final(cleared)@.rows.len() == 0,
        final(cleared)@.counter == old(cleared)@.counter,
        count == menu@.rows.len(),
        none <==> menu@.rows.len() == 0,
        items@.len() == menu@.rows.len() && entries@.len() == menu@.rows.len(),
        0 <= i < menu@.rows.len() ==> items@[i]@ == menu@.rows[i].1 && entries@[i].0
            == menu@.rows[i].0 && entries@[i].1@ == menu@.rows[i].1,
{
    if 0 <= i < menu@.rows.len() {
        let item = items@[i];
        let entry = entries@[i];
    }
}

} // verus!
