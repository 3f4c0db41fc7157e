//! A tray menu as `com.canonical.dbusmenu` lays it out: a tree of rows under
//! integer ids.

use crate::text::same;
use crate::tray::event::TrayAction;
use crate::tray::item::{ItemView, MenuItem, MenuItemId, MenuRef};
use crate::tray::menu::Row;
use crate::tray::store::{
    depth_of, item_nests_within, menu_at, nests, nests_within, rows_nest_within, MenuStore, StoreView,
};
use vstd::prelude::*;

verus! {

/// One menu row under its dbusmenu id.
#[derive(Debug)]
pub struct MenuRow {
    /// dbusmenu item id, stable for as long as the row exists.
    pub id: i32,
    /// Row label; separators carry `None`.
    pub label: Option<String>,
    /// Whether the row is interactive.
    pub enabled: bool,
    /// Whether the row renders a checkmark.
    pub checkbox: bool,
    /// Current checkbox value.
    pub checked: bool,
    /// Whether the row is purely visual.
    pub separator: bool,
    /// Whether the row opens a nested menu, which may be empty.
    pub submenu: bool,
    /// Nested rows, with their own contiguous id range.
    pub children: Vec<MenuRow>,
    /// Callback fired when the shell reports this row as clicked.
    ///
    /// Kept beside the exported row, so a click is addressed to the row the user
    /// actually saw even when the host has changed the menu in the meantime.
    pub action: Option<TrayAction>,
}

/// What a [`MenuRow`] says.
#[verifier::ext_equal]
pub struct RowView {
    pub id: i32,
    pub label: Option<Seq<char>>,
    pub enabled: bool,
    pub checkbox: bool,
    pub checked: bool,
    pub separator: bool,
    pub submenu: bool,
    pub children: Seq<RowView>,
    pub action: Option<TrayAction>,
}

impl MenuRow {
    /// What the row says.
    pub open spec fn view(self) -> RowView
        decreases self,
    {
        RowView {
            id: self.id,
            label: match self.label {
                Some(label) => Some(label@),
                None => None,
            },
            enabled: self.enabled,
            checkbox: self.checkbox,
            checked: self.checked,
            separator: self.separator,
            submenu: self.submenu,
            children: rows_view(self.children@),
            action: self.action,
        }
    }
}

/// What rows say.
pub open spec fn rows_view(rows: Seq<MenuRow>) -> Seq<RowView>
    decreases rows,
{
    if rows.len() == 0 {
        Seq::empty()
    } else {
        rows_view(rows.drop_last()).push(rows.last()@)
    }
}

pub(crate) proof fn lemma_rows_view(rows: Seq<MenuRow>)
    ensures
        rows_view(rows).len() == rows.len(),
        forall|i: int| 0 <= i < rows.len() ==> #[trigger] rows_view(rows)[i] == rows[i]@,
    decreases rows.len(),
{
    if rows.len() > 0 {
        lemma_rows_view(rows.drop_last());
        assert forall|i: int| 0 <= i < rows.len() implies #[trigger] rows_view(rows)[i]
            == rows[i]@ by {
            if i < rows.len() - 1 {
                assert(rows.drop_last()[i] == rows[i]);
            }
        }
    }
}

// ---------------------------------------------------------------------------
// Laying a menu out
// ---------------------------------------------------------------------------
/// The dbusmenu id in place `n`. Ids stay at the largest one rather than
/// wrapping around to a row that is in use.
pub open spec fn id_at(n: int) -> i32 {
    if n <= i32::MAX {
        n as i32
    } else {
        i32::MAX
    }
}

/// How many rows an item takes up, itself included.
pub open spec fn item_size(store: StoreView, item: ItemView, depth: nat) -> nat
    decreases depth, 2nat, 0nat,
{
    match item.children() {
        Some(children) => if depth > 0 {
            1 + rows_size(store, menu_at(store, children).rows, (depth - 1) as nat)
        } else {
            1
        },
        None => 1,
    }
}

/// How many rows a list of items takes up.
pub open spec fn rows_size(store: StoreView, rows: Seq<Row>, depth: nat) -> nat
    decreases depth, 3nat, rows.len(),
{
    if rows.len() == 0 {
        0
    } else {
        rows_size(store, rows.drop_last(), depth) + item_size(store, rows.last().1, depth)
    }
}

/// The row of an item whose id is in place `n`.
pub open spec fn item_row(store: StoreView, item: ItemView, n: int, depth: nat) -> RowView
    decreases depth, 2nat, 0nat,
{
    RowView {
        id: id_at(n),
        label: item.label(),
        enabled: item.state().enabled,
        checkbox: item is Checkbox,
        checked: item is Checkbox && item.state().checked,
        separator: item is Separator,
        submenu: item is Submenu,
        children: match item.children() {
            Some(children) => if depth > 0 {
                menu_rows(store, menu_at(store, children).rows, n + 1, (depth - 1) as nat)
            } else {
                Seq::empty()
            },
            None => Seq::empty(),
        },
        action: item.action(),
    }
}

/// The rows of a menu, in order, under ids from place `n` on: a submenu comes
/// before its children, and its children before the next row.
pub open spec fn menu_rows(store: StoreView, rows: Seq<Row>, n: int, depth: nat) -> Seq<RowView>
    decreases depth, 3nat, rows.len(),
{
    if rows.len() == 0 {
        Seq::empty()
    } else {
        menu_rows(store, rows.drop_last(), n, depth).push(
            item_row(
                store,
                rows.last().1,
                n + rows_size(store, rows.drop_last(), depth),
                depth,
            ),
        )
    }
}

proof fn lemma_depth_is_irrelevant(
    store: StoreView,
    rows: Seq<Row>,
    n: int,
    depth: nat,
    deeper: nat,
)
    requires
        depth <= deeper,
        rows_nest_within(store, rows, depth),
    ensures
        rows_size(store, rows, depth) == rows_size(store, rows, deeper),
        menu_rows(store, rows, n, depth) == menu_rows(store, rows, n, deeper),
    decreases depth, rows.len(),
{
    if rows.len() > 0 {
        let head = rows.drop_last();
        let last = rows.last();
        assert(last == rows[rows.len() - 1]);
        assert forall|i: int| 0 <= i < head.len() implies item_nests_within(
            store,
            #[trigger] head[i].1,
            depth,
        ) by {
            assert(head[i] == rows[i]);
        }
        lemma_depth_is_irrelevant(store, head, n, depth, deeper);
        if let Some(child) = last.1.children() {
            assert(nests_within(store, child, depth));
            let inner = menu_at(store, child).rows;
            assert forall|i: int| 0 <= i < inner.len() implies item_nests_within(
                store,
                #[trigger] inner[i].1,
                (depth - 1) as nat,
            ) by {}
            let m = n + rows_size(store, head, depth);
            lemma_depth_is_irrelevant(
                store,
                inner,
                m + 1,
                (depth - 1) as nat,
                (deeper - 1) as nat,
            );
        }
        let m = n + rows_size(store, head, depth);
        assert(item_size(store, last.1, depth) == item_size(store, last.1, deeper));
        assert(item_row(store, last.1, m, depth) =~= item_row(store, last.1, m, deeper));
    } else {
        assert(menu_rows(store, rows, n, depth) =~= menu_rows(store, rows, n, deeper));
    }
}

/// Whether a row shows the label, the state and the checkbox of an item.
pub open spec fn shows(row: RowView, item: ItemView) -> bool {
    &&& row.label == item.label()
    &&& row.enabled == item.state().enabled
    &&& row.checkbox == item is Checkbox
    &&& row.checked == (item is Checkbox && item.state().checked)
}

pub(crate) proof fn lemma_rows_are_shown(store: StoreView, rows: Seq<Row>, n: int, depth: nat)
    ensures
        menu_rows(store, rows, n, depth).len() == rows.len(),
        forall|i: int|
            0 <= i < rows.len() ==> shows(
                #[trigger] menu_rows(store, rows, n, depth)[i],
                rows[i].1,
            ),
    decreases rows.len(),
{
    if rows.len() > 0 {
        let head = rows.drop_last();
        lemma_rows_are_shown(store, head, n, depth);
        let last = item_row(
            store,
            rows.last().1,
            n + rows_size(store, head, depth),
            depth,
        );
        assert(shows(last, rows.last().1));
        assert(menu_rows(store, rows, n, depth) == menu_rows(store, head, n, depth).push(last));
        assert forall|i: int| 0 <= i < rows.len() implies shows(
            #[trigger] menu_rows(store, rows, n, depth)[i],
            rows[i].1,
        ) by {
            if i < head.len() {
                assert(head[i] == rows[i]);
                assert(shows(menu_rows(store, head, n, depth)[i], head[i].1));
            }
        }
    }
}

/// The rows of a menu under ids from 1 on; 0 is the protocol's root.
pub open spec fn laid_out(store: StoreView, menu: MenuRef) -> Seq<RowView> {
    menu_rows(store, menu_at(store, menu).rows, 1, (depth_of(store, menu) - 1) as nat)
}

/// Whatever depth suffices to follow the submenus, the layout is the same.
pub proof fn layout_does_not_depend_on_depth(store: StoreView, menu: MenuRef, depth: nat)
    requires
        nests_within(store, menu, depth),
    ensures
        laid_out(store, menu) == menu_rows(
            store,
            menu_at(store, menu).rows,
            1,
            (depth - 1) as nat,
        ),
{
    let chosen = depth_of(store, menu);
    assert(nests_within(store, menu, chosen));
    let rows = menu_at(store, menu).rows;
    let a = (depth - 1) as nat;
    let b = (chosen - 1) as nat;
    assert(rows_nest_within(store, rows, a));
    assert(rows_nest_within(store, rows, b));
    if a <= b {
        lemma_depth_is_irrelevant(store, rows, 1, a, b);
    } else {
        lemma_depth_is_irrelevant(store, rows, 1, b, a);
    }
}

/// Advance an id counter; it stays at the largest id.
fn advance(menuid: &mut i32, Ghost(n): Ghost<int>)
    requires
        0 <= n,
        *old(menuid) == id_at(n),
    ensures
        *final(menuid) == id_at(n + 1),
{
    if *menuid < i32::MAX {
        *menuid = *menuid + 1;
    }
}

impl MenuRow {
    /// Map a [`MenuItem`] onto a row, allocating the dbusmenu id.
    ///
    /// `menuid` is a counter owned by the caller so nested submenus allocate
    /// from one monotonic sequence.
    fn from_item(
        store: &MenuStore,
        item: &MenuItem,
        menuid: &mut i32,
        Ghost(n): Ghost<int>,
        Ghost(depth): Ghost<nat>,
    ) -> (row: Self)
        requires
            0 <= n,
            *old(menuid) == id_at(n),
            item_nests_within(store@, item@, depth),
        ensures
            row@ == item_row(store@, item@, n, depth),
            *final(menuid) == id_at(n + item_size(store@, item@, depth)),
        decreases depth, 0nat,
    {
        let id: i32 = *menuid;
        advance(menuid, Ghost(n));
        let state = item.state();
        match item {
            MenuItem::Separator => {
                let row = MenuRow {
                    id,
                    label: None,
                    enabled: false,
                    checkbox: false,
                    checked: false,
                    separator: true,
                    submenu: false,
                    children: Vec::new(),
                    action: None,
                };
                proof {
                    assert(row@.children =~= Seq::empty());
                }
                row
            },
            MenuItem::Text { label, action, .. } => {
                let row = MenuRow {
                    id,
                    label: Some(label.clone()),
                    enabled: state.enabled,
                    checkbox: false,
                    checked: false,
                    separator: false,
                    submenu: false,
                    children: Vec::new(),
                    action: *action,
                };
                proof {
                    assert(row@.children =~= Seq::empty());
                }
                row
            },
            MenuItem::Checkbox { label, action, .. } => {
                let row = MenuRow {
                    id,
                    label: Some(label.clone()),
                    enabled: state.enabled,
                    checkbox: true,
                    checked: state.checked,
                    separator: false,
                    submenu: false,
                    children: Vec::new(),
                    action: *action,
                };
                proof {
                    assert(row@.children =~= Seq::empty());
                }
                row
            },
            MenuItem::Submenu { label, children, .. } => {
                // The parent's id is allocated before its children are visited,
                // so a submenu owns a contiguous id range.
                let nested = match store.menu(*children) {
                    Some(menu) => MenuRow::from_entries(
                        store,
                        &menu.entries(),
                        menuid,
                        Ghost(menu@.rows),
                        Ghost(n + 1),
                        Ghost((depth - 1) as nat),
                    ),
                    None => Vec::new(),
                };
                MenuRow {
                    id,
                    label: Some(label.clone()),
                    enabled: state.enabled,
                    checkbox: false,
                    checked: false,
                    separator: false,
                    submenu: true,
                    children: nested,
                    action: None,
                }
            },
        }
    }

    /// Map the rows of one menu, in order.
    fn from_entries(
        store: &MenuStore,
        entries: &Vec<(MenuItemId, MenuItem)>,
        menuid: &mut i32,
        Ghost(rows): Ghost<Seq<Row>>,
        Ghost(n): Ghost<int>,
        Ghost(depth): Ghost<nat>,
    ) -> (mapped: Vec<MenuRow>)
        requires
            0 <= n,
            *old(menuid) == id_at(n),
            entries@.len() == rows.len(),
            forall|i: int|
                0 <= i < rows.len() ==> ((#[trigger] entries@[i]).0, entries@[i].1@) == rows[i],
            rows_nest_within(store@, rows, depth),
        ensures
            rows_view(mapped@) == menu_rows(store@, rows, n, depth),
            *final(menuid) == id_at(n + rows_size(store@, rows, depth)),
        decreases depth, 1nat,
    {
        let mut mapped: Vec<MenuRow> = Vec::new();
        let mut i: usize = 0;
        while i < entries.len()
            invariant
                i <= entries.len(),
                0 <= n,
                entries@.len() == rows.len(),
                forall|j: int|
                    0 <= j < rows.len() ==> ((#[trigger] entries@[j]).0, entries@[j].1@) == rows[j],
                rows_nest_within(store@, rows, depth),
                *menuid == id_at(n + rows_size(store@, rows.take(i as int), depth)),
                rows_view(mapped@) == menu_rows(store@, rows.take(i as int), n, depth),
            decreases entries.len() - i,
        {
            let ghost before = mapped@;
            let ghost m = n + rows_size(store@, rows.take(i as int), depth);
            proof {
                assert(entries@[i as int].1@ == rows[i as int].1);
                assert(item_nests_within(store@, rows[i as int].1, depth));
            }
            let row = MenuRow::from_item(
                store,
                &entries[i].1,
                menuid,
                Ghost(m),
                Ghost(depth),
            );
            mapped.push(row);
            proof {
                assert(mapped@.drop_last() =~= before);
                assert(rows.take(i as int + 1).drop_last() =~= rows.take(i as int));
                assert(rows.take(i as int + 1).last() == rows[i as int]);
            }
            i = i + 1;
        }
        proof {
            assert(rows.take(i as int) =~= rows);
        }
        mapped
    }
}

// ---------------------------------------------------------------------------
// Finding a row
// ---------------------------------------------------------------------------
/// Every row of a tree, a row before its children and its children before the
/// next row.
pub open spec fn preorder(rows: Seq<RowView>) -> Seq<RowView>
    decreases rows,
{
    if rows.len() == 0 {
        Seq::empty()
    } else {
        preorder(rows.drop_last()) + (seq![rows.last()] + preorder(rows.last().children))
    }
}

/// The first row with the given id.
pub open spec fn first_with_id(rows: Seq<RowView>, id: i32) -> Option<RowView>
    decreases rows.len(),
{
    if rows.len() == 0 {
        None
    } else {
        match first_with_id(rows.drop_last(), id) {
            Some(row) => Some(row),
            None => if rows.last().id == id {
                Some(rows.last())
            } else {
                None
            },
        }
    }
}

/// The row that an id addresses in a tree.
pub open spec fn addressed(rows: Seq<RowView>, id: i32) -> Option<RowView> {
    first_with_id(preorder(rows), id)
}

proof fn lemma_first_with_id_concat(a: Seq<RowView>, b: Seq<RowView>, id: i32)
    ensures
        first_with_id(a + b, id) == (match first_with_id(a, id) {
            Some(row) => Some(row),
            None => first_with_id(b, id),
        }),
    decreases b.len(),
{
    if b.len() == 0 {
        assert(a + b =~= a);
    } else {
        assert((a + b).drop_last() =~= a + b.drop_last());
        lemma_first_with_id_concat(a, b.drop_last(), id);
    }
}

proof fn lemma_first_with_id_at(rows: Seq<RowView>, k: int)
    requires
        0 <= k < rows.len(),
        forall|j: int| 0 <= j < k ==> (#[trigger] rows[j]).id != rows[k].id,
    ensures
        first_with_id(rows, rows[k].id) == Some(rows[k]),
    decreases rows.len(),
{
    let id = rows[k].id;
    if k < rows.len() - 1 {
        assert(rows.drop_last()[k] == rows[k]);
        assert forall|j: int| 0 <= j < k implies (#[trigger] rows.drop_last()[j]).id
            != rows.drop_last()[k].id by {
            assert(rows.drop_last()[j] == rows[j]);
        }
        lemma_first_with_id_at(rows.drop_last(), k);
    } else {
        assert forall|j: int| 0 <= j < rows.drop_last().len() implies (
        #[trigger] rows.drop_last()[j]).id != id by {
            assert(rows.drop_last()[j] == rows[j]);
        }
        lemma_no_such_id(rows.drop_last(), id);
    }
}

proof fn lemma_no_such_id(rows: Seq<RowView>, id: i32)
    requires
        forall|j: int| 0 <= j < rows.len() ==> (#[trigger] rows[j]).id != id,
    ensures
        first_with_id(rows, id) is None,
    decreases rows.len(),
{
    if rows.len() > 0 {
        assert forall|j: int| 0 <= j < rows.drop_last().len() implies (
        #[trigger] rows.drop_last()[j]).id != id by {
            assert(rows.drop_last()[j] == rows[j]);
        }
        lemma_no_such_id(rows.drop_last(), id);
        assert(rows[rows.len() - 1].id != id);
    }
}

proof fn lemma_preorder_ids(store: StoreView, rows: Seq<Row>, n: int, depth: nat)
    ensures
        preorder(menu_rows(store, rows, n, depth)).len() == rows_size(store, rows, depth),
        forall|i: int|
            0 <= i < preorder(menu_rows(store, rows, n, depth)).len() ==> (
            #[trigger] preorder(menu_rows(store, rows, n, depth))[i]).id == id_at(n + i),
    decreases depth, rows.len(),
{
    let all = menu_rows(store, rows, n, depth);
    if rows.len() > 0 {
        let head = rows.drop_last();
        lemma_preorder_ids(store, head, n, depth);
        let before = preorder(menu_rows(store, head, n, depth));
        let m = n + rows_size(store, head, depth);
        let last = item_row(store, rows.last().1, m, depth);
        assert(all.drop_last() =~= menu_rows(store, head, n, depth));
        assert(all.last() == last);
        match rows.last().1.children() {
            Some(child) => {
                if depth > 0 {
                    lemma_preorder_ids(
                        store,
                        menu_at(store, child).rows,
                        m + 1,
                        (depth - 1) as nat,
                    );
                } else {
                    assert(preorder(last.children) =~= Seq::empty());
                }
            },
            None => {
                assert(preorder(last.children) =~= Seq::empty());
            },
        }
        let inner = preorder(last.children);
        assert(item_size(store, rows.last().1, depth) == 1 + inner.len());
        assert(preorder(all) =~= before + (seq![last] + inner));
        assert forall|i: int| 0 <= i < preorder(all).len() implies (#[trigger] preorder(all)[i]).id
            == id_at(n + i) by {
            if i < before.len() {
                assert(preorder(all)[i] == before[i]);
            } else if i > before.len() {
                assert(preorder(all)[i] == inner[i - before.len() - 1]);
            }
        }
    }
}

/// Ids are contiguous from 1 in the order rows are shown, so as long as they do
/// not run out no two rows share one and each id addresses exactly its row. The
/// root's id is never a row's.
pub proof fn ids_are_contiguous_and_address_one_row(store: StoreView, menu: MenuRef, k: int)
    requires
        nests(store, menu),
        preorder(laid_out(store, menu)).len() <= i32::MAX,
        0 <= k < preorder(laid_out(store, menu)).len(),
    ensures
        preorder(laid_out(store, menu))[k].id == k + 1,
        addressed(laid_out(store, menu), (k + 1) as i32) == Some(
            preorder(laid_out(store, menu))[k],
        ),
        addressed(laid_out(store, menu), 0) is None,
{
    let rows = menu_at(store, menu).rows;
    let depth = (depth_of(store, menu) - 1) as nat;
    lemma_preorder_ids(store, rows, 1, depth);
    let all = preorder(laid_out(store, menu));
    assert forall|j: int| 0 <= j < all.len() implies (#[trigger] all[j]).id == j + 1 by {}
    lemma_first_with_id_at(all, k);
    lemma_no_such_id(all, 0);
}

impl MenuRow {
    /// Find a row by dbusmenu id, depth-first.
    pub fn find(rows: &Vec<MenuRow>, id: i32) -> (found: Option<&MenuRow>)
        ensures
            found is Some <==> addressed(rows_view(rows@), id) is Some,
            found matches Some(row) ==> addressed(rows_view(rows@), id) == Some(row@),
        decreases rows,
    {
        let ghost all = rows_view(rows@);
        let mut i: usize = 0;
        proof {
            lemma_rows_view(rows@);
            assert(all.take(0) =~= Seq::empty());
            assert(preorder(all.take(0)) =~= Seq::empty());
        }
        while i < rows.len()
            invariant
                i <= rows.len(),
                all == rows_view(rows@),
                all.len() == rows@.len(),
                forall|j: int| 0 <= j < rows@.len() ==> #[trigger] all[j] == rows@[j]@,
                first_with_id(preorder(all.take(i as int)), id) is None,
            decreases rows.len() - i,
        {
            let ghost row = rows@[i as int]@;
            let ghost seen = all.take(i as int + 1);
            proof {
                assert(all[i as int] == row);
                assert(seen.drop_last() =~= all.take(i as int));
                assert(seen.last() == row);
                let here = seq![row] + preorder(row.children);
                assert(preorder(seen) == preorder(all.take(i as int)) + here);
                lemma_first_with_id_concat(preorder(all.take(i as int)), here, id);
                lemma_first_with_id_concat(seq![row], preorder(row.children), id);
                assert(seq![row].drop_last() =~= Seq::empty());
                assert(first_with_id(seq![row].drop_last(), id) is None);
                assert(seq![row].last() == row);
                assert(row.id == rows@[i as int].id);
                assert(row.children == rows_view(rows@[i as int].children@));
                assert(first_with_id(seq![row], id) == (if row.id == id {
                    Some(row)
                } else {
                    None
                }));
                lemma_preorder_prefix(all, i as int + 1, id);
            }
            if rows[i].id == id {
                return Some(&rows[i]);
            }
            if let Some(found) = MenuRow::find(&rows[i].children, id) {
                return Some(found);
            }
            i = i + 1;
        }
        proof {
            assert(all.take(i as int) =~= all);
        }
        None
    }
}

proof fn lemma_preorder_prefix(rows: Seq<RowView>, n: int, id: i32)
    requires
        0 <= n <= rows.len(),
    ensures
        first_with_id(preorder(rows.take(n)), id) matches Some(row) ==> addressed(rows, id) == Some(
            row,
        ),
    decreases rows.len() - n,
{
    if n == rows.len() {
        assert(rows.take(n) =~= rows);
    } else {
        lemma_preorder_prefix(rows, n + 1, id);
        let longer = rows.take(n + 1);
        assert(longer.drop_last() =~= rows.take(n));
        lemma_first_with_id_concat(
            preorder(rows.take(n)),
            seq![longer.last()] + preorder(longer.last().children),
            id,
        );
    }
}

/// Whether two optional labels are the same text, or both absent.
fn same_label(left: &Option<String>, right: &Option<String>) -> (yes: bool)
    ensures
        yes == match (left, right) {
            (None, None) => true,
            (Some(a), Some(b)) => a@ == b@,
            _ => false,
        },
{
    match (left, right) {
        (None, None) => true,
        (Some(left), Some(right)) => same(left.as_str(), right.as_str()),
        _ => false,
    }
}

/// Whether two rows say the same, nested rows included.
fn same_row(left: &MenuRow, right: &MenuRow) -> (yes: bool)
    ensures
        yes == (left@ == right@),
    decreases left, 0nat,
{
    let action = match (left.action, right.action) {
        (None, None) => true,
        (Some(a), Some(b)) => a == b,
        _ => false,
    };
    let label = same_label(&left.label, &right.label);
    let children = same_rows(&left.children, &right.children);
    left.id == right.id && left.enabled == right.enabled && left.checkbox == right.checkbox
        && left.checked == right.checked && left.separator == right.separator && left.submenu
        == right.submenu && action && label && children
}

/// Whether two lists of rows say the same.
fn same_rows(left: &Vec<MenuRow>, right: &Vec<MenuRow>) -> (yes: bool)
    ensures
        yes == (rows_view(left@) == rows_view(right@)),
    decreases left, 1nat,
{
    proof {
        lemma_rows_view(left@);
        lemma_rows_view(right@);
    }
    if left.len() != right.len() {
        return false;
    }
    let mut i: usize = 0;
    while i < left.len()
        invariant
            i <= left.len(),
            left@.len() == right@.len(),
            rows_view(left@).len() == left@.len(),
            rows_view(right@).len() == right@.len(),
            forall|j: int| 0 <= j < left@.len() ==> #[trigger] rows_view(left@)[j] == left@[j]@,
            forall|j: int| 0 <= j < right@.len() ==> #[trigger] rows_view(right@)[j] == right@[j]@,
            forall|j: int|
                0 <= j < i ==> #[trigger] rows_view(left@)[j] == rows_view(right@)[j],
        decreases left.len() - i,
    {
        if !same_row(&left[i], &right[i]) {
            proof {
                assert(rows_view(left@)[i as int] != rows_view(right@)[i as int]);
            }
            return false;
        }
        i = i + 1;
    }
    proof {
        assert(rows_view(left@) =~= rows_view(right@));
    }
    true
}

// ---------------------------------------------------------------------------
// Snapshot
// ---------------------------------------------------------------------------
/// A snapshot of the menu attached to an icon, taken per request.
///
/// Rows are captured with their callbacks, so an event never reaches back into
/// the host's live menu tree.
#[derive(Debug)]
pub struct MenuSnapshot {
    rows: Vec<MenuRow>,
}

impl MenuSnapshot {
    /// The rows of the menu, as laid out.
    pub closed spec fn view(self) -> Seq<RowView> {
        rows_view(self.rows@)
    }

    /// Snapshot a menu. Its submenus have to come to an end.
    pub fn from_menu(store: &MenuStore, menu: Option<MenuRef>) -> (snapshot: Option<Self>)
        requires
            menu matches Some(m) ==> nests(store@, m),
        ensures
            snapshot is Some <==> menu is Some,
            snapshot matches Some(s) ==> s@ == laid_out(store@, menu->0),
    {
        match menu {
            None => None,
            Some(menu) => {
                let ghost depth = depth_of(store@, menu);
                proof {
                    assert(nests_within(store@, menu, depth));
                    assert(rows_nest_within(
                        store@,
                        menu_at(store@, menu).rows,
                        (depth - 1) as nat,
                    ));
                }
                match store.menu(menu) {
                    Some(contents) => {
                        // dbusmenu ids start at 1; 0 is the protocol's root.
                        let mut menuid: i32 = 1;
                        let rows = MenuRow::from_entries(
                            store,
                            &contents.entries(),
                            &mut menuid,
                            Ghost(contents@.rows),
                            Ghost(1),
                            Ghost((depth - 1) as nat),
                        );
                        Some(MenuSnapshot { rows })
                    },
                    None => None,
                }
            },
        }
    }

    /// The rows of the menu, as laid out.
    pub fn rows(&self) -> (rows: &Vec<MenuRow>)
        ensures
            rows_view(rows@) == self@,
            rows@.len() == self@.len(),
            forall|i: int| 0 <= i < rows@.len() ==> (#[trigger] rows@[i])@ == self@[i],
    {
        proof {
            lemma_rows_view(self.rows@);
        }
        &self.rows
    }

    /// Whether two snapshots show the same rows.
    pub fn same_as(&self, other: &MenuSnapshot) -> (yes: bool)
        ensures
            yes == (self@ == other@),
    {
        same_rows(&self.rows, &other.rows)
    }

    /// Look up a row by dbusmenu id.
    pub fn row(&self, id: i32) -> (row: Option<&MenuRow>)
        ensures
            row is Some <==> addressed(self@, id) is Some,
            row matches Some(r) ==> addressed(self@, id) == Some(r@),
    {
        MenuRow::find(&self.rows, id)
    }
}

// ---------------------------------------------------------------------------
// What a layout says of a menu
// ---------------------------------------------------------------------------
/// Whether rows say of a menu what it holds: the label, the state, the kind and
/// the callback of each row, and of a submenu its rows in the same way.
pub open spec fn is_said(store: StoreView, rows: Seq<Row>, said: Seq<RowView>, depth: nat) -> bool
    decreases depth,
{
    &&& said.len() == rows.len()
    &&& forall|i: int|
        0 <= i < rows.len() ==> (match (#[trigger] rows[i]).1 {
            ItemView::Separator => {
                &&& said[i].separator && !said[i].checkbox && !said[i].checked && !said[i].submenu
                &&& said[i].label is None && !said[i].enabled && said[i].action is None
                &&& said[i].children.len() == 0
            },
            ItemView::Text { label, state, action } => {
                &&& !said[i].separator && !said[i].checkbox && !said[i].checked && !said[i].submenu
                &&& said[i].label == Some(label) && said[i].enabled == state.enabled
                &&& said[i].action == action && said[i].children.len() == 0
            },
            ItemView::Checkbox { label, state, action } => {
                &&& !said[i].separator && said[i].checkbox && !said[i].submenu
                &&& said[i].label == Some(label) && said[i].enabled == state.enabled
                &&& said[i].checked == state.checked
                &&& said[i].action == action && said[i].children.len() == 0
            },
            ItemView::Submenu { label, state, children } => {
                &&& !said[i].separator && !said[i].checkbox && !said[i].checked && said[i].submenu
                &&& said[i].label == Some(label) && said[i].enabled == state.enabled
                &&& said[i].action is None
                &&& depth > 0 && is_said(
                    store,
                    menu_at(store, children).rows,
                    said[i].children,
                    (depth - 1) as nat,
                )
            },
        })
}

proof fn lemma_menu_is_said(store: StoreView, rows: Seq<Row>, n: int, depth: nat)
    requires
        rows_nest_within(store, rows, depth),
    ensures
        is_said(store, rows, menu_rows(store, rows, n, depth), depth),
    decreases depth, rows.len(),
{
    let said = menu_rows(store, rows, n, depth);
    if rows.len() > 0 {
        let head = rows.drop_last();
        let item = rows.last().1;
        let m = n + rows_size(store, head, depth);
        let before = menu_rows(store, head, n, depth);
        let last = item_row(store, item, m, depth);
        assert(rows.last() == rows[rows.len() - 1]);
        assert forall|i: int| 0 <= i < head.len() implies item_nests_within(
            store,
            #[trigger] head[i].1,
            depth,
        ) by {
            assert(head[i] == rows[i]);
        }
        lemma_menu_is_said(store, head, n, depth);
        assert(said == before.push(last));
        if let Some(children) = item.children() {
            assert(nests_within(store, children, depth));
            let inner = menu_at(store, children).rows;
            assert forall|i: int| 0 <= i < inner.len() implies item_nests_within(
                store,
                #[trigger] inner[i].1,
                (depth - 1) as nat,
            ) by {}
            lemma_menu_is_said(store, inner, m + 1, (depth - 1) as nat);
        }
        assert forall|i: int| 0 <= i < rows.len() implies (i < head.len() ==> rows[i] == head[i]
            && said[i] == before[i]) && (i == head.len() ==> said[i] == last && #[trigger] rows[i].1
            == item) by {}
    }
}

/// A layout says of every row of a menu, at any depth, what the row holds: the
/// callback among it.
pub proof fn a_layout_says_what_the_menu_holds(store: StoreView, menu: MenuRef, depth: nat)
    requires
        nests_within(store, menu, depth),
    ensures
        is_said(store, menu_at(store, menu).rows, laid_out(store, menu), (depth - 1) as nat),
{
    layout_does_not_depend_on_depth(store, menu, depth);
    assert(rows_nest_within(store, menu_at(store, menu).rows, (depth - 1) as nat));
    lemma_menu_is_said(store, menu_at(store, menu).rows, 1, (depth - 1) as nat);
}

/// An id addresses a row that carries it, the first in the order rows are shown,
/// and none if no row does.
pub proof fn an_id_addresses_the_first_row_that_carries_it(rows: Seq<RowView>, id: i32, j: int)
    requires
        0 <= j < preorder(rows).len(),
    ensures
        addressed(rows, id) matches Some(row) ==> row.id == id && preorder(rows).contains(row),
        preorder(rows)[j].id == id ==> addressed(rows, id) is Some,
        preorder(rows)[j].id == id && (forall|i: int|
            0 <= i < j ==> (#[trigger] preorder(rows)[i]).id != id) ==> addressed(rows, id) == Some(
            preorder(rows)[j],
        ),
{
    let all = preorder(rows);
    lemma_first_has_id(all, id);
    if all[j].id == id {
        lemma_some_id(all, id, j);
    }
    if all[j].id == id && (forall|i: int| 0 <= i < j ==> (#[trigger] all[i]).id != id) {
        lemma_first_with_id_at(all, j);
    }
}

proof fn lemma_first_has_id(rows: Seq<RowView>, id: i32)
    ensures
        first_with_id(rows, id) matches Some(row) ==> row.id == id && rows.contains(row),
    decreases rows.len(),
{
    if rows.len() > 0 {
        lemma_first_has_id(rows.drop_last(), id);
        if let Some(row) = first_with_id(rows.drop_last(), id) {
            let k = choose|k: int| 0 <= k < rows.drop_last().len() && rows.drop_last()[k] == row;
            assert(rows[k] == row);
        } else {
            assert(rows[rows.len() - 1] == rows.last());
        }
    }
}

proof fn lemma_some_id(rows: Seq<RowView>, id: i32, j: int)
    requires
        0 <= j < rows.len(),
        rows[j].id == id,
    ensures
        first_with_id(rows, id) is Some,
    decreases rows.len(),
{
    if j < rows.len() - 1 {
        assert(rows.drop_last()[j] == rows[j]);
        lemma_some_id(rows.drop_last(), id, j);
    }
}

/// Every row of a tree is shown, and what is nested in it too.
pub proof fn every_row_is_shown(rows: Seq<RowView>, i: int)
    requires
        0 <= i < rows.len(),
    ensures
        preorder(rows).contains(rows[i]),
        forall|row: RowView|
            preorder(rows[i].children).contains(row) ==> #[trigger] preorder(rows).contains(row),
    decreases rows.len(),
{
    let head = preorder(rows.drop_last());
    let last = rows.last();
    let nested = preorder(last.children);
    assert(preorder(rows) == head + (seq![last] + nested));
    if i < rows.len() - 1 {
        every_row_is_shown(rows.drop_last(), i);
        assert(rows.drop_last()[i] == rows[i]);
        assert forall|row: RowView| head.contains(row) implies #[trigger] preorder(rows).contains(
            row,
        ) by {
            let k = choose|k: int| 0 <= k < head.len() && head[k] == row;
            assert(preorder(rows)[k] == row);
        }
    } else {
        assert(preorder(rows)[head.len() as int] == last);
        assert forall|row: RowView| nested.contains(row) implies #[trigger] preorder(rows).contains(
            row,
        ) by {
            let k = choose|k: int| 0 <= k < nested.len() && nested[k] == row;
            assert(preorder(rows)[head.len() + 1 + k] == row);
        }
    }
}

/// A snapshot says of every row of the menu, at any depth, what the row holds, and
/// finds a row by its id; there is none without a menu.
pub proof fn a_snapshot_says_what_the_menu_holds(
    store: MenuStore,
    menu: Option<MenuRef>,
    depth: nat,
    snapshot: Option<MenuSnapshot>,
    id: i32,
    row: Option<&MenuRow>,
)
    requires
        call_ensures(MenuSnapshot::from_menu, (&store, menu), snapshot),
        menu is Some ==> nests_within(store@, menu->0, depth),
        snapshot is Some ==> call_ensures(MenuSnapshot::row, (&snapshot->0, id), row),
    ensures
        snapshot is Some <==> menu is Some,
        snapshot matches Some(taken) ==> is_said(
            store@,
            menu_at(store@, menu->0).rows,
            taken@,
            (depth - 1) as nat,
        ),
        snapshot matches Some(taken) ==> (row is Some <==> exists|k: int|
            0 <= k < preorder(taken@).len() && (#[trigger] preorder(taken@)[k]).id == id),
        snapshot is Some && row is Some ==> row->0@.id == id,
{
    if let Some(taken) = snapshot {
        a_layout_says_what_the_menu_holds(store@, menu->0, depth);
        let all = preorder(taken@);
        lemma_first_has_id(all, id);
        if row is Some {
            let k = choose|k: int| 0 <= k < all.len() && all[k] == first_with_id(all, id)->0;
            assert(all[k].id == id);
        }
        if exists|k: int| 0 <= k < all.len() && (#[trigger] all[k]).id == id {
            let k = choose|k: int| 0 <= k < all.len() && (#[trigger] all[k]).id == id;
            lemma_some_id(all, id, k);
        }
    }
}

/// Ids are counted up one by one, and stay at the largest one once it is reached.
pub proof fn ids_stay_at_the_largest(n: int)
    requires
        0 <= n,
    ensures
        n <= 0x7fff_ffff ==> id_at(n) == n,
        n > 0x7fff_ffff ==> id_at(n) == 0x7fff_ffff,
{
}

} // verus!
