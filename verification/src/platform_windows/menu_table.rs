//! A tray menu as Win32 shows it: popup rows under 16-bit command ids.

use crate::tray::event::TrayAction;
use crate::tray::item::{ItemView, MenuItem, MenuItemId, MenuRef};
use crate::tray::menu::Row;
use crate::tray::store::{
    depth_of, item_nests_within, menu_at, nests, nests_within, rows_nest_within, MenuStore, StoreView,
};
use crate::utf16::{to_wide, wide};
use vstd::prelude::*;

verus! {

/// The lowest allocated command id. 0 is what Win32 reports for a menu that was
/// dismissed, so it never names a row.
pub const FIRST_COMMAND_ID: u16 = 1;

/// A plain text row.
pub const MF_STRING: u32 = 0;

/// A greyed-out row.
pub const MF_GRAYED: u32 = 1;

/// A row that cannot be chosen.
pub const MF_DISABLED: u32 = 2;

/// A row with a check mark.
pub const MF_CHECKED: u32 = 8;

/// A row that opens a nested menu.
pub const MF_POPUP: u32 = 0x10;

/// A separator.
pub const MF_SEPARATOR: u32 = 0x800;

// ---------------------------------------------------------------------------
// Ids
// ---------------------------------------------------------------------------
/// What a table keeps of a row.
#[verifier::ext_equal]
pub struct TableRow {
    pub label: Seq<char>,
    pub action: Option<TrayAction>,
}

/// The command id of the row in place `k` of a table. Ids stay at the largest
/// one rather than wrapping around to a row that is in use.
pub open spec fn command_at(k: int) -> u16 {
    if k < u16::MAX {
        (k + 1) as u16
    } else {
        u16::MAX
    }
}

/// The callback that a command id leads to.
pub open spec fn resolved(rows: Seq<TableRow>, command_id: u16) -> Option<TrayAction> {
    if 1 <= command_id <= rows.len() {
        rows[command_id - 1].action
    } else {
        None
    }
}

/// As long as ids do not run out, no two rows share one, none is 0, and each
/// leads to the callback of its own row.
pub proof fn command_ids_are_unique_and_lead_to_their_row(rows: Seq<TableRow>, j: int, k: int)
    requires
        rows.len() <= u16::MAX,
        0 <= j < rows.len(),
        0 <= k < rows.len(),
    ensures
        command_at(k) != 0,
        command_at(j) == command_at(k) ==> j == k,
        resolved(rows, command_at(k)) == rows[k].action,
{
}

/// One command id allocated for a menu row, and the callback it fires.
#[derive(Debug)]
pub struct MenuEntry {
    /// Win32 command id.
    pub command_id: u16,
    /// The label shown in the menu.
    pub label: String,
    /// The row's callback.
    pub action: Option<TrayAction>,
}

impl MenuEntry {
    /// What the table keeps of the row.
    pub open spec fn row(self) -> TableRow {
        TableRow { label: self.label@, action: self.action }
    }
}

/// A menu flattened into command ids, contiguous from 1 in the order in which
/// rows were added.
#[derive(Debug)]
pub struct MenuTable {
    entries: Vec<MenuEntry>,
    next_id: u16,
}

impl MenuTable {
    /// The rows, by place.
    pub closed spec fn view(self) -> Seq<TableRow> {
        self.entries@.map_values(|entry: MenuEntry| entry.row())
    }

    /// Whether every row stands under the id of its place.
    pub closed spec fn wf(self) -> bool {
        &&& self.next_id == command_at(self.entries@.len() as int)
        &&& forall|k: int|
            0 <= k < self.entries@.len() ==> (#[trigger] self.entries@[k]).command_id == command_at(
                k,
            )
    }

    /// An empty table.
    pub fn new() -> (table: Self)
        ensures
            table.wf(),
            table@ == Seq::<TableRow>::empty(),
    {
        MenuTable { entries: Vec::new(), next_id: FIRST_COMMAND_ID }
    }

    /// The rows with their ids.
    pub fn entries(&self) -> (entries: &Vec<MenuEntry>)
        requires
            self.wf(),
        ensures
            entries@.len() == self@.len(),
            forall|k: int|
                0 <= k < entries@.len() ==> (#[trigger] entries@[k]).row() == self@[k]
                    && entries@[k].command_id == command_at(k),
    {
        &self.entries
    }

    /// Allocate one id and remember the row it addresses.
    pub fn allocate(&mut self, label: String, action: Option<TrayAction>) -> (command_id: u16)
        requires
            old(self).wf(),
        ensures
            final(self).wf(),
            command_id == command_at(old(self)@.len() as int),
            final(self)@ == old(self)@.push(TableRow { label: label@, action }),
    {
        let command_id: u16 = self.next_id;
        let ghost before = self@;
        let ghost said = label@;
        self.next_id = self.next_id.saturating_add(1);
        self.entries.push(MenuEntry { command_id, label, action });
        proof {
            assert(self@ =~= before.push(TableRow { label: said, action }));
        }
        command_id
    }

    /// Look up the callback a returned command id addresses.
    pub fn action_for(&self, command_id: u16) -> (action: Option<TrayAction>)
        requires
            self.wf(),
        ensures
            action == resolved(self@, command_id),
    {
        let mut k: usize = 0;
        while k < self.entries.len()
            invariant
                k <= self.entries.len(),
                self.wf(),
                forall|j: int| 0 <= j < k ==> command_at(j) != command_id,
            decreases self.entries.len() - k,
        {
            if self.entries[k].command_id == command_id {
                proof {
                    assert(self.entries@[k as int].command_id == command_at(k as int));
                    if k >= u16::MAX {
                        assert(command_at(u16::MAX - 1) == command_id);
                    }
                    assert(self@[k as int] == self.entries@[k as int].row());
                }
                return self.entries[k].action;
            }
            k = k + 1;
        }
        proof {
            if 1 <= command_id <= self@.len() {
                assert(command_at(command_id - 1) == command_id);
            }
        }
        None
    }
}

// ---------------------------------------------------------------------------
// Listing a menu
// ---------------------------------------------------------------------------
/// The rows an item adds to a table: the item, then what is nested in it.
/// Separators are listed only where `spaced` says so.
pub open spec fn item_listing(store: StoreView, item: ItemView, spaced: bool, depth: nat) -> Seq<
    TableRow,
>
    decreases depth, 2nat, 0nat,
{
    match item.label() {
        None => if spaced {
            seq![TableRow { label: Seq::empty(), action: None }]
        } else {
            Seq::empty()
        },
        Some(label) => seq![TableRow { label, action: item.action() }] + (match item.children() {
            Some(children) => if depth > 0 {
                rows_listing(store, menu_at(store, children).rows, spaced, (depth - 1) as nat)
            } else {
                Seq::empty()
            },
            None => Seq::empty(),
        }),
    }
}

/// The rows a list of items adds to a table, in order.
pub open spec fn rows_listing(store: StoreView, rows: Seq<Row>, spaced: bool, depth: nat) -> Seq<
    TableRow,
>
    decreases depth, 3nat, rows.len(),
{
    if rows.len() == 0 {
        Seq::empty()
    } else {
        rows_listing(store, rows.drop_last(), spaced, depth) + item_listing(
            store,
            rows.last().1,
            spaced,
            depth,
        )
    }
}

/// The rows of a menu, depth-first.
pub open spec fn listing(store: StoreView, menu: MenuRef, spaced: bool) -> Seq<TableRow> {
    rows_listing(store, menu_at(store, menu).rows, spaced, (depth_of(store, menu) - 1) as nat)
}

impl MenuTable {
    /// The table of a host menu. Every row takes an id, separators included.
    ///
    /// Tables are disposable: every menu mutation produces a fresh one, so a
    /// stale id can never fire an outdated callback.
    pub fn from_menu(store: &MenuStore, menu: MenuRef) -> (table: Self)
        requires
            nests(store@, menu),
        ensures
            table.wf(),
            table@ == listing(store@, menu, true),
    {
        let mut table = MenuTable::new();
        let ghost depth = depth_of(store@, menu);
        proof {
            assert(nests_within(store@, menu, depth));
        }
        if let Some(contents) = store.menu(menu) {
            proof {
                assert(rows_nest_within(store@, contents@.rows, (depth - 1) as nat));
            }
            table.push_entries(
                store,
                &contents.entries(),
                Ghost(contents@.rows),
                Ghost((depth - 1) as nat),
            );
            proof {
                assert(table@ =~= listing(store@, menu, true));
            }
        }
        table
    }

    /// Allocate ids for the rows of one menu.
    fn push_entries(
        &mut self,
        store: &MenuStore,
        entries: &Vec<(MenuItemId, MenuItem)>,
        Ghost(rows): Ghost<Seq<Row>>,
        Ghost(depth): Ghost<nat>,
    )
        requires
            old(self).wf(),
            entries@.len() == rows.len(),
            forall|i: int|
                0 <= i < rows.len() ==> ((#[trigger] entries@[i]).0, entries@[i].1@) == rows[i],
            rows_nest_within(store@, rows, depth),
        ensures
            final(self).wf(),
            final(self)@ == old(self)@ + rows_listing(store@, rows, true, depth),
        decreases depth, 1nat,
    {
        let ghost before = self@;
        let mut i: usize = 0;
        proof {
            assert(rows.take(0) =~= Seq::empty());
            assert(self@ =~= before + rows_listing(store@, rows.take(0), true, depth));
        }
        while i < entries.len()
            invariant
                i <= entries.len(),
                self.wf(),
                entries@.len() == rows.len(),
                forall|j: int|
                    0 <= j < rows.len() ==> ((#[trigger] entries@[j]).0, entries@[j].1@) == rows[j],
                rows_nest_within(store@, rows, depth),
                self@ == before + rows_listing(store@, rows.take(i as int), true, depth),
            decreases entries.len() - i,
        {
            proof {
                assert(entries@[i as int].1@ == rows[i as int].1);
                assert(item_nests_within(store@, rows[i as int].1, depth));
            }
            self.push_item(store, &entries[i].1, Ghost(depth));
            proof {
                assert(rows.take(i as int + 1).drop_last() =~= rows.take(i as int));
                assert(rows.take(i as int + 1).last() == rows[i as int]);
                assert(self@ =~= before + rows_listing(
                    store@,
                    rows.take(i as int + 1),
                    true,
                    depth,
                ));
            }
            i = i + 1;
        }
        proof {
            assert(rows.take(i as int) =~= rows);
        }
    }

    /// Allocate ids for one row and, for a submenu, its children.
    fn push_item(&mut self, store: &MenuStore, item: &MenuItem, Ghost(depth): Ghost<nat>) -> (
        command_id: u16)
        requires
            old(self).wf(),
            item_nests_within(store@, item@, depth),
        ensures
            final(self).wf(),
            command_id == command_at(old(self)@.len() as int),
            final(self)@ == old(self)@ + item_listing(store@, item@, true, depth),
        decreases depth, 0nat,
    {
        let ghost before = self@;
        match item {
            MenuItem::Separator => {
                // A separator consumes an id so that positions line up.
                let command_id: u16 = self.allocate(String::new(), None);
                proof {
                    assert(self@ =~= before + item_listing(store@, item@, true, depth));
                }
                command_id
            },
            MenuItem::Text { label, action, .. } => {
                let command_id: u16 = self.allocate(label.clone(), *action);
                proof {
                    assert(self@ =~= before + item_listing(store@, item@, true, depth));
                }
                command_id
            },
            MenuItem::Checkbox { label, action, .. } => {
                let command_id: u16 = self.allocate(label.clone(), *action);
                proof {
                    assert(self@ =~= before + item_listing(store@, item@, true, depth));
                }
                command_id
            },
            MenuItem::Submenu { label, children, .. } => {
                let command_id: u16 = self.allocate(label.clone(), None);
                if let Some(menu) = store.menu(*children) {
                    self.push_entries(
                        store,
                        &menu.entries(),
                        Ghost(menu@.rows),
                        Ghost((depth - 1) as nat),
                    );
                }
                proof {
                    assert(self@ =~= before + item_listing(store@, item@, true, depth));
                }
                command_id
            },
        }
    }
}

// ---------------------------------------------------------------------------
// Building a popup
// ---------------------------------------------------------------------------
/// One row to append to a Win32 popup menu.
#[derive(Debug)]
pub enum PopupRow {
    /// A separator; it has no command.
    Separator,
    /// A row that can be chosen.
    Command {
        /// The id Win32 reports when the row is chosen.
        command_id: u16,
        /// `MF_*` flags.
        flags: u32,
        /// NUL-terminated label.
        label: Vec<u16>,
    },
    /// A row that opens a nested popup.
    Popup {
        /// The id taken up by the row.
        command_id: u16,
        /// `MF_*` flags.
        flags: u32,
        /// NUL-terminated label.
        label: Vec<u16>,
        /// The rows of the nested popup.
        rows: Vec<PopupRow>,
    },
}

/// What a [`PopupRow`] says.
#[verifier::ext_equal]
pub enum PopupView {
    Separator,
    Command { command_id: u16, flags: u32, label: Seq<u16> },
    Popup { command_id: u16, flags: u32, label: Seq<u16>, rows: Seq<PopupView> },
}

impl PopupRow {
    /// What the row says.
    pub open spec fn view(self) -> PopupView
        decreases self,
    {
        match self {
            PopupRow::Separator => PopupView::Separator,
            PopupRow::Command { command_id, flags, label } => PopupView::Command {
                command_id,
                flags,
                label: label@,
            },
            PopupRow::Popup { command_id, flags, label, rows } => PopupView::Popup {
                command_id,
                flags,
                label: label@,
                rows: popup_rows_view(rows@),
            },
        }
    }
}

/// What rows say.
pub open spec fn popup_rows_view(rows: Seq<PopupRow>) -> Seq<PopupView>
    decreases rows,
{
    if rows.len() == 0 {
        Seq::empty()
    } else {
        popup_rows_view(rows.drop_last()).push(rows.last()@)
    }
}

/// The flags of a row. A disabled row gets both flags: one stops it firing, the
/// other greys it out.
pub open spec fn row_flags(enabled: bool, checked: bool, kind: u32) -> u32 {
    let greyed = if enabled {
        kind
    } else {
        kind | (MF_DISABLED | MF_GRAYED)
    };
    if checked {
        greyed | MF_CHECKED
    } else {
        greyed
    }
}

/// Compute the flags of a row.
fn flags_of(enabled: bool, checked: bool, kind: u32) -> (flags: u32)
    ensures
        flags == row_flags(enabled, checked, kind),
{
    let mut flags: u32 = kind;
    if !enabled {
        flags = flags | (MF_DISABLED | MF_GRAYED);
    }
    if checked {
        flags = flags | MF_CHECKED;
    }
    flags
}

/// The popup row of an item whose command id is in place `n` of the table.
pub open spec fn popup_row(store: StoreView, item: ItemView, n: int, depth: nat) -> PopupView
    decreases depth, 2nat, 0nat,
{
    match item.label() {
        None => PopupView::Separator,
        Some(label) => match item.children() {
            None => PopupView::Command {
                command_id: command_at(n),
                flags: row_flags(
                    item.state().enabled,
                    item is Checkbox && item.state().checked,
                    MF_STRING,
                ),
                label: wide(label),
            },
            Some(children) => PopupView::Popup {
                command_id: command_at(n),
                flags: row_flags(item.state().enabled, false, MF_POPUP),
                label: wide(label),
                rows: if depth > 0 {
                    popup_rows(store, menu_at(store, children).rows, n + 1, (depth - 1) as nat)
                } else {
                    Seq::empty()
                },
            },
        },
    }
}

/// The popup rows of a list of items, in order.
pub open spec fn popup_rows(store: StoreView, rows: Seq<Row>, n: int, depth: nat) -> Seq<PopupView>
    decreases depth, 3nat, rows.len(),
{
    if rows.len() == 0 {
        Seq::empty()
    } else {
        popup_rows(store, rows.drop_last(), n, depth).push(
            popup_row(
                store,
                rows.last().1,
                n + rows_listing(store, rows.drop_last(), false, depth).len(),
                depth,
            ),
        )
    }
}

/// The popup of a menu whose first command id is in place `n` of the table.
pub open spec fn popup(store: StoreView, menu: MenuRef, n: int) -> Seq<PopupView> {
    popup_rows(store, menu_at(store, menu).rows, n, (depth_of(store, menu) - 1) as nat)
}

impl MenuTable {
    /// Plan the popup of a menu, adding the ids it hands out to the table.
    pub fn build(&mut self, store: &MenuStore, menu: MenuRef) -> (rows: Vec<PopupRow>)
        requires
            old(self).wf(),
            nests(store@, menu),
        ensures
            final(self).wf(),
            final(self)@ == old(self)@ + listing(store@, menu, false),
            popup_rows_view(rows@) == popup(store@, menu, old(self)@.len() as int),
    {
        let ghost depth = depth_of(store@, menu);
        proof {
            assert(nests_within(store@, menu, depth));
        }
        match store.menu(menu) {
            Some(contents) => {
                proof {
                    assert(rows_nest_within(store@, contents@.rows, (depth - 1) as nat));
                }
                self.append_entries(
                    store,
                    &contents.entries(),
                    Ghost(contents@.rows),
                    Ghost((depth - 1) as nat),
                )
            },
            None => Vec::new(),
        }
    }

    /// Plan the rows of one menu.
    fn append_entries(
        &mut self,
        store: &MenuStore,
        entries: &Vec<(MenuItemId, MenuItem)>,
        Ghost(rows): Ghost<Seq<Row>>,
        Ghost(depth): Ghost<nat>,
    ) -> (planned: Vec<PopupRow>)
        requires
            old(self).wf(),
            entries@.len() == rows.len(),
            forall|i: int|
                0 <= i < rows.len() ==> ((#[trigger] entries@[i]).0, entries@[i].1@) == rows[i],
            rows_nest_within(store@, rows, depth),
        ensures
            final(self).wf(),
            final(self)@ == old(self)@ + rows_listing(store@, rows, false, depth),
            popup_rows_view(planned@) == popup_rows(store@, rows, old(self)@.len() as int, depth),
        decreases depth, 1nat,
    {
        let ghost before = self@;
        let ghost n = self@.len() as int;
        let mut planned: Vec<PopupRow> = Vec::new();
        let mut i: usize = 0;
        proof {
            assert(rows.take(0) =~= Seq::empty());
            assert(self@ =~= before + rows_listing(store@, rows.take(0), false, depth));
        }
        while i < entries.len()
            invariant
                i <= entries.len(),
                self.wf(),
                n == before.len(),
                entries@.len() == rows.len(),
                forall|j: int|
                    0 <= j < rows.len() ==> ((#[trigger] entries@[j]).0, entries@[j].1@) == rows[j],
                rows_nest_within(store@, rows, depth),
                self@ == before + rows_listing(store@, rows.take(i as int), false, depth),
                popup_rows_view(planned@) == popup_rows(store@, rows.take(i as int), n, depth),
            decreases entries.len() - i,
        {
            let ghost earlier = planned@;
            proof {
                assert(entries@[i as int].1@ == rows[i as int].1);
                assert(item_nests_within(store@, rows[i as int].1, depth));
            }
            let row = self.append_item(store, &entries[i].1, Ghost(depth));
            planned.push(row);
            proof {
                assert(planned@.drop_last() =~= earlier);
                assert(rows.take(i as int + 1).drop_last() =~= rows.take(i as int));
                assert(rows.take(i as int + 1).last() == rows[i as int]);
                assert(self@ =~= before + rows_listing(
                    store@,
                    rows.take(i as int + 1),
                    false,
                    depth,
                ));
            }
            i = i + 1;
        }
        proof {
            assert(rows.take(i as int) =~= rows);
        }
        planned
    }

    /// Plan one row and, for a submenu, the popup nested in it.
    fn append_item(&mut self, store: &MenuStore, item: &MenuItem, Ghost(depth): Ghost<nat>) -> (
        row: PopupRow)
        requires
            old(self).wf(),
            item_nests_within(store@, item@, depth),
        ensures
            final(self).wf(),
            final(self)@ == old(self)@ + item_listing(store@, item@, false, depth),
            row@ == popup_row(store@, item@, old(self)@.len() as int, depth),
        decreases depth, 0nat,
    {
        let ghost before = self@;
        match item {
            MenuItem::Separator => {
                proof {
                    assert(self@ =~= before + item_listing(store@, item@, false, depth));
                }
                PopupRow::Separator
            },
            MenuItem::Text { label, state, action } => {
                let command_id: u16 = self.allocate(label.clone(), *action);
                proof {
                    assert(self@ =~= before + item_listing(store@, item@, false, depth));
                }
                PopupRow::Command {
                    command_id,
                    flags: flags_of(state.enabled, false, MF_STRING),
                    label: to_wide(label.as_str()),
                }
            },
            MenuItem::Checkbox { label, state, action } => {
                let command_id: u16 = self.allocate(label.clone(), *action);
                proof {
                    assert(self@ =~= before + item_listing(store@, item@, false, depth));
                }
                PopupRow::Command {
                    command_id,
                    flags: flags_of(state.enabled, state.checked, MF_STRING),
                    label: to_wide(label.as_str()),
                }
            },
            MenuItem::Submenu { label, state, children } => {
                // The submenu row claims one id, and its children are allocated
                // afterwards.
                let command_id: u16 = self.allocate(label.clone(), None);
                let rows = match store.menu(*children) {
                    Some(menu) => self.append_entries(
                        store,
                        &menu.entries(),
                        Ghost(menu@.rows),
                        Ghost((depth - 1) as nat),
                    ),
                    None => Vec::new(),
                };
                proof {
                    assert(self@ =~= before + item_listing(store@, item@, false, depth));
                }
                PopupRow::Popup {
                    command_id,
                    flags: flags_of(state.enabled, false, MF_POPUP),
                    label: to_wide(label.as_str()),
                    rows,
                }
            },
        }
    }
}

proof fn lemma_depth_is_irrelevant(
    store: StoreView,
    rows: Seq<Row>,
    n: int,
    spaced: bool,
    depth: nat,
    deeper: nat,
)
    requires
        depth <= deeper,
        rows_nest_within(store, rows, depth),
    ensures
        rows_listing(store, rows, spaced, depth) == rows_listing(store, rows, spaced, deeper),
        rows_listing(store, rows, false, depth) == rows_listing(store, rows, false, deeper),
        popup_rows(store, rows, n, depth) == popup_rows(store, rows, n, deeper),
    decreases depth, rows.len(),
{
    if rows.len() > 0 {
        let head = rows.drop_last();
        let item = rows.last().1;
        assert(rows.last() == rows[rows.len() - 1]);
        assert forall|i: int| 0 <= i < head.len() implies item_nests_within(
            store,
            #[trigger] head[i].1,
            depth,
        ) by {
            assert(head[i] == rows[i]);
        }
        lemma_depth_is_irrelevant(store, head, n, spaced, depth, deeper);
        let m = n + rows_listing(store, head, false, depth).len();
        if let Some(child) = item.children() {
            assert(nests_within(store, child, depth));
            let inner = menu_at(store, child).rows;
            assert forall|i: int| 0 <= i < inner.len() implies item_nests_within(
                store,
                #[trigger] inner[i].1,
                (depth - 1) as nat,
            ) by {}
            lemma_depth_is_irrelevant(
                store,
                inner,
                m + 1,
                spaced,
                (depth - 1) as nat,
                (deeper - 1) as nat,
            );
        }
        assert(item_listing(store, item, spaced, depth) == item_listing(
            store,
            item,
            spaced,
            deeper,
        ));
        assert(item_listing(store, item, false, depth) == item_listing(store, item, false, deeper));
        assert(popup_row(store, item, m, depth) == popup_row(store, item, m, deeper));
    } else {
        assert(popup_rows(store, rows, n, depth) =~= popup_rows(store, rows, n, deeper));
    }
}

/// Whatever depth suffices to follow the submenus, the listing and the popup are
/// the same.
pub proof fn listing_does_not_depend_on_depth(
    store: StoreView,
    menu: MenuRef,
    n: int,
    spaced: bool,
    depth: nat,
)
    requires
        nests_within(store, menu, depth),
    ensures
        listing(store, menu, spaced) == rows_listing(
            store,
            menu_at(store, menu).rows,
            spaced,
            (depth - 1) as nat,
        ),
        popup(store, menu, n) == popup_rows(
            store,
            menu_at(store, menu).rows,
            n,
            (depth - 1) as nat,
        ),
{
    let chosen = depth_of(store, menu);
    assert(nests_within(store, menu, chosen));
    let rows = menu_at(store, menu).rows;
    let a = (depth - 1) as nat;
    let b = (chosen - 1) as nat;
    assert(rows_nest_within(store, rows, a));
    assert(rows_nest_within(store, rows, b));
    if a <= b {
        lemma_depth_is_irrelevant(store, rows, n, spaced, a, b);
    } else {
        lemma_depth_is_irrelevant(store, rows, n, spaced, b, a);
    }
}

/// The rows of a popup that take an id, with their labels, depth-first.
pub open spec fn commands(rows: Seq<PopupView>) -> Seq<(u16, Seq<u16>)>
    decreases rows,
{
    if rows.len() == 0 {
        Seq::empty()
    } else {
        commands(rows.drop_last()) + (match rows.last() {
            PopupView::Separator => Seq::empty(),
            PopupView::Command { command_id, label, .. } => seq![(command_id, label)],
            PopupView::Popup { command_id, label, rows, .. } => seq![(command_id, label)]
                + commands(rows),
        })
    }
}

proof fn lemma_commands(store: StoreView, rows: Seq<Row>, n: int, depth: nat)
    ensures
        commands(popup_rows(store, rows, n, depth)).len() == rows_listing(
            store,
            rows,
            false,
            depth,
        ).len(),
        forall|k: int|
            0 <= k < rows_listing(store, rows, false, depth).len() ==> #[trigger] commands(
                popup_rows(store, rows, n, depth),
            )[k] == (
                command_at(n + k),
                wide(rows_listing(store, rows, false, depth)[k].label),
            ),
    decreases depth, rows.len(),
{
    if rows.len() > 0 {
        let head = rows.drop_last();
        let item = rows.last().1;
        lemma_commands(store, head, n, depth);
        let first = rows_listing(store, head, false, depth);
        let m = n + first.len();
        let all = popup_rows(store, rows, n, depth);
        assert(all.drop_last() =~= popup_rows(store, head, n, depth));
        assert(all.last() == popup_row(store, item, m, depth));
        let own = item_listing(store, item, false, depth);
        if let Some(label) = item.label() {
            if let Some(children) = item.children() {
                if depth > 0 {
                    lemma_commands(
                        store,
                        menu_at(store, children).rows,
                        m + 1,
                        (depth - 1) as nat,
                    );
                } else {
                    assert(commands(Seq::<PopupView>::empty()) =~= Seq::empty());
                }
            }
        }
        let here = commands(all);
        let ours = rows_listing(store, rows, false, depth);
        assert(ours == first + own);
        assert forall|k: int| 0 <= k < ours.len() implies #[trigger] here[k] == (
            command_at(n + k),
            wide(ours[k].label),
        ) by {
            if k < first.len() {
                assert(here[k] == commands(popup_rows(store, head, n, depth))[k]);
            }
        }
    }
}

/// Every row of a popup that can be chosen leads to the callback of the very row
/// it shows, as long as ids do not run out: the popup and the table it was built
/// with list the same labels under the same ids, and the lookup finds the
/// callback listed there.
pub proof fn a_chosen_row_leads_to_its_callback(
    store: StoreView,
    menu: MenuRef,
    table: Seq<TableRow>,
    k: int,
)
    requires
        nests(store, menu),
        table.len() + listing(store, menu, false).len() <= u16::MAX,
        0 <= k < listing(store, menu, false).len(),
    ensures
        ({
            let shown = commands(popup(store, menu, table.len() as int));
            let row = listing(store, menu, false)[k];
            &&& shown.len() == listing(store, menu, false).len()
            &&& shown[k].0 == table.len() + k + 1
            &&& shown[k].1 == wide(row.label)
            &&& resolved(table + listing(store, menu, false), shown[k].0) == row.action
        }),
{
    lemma_commands(
        store,
        menu_at(store, menu).rows,
        table.len() as int,
        (depth_of(store, menu) - 1) as nat,
    );
    let rows = table + listing(store, menu, false);
    command_ids_are_unique_and_lead_to_their_row(rows, table.len() + k, table.len() + k);
}

// ---------------------------------------------------------------------------
// What a popup shows and where its rows lead
// ---------------------------------------------------------------------------
/// Whether a popup shows the rows of a menu, and each of its rows leads home:
/// choosing it calls what the row itself carries, it is greyed out exactly when
/// the row is disabled, and it has a check mark exactly when it is a checkbox that
/// is checked. A submenu opens a popup of which the same holds.
pub open spec fn leads_home(
    store: StoreView,
    rows: Seq<Row>,
    shown: Seq<PopupView>,
    table: Seq<TableRow>,
    depth: nat,
) -> bool
    decreases depth,
{
    &&& shown.len() == rows.len()
    &&& forall|i: int|
        0 <= i < rows.len() ==> (match (#[trigger] rows[i]).1 {
            ItemView::Separator => shown[i] == PopupView::Separator,
            ItemView::Text { label, state, action } => {
                &&& shown[i] is Command
                &&& shown[i]->Command_label == wide(label)
                &&& shown[i]->Command_command_id != 0
                &&& resolved(table, shown[i]->Command_command_id) == action
                &&& is_drawn(shown[i]->Command_flags, state.enabled, false, false)
            },
            ItemView::Checkbox { label, state, action } => {
                &&& shown[i] is Command
                &&& shown[i]->Command_label == wide(label)
                &&& shown[i]->Command_command_id != 0
                &&& resolved(table, shown[i]->Command_command_id) == action
                &&& is_drawn(shown[i]->Command_flags, state.enabled, state.checked, false)
            },
            ItemView::Submenu { label, state, children } => {
                &&& shown[i] is Popup
                &&& shown[i]->Popup_label == wide(label)
                &&& is_drawn(shown[i]->Popup_flags, state.enabled, false, true)
                &&& depth > 0 && leads_home(
                    store,
                    menu_at(store, children).rows,
                    shown[i]->Popup_rows,
                    table,
                    (depth - 1) as nat,
                )
            },
        })
}

/// Whether flags draw a row as enabled or greyed out and unchoosable, with or
/// without a check mark, as a row that opens a popup or not, and as no separator.
pub open spec fn is_drawn(flags: u32, enabled: bool, checked: bool, opens: bool) -> bool {
    &&& flags & 1 != 0 <==> !enabled
    &&& flags & 2 != 0 <==> !enabled
    &&& flags & 8 != 0 <==> checked
    &&& flags & 0x10 != 0 <==> opens
    &&& flags & 0x800 == 0
}

proof fn lemma_flags(enabled: bool, checked: bool)
    ensures
        is_drawn(row_flags(enabled, checked, MF_STRING), enabled, checked, false),
        is_drawn(row_flags(enabled, false, MF_POPUP), enabled, false, true),
{
    assert(forall|k: u32| k == 0 || k == 0x10 ==> {
        let g = k | (2u32 | 1u32);
        &&& #[trigger] (k & 1) == 0 && k & 2 == 0 && k & 8 == 0 && k & 0x800 == 0
        &&& (k | 8) & 1 == 0 && (k | 8) & 2 == 0 && (k | 8) & 8 != 0 && (k | 8) & 0x800 == 0
        &&& g & 1 != 0 && g & 2 != 0 && g & 8 == 0 && g & 0x800 == 0
        &&& (g | 8) & 1 != 0 && (g | 8) & 2 != 0 && (g | 8) & 8 != 0 && (g | 8) & 0x800 == 0
        &&& (k & 0x10 != 0 <==> k == 0x10) && ((k | 8) & 0x10 != 0 <==> k == 0x10) && (g & 0x10 != 0
            <==> k == 0x10) && ((g | 8) & 0x10 != 0 <==> k == 0x10)
    }) by (bit_vector);
    assert(MF_STRING & 1 == 0);
    assert(MF_POPUP & 1 == 0);
}

proof fn lemma_popup_leads_home(
    store: StoreView,
    rows: Seq<Row>,
    n: int,
    table: Seq<TableRow>,
    depth: nat,
)
    requires
        0 <= n,
        table.len() <= u16::MAX,
        rows_nest_within(store, rows, depth),
        n + rows_listing(store, rows, false, depth).len() <= table.len(),
        table.subrange(n, n + rows_listing(store, rows, false, depth).len()) == rows_listing(
            store,
            rows,
            false,
            depth,
        ),
    ensures
        leads_home(store, rows, popup_rows(store, rows, n, depth), table, depth),
    decreases depth, rows.len(),
{
    let shown = popup_rows(store, rows, n, depth);
    if rows.len() > 0 {
        let head = rows.drop_last();
        let item = rows.last().1;
        let first = rows_listing(store, head, false, depth);
        let own = item_listing(store, item, false, depth);
        let all = rows_listing(store, rows, false, depth);
        let m = n + first.len();
        assert(rows.last() == rows[rows.len() - 1]);
        assert forall|i: int| 0 <= i < head.len() implies item_nests_within(
            store,
            #[trigger] head[i].1,
            depth,
        ) by {
            assert(head[i] == rows[i]);
        }
        assert(all == first + own);
        assert(table.subrange(n, m) =~= first) by {
            assert forall|j: int| 0 <= j < first.len() implies table.subrange(n, m)[j]
                == first[j] by {
                assert(table.subrange(n, n + all.len())[j] == all[j]);
            }
        }
        lemma_popup_leads_home(store, head, n, table, depth);
        let before = popup_rows(store, head, n, depth);
        let last = popup_row(store, item, m, depth);
        assert(shown == before.push(last));
        if let Some(label) = item.label() {
            assert(own[0] == (TableRow { label, action: item.action() }));
            assert(table[m] == table.subrange(n, n + all.len())[m - n]);
            assert(all[m - n] == own[0]);
            command_ids_are_unique_and_lead_to_their_row(table, m, m);
            lemma_flags(item.state().enabled, item is Checkbox && item.state().checked);
            if let Some(children) = item.children() {
                assert(nests_within(store, children, depth));
                let inner = menu_at(store, children).rows;
                let nested = rows_listing(store, inner, false, (depth - 1) as nat);
                assert forall|i: int| 0 <= i < inner.len() implies item_nests_within(
                    store,
                    #[trigger] inner[i].1,
                    (depth - 1) as nat,
                ) by {}
                assert(own =~= seq![own[0]] + nested);
                assert(table.subrange(m + 1, m + 1 + nested.len()) =~= nested) by {
                    assert forall|j: int| 0 <= j < nested.len() implies table.subrange(
                        m + 1,
                        m + 1 + nested.len(),
                    )[j] == nested[j] by {
                        assert(own[j + 1] == nested[j]);
                        assert(all[m - n + 1 + j] == own[j + 1]);
                        assert(table.subrange(n, n + all.len())[m - n + 1 + j] == all[m - n + 1
                            + j]);
                    }
                }
                lemma_popup_leads_home(store, inner, m + 1, table, (depth - 1) as nat);
            }
        }
        assert forall|i: int| 0 <= i < rows.len() implies (match (#[trigger] rows[i]).1 {
            ItemView::Separator => shown[i] == PopupView::Separator,
            ItemView::Text { label, state, action } => {
                &&& shown[i] is Command
                &&& shown[i]->Command_label == wide(label)
                &&& shown[i]->Command_command_id != 0
                &&& resolved(table, shown[i]->Command_command_id) == action
                &&& is_drawn(shown[i]->Command_flags, state.enabled, false, false)
            },
            ItemView::Checkbox { label, state, action } => {
                &&& shown[i] is Command
                &&& shown[i]->Command_label == wide(label)
                &&& shown[i]->Command_command_id != 0
                &&& resolved(table, shown[i]->Command_command_id) == action
                &&& is_drawn(shown[i]->Command_flags, state.enabled, state.checked, false)
            },
            ItemView::Submenu { label, state, children } => {
                &&& shown[i] is Popup
                &&& shown[i]->Popup_label == wide(label)
                &&& is_drawn(shown[i]->Popup_flags, state.enabled, false, true)
                &&& depth > 0 && leads_home(
                    store,
                    menu_at(store, children).rows,
                    shown[i]->Popup_rows,
                    table,
                    (depth - 1) as nat,
                )
            },
        }) by {
            if i < head.len() {
                assert(head[i] == rows[i]);
                assert(shown[i] == before[i]);
            } else {
                assert(shown[i] == last);
            }
        }
    }
}

/// The popup of a menu shows its rows, at any depth, and each leads home, as long
/// as ids do not run out: whatever was listed before, a text or a checkbox that is
/// chosen calls the callback stored in that very row.
pub proof fn every_row_of_a_popup_leads_home(
    store: StoreView,
    menu: MenuRef,
    table: Seq<TableRow>,
    depth: nat,
)
    requires
        nests_within(store, menu, depth),
        table.len() + listing(store, menu, false).len() <= u16::MAX,
    ensures
        leads_home(
            store,
            menu_at(store, menu).rows,
            popup(store, menu, table.len() as int),
            table + listing(store, menu, false),
            (depth - 1) as nat,
        ),
{
    let rows = menu_at(store, menu).rows;
    let n = table.len() as int;
    let listed = listing(store, menu, false);
    let all = table + listed;
    listing_does_not_depend_on_depth(store, menu, n, false, depth);
    assert(rows_nest_within(store, rows, (depth - 1) as nat));
    assert(all.subrange(n, n + listed.len()) =~= listed);
    lemma_popup_leads_home(store, rows, n, all, (depth - 1) as nat);
}

/// A table lists the rows of a menu in order: each row under its own label and
/// with the callback it carries, and behind a submenu what is nested in it. A
/// separator takes a place of its own or none.
pub proof fn a_table_lists_each_row_before_what_it_nests(
    store: StoreView,
    rows: Seq<Row>,
    spaced: bool,
    depth: nat,
    i: int,
)
    requires
        0 <= i < rows.len(),
    ensures
        ({
            let all = rows_listing(store, rows, spaced, depth);
            let at = rows_listing(store, rows.take(i), spaced, depth).len() as int;
            let end = rows_listing(store, rows.take(i + 1), spaced, depth).len() as int;
            let own = all.subrange(at, end);
            &&& 0 <= at <= end <= all.len()
            &&& match rows[i].1 {
                ItemView::Separator => own == (if spaced {
                    seq![TableRow { label: Seq::empty(), action: None }]
                } else {
                    Seq::empty()
                }),
                ItemView::Text { label, action, .. } => own == seq![TableRow { label, action }],
                ItemView::Checkbox { label, action, .. } => own == seq![TableRow { label, action }],
                ItemView::Submenu { label, children, .. } => own == seq![
                    TableRow { label, action: None },
                ] + (if depth > 0 {
                    rows_listing(store, menu_at(store, children).rows, spaced, (depth - 1) as nat)
                } else {
                    Seq::empty()
                }),
            }
        }),
    decreases rows.len(),
{
    let all = rows_listing(store, rows, spaced, depth);
    let head = rows.drop_last();
    let before = rows_listing(store, head, spaced, depth);
    let last = item_listing(store, rows.last().1, spaced, depth);
    assert(all == before + last);
    if i < head.len() {
        a_table_lists_each_row_before_what_it_nests(store, head, spaced, depth, i);
        assert(head.take(i) =~= rows.take(i));
        assert(head.take(i + 1) =~= rows.take(i + 1));
        let at = rows_listing(store, rows.take(i), spaced, depth).len() as int;
        let end = rows_listing(store, rows.take(i + 1), spaced, depth).len() as int;
        assert(all.subrange(at, end) =~= before.subrange(at, end));
    } else {
        assert(rows.take(i) =~= head);
        assert(rows.take(i + 1) =~= rows);
        assert(all.subrange(before.len() as int, all.len() as int) =~= last);
        assert(rows[i] == rows.last());
        match rows[i].1 {
            ItemView::Separator => {},
            ItemView::Submenu { .. } => {},
            _ => {
                assert(last =~= seq![last[0]]);
            },
        }
    }
}

/// A table that was made of a menu keeps a place for every row, in order, and the
/// id of that place leads to the callback the row carries.
pub proof fn a_table_leads_from_each_place_to_its_row(
    store: MenuStore,
    menu: MenuRef,
    depth: nat,
    table: MenuTable,
    i: int,
    action: Option<TrayAction>,
)
    requires
        call_ensures(MenuTable::from_menu, (&store, menu), table),
        nests_within(store@, menu, depth),
        0 <= i < menu_at(store@, menu).rows.len(),
        table@.len() <= u16::MAX,
        ({
            let rows = menu_at(store@, menu).rows;
            let at = rows_listing(store@, rows.take(i), true, (depth - 1) as nat).len() as int;
            call_ensures(MenuTable::action_for, (&table, command_at(at)), action)
        }),
    ensures
        action == menu_at(store@, menu).rows[i].1.action(),
{
    let rows = menu_at(store@, menu).rows;
    let d = (depth - 1) as nat;
    listing_does_not_depend_on_depth(store@, menu, 0, true, depth);
    a_table_lists_each_row_before_what_it_nests(store@, rows, true, d, i);
    let all = rows_listing(store@, rows, true, d);
    let at = rows_listing(store@, rows.take(i), true, d).len() as int;
    let end = rows_listing(store@, rows.take(i + 1), true, d).len() as int;
    let own = all.subrange(at, end);
    assert(own.len() > 0 && own[0] == all[at]);
    assert(all == table@);
    command_ids_are_unique_and_lead_to_their_row(all, at, at);
}

/// A dismissed menu, and an id that was never handed out, lead nowhere.
pub proof fn an_unknown_id_leads_nowhere(
    table: MenuTable,
    command_id: u16,
    action: Option<TrayAction>,
)
    requires
        call_ensures(MenuTable::action_for, (&table, command_id), action),
    ensures
        command_id == 0 ==> action is None,
        command_id > table@.len() ==> action is None,
        1 <= command_id <= table@.len() ==> action == table@[command_id - 1].action,
{
}

/// An id is handed out once: the next row gets the next one, and what was listed
/// before stays in its place.
pub proof fn a_new_row_gets_the_next_id(
    table: &mut MenuTable,
    label: String,
    action: Option<TrayAction>,
    command_id: u16,
    i: int,
)
    requires
        call_ensures(MenuTable::allocate, (table, label, action), command_id),
        old(table)@.len() < u16::MAX,
    ensures
        command_id == old(table)@.len() + 1,
        final(table)@.len() == old(table)@.len() + 1,
        final(table)@.last().label == label@ && final(table)@.last().action == action,
        0 <= i < old(table)@.len() ==> final(table)@[i] == old(table)@[i],
        resolved(final(table)@, command_id) == action,
{
}

/// Command ids start at 1, are counted up one by one, and stay at the largest one
/// once it is reached.
pub proof fn command_ids_stay_at_the_largest(k: int)
    requires
        0 <= k,
    ensures
        k < 0xffff ==> command_at(k) == k + 1,
        k >= 0xffff ==> command_at(k) == 0xffff,
{
}

} // verus!
