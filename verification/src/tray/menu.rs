//! A context menu: rows in order, each under an id that is never reused.

use crate::error::{ErrorView, UdaError};
use crate::text::{blank, is_blank, same};
use crate::tray::event::{swapped, ActionStore, ActionsView, TrayAction};
use crate::tray::item::{ItemView, MenuItem, MenuItemId, MenuItemState, MenuRef};
use vstd::prelude::*;

verus! {

/// A row plus its stable id, as stored inside a [`TrayMenu`].
#[derive(Debug)]
struct Entry {
    id: MenuItemId,
    item: MenuItem,
}

/// A context menu attached to a tray icon.
#[derive(Debug)]
pub struct TrayMenu {
    entries: Vec<Entry>,
    next_id: u64,
}

/// One row of a menu: its id and what it says.
pub type Row = (MenuItemId, ItemView);

/// The contents of a menu.
#[verifier::ext_equal]
pub struct MenuView {
    /// The rows, top to bottom.
    pub rows: Seq<Row>,
    /// The largest id handed out so far.
    pub counter: u64,
}

/// Picks the rows with the given id.
pub open spec fn with_id(id: MenuItemId) -> spec_fn(Row) -> bool {
    |row: Row| row.0 == id
}

/// Picks the rows without the given id.
pub open spec fn without_id(id: MenuItemId) -> spec_fn(Row) -> bool {
    |row: Row| row.0 != id
}

/// Picks the rows with the given label.
pub open spec fn labelled(label: Seq<char>) -> spec_fn(Row) -> bool {
    |row: Row| row.1.label() == Some(label)
}

/// Whether `k` is the first index at which `wanted` holds.
pub open spec fn is_first(rows: Seq<Row>, wanted: spec_fn(Row) -> bool, k: int) -> bool {
    &&& 0 <= k < rows.len()
    &&& wanted(rows[k])
    &&& forall|j: int| 0 <= j < k ==> !wanted(#[trigger] rows[j])
}

/// The first index at which `wanted` holds.
pub open spec fn first_index(rows: Seq<Row>, wanted: spec_fn(Row) -> bool) -> Option<int> {
    if exists|k: int| is_first(rows, wanted, k) {
        Some(choose|k: int| is_first(rows, wanted, k))
    } else {
        None
    }
}

pub(crate) proof fn lemma_first_index_found(rows: Seq<Row>, wanted: spec_fn(Row) -> bool, k: int)
    requires
        is_first(rows, wanted, k),
    ensures
        first_index(rows, wanted) == Some(k),
{
    let c = choose|c: int| is_first(rows, wanted, c);
    assert(is_first(rows, wanted, c));
    if c < k {
        assert(!wanted(rows[c]));
    } else if k < c {
        assert(!wanted(rows[k]));
    }
}

pub(crate) proof fn lemma_first_index_absent(rows: Seq<Row>, wanted: spec_fn(Row) -> bool)
    requires
        forall|j: int| 0 <= j < rows.len() ==> !wanted(#[trigger] rows[j]),
    ensures
        first_index(rows, wanted) is None,
{
    if exists|k: int| is_first(rows, wanted, k) {
        let k = choose|k: int| is_first(rows, wanted, k);
        assert(!wanted(rows[k]));
    }
}

/// Whether a row may be inserted: a label, where there is one, is not blank.
pub open spec fn is_insertable(item: ItemView) -> bool {
    item.label() matches Some(label) ==> !is_blank(label)
}

/// What a refused insertion is answered.
pub open spec fn blank_label_error() -> ErrorView {
    ErrorView::NotSupported("tray menu items must have a non-empty label"@)
}

/// The id handed out after `counter`; the last id is handed out again rather
/// than wrapping.
pub open spec fn following(counter: u64) -> u64 {
    if counter == u64::MAX {
        u64::MAX
    } else {
        (counter + 1) as u64
    }
}

impl MenuView {
    /// The menu without rows whose first id is 1.
    pub open spec fn empty() -> MenuView {
        MenuView { rows: Seq::empty(), counter: 0 }
    }

    /// The place of the first row with the given id.
    pub open spec fn position(self, id: MenuItemId) -> Option<int> {
        first_index(self.rows, with_id(id))
    }

    /// The place of the first row with the given label.
    pub open spec fn label_position(self, label: Seq<char>) -> Option<int> {
        first_index(self.rows, labelled(label))
    }

    /// The row with the given id.
    pub open spec fn find(self, id: MenuItemId) -> Option<ItemView> {
        match self.position(id) {
            Some(k) => Some(self.rows[k].1),
            None => None,
        }
    }

    /// The menu with the row under `id` replaced; unchanged when it is gone.
    pub open spec fn replaced(self, id: MenuItemId, item: ItemView) -> MenuView {
        match self.position(id) {
            Some(k) => MenuView { rows: self.rows.update(k, (id, item)), counter: self.counter },
            None => self,
        }
    }

    /// The menu with `item` inserted at `index`, clamped to the end, under a new id.
    pub open spec fn inserted(self, index: int, item: ItemView) -> MenuView {
        let at = if index < self.rows.len() {
            index
        } else {
            self.rows.len() as int
        };
        MenuView {
            rows: self.rows.insert(at, (self.next_id(), item)),
            counter: following(self.counter),
        }
    }

    /// The id the next inserted row gets.
    pub open spec fn next_id(self) -> MenuItemId {
        MenuItemId::numbered(following(self.counter))
    }

    /// The menu without the rows under `id`.
    pub open spec fn removed(self, id: MenuItemId) -> MenuView {
        MenuView { rows: self.rows.filter(without_id(id)), counter: self.counter }
    }

    /// Ids in use were handed out, and one is used twice only once the counter
    /// has run out.
    pub open spec fn well_formed(self) -> bool {
        &&& forall|i: int|
            0 <= i < self.rows.len() ==> 0 < #[trigger] self.rows[i].0@ <= self.counter
        &&& forall|i: int, j: int|
            0 <= i < j < self.rows.len() && (#[trigger] self.rows[i]).0 == (
            #[trigger] self.rows[j]).0 ==> self.rows[i].0@ == u64::MAX
    }
}

impl Clone for Entry {
    fn clone(&self) -> (copy: Self)
        ensures
            copy == *self,
    {
        Entry { id: self.id, item: self.item.clone() }
    }
}

impl Clone for TrayMenu {
    fn clone(&self) -> (copy: Self)
        ensures
            copy@ == self@,
    {
        let copy = TrayMenu { entries: self.entries.clone(), next_id: self.next_id };
        proof {
            assert(copy.entries@ =~= self.entries@);
        }
        copy
    }
}

impl View for TrayMenu {
    type V = MenuView;

    closed spec fn view(&self) -> MenuView {
        MenuView {
            rows: self.entries@.map_values(|entry: Entry| (entry.id, entry.item@)),
            counter: self.next_id,
        }
    }
}

impl Default for TrayMenu {
    fn default() -> (menu: Self)
        ensures
            menu@ == MenuView::empty(),
    {
        TrayMenu { entries: Vec::new(), next_id: 0 }
    }
}

impl TrayMenu {
    /// An empty menu.
    pub fn new() -> (menu: Self)
        ensures
            menu@ == MenuView::empty(),
            menu@.well_formed(),
    {
        TrayMenu { entries: Vec::new(), next_id: 0 }
    }

    /// Start a [`TrayMenuBuilder`].
    pub fn builder() -> (builder: TrayMenuBuilder)
        ensures
            builder@ == MenuView::empty(),
    {
        TrayMenuBuilder::new()
    }

    /// Allocate the next id. The counter saturates, so it never wraps around to
    /// an id that an old row may still carry.
    fn allocate_id(&mut self) -> (id: MenuItemId)
        ensures
            id == old(self)@.next_id(),
            id@ == following(old(self)@.counter),
            final(self).entries == old(self).entries,
            final(self).next_id == following(old(self)@.counter),
    {
        self.next_id = self.next_id.saturating_add(1);
        let id = MenuItemId::from_raw(self.next_id);
        proof {
            MenuItemId::lemma_numbered(self.next_id);
            MenuItemId::lemma_same_raw(id, MenuItemId::numbered(self.next_id));
        }
        id
    }

    /// Reject rows that would be invisible yet still occupy a slot.
    fn validate(item: &MenuItem) -> (res: Result<(), UdaError>)
        ensures
            res is Ok <==> is_insertable(item@),
            res matches Err(error) ==> error@ == blank_label_error(),
    {
        if let Some(label) = item.label() {
            if blank(label) {
                return Err(
                    UdaError::NotSupported(
                        "tray menu items must have a non-empty label".to_owned(),
                    ),
                );
            }
        }
        Ok(())
    }

    /// Append a row and return its stable id.
    pub fn push(&mut self, item: MenuItem) -> (res: Result<MenuItemId, UdaError>)
        ensures
            res is Ok <==> is_insertable(item@),
            res matches Ok(id) ==> id == old(self)@.next_id() && final(self)@ == old(
                self,
            )@.inserted(old(self)@.rows.len() as int, item@),
            res matches Err(error) ==> error@ == blank_label_error() && final(self)@ == old(self)@,
            old(self)@.well_formed() ==> final(self)@.well_formed(),
    {
        let end: usize = self.entries.len();
        self.insert(end, item)
    }

    /// Insert a row at `index`, clamped to the end, and return its stable id.
    pub fn insert(&mut self, index: usize, item: MenuItem) -> (res: Result<MenuItemId, UdaError>)
        ensures
            res is Ok <==> is_insertable(item@),
            res matches Ok(id) ==> id == old(self)@.next_id() && final(self)@ == old(
                self,
            )@.inserted(index as int, item@),
            res matches Err(error) ==> error@ == blank_label_error() && final(self)@ == old(self)@,
            old(self)@.well_formed() ==> final(self)@.well_formed(),
    {
        match TrayMenu::validate(&item) {
            Err(error) => Err(error),
            Ok(()) => {
                let ghost before = self@;
                let id = self.allocate_id();
                let len: usize = self.entries.len();
                let at: usize = if index < len {
                    index
                } else {
                    len
                };
                let ghost said = item@;
                self.entries.insert(at, Entry { id, item });
                proof {
                    assert(self@.rows =~= before.rows.insert(at as int, (id, said)));
                    assert(self@ =~= before.inserted(index as int, said));
                    insertion_keeps_ids_unique(before, index as int, said);
                }
                Ok(id)
            },
        }
    }

    /// Remove the row addressed by `id`. Returns whether a row was removed.
    pub fn remove(&mut self, id: MenuItemId) -> (removed: bool)
        ensures
            final(self)@ == old(self)@.removed(id),
            removed == old(self)@.position(id) is Some,
            old(self)@.well_formed() ==> final(self)@.well_formed(),
    {
        let ghost before = self@;
        let ghost keep = without_id(id);
        let ghost wanted = with_id(id);
        let ghost mut seen: int = 0;
        let mut removed = false;
        let mut i: usize = 0;
        proof {
            assert(before.rows.take(0).filter(keep) =~= Seq::empty()) by {
                reveal(Seq::filter);
            }
            assert(self@.rows.take(0) =~= Seq::empty());
            assert(self@.rows.skip(0) =~= before.rows.skip(0));
        }
        while i < self.entries.len()
            invariant
                0 <= i <= self.entries.len(),
                0 <= seen <= before.rows.len(),
                self@.counter == before.counter,
                self@.rows.len() == self.entries.len(),
                keep == without_id(id),
                wanted == with_id(id),
                self@.rows.take(i as int) == before.rows.take(seen).filter(keep),
                self@.rows.skip(i as int) == before.rows.skip(seen),
                removed ==> exists|j: int| 0 <= j < seen && wanted(#[trigger] before.rows[j]),
                !removed ==> forall|j: int| 0 <= j < seen ==> !wanted(#[trigger] before.rows[j]),
            decreases self.entries.len() - i,
        {
            let ghost here = self@.rows;
            proof {
                assert(here.skip(i as int).len() == before.rows.skip(seen).len());
                assert(seen < before.rows.len());
                assert(here.skip(i as int)[0] == before.rows.skip(seen)[0]);
                assert(here[i as int] == before.rows[seen]);
                assert(here[i as int].0 == self.entries@[i as int].id);
                assert(before.rows.take(seen + 1).drop_last() =~= before.rows.take(seen));
                reveal(Seq::filter);
            }
            if self.entries[i].id == id {
                self.entries.remove(i);
                removed = true;
                proof {
                    assert(self@.rows =~= here.remove(i as int));
                    assert(self@.rows.take(i as int) =~= here.take(i as int));
                    assert(self@.rows.skip(i as int) =~= here.skip(i as int).skip(1));
                    assert(before.rows.skip(seen + 1) =~= before.rows.skip(seen).skip(1));
                    assert(wanted(before.rows[seen]));
                }
            } else {
                proof {
                    assert(here.take(i as int + 1) =~= here.take(i as int).push(here[i as int]));
                    assert(here.skip(i as int + 1) =~= here.skip(i as int).skip(1));
                    assert(before.rows.skip(seen + 1) =~= before.rows.skip(seen).skip(1));
                }
                i = i + 1;
            }
            proof {
                seen = seen + 1;
            }
        }
        proof {
            assert(self@.rows.skip(i as int).len() == 0);
            assert(before.rows.skip(seen).len() == 0);
            assert(seen == before.rows.len());
            assert(before.rows.take(seen) =~= before.rows);
            assert(self@.rows.take(i as int) =~= self@.rows);
            assert(self@ =~= before.removed(id));
            if removed {
                lemma_some_first(before.rows, wanted);
            } else {
                lemma_first_index_absent(before.rows, wanted);
            }
            removal_keeps_ids_unique(before, id);
        }
        removed
    }

    /// Remove every row. The id counter keeps counting upward so live handles
    /// never alias a freshly inserted row.
    pub fn clear(&mut self)
        ensures
            final(self)@ == (MenuView { rows: Seq::empty(), counter: old(self)@.counter }),
            final(self)@.well_formed(),
    {
        self.entries.clear();
    }

    /// Number of direct rows.
    pub fn len(&self) -> (n: usize)
        ensures
            n == self@.rows.len(),
    {
        self.entries.len()
    }

    /// Whether the menu has no direct rows.
    pub fn is_empty(&self) -> (yes: bool)
        ensures
            yes == (self@.rows.len() == 0),
    {
        self.entries.len() == 0
    }

    /// Snapshot the rows for a backend to export.
    pub fn items(&self) -> (items: Vec<MenuItem>)
        ensures
            items@.len() == self@.rows.len(),
            forall|i: int|
                0 <= i < items@.len() ==> (#[trigger] items@[i])@ == self@.rows[i].1,
    {
        let mut items: Vec<MenuItem> = Vec::new();
        let mut i: usize = 0;
        while i < self.entries.len()
            invariant
                i <= self.entries.len(),
                items@.len() == i,
                self@.rows.len() == self.entries.len(),
                forall|j: int| 0 <= j < i ==> (#[trigger] items@[j])@ == self@.rows[j].1,
            decreases self.entries.len() - i,
        {
            items.push(self.entries[i].item.clone());
            i = i + 1;
        }
        items
    }

    /// Snapshot the rows together with their ids.
    pub fn entries(&self) -> (entries: Vec<(MenuItemId, MenuItem)>)
        ensures
            entries@.len() == self@.rows.len(),
            forall|i: int|
                0 <= i < entries@.len() ==> ((#[trigger] entries@[i]).0, entries@[i].1@)
                    == self@.rows[i],
    {
        let mut entries: Vec<(MenuItemId, MenuItem)> = Vec::new();
        let mut i: usize = 0;
        while i < self.entries.len()
            invariant
                i <= self.entries.len(),
                entries@.len() == i,
                self@.rows.len() == self.entries.len(),
                forall|j: int|
                    0 <= j < i ==> ((#[trigger] entries@[j]).0, entries@[j].1@) == self@.rows[j],
            decreases self.entries.len() - i,
        {
            entries.push((self.entries[i].id, self.entries[i].item.clone()));
            i = i + 1;
        }
        entries
    }

    /// The place of the first row with the given id.
    fn position(&self, id: MenuItemId) -> (place: Option<usize>)
        ensures
            place is Some <==> self@.position(id) is Some,
            place matches Some(k) ==> k < self.entries.len() && self@.position(id) == Some(
                k as int,
            ),
    {
        let ghost wanted = with_id(id);
        let mut i: usize = 0;
        while i < self.entries.len()
            invariant
                i <= self.entries.len(),
                self@.rows.len() == self.entries.len(),
                wanted == with_id(id),
                forall|j: int| 0 <= j < i ==> !wanted(#[trigger] self@.rows[j]),
            decreases self.entries.len() - i,
        {
            if self.entries[i].id == id {
                proof {
                    lemma_first_index_found(self@.rows, wanted, i as int);
                }
                return Some(i);
            }
            i = i + 1;
        }
        proof {
            lemma_first_index_absent(self@.rows, wanted);
        }
        None
    }

    /// Find a row by id.
    pub fn find(&self, id: MenuItemId) -> (found: Option<MenuItem>)
        ensures
            found is Some <==> self@.find(id) is Some,
            found matches Some(item) ==> self@.find(id) == Some(item@),
    {
        match self.position(id) {
            Some(k) => Some(self.entries[k].item.clone()),
            None => None,
        }
    }

    /// Look up a row by label, returning the first match.
    pub fn find_by_label(&self, label: &str) -> (found: Option<(MenuItemId, MenuItem)>)
        ensures
            found is Some <==> self@.label_position(label@) is Some,
            found matches Some(row) ==> self@.label_position(label@) matches Some(k) && self@.rows[k]
                == (row.0, row.1@),
    {
        let ghost wanted = labelled(label@);
        let mut i: usize = 0;
        while i < self.entries.len()
            invariant
                i <= self.entries.len(),
                self@.rows.len() == self.entries.len(),
                wanted == labelled(label@),
                forall|j: int| 0 <= j < i ==> !wanted(#[trigger] self@.rows[j]),
            decreases self.entries.len() - i,
        {
            if let Some(text) = self.entries[i].item.label() {
                if same(text, label) {
                    proof {
                        lemma_first_index_found(self@.rows, wanted, i as int);
                    }
                    return Some((self.entries[i].id, self.entries[i].item.clone()));
                }
            }
            i = i + 1;
        }
        proof {
            lemma_first_index_absent(self@.rows, wanted);
        }
        None
    }

    /// Replace a row in place. Returns `false` when the id is gone.
    fn replace(&mut self, id: MenuItemId, item: MenuItem) -> (done: bool)
        ensures
            done == old(self)@.position(id) is Some,
            final(self)@ == old(self)@.replaced(id, item@),
            old(self)@.well_formed() ==> final(self)@.well_formed(),
    {
        let ghost before = self@;
        match self.position(id) {
            Some(k) => {
                let ghost said = item@;
                self.entries[k] = Entry { id, item };
                proof {
                    assert(self@.rows =~= before.rows.update(k as int, (id, said)));
                    lemma_position_is_first(before, id);
                    assert(before.rows[k as int].0 == id);
                    assert(forall|i: int|
                        0 <= i < before.rows.len() ==> (#[trigger] self@.rows[i]).0
                            == before.rows[i].0);
                }
                true
            },
            None => false,
        }
    }

    /// Replace the row's label; no-op when the id is gone.
    pub fn set_label(&mut self, id: MenuItemId, label: &str) -> (done: bool)
        ensures
            done == old(self)@.position(id) is Some,
            final(self)@ == old(self)@.changed(id, |item: ItemView| item.with_label(label@)),
            old(self)@.well_formed() ==> final(self)@.well_formed(),
    {
        match self.find(id) {
            Some(item) => self.replace(id, item.with_label(label)),
            None => false,
        }
    }

    /// Replace the row's state; no-op when the id is gone.
    pub fn set_state(&mut self, id: MenuItemId, state: MenuItemState) -> (done: bool)
        ensures
            done == old(self)@.position(id) is Some,
            final(self)@ == old(self)@.changed(id, |item: ItemView| item.with_state(state)),
            old(self)@.well_formed() ==> final(self)@.well_formed(),
    {
        match self.find(id) {
            Some(item) => self.replace(id, item.with_state(state)),
            None => false,
        }
    }

    /// Enable or disable a row; no-op when the id is gone.
    pub fn set_enabled(&mut self, id: MenuItemId, enabled: bool) -> (done: bool)
        ensures
            done == old(self)@.position(id) is Some,
            final(self)@ == old(self)@.changed(id, |item: ItemView| item.with_enabled(enabled)),
            old(self)@.well_formed() ==> final(self)@.well_formed(),
    {
        match self.find(id) {
            Some(item) => {
                let state = item.state().with_enabled(enabled);
                self.replace(id, item.with_state(state))
            },
            None => false,
        }
    }

    /// Set a checkbox's value; no-op for other variants or a gone id.
    pub fn set_checked(&mut self, id: MenuItemId, checked: bool) -> (done: bool)
        ensures
            done == old(self)@.is_checkbox(id),
            final(self)@ == old(self)@.changed(id, |item: ItemView| item.with_checked(checked)),
            old(self)@.well_formed() ==> final(self)@.well_formed(),
    {
        match self.find(id) {
            Some(item) => {
                if item.is_checkbox() {
                    let state = item.state().with_checked(checked);
                    self.replace(id, item.with_state(state))
                } else {
                    proof {
                        lemma_replacing_by_itself(self@, id);
                    }
                    false
                }
            },
            None => false,
        }
    }

    /// Replace a row's callback; no-op when the id is gone.
    ///
    /// Where the row already carries a callback and is given another, the slot it
    /// names is filled anew, so every holder of the same callback calls the new
    /// one.
    pub fn set_action(
        &mut self,
        id: MenuItemId,
        actions: &mut ActionStore,
        action: Option<TrayAction>,
    ) -> (done: bool)
        ensures
            done == old(self)@.position(id) is Some,
            final(self)@ == old(self)@.changed(id, acting(old(actions)@, action)),
            final(actions)@ == swapped(old(actions)@, old(self)@.action_at(id), action),
            old(self)@.well_formed() ==> final(self)@.well_formed(),
    {
        match self.find(id) {
            Some(item) => {
                let carried = match item.action() {
                    Some(carried) => Some(*carried),
                    None => None,
                };
                if actions.swap(carried, action) {
                    proof {
                        lemma_replacing_by_itself(self@, id);
                    }
                    true
                } else {
                    self.replace(id, item.with_action(action))
                }
            },
            None => false,
        }
    }

    /// Invert a checkbox's value; no-op for other variants or a gone id.
    pub fn toggle(&mut self, id: MenuItemId) -> (done: bool)
        ensures
            done == old(self)@.is_checkbox(id),
            final(self)@ == old(self)@.changed(id, |item: ItemView| item.toggled()),
            old(self)@.well_formed() ==> final(self)@.well_formed(),
    {
        match self.find(id) {
            Some(item) => {
                if item.is_checkbox() {
                    self.replace(id, item.toggled())
                } else {
                    proof {
                        lemma_replacing_by_itself(self@, id);
                    }
                    false
                }
            },
            None => false,
        }
    }
}

/// Gives a row the callback `action`.
pub open spec fn acting(actions: ActionsView, action: Option<TrayAction>) -> spec_fn(
    ItemView,
) -> ItemView {
    |item: ItemView| item.acting(actions, action)
}

impl MenuView {
    /// The menu with `change` applied to the row under `id`; unchanged when the
    /// row is gone.
    pub open spec fn changed(
        self,
        id: MenuItemId,
        change: spec_fn(ItemView) -> ItemView,
    ) -> MenuView {
        match self.find(id) {
            Some(item) => self.replaced(id, change(item)),
            None => self,
        }
    }

    /// The callback that the row under `id` carries.
    pub open spec fn action_at(self, id: MenuItemId) -> Option<TrayAction> {
        match self.find(id) {
            Some(item) => item.action(),
            None => None,
        }
    }

    /// Whether the row under `id` is a checkbox.
    pub open spec fn is_checkbox(self, id: MenuItemId) -> bool {
        self.find(id) matches Some(item) && item is Checkbox
    }
}

impl ItemView {
    /// The row enabled or disabled.
    pub open spec fn with_enabled(self, enabled: bool) -> ItemView {
        self.with_state(MenuItemState { enabled, checked: self.state().checked })
    }

    /// The row with its checkbox value set; other variants have none.
    pub open spec fn with_checked(self, checked: bool) -> ItemView {
        if self is Checkbox {
            self.with_state(MenuItemState { enabled: self.state().enabled, checked })
        } else {
            self
        }
    }
}

// ---------------------------------------------------------------------------
// What every menu keeps
// ---------------------------------------------------------------------------
proof fn lemma_some_first(rows: Seq<Row>, wanted: spec_fn(Row) -> bool)
    requires
        exists|j: int| 0 <= j < rows.len() && wanted(#[trigger] rows[j]),
    ensures
        first_index(rows, wanted) is Some,
    decreases rows.len(),
{
    let j = choose|j: int| 0 <= j < rows.len() && wanted(#[trigger] rows[j]);
    if exists|i: int| 0 <= i < j && wanted(#[trigger] rows[i]) {
        let head = rows.take(j);
        let i = choose|i: int| 0 <= i < j && wanted(#[trigger] rows[i]);
        assert(wanted(head[i]));
        lemma_some_first(head, wanted);
        let k = first_index(head, wanted)->0;
        assert(is_first(head, wanted, k));
        assert forall|m: int| 0 <= m < k implies !wanted(#[trigger] rows[m]) by {
            assert(head[m] == rows[m]);
        }
        assert(is_first(rows, wanted, k));
        lemma_first_index_found(rows, wanted, k);
    } else {
        assert(is_first(rows, wanted, j));
        lemma_first_index_found(rows, wanted, j);
    }
}

pub(crate) proof fn lemma_position_is_first(menu: MenuView, id: MenuItemId)
    ensures
        menu.position(id) matches Some(k) ==> is_first(menu.rows, with_id(id), k),
{
}

proof fn lemma_replacing_by_itself(menu: MenuView, id: MenuItemId)
    ensures
        menu.find(id) matches Some(item) ==> menu.replaced(id, item) == menu,
{
    lemma_position_is_first(menu, id);
    if let Some(k) = menu.position(id) {
        assert(menu.rows.update(k, (id, menu.rows[k].1)) =~= menu.rows);
    }
}

/// Inserting keeps every id in use distinct until the counter runs out, and the
/// new row's id is larger than any handed out before.
pub proof fn insertion_keeps_ids_unique(menu: MenuView, index: int, item: ItemView)
    requires
        0 <= index,
    ensures
        menu.well_formed() ==> menu.inserted(index, item).well_formed(),
        menu.counter < u64::MAX ==> menu.next_id()@ == menu.counter + 1,
        menu.well_formed() && menu.counter < u64::MAX ==> menu.position(menu.next_id()) is None,
{
    let raw = following(menu.counter);
    MenuItemId::lemma_numbered(raw);
    let new = menu.inserted(index, item);
    let at = if index < menu.rows.len() {
        index
    } else {
        menu.rows.len() as int
    };
    if menu.well_formed() {
        assert forall|i: int| 0 <= i < new.rows.len() implies 0 < #[trigger] new.rows[i].0@
            <= new.counter by {
            if i < at {
                assert(new.rows[i] == menu.rows[i]);
            } else if i > at {
                assert(new.rows[i] == menu.rows[i - 1]);
            }
        }
        assert forall|i: int, j: int|
            0 <= i < j < new.rows.len() && (#[trigger] new.rows[i]).0 == (
            #[trigger] new.rows[j]).0 implies new.rows[i].0@ == u64::MAX by {
            let oi = if i < at {
                i
            } else {
                i - 1
            };
            let oj = if j < at {
                j
            } else {
                j - 1
            };
            if i != at {
                assert(new.rows[i] == menu.rows[oi]);
            }
            if j != at {
                assert(new.rows[j] == menu.rows[oj]);
            }
        }
        if menu.counter < u64::MAX {
            let wanted = with_id(menu.next_id());
            assert forall|j: int| 0 <= j < menu.rows.len() implies !wanted(
                #[trigger] menu.rows[j],
            ) by {
                assert(menu.rows[j].0@ <= menu.counter);
            }
            lemma_first_index_absent(menu.rows, wanted);
        }
    }
}

proof fn lemma_filter_keeps(rows: Seq<Row>, keep: spec_fn(Row) -> bool)
    ensures
        forall|i: int|
            0 <= i < rows.filter(keep).len() ==> keep(#[trigger] rows.filter(keep)[i]) && exists|
                j: int,
            |
                0 <= j < rows.len() && rows[j] == rows.filter(keep)[i],
        forall|i: int, j: int|
            0 <= i < j < rows.filter(keep).len() ==> exists|a: int, b: int|
                0 <= a < b < rows.len() && rows[a] == #[trigger] rows.filter(keep)[i] && rows[b]
                    == #[trigger] rows.filter(keep)[j],
    decreases rows.len(),
{
    reveal(Seq::filter);
    if rows.len() > 0 {
        let head = rows.drop_last();
        lemma_filter_keeps(head, keep);
        let small = head.filter(keep);
        let big = rows.filter(keep);
        assert forall|i: int| 0 <= i < big.len() implies keep(#[trigger] big[i]) && exists|j: int|
            0 <= j < rows.len() && rows[j] == big[i] by {
            if i < small.len() {
                assert(big[i] == small[i]);
                let j = choose|j: int| 0 <= j < head.len() && head[j] == small[i];
                assert(rows[j] == big[i]);
            } else {
                assert(rows[rows.len() - 1] == big[i]);
            }
        }
        assert forall|i: int, j: int| 0 <= i < j < big.len() implies exists|a: int, b: int|
            0 <= a < b < rows.len() && rows[a] == #[trigger] big[i] && rows[b]
                == #[trigger] big[j] by {
            assert(big[i] == small[i]);
            if j < small.len() {
                assert(big[j] == small[j]);
                let (a, b) = choose|a: int, b: int|
                    0 <= a < b < head.len() && head[a] == small[i] && head[b] == small[j];
                assert(rows[a] == big[i] && rows[b] == big[j]);
            } else {
                let a = choose|a: int| 0 <= a < head.len() && head[a] == small[i];
                assert(rows[a] == big[i] && rows[rows.len() - 1] == big[j]);
            }
        }
    }
}

/// Removing a row keeps the remaining ids distinct, and no row answers to the
/// removed id any more.
pub proof fn removal_keeps_ids_unique(menu: MenuView, id: MenuItemId)
    ensures
        menu.well_formed() ==> menu.removed(id).well_formed(),
        menu.removed(id).position(id) is None,
        menu.removed(id).counter == menu.counter,
{
    let keep = without_id(id);
    lemma_filter_keeps(menu.rows, keep);
    let left = menu.removed(id).rows;
    let wanted = with_id(id);
    assert forall|j: int| 0 <= j < left.len() implies !wanted(#[trigger] left[j]) by {
        assert(keep(left[j]));
    }
    lemma_first_index_absent(left, wanted);
    if menu.well_formed() {
        assert forall|i: int, j: int|
            0 <= i < j < left.len() && (#[trigger] left[i]).0 == (
            #[trigger] left[j]).0 implies left[i].0@ == u64::MAX by {
            let (a, b) = choose|a: int, b: int|
                0 <= a < b < menu.rows.len() && menu.rows[a] == left[i] && menu.rows[b] == left[j];
            assert(menu.rows[a].0 == menu.rows[b].0);
        }
    }
}

// ---------------------------------------------------------------------------
// Building a menu
// ---------------------------------------------------------------------------
/// Ergonomic builder for [`TrayMenu`].
#[derive(Debug)]
pub struct TrayMenuBuilder {
    menu: TrayMenu,
}

impl View for TrayMenuBuilder {
    type V = MenuView;

    closed spec fn view(&self) -> MenuView {
        self.menu@
    }
}

/// What appending a row to a builder gives.
pub open spec fn appended(
    before: MenuView,
    item: ItemView,
    res: Result<TrayMenuBuilder, UdaError>,
) -> bool {
    &&& res is Ok <==> is_insertable(item)
    &&& res matches Ok(builder) ==> builder@ == before.inserted(before.rows.len() as int, item)
    &&& res matches Err(error) ==> error@ == blank_label_error()
}

impl TrayMenuBuilder {
    /// Start an empty builder.
    pub fn new() -> (builder: Self)
        ensures
            builder@ == MenuView::empty(),
    {
        TrayMenuBuilder { menu: TrayMenu::new() }
    }

    /// Append a row.
    pub fn item(self, item: MenuItem) -> (res: Result<Self, UdaError>)
        ensures
            appended(self@, item@, res),
    {
        let mut menu = self.menu;
        match menu.push(item) {
            Ok(_) => Ok(TrayMenuBuilder { menu }),
            Err(error) => Err(error),
        }
    }

    /// Append a text row.
    pub fn text(self, label: &str) -> (res: Result<Self, UdaError>)
        ensures
            appended(
                self@,
                (ItemView::Text {
                    label: label@,
                    state: MenuItemState { enabled: true, checked: false },
                    action: None,
                }),
                res,
            ),
    {
        self.item(MenuItem::text(label))
    }

    /// Append a text row with a callback.
    pub fn text_with_action(self, label: &str, action: TrayAction) -> (res: Result<Self, UdaError>)
        ensures
            appended(
                self@,
                (ItemView::Text {
                    label: label@,
                    state: MenuItemState { enabled: true, checked: false },
                    action: Some(action),
                }),
                res,
            ),
    {
        self.item(MenuItem::text_with_action(label, action))
    }

    /// Append a disabled text row.
    pub fn text_disabled(self, label: &str) -> (res: Result<Self, UdaError>)
        ensures
            appended(
                self@,
                (ItemView::Text {
                    label: label@,
                    state: MenuItemState { enabled: false, checked: false },
                    action: None,
                }),
                res,
            ),
    {
        self.item(MenuItem::text_disabled(label))
    }

    /// Append a separator.
    pub fn separator(self) -> (res: Result<Self, UdaError>)
        ensures
            appended(self@, ItemView::Separator, res),
    {
        self.item(MenuItem::separator())
    }

    /// Append a checkbox.
    pub fn checkbox(self, label: &str) -> (res: Result<Self, UdaError>)
        ensures
            appended(
                self@,
                (ItemView::Checkbox {
                    label: label@,
                    state: MenuItemState { enabled: true, checked: false },
                    action: None,
                }),
                res,
            ),
    {
        self.item(MenuItem::checkbox(label))
    }

    /// Append a checkbox that starts checked.
    pub fn checkbox_checked(self, label: &str) -> (res: Result<Self, UdaError>)
        ensures
            appended(
                self@,
                (ItemView::Checkbox {
                    label: label@,
                    state: MenuItemState { enabled: true, checked: true },
                    action: None,
                }),
                res,
            ),
    {
        self.item(MenuItem::checkbox_checked(label))
    }

    /// Append a submenu.
    pub fn submenu(self, label: &str, children: MenuRef) -> (res: Result<Self, UdaError>)
        ensures
            appended(
                self@,
                (ItemView::Submenu {
                    label: label@,
                    state: MenuItemState { enabled: true, checked: false },
                    children,
                }),
                res,
            ),
    {
        self.item(MenuItem::submenu(label, children))
    }

    /// Finish the menu.
    pub fn build(self) -> (menu: TrayMenu)
        ensures
            menu@ == self@,
    {
        self.menu
    }
}

} // verus!
