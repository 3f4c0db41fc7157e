//! Menus shared by reference: a submenu, an icon and a handle that name the same
//! menu all observe the changes made through any one of them.

use crate::tray::event::{swapped, ActionStore, TrayAction};
use crate::tray::item::{ItemView, MenuItem, MenuItemId, MenuItemState, MenuRef};
use crate::tray::menu::{acting, MenuView, Row, TrayMenu};
use vstd::prelude::*;

verus! {

/// The menus of a host. A menu lives as long as its store.
#[derive(Debug)]
pub struct MenuStore {
    menus: Vec<TrayMenu>,
}

/// The contents of every menu in a store, by place.
pub type StoreView = Seq<MenuView>;

impl View for MenuStore {
    type V = StoreView;

    closed spec fn view(&self) -> StoreView {
        self.menus@.map_values(|menu: TrayMenu| menu@)
    }
}

/// Whether `menu` names a menu of the store.
pub open spec fn is_live(store: StoreView, menu: MenuRef) -> bool {
    menu@ < store.len()
}

/// The contents of the menu that `menu` names.
pub open spec fn menu_at(store: StoreView, menu: MenuRef) -> MenuView {
    store[menu@ as int]
}

/// The store with the menu that `menu` names holding `contents`.
pub open spec fn with_menu(store: StoreView, menu: MenuRef, contents: MenuView) -> StoreView {
    store.update(menu@ as int, contents)
}

impl MenuStore {
    /// A store without menus.
    pub fn new() -> (store: Self)
        ensures
            store@ == StoreView::empty(),
    {
        MenuStore { menus: Vec::new() }
    }

    /// Keep `menu` and return the reference that names it.
    pub fn add(&mut self, menu: TrayMenu) -> (kept: MenuRef)
        ensures
            kept@ == old(self)@.len(),
            final(self)@ == old(self)@.push(menu@),
            is_live(final(self)@, kept),
    {
        let kept = MenuRef::to(self.menus.len());
        let ghost said = menu@;
        let ghost before = self@;
        self.menus.push(menu);
        proof {
            assert(self@ =~= before.push(said));
        }
        kept
    }

    /// The menu that `menu` names.
    pub fn menu(&self, menu: MenuRef) -> (found: Option<&TrayMenu>)
        ensures
            found is Some <==> is_live(self@, menu),
            found matches Some(m) ==> m@ == menu_at(self@, menu),
    {
        let at: usize = menu.index();
        if at < self.menus.len() {
            Some(&self.menus[at])
        } else {
            None
        }
    }

    /// The menu that `menu` names, open for changes.
    pub fn menu_mut(&mut self, menu: MenuRef) -> (found: Option<&mut TrayMenu>)
        ensures
            found is Some <==> is_live(old(self)@, menu),
            found is None ==> final(self)@ == old(self)@,
            found matches Some(m) ==> (*m)@ == menu_at(old(self)@, menu) && final(self)@
                == with_menu(old(self)@, menu, (*final(m))@),
    {
        let at: usize = menu.index();
        if at < self.menus.len() {
            Some(&mut self.menus[at])
        } else {
            None
        }
    }
}

/// The store with `change` applied to the menu that `menu` names; unchanged when
/// it names none.
pub open spec fn with_change(
    store: StoreView,
    menu: MenuRef,
    change: spec_fn(MenuView) -> MenuView,
) -> StoreView {
    if is_live(store, menu) {
        with_menu(store, menu, change(menu_at(store, menu)))
    } else {
        store
    }
}

/// The store with `change` applied to the row `id` of the menu that `menu` names.
pub open spec fn with_row_change(
    store: StoreView,
    menu: MenuRef,
    id: MenuItemId,
    change: spec_fn(ItemView) -> ItemView,
) -> StoreView {
    with_change(store, menu, |contents: MenuView| contents.changed(id, change))
}

/// The row `id` of the menu that `menu` names.
pub open spec fn row_at(store: StoreView, menu: MenuRef, id: MenuItemId) -> Option<ItemView> {
    if is_live(store, menu) {
        menu_at(store, menu).find(id)
    } else {
        None
    }
}

/// The callback that the row `id` of the menu that `menu` names carries.
pub open spec fn action_of(store: StoreView, menu: MenuRef, id: MenuItemId) -> Option<TrayAction> {
    match row_at(store, menu, id) {
        Some(item) => item.action(),
        None => None,
    }
}

/// A change made through a reference is seen through every reference to the same
/// menu, and through no reference to another menu.
pub proof fn a_change_is_seen_through_every_reference(
    store: StoreView,
    menu: MenuRef,
    other: MenuRef,
    contents: MenuView,
)
    requires
        is_live(store, menu),
        is_live(store, other),
    ensures
        menu@ == other@ ==> menu_at(with_menu(store, menu, contents), other) == contents,
        menu@ != other@ ==> menu_at(with_menu(store, menu, contents), other) == menu_at(
            store,
            other,
        ),
        is_live(with_menu(store, menu, contents), other),
{
}

impl TrayMenu {
    /// A live handle to the row `id` of the menu that `menu` names.
    pub fn handle(store: &MenuStore, menu: MenuRef, id: MenuItemId) -> (handle: Option<
        TrayMenuHandle,
    >)
        ensures
            handle is Some <==> row_at(store@, menu, id) is Some,
            handle matches Some(h) ==> h.menu() == menu && h.spec_id() == id,
    {
        match store.menu(menu) {
            Some(contents) => {
                if contents.find(id).is_some() {
                    Some(TrayMenuHandle::new(menu, id))
                } else {
                    None
                }
            },
            None => None,
        }
    }
}

/// A live reference to one row of a menu.
///
/// The handle addresses the row by its stable [`MenuItemId`], so inserting a row
/// above it does not invalidate it.
#[derive(Debug, Clone, Copy, PartialEq, Eq, Structural)]
pub struct TrayMenuHandle {
    menu: MenuRef,
    id: MenuItemId,
}

impl TrayMenuHandle {
    /// The menu that holds the row.
    pub closed spec fn menu(self) -> MenuRef {
        self.menu
    }

    /// The stable id this handle addresses.
    pub closed spec fn spec_id(self) -> MenuItemId {
        self.id
    }

    /// A handle to the row `id` of `menu`.
    pub(crate) fn new(menu: MenuRef, id: MenuItemId) -> (handle: Self)
        ensures
            handle.menu() == menu,
            handle.spec_id() == id,
    {
        TrayMenuHandle { menu, id }
    }

    /// The stable id this handle addresses.
    pub fn id(&self) -> (id: MenuItemId)
        ensures
            id == self.spec_id(),
    {
        self.id
    }

    /// The current row, if it still exists.
    pub fn item(&self, store: &MenuStore) -> (item: Option<MenuItem>)
        ensures
            item is Some <==> row_at(store@, self.menu(), self.spec_id()) is Some,
            item matches Some(row) ==> row_at(store@, self.menu(), self.spec_id()) == Some(row@),
    {
        match store.menu(self.menu) {
            Some(menu) => menu.find(self.id),
            None => None,
        }
    }

    /// Replace the row's label; no-op when the id is gone.
    pub fn set_label(&self, store: &mut MenuStore, label: &str) -> (done: bool)
        ensures
            done == row_at(old(store)@, self.menu(), self.spec_id()) is Some,
            final(store)@ == with_row_change(
                old(store)@,
                self.menu(),
                self.spec_id(),
                |item: ItemView| item.with_label(label@),
            ),
    {
        match store.menu_mut(self.menu) {
            Some(menu) => menu.set_label(self.id, label),
            None => false,
        }
    }

    /// Replace the row's interaction state; no-op when the id is gone.
    pub fn set_state(&self, store: &mut MenuStore, state: MenuItemState) -> (done: bool)
        ensures
            done == row_at(old(store)@, self.menu(), self.spec_id()) is Some,
            final(store)@ == with_row_change(
                old(store)@,
                self.menu(),
                self.spec_id(),
                |item: ItemView| item.with_state(state),
            ),
    {
        match store.menu_mut(self.menu) {
            Some(menu) => menu.set_state(self.id, state),
            None => false,
        }
    }

    /// Enable or disable the row; no-op when the id is gone.
    pub fn set_enabled(&self, store: &mut MenuStore, enabled: bool) -> (done: bool)
        ensures
            done == row_at(old(store)@, self.menu(), self.spec_id()) is Some,
            final(store)@ == with_row_change(
                old(store)@,
                self.menu(),
                self.spec_id(),
                |item: ItemView| item.with_enabled(enabled),
            ),
    {
        match store.menu_mut(self.menu) {
            Some(menu) => menu.set_enabled(self.id, enabled),
            None => false,
        }
    }

    /// Set a checkbox's value; no-op for other variants or a gone id.
    pub fn set_checked(&self, store: &mut MenuStore, checked: bool) -> (done: bool)
        ensures
            done == (row_at(old(store)@, self.menu(), self.spec_id()) matches Some(item)
                && item is Checkbox),
            final(store)@ == with_row_change(
                old(store)@,
                self.menu(),
                self.spec_id(),
                |item: ItemView| item.with_checked(checked),
            ),
    {
        match store.menu_mut(self.menu) {
            Some(menu) => menu.set_checked(self.id, checked),
            None => false,
        }
    }

    /// Replace the row's callback; no-op when the id is gone. Every holder of a
    /// callback that the row already carries calls the new one.
    pub fn set_action(
        &self,
        store: &mut MenuStore,
        actions: &mut ActionStore,
        action: Option<TrayAction>,
    ) -> (done: bool)
        ensures
            done == row_at(old(store)@, self.menu(), self.spec_id()) is Some,
            final(store)@ == with_row_change(
                old(store)@,
                self.menu(),
                self.spec_id(),
                acting(old(actions)@, action),
            ),
            final(actions)@ == swapped(
                old(actions)@,
                action_of(old(store)@, self.menu(), self.spec_id()),
                action,
            ),
    {
        match store.menu_mut(self.menu) {
            Some(menu) => menu.set_action(self.id, actions, action),
            None => false,
        }
    }

    /// Invert a checkbox's value; no-op for other variants or a gone id.
    pub fn toggle(&self, store: &mut MenuStore) -> (done: bool)
        ensures
            done == (row_at(old(store)@, self.menu(), self.spec_id()) matches Some(item)
                && item is Checkbox),
            final(store)@ == with_row_change(
                old(store)@,
                self.menu(),
                self.spec_id(),
                |item: ItemView| item.toggled(),
            ),
    {
        match store.menu_mut(self.menu) {
            Some(menu) => menu.toggle(self.id),
            None => false,
        }
    }

    /// Remove the row; no-op when the id is gone.
    pub fn remove(&self, store: &mut MenuStore) -> (removed: bool)
        ensures
            removed == row_at(old(store)@, self.menu(), self.spec_id()) is Some,
            final(store)@ == with_change(
                old(store)@,
                self.menu(),
                |contents: MenuView| contents.removed(self.spec_id()),
            ),
    {
        match store.menu_mut(self.menu) {
            Some(menu) => menu.remove(self.id),
            None => false,
        }
    }
}

// ---------------------------------------------------------------------------
// Nesting
// ---------------------------------------------------------------------------
/// Whether following submenus from `menu` comes to an end within `depth` menus.
pub open spec fn nests_within(store: StoreView, menu: MenuRef, depth: nat) -> bool
    decreases depth,
{
    &&& is_live(store, menu)
    &&& depth > 0
    &&& forall|i: int|
        0 <= i < menu_at(store, menu).rows.len() ==> ((
        #[trigger] menu_at(store, menu).rows[i]).1.children() matches Some(child)
            ==> nests_within(store, child, (depth - 1) as nat))
}

/// Whether following submenus from `menu` comes to an end: no menu contains
/// itself, at whatever depth.
pub open spec fn nests(store: StoreView, menu: MenuRef) -> bool {
    exists|depth: nat| nests_within(store, menu, depth)
}

/// A depth that suffices to follow every submenu from `menu`.
pub open spec fn depth_of(store: StoreView, menu: MenuRef) -> nat {
    choose|depth: nat| nests_within(store, menu, depth)
}

/// Whether following submenus from a row comes to an end within `depth` menus.
pub open spec fn item_nests_within(store: StoreView, item: ItemView, depth: nat) -> bool {
    item.children() matches Some(child) ==> nests_within(store, child, depth)
}

/// Whether the same holds of every row.
pub open spec fn rows_nest_within(store: StoreView, rows: Seq<Row>, depth: nat) -> bool {
    forall|i: int| 0 <= i < rows.len() ==> item_nests_within(store, #[trigger] rows[i].1, depth)
}

/// A menu that nests within some depth nests within any greater one.
pub proof fn nesting_is_monotone(store: StoreView, menu: MenuRef, depth: nat, deeper: nat)
    requires
        nests_within(store, menu, depth),
        depth <= deeper,
    ensures
        nests_within(store, menu, deeper),
    decreases depth,
{
    assert forall|i: int|
        0 <= i < menu_at(store, menu).rows.len() implies ((
    #[trigger] menu_at(store, menu).rows[i]).1.children() matches Some(child) ==> nests_within(
        store,
        child,
        (deeper - 1) as nat,
    )) by {
        if let Some(child) = menu_at(store, menu).rows[i].1.children() {
            nesting_is_monotone(store, child, (depth - 1) as nat, (deeper - 1) as nat);
        }
    }
}

/// Whether every submenu row of `menu` leads to a settled menu.
spec fn children_settled(store: StoreView, menu: int, settled: Seq<bool>) -> bool {
    forall|i: int|
        0 <= i < store[menu].rows.len() ==> ((
        #[trigger] store[menu].rows[i]).1.children() matches Some(child) ==> child@
            < settled.len() && settled[child@ as int])
}

/// How many menus are not settled.
spec fn unsettled(settled: Seq<bool>) -> nat
    decreases settled.len(),
{
    if settled.len() == 0 {
        0
    } else {
        unsettled(settled.drop_last()) + (if settled.last() {
            0nat
        } else {
            1nat
        })
    }
}

proof fn lemma_settling_one(settled: Seq<bool>, at: int)
    requires
        0 <= at < settled.len(),
        !settled[at],
    ensures
        unsettled(settled.update(at, true)) + 1 == unsettled(settled),
    decreases settled.len(),
{
    let after = settled.update(at, true);
    if at == settled.len() - 1 {
        assert(after.drop_last() =~= settled.drop_last());
    } else {
        lemma_settling_one(settled.drop_last(), at);
        assert(after.drop_last() =~= settled.drop_last().update(at, true));
    }
}

proof fn lemma_fixpoint_is_complete(
    store: StoreView,
    settled: Seq<bool>,
    menu: MenuRef,
    depth: nat,
)
    requires
        settled.len() == store.len(),
        forall|m: int|
            0 <= m < store.len() && !(#[trigger] settled[m]) ==> !children_settled(
                store,
                m,
                settled,
            ),
        nests_within(store, menu, depth),
    ensures
        settled[menu@ as int],
    decreases depth,
{
    let m = menu@ as int;
    if !settled[m] {
        assert forall|i: int|
            0 <= i < store[m].rows.len() implies ((
        #[trigger] store[m].rows[i]).1.children() matches Some(child) ==> child@ < settled.len()
            && settled[child@ as int]) by {
            if let Some(child) = store[m].rows[i].1.children() {
                assert(menu_at(store, menu).rows[i] == store[m].rows[i]);
                lemma_fixpoint_is_complete(store, settled, child, (depth - 1) as nat);
            }
        }
        assert(children_settled(store, m, settled));
    }
}

impl MenuStore {
    /// Whether every submenu row of the menu at `menu` leads to a settled menu.
    fn are_children_settled(&self, menu: usize, settled: &Vec<bool>) -> (yes: bool)
        requires
            menu < self@.len(),
        ensures
            yes == children_settled(self@, menu as int, settled@),
    {
        let rows = self.menus[menu].items();
        let mut i: usize = 0;
        while i < rows.len()
            invariant
                i <= rows.len(),
                menu < self@.len(),
                rows@.len() == self@[menu as int].rows.len(),
                forall|j: int|
                    0 <= j < rows@.len() ==> (#[trigger] rows@[j])@ == self@[menu as int].rows[j].1,
                forall|j: int|
                    0 <= j < i ==> ((
                    #[trigger] self@[menu as int].rows[j]).1.children() matches Some(child)
                        ==> child@ < settled.len() && settled@[child@ as int]),
            decreases rows.len() - i,
        {
            proof {
                assert(rows@[i as int]@ == self@[menu as int].rows[i as int].1);
            }
            if let MenuItem::Submenu { children, .. } = &rows[i] {
                let child: usize = children.index();
                if child >= settled.len() || !settled[child] {
                    return false;
                }
            }
            i = i + 1;
        }
        true
    }

    /// Whether following submenus from `menu` comes to an end. A menu that
    /// contains itself, at whatever depth, cannot be laid out.
    pub fn nests(&self, menu: MenuRef) -> (yes: bool)
        ensures
            yes == nests(self@, menu),
    {
        let total: usize = self.menus.len();
        let mut settled: Vec<bool> = Vec::new();
        while settled.len() < total
            invariant
                settled.len() <= total,
                forall|m: int| 0 <= m < settled@.len() ==> !(#[trigger] settled@[m]),
            decreases total - settled.len(),
        {
            settled.push(false);
        }
        let ghost mut depth: nat = 0;
        let mut progress = true;
        while progress
            invariant
                total == self@.len(),
                settled@.len() == total,
                forall|r: MenuRef|
                    r@ < total && settled@[r@ as int] ==> #[trigger] nests_within(self@, r, depth),
                !progress ==> forall|m: int|
                    0 <= m < total && !(#[trigger] settled@[m]) ==> !children_settled(
                        self@,
                        m,
                        settled@,
                    ),
            decreases unsettled(settled@), progress as int,
        {
            progress = false;
            let ghost start = unsettled(settled@);
            let mut at: usize = 0;
            while at < total
                invariant
                    at <= total,
                    total == self@.len(),
                    settled@.len() == total,
                    forall|r: MenuRef|
                        r@ < total && settled@[r@ as int] ==> #[trigger] nests_within(
                            self@,
                            r,
                            depth,
                        ),
                    unsettled(settled@) <= start,
                    progress ==> unsettled(settled@) < start,
                    !progress ==> unsettled(settled@) == start,
                    !progress ==> forall|m: int|
                        0 <= m < at && !(#[trigger] settled@[m]) ==> !children_settled(
                            self@,
                            m,
                            settled@,
                        ),
                decreases total - at,
            {
                if !settled[at] && self.are_children_settled(at, &settled) {
                    let ghost before = settled@;
                    proof {
                        lemma_settling_one(settled@, at as int);
                    }
                    settled.set(at, true);
                    progress = true;
                    proof {
                        assert forall|r: MenuRef|
                            r@ < total && settled@[r@ as int] implies #[trigger] nests_within(
                            self@,
                            r,
                            depth + 1,
                        ) by {
                            if r@ == at {
                                assert forall|i: int|
                                    0 <= i < menu_at(self@, r).rows.len() implies ((
                                #[trigger] menu_at(
                                    self@,
                                    r,
                                ).rows[i]).1.children() matches Some(child) ==> nests_within(
                                    self@,
                                    child,
                                    depth,
                                )) by {
                                    assert(self@[at as int].rows[i] == menu_at(self@, r).rows[i]);
                                }
                            } else {
                                assert(before[r@ as int]);
                                nesting_is_monotone(self@, r, depth, depth + 1);
                            }
                        }
                        depth = depth + 1;
                    }
                }
                at = at + 1;
            }
        }
        let at: usize = menu.index();
        proof {
            if is_live(self@, menu) && settled@[at as int] {
                assert(nests_within(self@, menu, depth));
            } else {
                assert forall|d: nat| !nests_within(self@, menu, d) by {
                    if nests_within(self@, menu, d) {
                        lemma_fixpoint_is_complete(self@, settled@, menu, d);
                    }
                }
            }
        }
        at < total && settled[at]
    }
}

/// A change made through a row's id reaches that row of that menu alone; without
/// the row nothing changes.
pub proof fn a_handle_changes_its_row_alone(
    store: StoreView,
    menu: MenuRef,
    id: MenuItemId,
    change: spec_fn(ItemView) -> ItemView,
    other: MenuRef,
    row: MenuItemId,
)
    ensures
        ({
            let after = with_row_change(store, menu, id, change);
            &&& row_at(store, menu, id) is None ==> after == store
            &&& row_at(store, menu, id) matches Some(item) ==> row_at(after, menu, id) == Some(
                change(item),
            )
            &&& is_live(after, other) <==> is_live(store, other)
            &&& other@ != menu@ ==> row_at(after, other, row) == row_at(store, other, row)
            &&& row@ != id@ ==> row_at(after, menu, row) == row_at(store, menu, row)
        }),
{
    let after = with_row_change(store, menu, id, change);
    if is_live(store, menu) {
        let contents = menu_at(store, menu);
        assert(after =~= with_menu(store, menu, contents.changed(id, change)));
        if row@ != id@ {
            crate::tray::menu_laws::a_change_is_seen_through_its_id(contents, id, row, change);
        } else {
            let next = MenuItemId::numbered(
                if id@ == 0 {
                    1
                } else {
                    0
                },
            );
            MenuItemId::lemma_numbered(
                if id@ == 0 {
                    1
                } else {
                    0
                },
            );
            crate::tray::menu_laws::a_change_is_seen_through_its_id(contents, id, next, change);
        }
        if contents.find(id) is None {
            assert(after =~= store);
        }
    }
}

/// What a row carries is found through its menu and its id.
pub proof fn a_callback_is_found_through_its_row(store: StoreView, menu: MenuRef, id: MenuItemId)
    ensures
        row_at(store, menu, id) == (if menu@ < store.len() {
            store[menu@ as int].find(id)
        } else {
            None
        }),
        action_of(store, menu, id) matches Some(action) ==> row_at(store, menu, id) is Some
            && row_at(store, menu, id)->0.action() == Some(action),
        action_of(store, menu, id) is None ==> row_at(store, menu, id) is None || row_at(
            store,
            menu,
            id,
        )->0.action() is None,
{
}

/// A menu that opens itself can never be laid out; one without submenus always
/// can, and one that can be laid out leads only to menus that can.
pub proof fn only_menus_that_end_are_laid_out(store: StoreView, menu: MenuRef, i: int)
    requires
        is_live(store, menu),
    ensures
        (forall|j: int|
            0 <= j < menu_at(store, menu).rows.len() ==> (#[trigger] menu_at(
                store,
                menu,
            ).rows[j]).1.children() is None) ==> nests(store, menu),
        nests(store, menu) && 0 <= i < menu_at(store, menu).rows.len() ==> (menu_at(
            store,
            menu,
        ).rows[i].1.children() matches Some(child) ==> nests(store, child) && child != menu),
{
    if forall|j: int|
        0 <= j < menu_at(store, menu).rows.len() ==> (#[trigger] menu_at(
            store,
            menu,
        ).rows[j]).1.children() is None {
        assert(nests_within(store, menu, 1));
    }
    if nests(store, menu) && 0 <= i < menu_at(store, menu).rows.len() {
        let depth = depth_of(store, menu);
        assert(nests_within(store, menu, depth));
        if let Some(child) = menu_at(store, menu).rows[i].1.children() {
            assert(nests_within(store, child, (depth - 1) as nat));
            if child == menu {
                lemma_never_within(store, menu, i, depth);
            }
        }
    }
}

proof fn lemma_never_within(store: StoreView, menu: MenuRef, i: int, depth: nat)
    requires
        is_live(store, menu),
        0 <= i < menu_at(store, menu).rows.len(),
        menu_at(store, menu).rows[i].1.children() == Some(menu),
    ensures
        !nests_within(store, menu, depth),
    decreases depth,
{
    if depth > 0 {
        lemma_never_within(store, menu, i, (depth - 1) as nat);
        let row = menu_at(store, menu).rows[i];
    }
}

/// A menu that was kept is found through the reference that was returned, and the
/// menus kept before it through theirs.
pub proof fn a_kept_menu_is_found(
    store: &mut MenuStore,
    menu: TrayMenu,
    kept: MenuRef,
    other: MenuRef,
)
    requires
        call_ensures(MenuStore::add, (store, menu), kept),
    ensures
        !is_live(old(store)@, kept),
        is_live(final(store)@, kept),
        menu_at(final(store)@, kept) == menu@,
        is_live(old(store)@, other) ==> is_live(final(store)@, other) && menu_at(
            final(store)@,
            other,
        ) == menu_at(old(store)@, other),
{
}

/// A handle is given out exactly for a row that is there, and leads to that row.
pub proof fn a_handle_leads_to_its_row(
    store: MenuStore,
    menu: MenuRef,
    id: MenuItemId,
    handle: Option<TrayMenuHandle>,
    item: Option<MenuItem>,
)
    requires
        call_ensures(TrayMenu::handle, (&store, menu, id), handle),
        handle is Some ==> call_ensures(TrayMenuHandle::item, (&handle->0, &store), item),
    ensures
        handle is Some <==> row_at(store@, menu, id) is Some,
        handle is Some ==> item is Some && row_at(store@, menu, id) == Some(item->0@),
        handle is Some ==> handle->0.menu() == menu && handle->0.spec_id() == id,
{
}

/// Through a handle a row is given another label, another state, another value
/// or none at all; the rows of other menus never change.
pub proof fn a_handle_changes_what_it_says(
    relabelled: &mut MenuStore,
    restated: &mut MenuStore,
    able: &mut MenuStore,
    ticked: &mut MenuStore,
    toggled: &mut MenuStore,
    handle: TrayMenuHandle,
    label: &str,
    state: MenuItemState,
    flag: bool,
    done: (bool, bool, bool, bool, bool),
    other: MenuRef,
    row: MenuItemId,
)
    requires
        call_ensures(TrayMenuHandle::set_label, (&handle, relabelled, label), done.0),
        call_ensures(TrayMenuHandle::set_state, (&handle, restated, state), done.1),
        call_ensures(TrayMenuHandle::set_enabled, (&handle, able, flag), done.2),
        call_ensures(TrayMenuHandle::set_checked, (&handle, ticked, flag), done.3),
        call_ensures(TrayMenuHandle::toggle, (&handle, toggled), done.4),
        old(restated)@ == old(relabelled)@,
        old(able)@ == old(relabelled)@,
        old(ticked)@ == old(relabelled)@,
        old(toggled)@ == old(relabelled)@,
        other@ != handle.menu()@,
    ensures
        ({
            let menu = handle.menu();
            let id = handle.spec_id();
            let before = row_at(old(relabelled)@, menu, id);
            &&& done.0 == (before is Some) && done.1 == (before is Some) && done.2 == (before is Some)
            &&& done.3 == (before is Some && before->0 is Checkbox) && done.4 == done.3
            &&& before matches Some(item) ==> {
                &&& row_at(final(relabelled)@, menu, id) == Some(item.with_label(label@))
                &&& row_at(final(restated)@, menu, id) == Some(item.with_state(state))
                &&& row_at(final(able)@, menu, id) matches Some(after) && after.label()
                    == item.label() && (!(item is Separator) ==> after.state().enabled == flag)
                &&& row_at(final(ticked)@, menu, id) matches Some(after) && after.label()
                    == item.label() && (item is Checkbox ==> after.state().checked == flag) && (!(
                item is Checkbox) ==> after == item)
                &&& row_at(final(toggled)@, menu, id) == Some(item.toggled())
            }
            &&& row_at(final(relabelled)@, other, row) == row_at(old(relabelled)@, other, row)
            &&& row_at(final(restated)@, other, row) == row_at(old(relabelled)@, other, row)
            &&& row_at(final(able)@, other, row) == row_at(old(relabelled)@, other, row)
            &&& row_at(final(ticked)@, other, row) == row_at(old(relabelled)@, other, row)
            &&& row_at(final(toggled)@, other, row) == row_at(old(relabelled)@, other, row)
        }),
{
    let store = old(relabelled)@;
    let menu = handle.menu();
    let id = handle.spec_id();
    let relabel = |item: ItemView| item.with_label(label@);
    let restate = |item: ItemView| item.with_state(state);
    let enable = |item: ItemView| item.with_enabled(flag);
    let tick = |item: ItemView| item.with_checked(flag);
    let toggle = |item: ItemView| item.toggled();
    a_handle_changes_its_row_alone(store, menu, id, relabel, other, row);
    a_handle_changes_its_row_alone(store, menu, id, restate, other, row);
    a_handle_changes_its_row_alone(store, menu, id, enable, other, row);
    a_handle_changes_its_row_alone(store, menu, id, tick, other, row);
    a_handle_changes_its_row_alone(store, menu, id, toggle, other, row);
}

/// Removing a row through its handle leaves the handle without a row, and the
/// rows of other menus as they are.
pub proof fn a_removed_row_leaves_its_handle_empty(
    store: &mut MenuStore,
    handle: TrayMenuHandle,
    removed: bool,
    other: MenuRef,
    row: MenuItemId,
)
    requires
        call_ensures(TrayMenuHandle::remove, (&handle, store), removed),
        is_live(old(store)@, handle.menu()) ==> menu_at(old(store)@, handle.menu()).well_formed(),
        other@ != handle.menu()@,
    ensures
        removed <==> row_at(old(store)@, handle.menu(), handle.spec_id()) is Some,
        row_at(final(store)@, handle.menu(), handle.spec_id()) is None,
        row_at(final(store)@, other, row) == row_at(old(store)@, other, row),
{
    if is_live(old(store)@, handle.menu()) {
        let contents = menu_at(old(store)@, handle.menu());
        let id = handle.spec_id();
        let rest = contents.removed(id);
        let wanted = crate::tray::menu::with_id(id);
        assert forall|j: int| 0 <= j < rest.rows.len() implies !wanted(#[trigger] rest.rows[j]) by {
            contents.rows.lemma_filter_pred(crate::tray::menu::without_id(id), j);
        }
        crate::tray::menu::lemma_first_index_absent(rest.rows, wanted);
    }
}

} // verus!
