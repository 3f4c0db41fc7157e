//! The tray icons and menus a caller holds, by handle.

use crate::error::ErrorView;
use crate::ffi::error::{Failure, FailureView};
use crate::ffi::wakelocks::advanced;
use crate::text::{
    blank, decimal, finishes_with, holds, is_blank, parts_are_found_where_they_stand, show,
};
use crate::tray::event::{swapped, ActionStore, ActionsView, TrayAction};
use crate::tray::icon::{ConfigView, StateView, TrayIcon, TrayIconBuilder, TrayIconConfig};
use crate::tray::item::{ItemView, MenuItem, MenuItemId, MenuItemState, MenuRef};
use crate::tray::menu::{
    acting, blank_label_error, is_first, is_insertable, lemma_first_index_found, with_id, MenuView,
    TrayMenu,
};
use crate::tray::source::{SourceView, TrayIconSource};
use crate::tray::store::{is_live, menu_at, with_menu, MenuStore, StoreView};
use crate::tray::tooltip::safe_tooltip;
use std::collections::HashMap;
use vstd::prelude::*;
use vstd::set_lib::lemma_len_subset;

verus! {

broadcast use vstd::std_specs::hash::group_hash_axioms;

// ---------------------------------------------------------------------------
// Records
// ---------------------------------------------------------------------------
/// One live record of the registry.
#[derive(Debug)]
pub enum TrayEntry {
    /// A registered tray icon, owned by the registry.
    Icon(TrayIcon),
    /// A context menu, attached to any number of icons.
    Menu(MenuRef),
}

/// What a [`TrayEntry`] says.
#[verifier::ext_equal]
pub enum EntryView {
    Icon { name: Seq<char>, state: StateView },
    Menu(MenuRef),
}

impl View for TrayEntry {
    type V = EntryView;

    open spec fn view(&self) -> EntryView {
        match *self {
            TrayEntry::Icon(icon) => EntryView::Icon { name: icon.spec_name(), state: icon.state() },
            TrayEntry::Menu(menu) => EntryView::Menu(menu),
        }
    }
}

/// The records of a registry, by handle.
pub type Records = Map<u64, EntryView>;

/// The handles of icons.
pub open spec fn icon_handles(records: Records) -> Set<u64> {
    records.dom().filter(|handle: u64| records[handle] is Icon)
}

/// How many handles were passed over since `counter` to get to `handle`.
pub open spec fn distance(counter: u64, handle: u64) -> int {
    if handle >= counter {
        handle - counter
    } else {
        handle + 0x1_0000_0000_0000_0000 - counter
    }
}

/// Whether a handle can be handed out: it is not 0 and names no live record.
pub open spec fn is_free(records: Records, handle: u64) -> bool {
    handle != 0 && !records.contains_key(handle)
}

/// Whether `handle` is the first free one from `counter` on.
pub open spec fn is_first_free(records: Records, counter: u64, handle: u64) -> bool {
    &&& is_free(records, handle)
    &&& forall|passed: u64|
        #[trigger] distance(counter, passed) < distance(counter, handle) ==> !is_free(
            records,
            passed,
        )
}

/// What is answered for a handle that names no icon.
pub open spec fn not_an_icon(records: Records, handle: u64) -> FailureView {
    FailureView::InvalidArgument(
        "tray handle "@ + decimal(handle as nat) + (if records.contains_key(handle) {
            " is a menu, not a tray icon"@
        } else {
            " is not live in this process"@
        }),
    )
}

/// What is answered for a handle that names no menu.
pub open spec fn not_a_menu(records: Records, handle: u64) -> FailureView {
    if records.contains_key(handle) {
        FailureView::InvalidArgument(
            "tray handle "@ + decimal(handle as nat) + " is a tray icon, not a menu"@,
        )
    } else {
        FailureView::InvalidArgument(
            "tray menu handle "@ + decimal(handle as nat) + " is not live in this process"@,
        )
    }
}

/// Whether a handle names an icon.
pub open spec fn names_icon(records: Records, handle: u64) -> bool {
    records.contains_key(handle) && records[handle] is Icon
}

/// Whether a handle names a menu.
pub open spec fn names_menu(records: Records, handle: u64) -> bool {
    records.contains_key(handle) && records[handle] is Menu
}

/// The records with the state of the icon behind `handle` replaced.
pub open spec fn with_state(records: Records, handle: u64, state: StateView) -> Records {
    records.insert(handle, EntryView::Icon { name: records[handle]->name, state })
}

/// What a [`TrayRegistry`] says.
#[verifier::ext_equal]
pub struct RegistryView {
    /// The live records.
    pub records: Records,
    /// Where the search for the next handle starts.
    pub counter: u64,
    /// The menus, which outlive their handles.
    pub store: StoreView,
    /// The callbacks of the rows.
    pub actions: ActionsView,
}

/// The handle table for tray icons and menus.
pub struct TrayRegistry {
    entries: HashMap<u64, TrayEntry>,
    icons: usize,
    counter: u64,
    store: MenuStore,
    actions: ActionStore,
}

/// The records that a table of entries holds.
pub closed spec fn records_of(entries: Map<u64, TrayEntry>) -> Records {
    entries.map_values(|entry: TrayEntry| entry@)
}

impl TrayRegistry {
    /// What the registry says.
    pub closed spec fn view(self) -> RegistryView {
        RegistryView {
            records: records_of(self.entries@),
            counter: self.counter,
            store: self.store@,
            actions: self.actions@,
        }
    }

    /// Whether 0 names nothing, every menu record names a menu, and the icons
    /// are counted.
    pub closed spec fn wf(self) -> bool {
        &&& self.entries@.dom().finite()
        &&& !self@.records.contains_key(0)
        &&& self.icons == icon_handles(self@.records).len()
        &&& forall|handle: u64| #[trigger]
            names_menu(self@.records, handle) ==> is_live(self@.store, self@.records[handle]->Menu_0)
    }

    /// An empty registry. The search for handles starts at 1.
    pub fn new() -> (registry: Self)
        ensures
            registry.wf(),
            registry@ == (RegistryView {
                records: Map::empty(),
                counter: 1,
                store: StoreView::empty(),
                actions: ActionsView::empty(),
            }),
    {
        let registry = TrayRegistry {
            entries: HashMap::new(),
            icons: 0,
            counter: 1,
            store: MenuStore::new(),
            actions: ActionStore::new(),
        };
        proof {
            assert(registry@.records =~= Map::<u64, EntryView>::empty());
            assert(icon_handles(registry@.records) =~= Set::<u64>::empty());
        }
        registry
    }

    /// Name the callback the host keeps under `callback`, so that a row can carry
    /// it.
    pub fn add_action(&mut self, callback: u64) -> (action: TrayAction)
        ensures
            final(self).wf() == old(self).wf(),
            action@ == old(self)@.actions.len(),
            final(self)@ == (RegistryView {
                actions: old(self)@.actions.push(callback),
                ..old(self)@
            }),
    {
        TrayAction::new(&mut self.actions, callback)
    }

    /// The callbacks of the rows.
    pub fn actions(&self) -> (actions: &ActionStore)
        ensures
            actions@ == self@.actions,
    {
        &self.actions
    }

    /// The menus behind the handles.
    pub fn store(&self) -> (store: &MenuStore)
        ensures
            store@ == self@.store,
    {
        &self.store
    }

    /// The first free handle from the counter on.
    fn fresh_handle(&mut self) -> (handle: u64)
        requires
            old(self).wf(),
            old(self)@.records.len() < u64::MAX,
        ensures
            final(self).wf(),
            is_first_free(old(self)@.records, old(self)@.counter, handle),
            final(self)@ == (RegistryView { counter: advanced(handle), ..old(self)@ }),
    {
        let ghost records = self@.records;
        let ghost start = self.counter;
        let ghost mut tried: Set<u64> = Set::empty();
        let ghost taken = records.dom().insert(0u64);
        proof {
            assert(records.dom() =~= self.entries@.dom());
        }
        let mut candidate: u64 = self.counter;
        self.counter = self.counter.wrapping_add(1);
        while candidate == 0 || self.entries.contains_key(&candidate)
            invariant
                self.wf(),
                self.entries == old(self).entries,
                self.icons == old(self).icons,
                self.store == old(self).store,
                self.actions == old(self).actions,
                records == old(self)@.records,
                records == records_of(self.entries@),
                records.dom().finite(),
                records.len() < u64::MAX,
                taken == records.dom().insert(0u64),
                taken.finite(),
                taken.len() <= records.len() + 1,
                tried.finite(),
                tried.subset_of(taken),
                tried.len() == distance(start, candidate),
                forall|passed: u64| #[trigger]
                    tried.contains(passed) <==> distance(start, passed) < distance(start, candidate),
                self.counter == advanced(candidate),
            decreases taken.len() - tried.len(),
        {
            proof {
                assert(taken.contains(candidate)) by {
                    if candidate != 0 {
                        assert(self.entries@.contains_key(candidate));
                        assert(records.contains_key(candidate));
                    }
                }
                let more = tried.insert(candidate);
                assert(more.subset_of(taken));
                lemma_len_subset(more, taken);
                assert(more.len() == tried.len() + 1);
                let next = advanced(candidate);
                assert(distance(start, next) == distance(start, candidate) + 1);
                assert forall|passed: u64| #[trigger] more.contains(passed) <==> distance(
                    start,
                    passed,
                ) < distance(start, next) by {
                    if distance(start, passed) == distance(start, candidate) {
                        assert(passed == candidate);
                    }
                    assert(tried.contains(passed) <==> distance(start, passed) < distance(
                        start,
                        candidate,
                    ));
                }
                tried = more;
            }
            candidate = self.counter;
            self.counter = self.counter.wrapping_add(1);
        }
        proof {
            assert(!records.contains_key(candidate));
            assert forall|passed: u64| #[trigger]
                distance(start, passed) < distance(start, candidate) implies !is_free(
                records,
                passed,
            ) by {
                assert(tried.contains(passed));
                assert(taken.contains(passed));
            }
        }
        candidate
    }
}

// ---------------------------------------------------------------------------
// Counting
// ---------------------------------------------------------------------------
proof fn lemma_icons_inserted(records: Records, handle: u64, entry: EntryView)
    requires
        records.dom().finite(),
        !records.contains_key(handle),
    ensures
        icon_handles(records.insert(handle, entry)).len() == icon_handles(records).len() + (
        if entry is Icon {
            1int
        } else {
            0int
        }),
        icon_handles(records.insert(handle, entry)).len() <= records.len() + 1,
{
    let before = icon_handles(records);
    let after = icon_handles(records.insert(handle, entry));
    if entry is Icon {
        assert(after =~= before.insert(handle));
    } else {
        assert(after =~= before);
    }
    lemma_len_subset(after, records.insert(handle, entry).dom());
}

proof fn lemma_icons_removed(records: Records, handle: u64)
    requires
        records.dom().finite(),
        records.contains_key(handle),
    ensures
        icon_handles(records.remove(handle)).len() == icon_handles(records).len() - (
        if records[handle] is Icon {
            1int
        } else {
            0int
        }),
{
    let before = icon_handles(records);
    let after = icon_handles(records.remove(handle));
    if records[handle] is Icon {
        assert(after =~= before.remove(handle));
        assert(before.contains(handle));
    } else {
        assert(after =~= before);
    }
}

// ---------------------------------------------------------------------------
// Handles
// ---------------------------------------------------------------------------
impl TrayRegistry {
    /// Store a record under a handle that names none.
    fn insert(&mut self, handle: u64, entry: TrayEntry)
        requires
            old(self).wf(),
            handle != 0,
            !old(self)@.records.contains_key(handle),
            entry@ matches EntryView::Menu(menu) ==> is_live(old(self)@.store, menu),
        ensures
            final(self).wf(),
            final(self)@ == (RegistryView {
                records: old(self)@.records.insert(handle, entry@),
                ..old(self)@
            }),
    {
        let ghost before = self@.records;
        let ghost said = entry@;
        let is_icon = matches!(entry, TrayEntry::Icon(_));
        proof {
            assert(before.dom() =~= self.entries@.dom());
            lemma_icons_inserted(before, handle, said);
        }
        self.entries.insert(handle, entry);
        proof {
            assert(records_of(self.entries@) =~= before.insert(handle, said));
            assert(self.entries@.len() == self.entries.len());
        }
        if is_icon {
            self.icons = self.icons + 1;
        }
        proof {
            assert forall|h: u64| #[trigger] names_menu(self@.records, h) implies is_live(
                self@.store,
                self@.records[h]->Menu_0,
            ) by {
                if h != handle {
                    assert(names_menu(before, h));
                }
            }
        }
    }

    /// Take a record out.
    fn remove(&mut self, handle: u64) -> (entry: Option<TrayEntry>)
        requires
            old(self).wf(),
        ensures
            final(self).wf(),
            entry is Some <==> old(self)@.records.contains_key(handle),
            entry matches Some(e) ==> e@ == old(self)@.records[handle],
            final(self)@ == (RegistryView {
                records: old(self)@.records.remove(handle),
                ..old(self)@
            }),
    {
        let ghost before = self@.records;
        proof {
            assert(before.dom() =~= self.entries@.dom());
            if before.contains_key(handle) {
                lemma_icons_removed(before, handle);
            }
        }
        let entry = self.entries.remove(&handle);
        proof {
            assert(records_of(self.entries@) =~= before.remove(handle));
            if !before.contains_key(handle) {
                assert(before.remove(handle) =~= before);
            }
        }
        if let Some(TrayEntry::Icon(_)) = &entry {
            self.icons = self.icons - 1;
        }
        proof {
            assert forall|h: u64| #[trigger] names_menu(self@.records, h) implies is_live(
                self@.store,
                self@.records[h]->Menu_0,
            ) by {
                assert(names_menu(before, h));
            }
        }
        entry
    }

    /// Store a record under the first free handle.
    fn allocate(&mut self, entry: TrayEntry) -> (handle: u64)
        requires
            old(self).wf(),
            old(self)@.records.len() < u64::MAX,
            entry@ matches EntryView::Menu(menu) ==> is_live(old(self)@.store, menu),
        ensures
            final(self).wf(),
            is_first_free(old(self)@.records, old(self)@.counter, handle),
            final(self)@ == (RegistryView {
                records: old(self)@.records.insert(handle, entry@),
                counter: advanced(handle),
                ..old(self)@
            }),
    {
        let handle: u64 = self.fresh_handle();
        self.insert(handle, entry);
        handle
    }

    /// The icon behind a handle.
    pub fn icon(&self, handle: u64) -> (res: Result<&TrayIcon, Failure>)
        ensures
            res is Ok <==> names_icon(self@.records, handle),
            res matches Ok(icon) ==> self@.records[handle] == (EntryView::Icon {
                name: icon.spec_name(),
                state: icon.state(),
            }),
            res matches Err(failure) ==> failure@ == not_an_icon(self@.records, handle),
    {
        match self.entries.get(&handle) {
            Some(TrayEntry::Icon(icon)) => Ok(icon),
            Some(TrayEntry::Menu(_)) => Err(is_a_menu(handle)),
            None => Err(no_such_icon(handle)),
        }
    }

    /// The menu behind a handle.
    pub fn menu(&self, handle: u64) -> (res: Result<MenuRef, Failure>)
        ensures
            res is Ok <==> names_menu(self@.records, handle),
            res matches Ok(menu) ==> self@.records[handle] == EntryView::Menu(menu),
            res matches Err(failure) ==> failure@ == not_a_menu(self@.records, handle),
    {
        match self.entries.get(&handle) {
            Some(TrayEntry::Menu(menu)) => Ok(*menu),
            Some(TrayEntry::Icon(_)) => Err(is_an_icon(handle)),
            None => Err(no_such_menu(handle)),
        }
    }

    /// Remove the icon behind a handle. A menu that was addressed by mistake
    /// stays where it is.
    pub fn remove_icon(&mut self, handle: u64) -> (res: Result<TrayIcon, Failure>)
        requires
            old(self).wf(),
        ensures
            final(self).wf(),
            res is Ok <==> names_icon(old(self)@.records, handle),
            res matches Ok(icon) ==> old(self)@.records[handle] == (EntryView::Icon {
                name: icon.spec_name(),
                state: icon.state(),
            }) && final(self)@ == (RegistryView {
                records: old(self)@.records.remove(handle),
                ..old(self)@
            }),
            res matches Err(failure) ==> failure@ == not_an_icon(old(self)@.records, handle)
                && final(self)@ == old(self)@,
    {
        match self.remove(handle) {
            Some(TrayEntry::Icon(icon)) => Ok(icon),
            Some(TrayEntry::Menu(menu)) => {
                proof {
                    assert(names_menu(old(self)@.records, handle));
                }
                self.insert(handle, TrayEntry::Menu(menu));
                proof {
                    assert(self@.records =~= old(self)@.records);
                }
                Err(is_a_menu(handle))
            },
            None => {
                proof {
                    assert(self@.records =~= old(self)@.records);
                }
                Err(no_such_icon(handle))
            },
        }
    }

    /// Remove the menu behind a handle. An icon that was addressed by mistake
    /// stays where it is.
    pub fn remove_menu(&mut self, handle: u64) -> (res: Result<MenuRef, Failure>)
        requires
            old(self).wf(),
        ensures
            final(self).wf(),
            res is Ok <==> names_menu(old(self)@.records, handle),
            res matches Ok(menu) ==> old(self)@.records[handle] == EntryView::Menu(menu)
                && final(self)@ == (RegistryView {
                records: old(self)@.records.remove(handle),
                ..old(self)@
            }),
            res matches Err(failure) ==> failure@ == not_a_menu(old(self)@.records, handle)
                && final(self)@ == old(self)@,
    {
        match self.remove(handle) {
            Some(TrayEntry::Menu(menu)) => Ok(menu),
            Some(TrayEntry::Icon(icon)) => {
                self.insert(handle, TrayEntry::Icon(icon));
                proof {
                    assert(self@.records =~= old(self)@.records);
                }
                Err(is_an_icon(handle))
            },
            None => {
                proof {
                    assert(self@.records =~= old(self)@.records);
                }
                Err(no_such_menu(handle))
            },
        }
    }

    /// How many icons and how many menus are live.
    pub fn live_counts(&self) -> (counts: (usize, usize))
        requires
            self.wf(),
        ensures
            counts.0 == icon_handles(self@.records).len(),
            counts.0 + counts.1 == self@.records.len(),
    {
        proof {
            assert(self@.records.dom() =~= self.entries@.dom());
            lemma_len_subset(icon_handles(self@.records), self@.records.dom());
        }
        let all: usize = self.entries.len();
        (self.icons, all - self.icons)
    }
}

fn is_a_menu(handle: u64) -> (failure: Failure)
    ensures
        failure@ == FailureView::InvalidArgument(
            "tray handle "@ + decimal(handle as nat) + " is a menu, not a tray icon"@,
        ),
{
    Failure::InvalidArgument(
        "tray handle ".to_owned().concat(show(handle).as_str()).concat(
            " is a menu, not a tray icon",
        ),
    )
}

fn no_such_icon(handle: u64) -> (failure: Failure)
    ensures
        failure@ == FailureView::InvalidArgument(
            "tray handle "@ + decimal(handle as nat) + " is not live in this process"@,
        ),
{
    Failure::InvalidArgument(
        "tray handle ".to_owned().concat(show(handle).as_str()).concat(
            " is not live in this process",
        ),
    )
}

fn is_an_icon(handle: u64) -> (failure: Failure)
    ensures
        failure@ == FailureView::InvalidArgument(
            "tray handle "@ + decimal(handle as nat) + " is a tray icon, not a menu"@,
        ),
{
    Failure::InvalidArgument(
        "tray handle ".to_owned().concat(show(handle).as_str()).concat(
            " is a tray icon, not a menu",
        ),
    )
}

fn no_such_menu(handle: u64) -> (failure: Failure)
    ensures
        failure@ == FailureView::InvalidArgument(
            "tray menu handle "@ + decimal(handle as nat) + " is not live in this process"@,
        ),
{
    Failure::InvalidArgument(
        "tray menu handle ".to_owned().concat(show(handle).as_str()).concat(
            " is not live in this process",
        ),
    )
}

// ---------------------------------------------------------------------------
// Icons
// ---------------------------------------------------------------------------
/// The configuration of an icon that a caller asks for. A blank name stands for
/// the default one; the image is set later.
pub open spec fn requested_config(name: Seq<char>, tooltip: Seq<char>) -> ConfigView {
    ConfigView {
        tooltip,
        ..ConfigView::named(
            if is_blank(name) {
                crate::DEFAULT_APP_NAME@
            } else {
                name
            },
        )
    }
}

/// The configuration of an icon that a caller asks for.
pub fn icon_config(name: &str, tooltip: &str) -> (config: TrayIconConfig)
    ensures
        config@ == requested_config(name@, tooltip@),
{
    let mut builder = TrayIconBuilder::new();
    if !blank(name) {
        builder = builder.name(name);
    }
    builder.tooltip(tooltip).build()
}

/// What a pixel buffer argument is answered before any icon is looked up. Only
/// `stride * height` bytes of it are used.
pub open spec fn buffer_failure(height: u32, stride: u32, data: Option<Seq<u8>>) -> Option<
    FailureView,
> {
    match data {
        None => Some(FailureView::InvalidArgument("`data` must not be null"@)),
        Some(bytes) => if stride * height > u32::MAX {
            Some(FailureView::InvalidArgument("icon stride * height overflows"@))
        } else if bytes.len() < stride * height {
            Some(
                FailureView::InvalidArgument(
                    "icon data is shorter than stride * height: "@ + decimal(bytes.len()) + " < "@
                        + decimal((stride * height) as nat) + " bytes"@,
                ),
            )
        } else {
            None
        },
    }
}

/// The bytes of an optional buffer.
pub open spec fn buffer_view(data: Option<&Vec<u8>>) -> Option<Seq<u8>> {
    match data {
        Some(bytes) => Some(bytes@),
        None => None,
    }
}

/// The first `count` bytes of a buffer.
fn first_bytes(data: &Vec<u8>, count: usize) -> (bytes: Vec<u8>)
    requires
        count <= data@.len(),
    ensures
        bytes@ == data@.take(count as int),
{
    let mut bytes: Vec<u8> = Vec::new();
    let mut i: usize = 0;
    while i < count
        invariant
            i <= count <= data@.len(),
            bytes@ == data@.take(i as int),
        decreases count - i,
    {
        bytes.push(data[i]);
        i = i + 1;
        proof {
            assert(bytes@ =~= data@.take(i as int));
        }
    }
    bytes
}

/// What is answered for an icon that fails validation.
pub open spec fn icon_failure(source: SourceView) -> FailureView {
    FailureView::Uda(
        ErrorView::NotSupported("invalid tray icon: "@ + source.verdict()->Err_0.shown()),
    )
}

impl TrayRegistry {
    /// Register an icon that a backend created and return its handle.
    pub fn register_icon(&mut self, icon: TrayIcon) -> (handle: u64)
        requires
            old(self).wf(),
            old(self)@.records.len() < u64::MAX,
        ensures
            final(self).wf(),
            is_first_free(old(self)@.records, old(self)@.counter, handle),
            final(self)@ == (RegistryView {
                records: old(self)@.records.insert(
                    handle,
                    EntryView::Icon { name: icon.spec_name(), state: icon.state() },
                ),
                counter: advanced(handle),
                ..old(self)@
            }),
    {
        self.allocate(TrayEntry::Icon(icon))
    }

    /// Put back an icon that was taken out to be changed.
    fn put_back(&mut self, handle: u64, icon: TrayIcon, Ghost(before): Ghost<RegistryView>)
        requires
            old(self).wf(),
            handle != 0,
            names_icon(before.records, handle),
            before.records[handle]->name == icon.spec_name(),
            old(self)@ == (RegistryView { records: before.records.remove(handle), ..before }),
        ensures
            final(self).wf(),
            final(self)@ == (RegistryView {
                records: with_state(before.records, handle, icon.state()),
                ..before
            }),
    {
        let ghost state = icon.state();
        self.insert(handle, TrayEntry::Icon(icon));
        proof {
            assert(self@.records =~= with_state(before.records, handle, state));
        }
    }

    /// Replace the icon's tooltip.
    pub fn set_tooltip(&mut self, handle: u64, tooltip: &str) -> (res: Result<(), Failure>)
        requires
            old(self).wf(),
        ensures
            final(self).wf(),
            res is Ok <==> names_icon(old(self)@.records, handle),
            res is Ok ==> final(self)@ == (RegistryView {
                records: with_state(
                    old(self)@.records,
                    handle,
                    StateView {
                        tooltip: safe_tooltip(tooltip@),
                        ..old(self)@.records[handle]->state
                    },
                ),
                ..old(self)@
            }),
            res matches Err(failure) ==> failure@ == not_an_icon(old(self)@.records, handle)
                && final(self)@ == old(self)@,
    {
        let mut icon = match self.remove_icon(handle) {
            Ok(icon) => icon,
            Err(failure) => return Err(failure),
        };
        icon.set_tooltip(tooltip);
        self.put_back(handle, icon, Ghost(old(self)@));
        Ok(())
    }

    /// Replace the icon's image.
    fn set_icon(&mut self, handle: u64, source: TrayIconSource) -> (res: Result<(), Failure>)
        requires
            old(self).wf(),
        ensures
            final(self).wf(),
            res is Ok <==> names_icon(old(self)@.records, handle) && source@.is_valid(),
            res is Ok ==> final(self)@ == (RegistryView {
                records: with_state(
                    old(self)@.records,
                    handle,
                    StateView { icon: Some(source@), ..old(self)@.records[handle]->state },
                ),
                ..old(self)@
            }),
            res matches Err(failure) ==> final(self)@ == old(self)@ && failure@ == (
            if names_icon(old(self)@.records, handle) {
                icon_failure(source@)
            } else {
                not_an_icon(old(self)@.records, handle)
            }),
    {
        let mut icon = match self.remove_icon(handle) {
            Ok(icon) => icon,
            Err(failure) => return Err(failure),
        };
        let outcome = icon.set_icon(source);
        self.put_back(handle, icon, Ghost(old(self)@));
        match outcome {
            Ok(()) => Ok(()),
            Err(error) => {
                proof {
                    assert(self@.records =~= old(self)@.records);
                }
                Err(Failure::Uda(error))
            },
        }
    }

    /// Replace the icon's image by a file or an icon-theme name.
    pub fn set_icon_path(&mut self, handle: u64, path: &str) -> (res: Result<(), Failure>)
        requires
            old(self).wf(),
        ensures
            final(self).wf(),
            res is Ok <==> names_icon(old(self)@.records, handle) && SourceView::Path(
                path@,
            ).is_valid(),
            res is Ok ==> final(self)@ == (RegistryView {
                records: with_state(
                    old(self)@.records,
                    handle,
                    StateView {
                        icon: Some(SourceView::Path(path@)),
                        ..old(self)@.records[handle]->state
                    },
                ),
                ..old(self)@
            }),
            res matches Err(failure) ==> final(self)@ == old(self)@ && failure@ == (
            if names_icon(old(self)@.records, handle) {
                icon_failure(SourceView::Path(path@))
            } else {
                not_an_icon(old(self)@.records, handle)
            }),
    {
        self.set_icon(handle, TrayIconSource::Path(path.to_owned()))
    }

    /// Replace the icon's image by raw RGBA pixels; a null pointer has none.
    pub fn set_icon_rgba(
        &mut self,
        handle: u64,
        width: u32,
        height: u32,
        stride: u32,
        data: Option<&Vec<u8>>,
    ) -> (res: Result<(), Failure>)
        requires
            old(self).wf(),
        ensures
            final(self).wf(),
            ({
                let source = SourceView::Rgba {
                    width,
                    height,
                    stride,
                    data: buffer_view(data)->0.take(stride * height),
                };
                let refused = buffer_failure(height, stride, buffer_view(data));
                let known = names_icon(old(self)@.records, handle);
                &&& res is Ok <==> refused is None && known && source.is_valid()
                &&& res is Ok ==> final(self)@ == (RegistryView {
                    records: with_state(
                        old(self)@.records,
                        handle,
                        StateView { icon: Some(source), ..old(self)@.records[handle]->state },
                    ),
                    ..old(self)@
                })
                &&& res matches Err(failure) ==> final(self)@ == old(self)@ && failure@ == (
                match refused {
                    Some(reason) => reason,
                    None => if known {
                        icon_failure(source)
                    } else {
                        not_an_icon(old(self)@.records, handle)
                    },
                })
            }),
    {
        let bytes: &Vec<u8> = match data {
            None => return Err(Failure::InvalidArgument("`data` must not be null".to_owned())),
            Some(bytes) => bytes,
        };
        let needed: u32 = match stride.checked_mul(height) {
            None => return Err(
                Failure::InvalidArgument("icon stride * height overflows".to_owned()),
            ),
            Some(needed) => needed,
        };
        if bytes.len() < needed as usize {
            return Err(
                Failure::InvalidArgument(
                    "icon data is shorter than stride * height: ".to_owned().concat(
                        show(bytes.len() as u64).as_str(),
                    ).concat(" < ").concat(show(needed as u64).as_str()).concat(" bytes"),
                ),
            );
        }
        let used = first_bytes(bytes, needed as usize);
        self.set_icon(handle, TrayIconSource::Rgba { width, height, stride, data: used })
    }

    /// Show or hide the icon without unregistering it.
    pub fn set_visible(&mut self, handle: u64, visible: bool) -> (res: Result<(), Failure>)
        requires
            old(self).wf(),
        ensures
            final(self).wf(),
            res is Ok <==> names_icon(old(self)@.records, handle),
            res is Ok ==> final(self)@ == (RegistryView {
                records: with_state(
                    old(self)@.records,
                    handle,
                    StateView { visible, ..old(self)@.records[handle]->state },
                ),
                ..old(self)@
            }),
            res matches Err(failure) ==> failure@ == not_an_icon(old(self)@.records, handle)
                && final(self)@ == old(self)@,
    {
        let mut icon = match self.remove_icon(handle) {
            Ok(icon) => icon,
            Err(failure) => return Err(failure),
        };
        if visible {
            icon.show();
        } else {
            icon.hide_icon();
        }
        self.put_back(handle, icon, Ghost(old(self)@));
        Ok(())
    }

    /// Take an icon out of the registry, marked for unregistration.
    pub fn destroy_icon(&mut self, handle: u64) -> (res: Result<TrayIcon, Failure>)
        requires
            old(self).wf(),
        ensures
            final(self).wf(),
            res is Ok <==> names_icon(old(self)@.records, handle),
            res matches Ok(icon) ==> icon.spec_name() == old(self)@.records[handle]->name
                && icon.state() == (StateView {
                shutdown: true,
                ..old(self)@.records[handle]->state
            }) && final(self)@ == (RegistryView {
                records: old(self)@.records.remove(handle),
                ..old(self)@
            }),
            res matches Err(failure) ==> failure@ == not_an_icon(old(self)@.records, handle)
                && final(self)@ == old(self)@,
    {
        let mut icon = match self.remove_icon(handle) {
            Ok(icon) => icon,
            Err(failure) => return Err(failure),
        };
        icon.shut_down();
        Ok(icon)
    }
}

// ---------------------------------------------------------------------------
// Menus
// ---------------------------------------------------------------------------
/// A menu with a row appended, and then the callback of that row set.
pub open spec fn with_row(
    menu: MenuView,
    item: ItemView,
    actions: ActionsView,
    action: Option<TrayAction>,
) -> MenuView {
    let longer = menu.inserted(menu.rows.len() as int, item);
    match action {
        Some(_) => longer.changed(menu.next_id(), acting(actions, action)),
        None => longer,
    }
}

/// The callbacks once a row was appended to a menu and its callback set.
pub open spec fn actions_with_row(
    menu: MenuView,
    item: ItemView,
    actions: ActionsView,
    action: Option<TrayAction>,
) -> ActionsView {
    let longer = menu.inserted(menu.rows.len() as int, item);
    match action {
        Some(_) => swapped(actions, longer.action_at(menu.next_id()), action),
        None => actions,
    }
}

/// The registry with a row appended to the menu behind `handle`.
pub open spec fn with_menu_row(
    registry: RegistryView,
    handle: u64,
    item: ItemView,
    action: Option<TrayAction>,
) -> RegistryView {
    let menu = registry.records[handle]->Menu_0;
    let contents = menu_at(registry.store, menu);
    RegistryView {
        store: with_menu(
            registry.store,
            menu,
            with_row(contents, item, registry.actions, action),
        ),
        actions: actions_with_row(contents, item, registry.actions, action),
        ..registry
    }
}

/// What an attempt to append a row is answered, if it is refused.
pub open spec fn row_failure(records: Records, handle: u64, item: ItemView) -> Option<FailureView> {
    if !names_menu(records, handle) {
        Some(not_a_menu(records, handle))
    } else if !is_insertable(item) {
        Some(FailureView::Uda(blank_label_error()))
    } else {
        None
    }
}

/// A text row.
pub open spec fn text_row(label: Seq<char>) -> ItemView {
    ItemView::Text {
        label,
        state: MenuItemState { enabled: true, checked: false },
        action: None,
    }
}

/// A checkbox row.
pub open spec fn checkbox_row(label: Seq<char>, checked: bool) -> ItemView {
    ItemView::Checkbox { label, state: MenuItemState { enabled: true, checked }, action: None }
}

/// Inverts the value of a checkbox.
pub open spec fn toggling() -> spec_fn(ItemView) -> ItemView {
    |item: ItemView| item.toggled()
}

/// The value of a checkbox; `false` when the row is gone.
pub open spec fn is_checked(menu: MenuView, id: MenuItemId) -> bool {
    menu.find(id) matches Some(item) && item.state().checked
}

impl TrayRegistry {
    /// Create an empty context menu and return its handle.
    pub fn create_menu(&mut self) -> (handle: u64)
        requires
            old(self).wf(),
            old(self)@.records.len() < u64::MAX,
        ensures
            final(self).wf(),
            is_first_free(old(self)@.records, old(self)@.counter, handle),
            names_menu(final(self)@.records, handle),
            final(self)@.records[handle]->Menu_0@ == old(self)@.store.len(),
            final(self)@ == (RegistryView {
                records: old(self)@.records.insert(handle, final(self)@.records[handle]),
                counter: advanced(handle),
                store: old(self)@.store.push(MenuView::empty()),
                actions: old(self)@.actions,
            }),
    {
        let ghost before = self@;
        let menu = self.store.add(TrayMenu::new());
        proof {
            assert forall|h: u64| #[trigger] names_menu(self@.records, h) implies is_live(
                self@.store,
                self@.records[h]->Menu_0,
            ) by {
                assert(names_menu(before.records, h));
            }
        }
        self.allocate(TrayEntry::Menu(menu))
    }

    /// Append a row and set its callback.
    fn add_row(&mut self, handle: u64, item: MenuItem, action: Option<TrayAction>) -> (res: Result<
        u64,
        Failure,
    >)
        requires
            old(self).wf(),
        ensures
            final(self).wf(),
            res is Ok <==> row_failure(old(self)@.records, handle, item@) is None,
            res matches Ok(id) ==> id == menu_at(
                old(self)@.store,
                old(self)@.records[handle]->Menu_0,
            ).next_id()@ && final(self)@ == with_menu_row(old(self)@, handle, item@, action),
            res matches Err(failure) ==> row_failure(old(self)@.records, handle, item@) == Some(
                failure@,
            ) && final(self)@ == old(self)@,
    {
        let ghost before = self@;
        let ghost said = item@;
        let menu = match self.menu(handle) {
            Ok(menu) => menu,
            Err(failure) => return Err(failure),
        };
        proof {
            assert(names_menu(before.records, handle));
            assert(is_live(before.store, menu));
        }
        let outcome = match self.store.menu_mut(menu) {
            None => Err(no_such_menu(handle)),
            Some(contents) => match contents.push(item) {
                Err(error) => Err(Failure::Uda(error)),
                Ok(id) => {
                    if action.is_some() {
                        contents.set_action(id, &mut self.actions, action);
                    }
                    Ok(id.into_raw())
                },
            },
        };
        proof {
            assert(forall|h: u64| #[trigger]
                names_menu(self@.records, h) ==> names_menu(before.records, h));
            if outcome is Ok {
                assert(self@.store =~= with_menu_row(before, handle, said, action).store);
            } else {
                assert(self@.store =~= before.store);
            }
        }
        outcome
    }

    /// Append a plain text row, optionally with a callback. Returns the id of the
    /// row.
    pub fn menu_add_text(&mut self, handle: u64, label: &str, callback: Option<TrayAction>) -> (res:
        Result<u64, Failure>)
        requires
            old(self).wf(),
        ensures
            final(self).wf(),
            res is Ok <==> row_failure(old(self)@.records, handle, text_row(label@)) is None,
            res matches Ok(id) ==> id == menu_at(
                old(self)@.store,
                old(self)@.records[handle]->Menu_0,
            ).next_id()@ && final(self)@ == with_menu_row(
                old(self)@,
                handle,
                text_row(label@),
                callback,
            ),
            res matches Err(failure) ==> row_failure(
                old(self)@.records,
                handle,
                text_row(label@),
            ) == Some(failure@) && final(self)@ == old(self)@,
    {
        self.add_row(handle, MenuItem::text(label), callback)
    }

    /// Append a visual separator.
    pub fn menu_add_separator(&mut self, handle: u64) -> (res: Result<(), Failure>)
        requires
            old(self).wf(),
        ensures
            final(self).wf(),
            res is Ok <==> names_menu(old(self)@.records, handle),
            res is Ok ==> final(self)@ == with_menu_row(
                old(self)@,
                handle,
                ItemView::Separator,
                None,
            ),
            res matches Err(failure) ==> failure@ == not_a_menu(old(self)@.records, handle)
                && final(self)@ == old(self)@,
    {
        match self.add_row(handle, MenuItem::separator(), None) {
            Ok(_) => Ok(()),
            Err(failure) => Err(failure),
        }
    }

    /// Append a checkbox row. Its callback first calls
    /// [`TrayRegistry::checkbox_activated`], so that the stored value keeps in
    /// step with what the shell shows next. Returns the id of the row.
    pub fn menu_add_checkbox(
        &mut self,
        handle: u64,
        label: &str,
        checked: bool,
        callback: TrayAction,
    ) -> (res: Result<u64, Failure>)
        requires
            old(self).wf(),
        ensures
            final(self).wf(),
            res is Ok <==> row_failure(old(self)@.records, handle, checkbox_row(label@, checked))
                is None,
            res matches Ok(id) ==> id == menu_at(
                old(self)@.store,
                old(self)@.records[handle]->Menu_0,
            ).next_id()@ && final(self)@ == with_menu_row(
                old(self)@,
                handle,
                checkbox_row(label@, checked),
                Some(callback),
            ),
            res matches Err(failure) ==> row_failure(
                old(self)@.records,
                handle,
                checkbox_row(label@, checked),
            ) == Some(failure@) && final(self)@ == old(self)@,
    {
        let item = if checked {
            MenuItem::checkbox_checked(label)
        } else {
            MenuItem::checkbox(label)
        };
        self.add_row(handle, item, Some(callback))
    }

    /// A checkbox was activated: invert its value and return the new one, which
    /// is what its callback reports. A menu outlives its handle, so this works as
    /// long as some icon shows it.
    pub fn checkbox_activated(&mut self, menu: MenuRef, item_id: u64) -> (checked: bool)
        requires
            old(self).wf(),
        ensures
            final(self).wf(),
            is_live(old(self)@.store, menu) ==> {
                let id = MenuItemId::numbered(item_id);
                let changed = menu_at(old(self)@.store, menu).changed(id, toggling());
                &&& final(self)@ == (RegistryView {
                    store: with_menu(old(self)@.store, menu, changed),
                    ..old(self)@
                })
                &&& checked == is_checked(changed, id)
            },
            !is_live(old(self)@.store, menu) ==> final(self)@ == old(self)@ && !checked,
    {
        let ghost before = self@;
        let id = MenuItemId::from_raw(item_id);
        proof {
            MenuItemId::lemma_numbered(item_id);
            MenuItemId::lemma_same_raw(id, MenuItemId::numbered(item_id));
        }
        let checked = match self.store.menu_mut(menu) {
            None => false,
            Some(contents) => {
                contents.toggle(id);
                match contents.find(id) {
                    Some(item) => item.state().checked,
                    None => false,
                }
            },
        };
        proof {
            assert(forall|h: u64| #[trigger]
                names_menu(self@.records, h) ==> names_menu(before.records, h));
            if is_live(before.store, menu) {
                let changed = menu_at(before.store, menu).changed(id, toggling());
                assert(self@.store =~= with_menu(before.store, menu, changed));
            } else {
                assert(self@.store =~= before.store);
            }
        }
        checked
    }

    /// Attach a menu to an icon, replacing any previous one.
    pub fn set_menu(&mut self, tray_handle: u64, menu_handle: u64) -> (res: Result<(), Failure>)
        requires
            old(self).wf(),
        ensures
            final(self).wf(),
            res is Ok <==> names_icon(old(self)@.records, tray_handle) && names_menu(
                old(self)@.records,
                menu_handle,
            ),
            res is Ok ==> final(self)@ == (RegistryView {
                records: with_state(
                    old(self)@.records,
                    tray_handle,
                    StateView {
                        menu: Some(old(self)@.records[menu_handle]->Menu_0),
                        ..old(self)@.records[tray_handle]->state
                    },
                ),
                ..old(self)@
            }),
            res matches Err(failure) ==> final(self)@ == old(self)@ && failure@ == (if names_icon(
                old(self)@.records,
                tray_handle,
            ) {
                not_a_menu(old(self)@.records, menu_handle)
            } else {
                not_an_icon(old(self)@.records, tray_handle)
            }),
    {
        if let Err(failure) = self.icon(tray_handle) {
            return Err(failure);
        }
        let menu = match self.menu(menu_handle) {
            Ok(menu) => menu,
            Err(failure) => return Err(failure),
        };
        let mut icon = match self.remove_icon(tray_handle) {
            Ok(icon) => icon,
            Err(failure) => return Err(failure),
        };
        icon.set_menu(menu);
        self.put_back(tray_handle, icon, Ghost(old(self)@));
        Ok(())
    }

    /// Destroy a menu handle. An icon that the menu is attached to keeps it.
    pub fn destroy_menu(&mut self, handle: u64) -> (res: Result<(), Failure>)
        requires
            old(self).wf(),
        ensures
            final(self).wf(),
            res is Ok <==> names_menu(old(self)@.records, handle),
            res is Ok ==> final(self)@ == (RegistryView {
                records: old(self)@.records.remove(handle),
                ..old(self)@
            }),
            res matches Err(failure) ==> failure@ == not_a_menu(old(self)@.records, handle)
                && final(self)@ == old(self)@,
    {
        match self.remove_menu(handle) {
            Ok(_) => Ok(()),
            Err(failure) => Err(failure),
        }
    }
}

// ---------------------------------------------------------------------------
// Laws
// ---------------------------------------------------------------------------
/// A new handle is not 0 and no live record has it, so a live handle is never
/// handed out again; and exactly one handle is the first free one.
pub proof fn handles_are_unique_and_never_zero(
    records: Records,
    counter: u64,
    handle: u64,
    other: u64,
)
    requires
        is_first_free(records, counter, handle),
    ensures
        handle != 0,
        !records.contains_key(handle),
        is_first_free(records, counter, other) ==> other == handle,
{
    if is_first_free(records, counter, other) && other != handle {
        assert(distance(counter, handle) < distance(counter, other) || distance(counter, other)
            < distance(counter, handle));
    }
}

/// A record that was destroyed is unknown from then on, as an icon and as a menu,
/// and the other records are left alone.
pub proof fn a_destroyed_handle_is_dead(records: Records, handle: u64, other: u64)
    ensures
        !names_icon(records.remove(handle), handle),
        !names_menu(records.remove(handle), handle),
        other != handle ==> (names_icon(records.remove(handle), other) <==> names_icon(
            records,
            other,
        )) && (names_menu(records.remove(handle), other) <==> names_menu(records, other)),
        other != handle && records.contains_key(other) ==> records.remove(handle)[other]
            == records[other],
{
}

/// Every activation of a checkbox reports the value opposite to the one it had,
/// and the stored value is the one that was reported.
pub proof fn a_checkbox_reports_its_new_value(menu: MenuView, id: MenuItemId)
    requires
        menu.is_checkbox(id),
    ensures
        is_checked(menu.changed(id, toggling()), id) == !is_checked(menu, id),
        menu.changed(id, toggling()).is_checkbox(id),
{
    let raw: u64 = if id@ == 0 {
        1
    } else {
        0
    };
    let other = MenuItemId::numbered(raw);
    MenuItemId::lemma_numbered(raw);
    crate::tray::menu_laws::a_change_is_seen_through_its_id(menu, id, other, toggling());
}

/// The row a caller appended is found under the id that was returned, with the
/// callback that was given, as long as ids do not run out; and no other callback
/// is touched.
pub proof fn an_appended_row_is_found(
    menu: MenuView,
    item: ItemView,
    actions: ActionsView,
    action: Option<TrayAction>,
)
    requires
        menu.well_formed(),
        menu.counter < u64::MAX,
        item.action() is None,
    ensures
        with_row(menu, item, actions, action).find(menu.next_id()) == Some(
            item.with_action(action),
        ),
        with_row(menu, item, actions, action).rows.len() == menu.rows.len() + 1,
        actions_with_row(menu, item, actions, action) == actions,
{
    let id = menu.next_id();
    let longer = menu.inserted(menu.rows.len() as int, item);
    crate::tray::menu_laws::ids_survive_insertion(menu, menu.rows.len() as int, item, id);
    if action is Some {
        let other = MenuItemId::numbered(0);
        MenuItemId::lemma_numbered(0);
        MenuItemId::lemma_numbered((menu.counter + 1) as u64);
        crate::tray::menu_laws::a_change_is_seen_through_its_id(
            longer,
            id,
            other,
            acting(actions, action),
        );
    }
}

/// A new row is enabled and carries no callback yet; a checkbox has the value it
/// was given.
pub proof fn a_new_row_is_enabled(label: Seq<char>, checked: bool)
    ensures
        text_row(label) is Text && text_row(label).label() == Some(label),
        text_row(label).state().enabled && !text_row(label).state().checked,
        text_row(label).action() is None,
        checkbox_row(label, checked) is Checkbox && checkbox_row(label, checked).label() == Some(
            label,
        ),
        checkbox_row(label, checked).state().enabled,
        checkbox_row(label, checked).state().checked == checked,
        checkbox_row(label, checked).action() is None,
{
}

/// An icon is asked for under the given name and hover text and nothing else; a
/// name that shows nothing stands for `UDA`.
pub proof fn an_icon_is_asked_for_as_given(name: Seq<char>, tooltip: Seq<char>)
    ensures
        ({
            let config = requested_config(name, tooltip);
            &&& config.tooltip == tooltip
            &&& is_blank(name) ==> config.name == "UDA"@
            &&& !is_blank(name) ==> config.name == name
            &&& config.icon is None && config.menu is None
            &&& config.on_click is None && config.on_double_click is None
        }),
{
}

/// A buffer is refused exactly when it is missing, its size does not fit 32 bits,
/// or it is shorter than its rows; every refusal is the caller's mistake.
pub proof fn a_buffer_has_to_cover_its_rows(height: u32, stride: u32, data: Option<Seq<u8>>)
    ensures
        buffer_failure(height, stride, data) is None <==> data is Some && stride * height
            <= 0xffff_ffff && data->0.len() >= stride * height,
        buffer_failure(height, stride, data) matches Some(failure) ==> failure.code() == -1,
{
}

/// A new state replaces that of the icon behind the handle and nothing else: the
/// icon keeps its name, and every other record stays as it is.
pub proof fn a_new_state_is_the_icons_alone(
    records: Records,
    handle: u64,
    state: StateView,
    other: u64,
)
    requires
        names_icon(records, handle),
    ensures
        ({
            let after = with_state(records, handle, state);
            &&& names_icon(after, handle)
            &&& after[handle]->state == state
            &&& after[handle]->name == records[handle]->name
            &&& other != handle ==> (after.contains_key(other) <==> records.contains_key(other))
                && after[other] == records[other]
            &&& icon_handles(after) == icon_handles(records)
        }),
{
    assert(icon_handles(with_state(records, handle, state)) =~= icon_handles(records));
}

/// A handle is counted as an icon exactly when it names one, and no handle names
/// an icon and a menu.
pub proof fn a_handle_names_one_kind(records: Records, handle: u64)
    ensures
        icon_handles(records).contains(handle) <==> names_icon(records, handle),
        !(names_icon(records, handle) && names_menu(records, handle)),
        records.contains_key(handle) ==> names_icon(records, handle) || names_menu(records, handle),
        !records.contains_key(handle) ==> !names_icon(records, handle) && !names_menu(
            records,
            handle,
        ),
{
}

/// A handle that names no icon, or no menu, is the caller's mistake and is told
/// back; one that names a record of the other kind is told from one that names
/// none.
pub proof fn a_mistaken_handle_is_told_back(records: Records, handle: u64)
    ensures
        not_an_icon(records, handle) matches FailureView::InvalidArgument(text) && holds(
            text,
            decimal(handle as nat),
        ) && (records.contains_key(handle) <==> finishes_with(
            text,
            " is a menu, not a tray icon"@,
        )),
        not_a_menu(records, handle) matches FailureView::InvalidArgument(text) && holds(
            text,
            decimal(handle as nat),
        ) && (records.contains_key(handle) <==> finishes_with(
            text,
            " is a tray icon, not a menu"@,
        )),
{
    let number = decimal(handle as nat);
    let gone = " is not live in this process"@;
    let menu = " is a menu, not a tray icon"@;
    let icon = " is a tray icon, not a menu"@;
    reveal_strlit(" is not live in this process");
    reveal_strlit(" is a menu, not a tray icon");
    reveal_strlit(" is a tray icon, not a menu");
    parts_are_found_where_they_stand("tray handle "@, number, menu);
    parts_are_found_where_they_stand("tray handle "@, number, icon);
    parts_are_found_where_they_stand("tray handle "@, number, gone);
    parts_are_found_where_they_stand("tray menu handle "@, number, gone);
    parts_are_found_where_they_stand("tray handle "@ + number, menu, Seq::empty());
    parts_are_found_where_they_stand("tray handle "@ + number, icon, Seq::empty());
    lemma_ends_apart("tray handle "@ + number, gone, menu);
    lemma_ends_apart("tray menu handle "@ + number, gone, icon);
}

proof fn lemma_ends_apart(head: Seq<char>, tail: Seq<char>, other: Seq<char>)
    requires
        0 < other.len() <= tail.len(),
        tail.last() != other.last(),
    ensures
        !finishes_with(head + tail, other),
{
    let all = head + tail;
    let at = all.len() - other.len();
    if finishes_with(all, other) {
        assert(all.subrange(at, all.len() as int)[other.len() - 1] == all[all.len() - 1]);
        assert(all[all.len() - 1] == tail[tail.len() - 1]);
    }
}

/// An icon that fails validation is refused as unsupported, with the reason at the
/// end.
pub proof fn a_refused_image_tells_why(source: SourceView)
    requires
        !source.is_valid(),
    ensures
        icon_failure(source).code() == -2,
        icon_failure(source) matches FailureView::Uda(ErrorView::NotSupported(text))
            && finishes_with(text, source.verdict()->Err_0.shown()),
{
    parts_are_found_where_they_stand(
        "invalid tray icon: "@,
        source.verdict()->Err_0.shown(),
        Seq::empty(),
    );
}

/// A row is refused exactly when the handle names no menu, which is the caller's
/// mistake, or the label shows nothing, which is not supported.
pub proof fn only_visible_rows_of_menus_are_appended(
    records: Records,
    handle: u64,
    item: ItemView,
)
    ensures
        row_failure(records, handle, item) is None <==> names_menu(records, handle)
            && is_insertable(item),
        !names_menu(records, handle) ==> row_failure(records, handle, item) == Some(
            not_a_menu(records, handle),
        ),
        names_menu(records, handle) && !is_insertable(item) ==> (row_failure(
            records,
            handle,
            item,
        ) matches Some(failure) && failure.code() == -2),
{
}

/// A row is appended at the end of the menu behind the handle, below the rows that
/// were there; the other menus and all records stay as they are.
pub proof fn a_row_is_appended_to_its_menu_alone(
    registry: RegistryView,
    handle: u64,
    item: ItemView,
    action: Option<TrayAction>,
    other: MenuRef,
    i: int,
)
    requires
        names_menu(registry.records, handle),
        is_live(registry.store, registry.records[handle]->Menu_0),
        menu_at(registry.store, registry.records[handle]->Menu_0).well_formed(),
        menu_at(registry.store, registry.records[handle]->Menu_0).counter < u64::MAX,
        item.action() is None,
    ensures
        ({
            let menu = registry.records[handle]->Menu_0;
            let before = menu_at(registry.store, menu);
            let after = with_menu_row(registry, handle, item, action);
            let rows = menu_at(after.store, menu).rows;
            &&& rows.len() == before.rows.len() + 1
            &&& rows.last() == (before.next_id(), item.with_action(action))
            &&& 0 <= i < before.rows.len() ==> rows[i] == before.rows[i]
            &&& other@ != menu@ && is_live(registry.store, other) ==> menu_at(after.store, other)
                == menu_at(registry.store, other)
            &&& after.records == registry.records
            &&& after.counter == registry.counter
            &&& after.actions == registry.actions
        }),
{
    let menu = registry.records[handle]->Menu_0;
    let before = menu_at(registry.store, menu);
    let id = before.next_id();
    let n = before.rows.len() as int;
    let longer = before.inserted(n, item);
    an_appended_row_is_found(before, item, registry.actions, action);
    MenuItemId::lemma_numbered((before.counter + 1) as u64);
    assert(longer.rows[n] == (id, item));
    assert forall|j: int| 0 <= j < n implies (#[trigger] longer.rows[j]).0 != id && longer.rows[j]
        == before.rows[j] by {
        assert(before.rows[j].0@ <= before.counter);
    }
    assert(is_first(longer.rows, with_id(id), n));
    lemma_first_index_found(longer.rows, with_id(id), n);
}

/// A free counter is the next handle; 0 and the handles in use are passed over.
pub proof fn a_free_counter_is_the_next_handle(records: Records, counter: u64, handle: u64)
    requires
        is_first_free(records, counter, handle),
    ensures
        counter != 0 && !records.contains_key(counter) ==> handle == counter,
        handle != counter ==> counter == 0 || records.contains_key(counter),
{
    assert(distance(counter, counter) == 0);
}

/// Whether a registry differs from another in the icon behind one handle alone.
pub open spec fn differs_in_one_icon(
    before: RegistryView,
    after: RegistryView,
    handle: u64,
    other: u64,
) -> bool {
    &&& names_icon(after.records, handle)
    &&& after.records[handle]->name == before.records[handle]->name
    &&& other != handle ==> (after.records.contains_key(other) <==> before.records.contains_key(
        other,
    )) && after.records[other] == before.records[other]
    &&& after.store == before.store
    &&& after.actions == before.actions
    &&& after.counter == before.counter
}

/// The hover text, the visibility and the menu of an icon are set through its
/// handle, each alone; a handle that names no icon is the caller's mistake and
/// changes nothing.
pub proof fn an_icon_is_changed_through_its_handle(
    hovered: &mut TrayRegistry,
    shown: &mut TrayRegistry,
    attached: &mut TrayRegistry,
    handle: u64,
    tooltip: &str,
    visible: bool,
    menu_handle: u64,
    res: (Result<(), Failure>, Result<(), Failure>, Result<(), Failure>),
    other: u64,
)
    requires
        call_ensures(TrayRegistry::set_tooltip, (hovered, handle, tooltip), res.0),
        call_ensures(TrayRegistry::set_visible, (shown, handle, visible), res.1),
        call_ensures(TrayRegistry::set_menu, (attached, handle, menu_handle), res.2),
    ensures
        res.0 is Ok <==> names_icon(old(hovered)@.records, handle),
        res.0 is Ok ==> {
            let state = final(hovered)@.records[handle]->state;
            let before = old(hovered)@.records[handle]->state;
            &&& differs_in_one_icon(old(hovered)@, final(hovered)@, handle, other)
            &&& tooltip@.len() <= 127 ==> state.tooltip == tooltip@
            &&& state.tooltip.is_prefix_of(tooltip@)
            &&& state.icon == before.icon && state.menu == before.menu && state.visible
                == before.visible
        },
        res.1 is Ok <==> names_icon(old(shown)@.records, handle),
        res.1 is Ok ==> {
            let state = final(shown)@.records[handle]->state;
            let before = old(shown)@.records[handle]->state;
            &&& differs_in_one_icon(old(shown)@, final(shown)@, handle, other)
            &&& state.visible == visible
            &&& state.icon == before.icon && state.menu == before.menu && state.tooltip
                == before.tooltip
        },
        res.2 is Ok <==> names_icon(old(attached)@.records, handle) && names_menu(
            old(attached)@.records,
            menu_handle,
        ),
        res.2 is Ok ==> {
            let state = final(attached)@.records[handle]->state;
            let before = old(attached)@.records[handle]->state;
            &&& differs_in_one_icon(old(attached)@, final(attached)@, handle, other)
            &&& state.menu == Some(old(attached)@.records[menu_handle]->Menu_0)
            &&& state.icon == before.icon && state.visible == before.visible && state.tooltip
                == before.tooltip
        },
        res.0 matches Err(failure) ==> failure@.code() == -1 && final(hovered)@ == old(hovered)@,
        res.1 matches Err(failure) ==> failure@.code() == -1 && final(shown)@ == old(shown)@,
        res.2 matches Err(failure) ==> failure@.code() == -1 && final(attached)@ == old(attached)@,
{
}

/// An image is set through the handle of its icon exactly when it is valid, and
/// only the bytes of its rows are kept; a refused one leaves the icon as it was.
pub proof fn an_image_is_set_through_its_handle(
    named: &mut TrayRegistry,
    pictured: &mut TrayRegistry,
    handle: u64,
    path: &str,
    width: u32,
    height: u32,
    stride: u32,
    data: Option<&Vec<u8>>,
    res: (Result<(), Failure>, Result<(), Failure>),
    other: u64,
)
    requires
        call_ensures(TrayRegistry::set_icon_path, (named, handle, path), res.0),
        call_ensures(
            TrayRegistry::set_icon_rgba,
            (pictured, handle, width, height, stride, data),
            res.1,
        ),
    ensures
        res.0 is Ok <==> names_icon(old(named)@.records, handle) && !is_blank(path@),
        res.0 is Ok ==> differs_in_one_icon(old(named)@, final(named)@, handle, other)
            && final(named)@.records[handle]->state.icon == Some(SourceView::Path(path@))
            && final(named)@.records[handle]->state.tooltip == old(
            named,
        )@.records[handle]->state.tooltip,
        res.0 is Err ==> final(named)@ == old(named)@,
        res.1 is Ok <==> names_icon(old(pictured)@.records, handle) && data is Some && width > 0
            && height > 0 && stride >= width * 4 && stride * height <= u32::MAX && data->0@.len()
            >= stride * height,
        res.1 is Ok ==> differs_in_one_icon(old(pictured)@, final(pictured)@, handle, other)
            && final(pictured)@.records[handle]->state.icon == Some(
            SourceView::Rgba { width, height, stride, data: data->0@.take(stride * height) },
        ),
        res.1 is Err ==> final(pictured)@ == old(pictured)@,
        data is None ==> (res.1 matches Err(failure) && failure@.code() == -1),
{
}

/// An icon that was registered is found under a handle of its own, and a new menu
/// is empty and found under its own; what was there before is left alone.
pub proof fn a_new_record_gets_a_handle_of_its_own(
    iconed: &mut TrayRegistry,
    icon: TrayIcon,
    icon_handle: u64,
    menued: &mut TrayRegistry,
    menu_handle: u64,
    other: u64,
)
    requires
        call_ensures(TrayRegistry::register_icon, (iconed, icon), icon_handle),
        call_ensures(TrayRegistry::create_menu, (menued,), menu_handle),
    ensures
        icon_handle != 0 && !old(iconed)@.records.contains_key(icon_handle),
        names_icon(final(iconed)@.records, icon_handle),
        final(iconed)@.records[icon_handle]->name == icon.spec_name(),
        final(iconed)@.records[icon_handle]->state == icon.state(),
        other != icon_handle ==> (final(iconed)@.records.contains_key(other) <==> old(
            iconed,
        )@.records.contains_key(other)) && final(iconed)@.records[other] == old(
            iconed,
        )@.records[other],
        menu_handle != 0 && !old(menued)@.records.contains_key(menu_handle),
        names_menu(final(menued)@.records, menu_handle),
        is_live(final(menued)@.store, final(menued)@.records[menu_handle]->Menu_0),
        menu_at(final(menued)@.store, final(menued)@.records[menu_handle]->Menu_0).rows.len() == 0,
        other != menu_handle ==> (final(menued)@.records.contains_key(other) <==> old(
            menued,
        )@.records.contains_key(other)) && final(menued)@.records[other] == old(
            menued,
        )@.records[other],
{
}

/// A destroyed icon is handed out marked as shut down, and a destroyed menu loses
/// its handle but stays with the icons that show it; a handle of the wrong kind
/// changes nothing.
pub proof fn a_destroyed_record_is_gone(
    iconed: &mut TrayRegistry,
    menued: &mut TrayRegistry,
    handle: u64,
    icon: Result<TrayIcon, Failure>,
    menu: Result<(), Failure>,
    other: u64,
)
    requires
        call_ensures(TrayRegistry::destroy_icon, (iconed, handle), icon),
        call_ensures(TrayRegistry::destroy_menu, (menued, handle), menu),
    ensures
        icon is Ok <==> names_icon(old(iconed)@.records, handle),
        icon matches Ok(gone) ==> gone.state().shutdown && gone.spec_name() == old(
            iconed,
        )@.records[handle]->name && !final(iconed)@.records.contains_key(handle),
        icon is Err ==> final(iconed)@ == old(iconed)@,
        menu is Ok <==> names_menu(old(menued)@.records, handle),
        menu is Ok ==> !final(menued)@.records.contains_key(handle) && final(menued)@.store == old(
            menued,
        )@.store,
        menu is Err ==> final(menued)@ == old(menued)@,
        other != handle ==> (final(iconed)@.records.contains_key(other) <==> old(
            iconed,
        )@.records.contains_key(other)) && (final(menued)@.records.contains_key(other) <==> old(
            menued,
        )@.records.contains_key(other)),
{
}

/// A checkbox that a caller appended is found under the id that was returned, with
/// its label, its value and its callback; so is a text.
pub proof fn a_callers_row_is_found_under_its_id(
    texted: &mut TrayRegistry,
    boxed: &mut TrayRegistry,
    handle: u64,
    label: &str,
    checked: bool,
    given: Option<TrayAction>,
    callback: TrayAction,
    text: Result<u64, Failure>,
    checkbox: Result<u64, Failure>,
)
    requires
        call_ensures(TrayRegistry::menu_add_text, (texted, handle, label, given), text),
        call_ensures(
            TrayRegistry::menu_add_checkbox,
            (boxed, handle, label, checked, callback),
            checkbox,
        ),
        names_menu(old(texted)@.records, handle) ==> {
            let menu = old(texted)@.records[handle]->Menu_0;
            is_live(old(texted)@.store, menu) && menu_at(old(texted)@.store, menu).well_formed()
                && menu_at(old(texted)@.store, menu).counter < u64::MAX
        },
        names_menu(old(boxed)@.records, handle) ==> {
            let menu = old(boxed)@.records[handle]->Menu_0;
            is_live(old(boxed)@.store, menu) && menu_at(old(boxed)@.store, menu).well_formed()
                && menu_at(old(boxed)@.store, menu).counter < u64::MAX
        },
    ensures
        text is Ok <==> names_menu(old(texted)@.records, handle) && !is_blank(label@),
        text matches Ok(id) ==> {
            let menu = menu_at(final(texted)@.store, old(texted)@.records[handle]->Menu_0);
            let row = menu.find(MenuItemId::numbered(id));
            &&& row matches Some(item) && item is Text && item.label() == Some(label@)
                && item.state().enabled && item.action() == given
            &&& final(texted)@.records == old(texted)@.records
        },
        text is Err ==> final(texted)@ == old(texted)@,
        checkbox is Ok <==> names_menu(old(boxed)@.records, handle) && !is_blank(label@),
        checkbox matches Ok(id) ==> {
            let menu = menu_at(final(boxed)@.store, old(boxed)@.records[handle]->Menu_0);
            let row = menu.find(MenuItemId::numbered(id));
            &&& row matches Some(item) && item is Checkbox && item.label() == Some(label@)
                && item.state().enabled && item.state().checked == checked && item.action() == Some(
                callback,
            )
            &&& final(boxed)@.records == old(boxed)@.records
        },
        checkbox is Err ==> final(boxed)@ == old(boxed)@,
{
    if let Ok(id) = text {
        let menu = menu_at(old(texted)@.store, old(texted)@.records[handle]->Menu_0);
        MenuItemId::lemma_numbered(id);
        MenuItemId::lemma_same_raw(MenuItemId::numbered(id), menu.next_id());
        an_appended_row_is_found(menu, text_row(label@), old(texted)@.actions, given);
    }
    if let Ok(id) = checkbox {
        let menu = menu_at(old(boxed)@.store, old(boxed)@.records[handle]->Menu_0);
        MenuItemId::lemma_numbered(id);
        MenuItemId::lemma_same_raw(MenuItemId::numbered(id), menu.next_id());
        an_appended_row_is_found(
            menu,
            checkbox_row(label@, checked),
            old(boxed)@.actions,
            Some(callback),
        );
    }
}

/// An activated checkbox has the opposite value from then on, which is what is
/// reported; the other menus and all records stay as they are.
pub proof fn an_activated_checkbox_reports_its_new_value(
    registry: &mut TrayRegistry,
    menu: MenuRef,
    item_id: u64,
    checked: bool,
    other: MenuRef,
)
    requires
        call_ensures(TrayRegistry::checkbox_activated, (registry, menu, item_id), checked),
        is_live(old(registry)@.store, menu),
        menu_at(old(registry)@.store, menu).is_checkbox(MenuItemId::numbered(item_id)),
        other@ != menu@,
        is_live(old(registry)@.store, other),
    ensures
        ({
            let id = MenuItemId::numbered(item_id);
            let before = menu_at(old(registry)@.store, menu).find(id)->0;
            let after = menu_at(final(registry)@.store, menu).find(id);
            &&& checked == !before.state().checked
            &&& after matches Some(item) && item is Checkbox && item.state().checked == checked
            &&& menu_at(final(registry)@.store, other) == menu_at(old(registry)@.store, other)
            &&& final(registry)@.records == old(registry)@.records
        }),
{
    a_checkbox_reports_its_new_value(
        menu_at(old(registry)@.store, menu),
        MenuItemId::numbered(item_id),
    );
}

/// The icons and the menus are counted apart, and together they are all records.
pub proof fn icons_and_menus_are_counted_apart(registry: TrayRegistry, counts: (usize, usize))
    requires
        call_ensures(TrayRegistry::live_counts, (&registry,), counts),
    ensures
        counts.0 == registry@.records.dom().filter(|h: u64| names_icon(registry@.records, h)).len(),
        counts.0 + counts.1 == registry@.records.len(),
{
    assert(icon_handles(registry@.records) =~= registry@.records.dom().filter(
        |h: u64| names_icon(registry@.records, h),
    ));
}

/// A handle leads to the icon or the menu it names; one of the other kind, or of
/// none, is the caller's mistake.
pub proof fn a_handle_leads_to_its_record(
    registry: TrayRegistry,
    handle: u64,
    icon: Result<&TrayIcon, Failure>,
    menu: Result<MenuRef, Failure>,
)
    requires
        call_ensures(TrayRegistry::icon, (&registry, handle), icon),
        call_ensures(TrayRegistry::menu, (&registry, handle), menu),
    ensures
        icon is Ok <==> names_icon(registry@.records, handle),
        icon matches Ok(found) ==> found.state() == registry@.records[handle]->state
            && found.spec_name() == registry@.records[handle]->name,
        icon matches Err(failure) ==> failure@.code() == -1,
        menu is Ok <==> names_menu(registry@.records, handle),
        menu matches Ok(found) ==> registry@.records[handle] == EntryView::Menu(found),
        menu matches Err(failure) ==> failure@.code() == -1,
{
}

} // verus!
