//! Answering the `com.canonical.dbusmenu` calls of a shell.

use crate::platform_linux::dbusmenu::{
    a_layout_says_what_the_menu_holds, addressed, every_row_is_shown,
    ids_are_contiguous_and_address_one_row, is_said, laid_out, lemma_rows_are_shown, preorder,
    rows_view, MenuRow, MenuSnapshot, RowView,
};
use crate::text::{same, show_signed, signed_decimal};
use crate::tray::event::{call_of, ActionStore, ActionsView, TrayCall, TrayEvent};
use crate::tray::item::{ItemView, MenuRef};
use crate::tray::menu::Row;
use crate::tray::store::{depth_of, menu_at, nests, nests_within, MenuStore, StoreView};
use vstd::prelude::*;

verus! {

/// Object path exporting the menu.
pub const MENU_PATH: &'static str = "/MenuBar";

// ---------------------------------------------------------------------------
// Properties
// ---------------------------------------------------------------------------
/// The value of one property of a row.
#[derive(Debug, PartialEq, Eq)]
pub enum PropertyValue {
    Text(String),
    Flag(bool),
    Number(i32),
}

/// What a [`PropertyValue`] says.
#[verifier::ext_equal]
pub enum ValueView {
    Text(Seq<char>),
    Flag(bool),
    Number(i32),
}

impl View for PropertyValue {
    type V = ValueView;

    open spec fn view(&self) -> ValueView {
        match *self {
            PropertyValue::Text(text) => ValueView::Text(text@),
            PropertyValue::Flag(flag) => ValueView::Flag(flag),
            PropertyValue::Number(n) => ValueView::Number(n),
        }
    }
}

/// One named property of a row.
#[derive(Debug, PartialEq, Eq)]
pub struct Property {
    pub name: String,
    pub value: PropertyValue,
}

/// What a [`Property`] says.
#[verifier::ext_equal]
pub struct PropertyView {
    pub name: Seq<char>,
    pub value: ValueView,
}

impl View for Property {
    type V = PropertyView;

    open spec fn view(&self) -> PropertyView {
        PropertyView { name: self.name@, value: self.value@ }
    }
}

/// What properties say.
pub open spec fn properties_view(properties: Seq<Property>) -> Seq<PropertyView> {
    properties.map_values(|property: Property| property@)
}

/// A textual property.
pub open spec fn text_property(name: Seq<char>, text: Seq<char>) -> PropertyView {
    PropertyView { name, value: ValueView::Text(text) }
}

/// A yes-or-no property.
pub open spec fn flag_property(name: Seq<char>, flag: bool) -> PropertyView {
    PropertyView { name, value: ValueView::Flag(flag) }
}

impl RowView {
    /// The dbusmenu `type` of the row.
    pub open spec fn kind(self) -> Seq<char> {
        if self.separator {
            "separator"@
        } else {
            "standard"@
        }
    }

    /// The properties a row exposes.
    pub open spec fn properties(self) -> Seq<PropertyView> {
        seq![text_property("type"@, self.kind())] + (match self.label {
            Some(label) => seq![text_property("label"@, label)],
            None => Seq::empty(),
        }) + seq![flag_property("enabled"@, self.enabled), flag_property("visible"@, true)] + (
        if self.checkbox {
            seq![
                text_property("toggle-type"@, "checkmark"@),
                PropertyView {
                    name: "toggle-state"@,
                    value: ValueView::Number(
                        if self.checked {
                            1
                        } else {
                            0
                        },
                    ),
                },
            ]
        } else {
            Seq::empty()
        }) + (if self.submenu {
            seq![text_property("children-display"@, "submenu"@)]
        } else {
            Seq::empty()
        })
    }
}

proof fn lemma_property_names()
    ensures
        "type"@.len() == 4,
        "label"@.len() == 5,
        "enabled"@.len() == 7,
        "visible"@.len() == 7,
        "enabled"@[0] == 'e',
        "visible"@[0] == 'v',
        "toggle-type"@.len() == 11,
        "toggle-state"@.len() == 12,
        "children-display"@.len() == 16,
{
    reveal_strlit("type");
    reveal_strlit("label");
    reveal_strlit("enabled");
    reveal_strlit("visible");
    reveal_strlit("toggle-type");
    reveal_strlit("toggle-state");
    reveal_strlit("children-display");
}

/// No row exposes two properties of the same name.
pub proof fn property_names_are_distinct(row: RowView, i: int, j: int)
    requires
        0 <= i < j < row.properties().len(),
    ensures
        row.properties()[i].name != row.properties()[j].name,
{
    lemma_property_names();
    let names = row.properties();
    let checks: int = if row.checkbox {
        2
    } else {
        0
    };
    let labels: int = if row.label is Some {
        1
    } else {
        0
    };
    assert(names[0].name == "type"@);
    assert(labels == 1 ==> names[1].name == "label"@);
    assert(names[labels + 1].name == "enabled"@);
    assert(names[labels + 2].name == "visible"@);
    assert(checks == 2 ==> names[labels + 3].name == "toggle-type"@ && names[labels + 4].name
        == "toggle-state"@);
    assert(row.submenu ==> names[labels + 3 + checks].name == "children-display"@);
}

/// A property by the names of its literals.
fn property(name: &str, value: PropertyValue) -> (property: Property)
    ensures
        property@ == (PropertyView { name: name@, value: value@ }),
{
    Property { name: name.to_owned(), value }
}

impl MenuRow {
    /// The dbusmenu `type` property value.
    pub fn kind(&self) -> (kind: &'static str)
        ensures
            kind@ == self@.kind(),
    {
        if self.separator {
            "separator"
        } else {
            "standard"
        }
    }

    /// The properties a row exposes.
    pub fn properties(&self) -> (properties: Vec<Property>)
        ensures
            properties_view(properties@) == self@.properties(),
    {
        let mut properties: Vec<Property> = Vec::new();
        properties.push(property("type", PropertyValue::Text(self.kind().to_owned())));
        if let Some(label) = &self.label {
            properties.push(property("label", PropertyValue::Text(label.clone())));
        }
        properties.push(property("enabled", PropertyValue::Flag(self.enabled)));
        properties.push(property("visible", PropertyValue::Flag(true)));
        if self.checkbox {
            properties.push(property("toggle-type", PropertyValue::Text("checkmark".to_owned())));
            let state: i32 = if self.checked {
                1
            } else {
                0
            };
            properties.push(property("toggle-state", PropertyValue::Number(state)));
        }
        if self.submenu {
            properties.push(property("children-display", PropertyValue::Text("submenu".to_owned())));
        }
        proof {
            assert(properties_view(properties@) =~= self@.properties());
        }
        properties
    }
}

/// Whether a property is asked for; an empty list asks for all of them.
pub open spec fn is_wanted(wanted: Seq<String>) -> spec_fn(PropertyView) -> bool {
    |property: PropertyView|
        wanted.len() == 0 || exists|i: int|
            0 <= i < wanted.len() && #[trigger] wanted[i]@ == property.name
}

/// Whether `name` is asked for.
fn wants(wanted: &Vec<String>, name: &str) -> (yes: bool)
    ensures
        yes == (wanted@.len() == 0 || exists|i: int|
            0 <= i < wanted@.len() && #[trigger] wanted@[i]@ == name@),
{
    if wanted.len() == 0 {
        return true;
    }
    let mut i: usize = 0;
    while i < wanted.len()
        invariant
            i <= wanted.len(),
            forall|j: int| 0 <= j < i ==> #[trigger] wanted@[j]@ != name@,
        decreases wanted.len() - i,
    {
        if same(wanted[i].as_str(), name) {
            return true;
        }
        i = i + 1;
    }
    false
}

/// The properties among `properties` that are asked for.
fn keep_wanted(properties: Vec<Property>, wanted: &Vec<String>) -> (kept: Vec<Property>)
    ensures
        properties_view(kept@) == properties_view(properties@).filter(is_wanted(wanted@)),
{
    let ghost all = properties@;
    let ghost said = properties_view(all);
    let ghost keep = is_wanted(wanted@);
    let mut kept: Vec<Property> = Vec::new();
    let mut rest = properties;
    proof {
        assert(said.take(0).filter(keep) =~= Seq::empty()) by {
            reveal(Seq::filter);
        }
        assert(properties_view(kept@) =~= Seq::empty());
        assert(all.skip(0) =~= all);
    }
    while rest.len() > 0
        invariant
            rest@.len() <= all.len(),
            rest@ == all.skip(all.len() - rest@.len()),
            said == properties_view(all),
            keep == is_wanted(wanted@),
            properties_view(kept@) == said.take(all.len() - rest@.len()).filter(keep),
        decreases rest.len(),
    {
        let ghost done = all.len() - rest@.len();
        let ghost before = kept@;
        let next = rest.remove(0);
        proof {
            assert(rest@ =~= all.skip(done + 1));
            assert(said.take(done + 1).drop_last() =~= said.take(done));
            assert(said.take(done + 1).last() == next@);
            reveal(Seq::filter);
        }
        if wants(wanted, next.name.as_str()) {
            kept.push(next);
            proof {
                assert(properties_view(kept@) =~= properties_view(before).push(next@));
            }
        }
    }
    proof {
        assert(said.take(all.len() as int) =~= said);
    }
    kept
}

// ---------------------------------------------------------------------------
// Layout nodes
// ---------------------------------------------------------------------------
/// One dbusmenu layout node: an id, its properties and its child nodes.
#[derive(Debug)]
pub struct MenuNode {
    pub id: i32,
    pub properties: Vec<Property>,
    pub children: Vec<MenuNode>,
}

/// What a [`MenuNode`] says.
#[verifier::ext_equal]
pub struct NodeView {
    pub id: i32,
    pub properties: Seq<PropertyView>,
    pub children: Seq<NodeView>,
}

impl MenuNode {
    /// What the node says.
    pub open spec fn view(self) -> NodeView
        decreases self,
    {
        NodeView {
            id: self.id,
            properties: properties_view(self.properties@),
            children: nodes_view(self.children@),
        }
    }
}

/// What nodes say.
pub open spec fn nodes_view(nodes: Seq<MenuNode>) -> Seq<NodeView>
    decreases nodes,
{
    if nodes.len() == 0 {
        Seq::empty()
    } else {
        nodes_view(nodes.drop_last()).push(nodes.last()@)
    }
}

pub(crate) proof fn lemma_nodes_view(nodes: Seq<MenuNode>)
    ensures
        nodes_view(nodes).len() == nodes.len(),
        forall|i: int| 0 <= i < nodes.len() ==> #[trigger] nodes_view(nodes)[i] == nodes[i]@,
    decreases nodes.len(),
{
    if nodes.len() > 0 {
        lemma_nodes_view(nodes.drop_last());
        assert forall|i: int| 0 <= i < nodes.len() implies #[trigger] nodes_view(nodes)[i]
            == nodes[i]@ by {
            if i < nodes.len() - 1 {
                assert(nodes.drop_last()[i] == nodes[i]);
            }
        }
    }
}

/// The node of a row; its children are given only when asked to recurse.
pub open spec fn node_of(row: RowView, recurse: bool) -> NodeView
    decreases row,
{
    NodeView {
        id: row.id,
        properties: row.properties(),
        children: if recurse {
            nodes_of(row.children, true)
        } else {
            Seq::empty()
        },
    }
}

/// The nodes of rows.
pub open spec fn nodes_of(rows: Seq<RowView>, recurse: bool) -> Seq<NodeView>
    decreases rows,
{
    if rows.len() == 0 {
        Seq::empty()
    } else {
        nodes_of(rows.drop_last(), recurse).push(node_of(rows.last(), recurse))
    }
}

/// The root of a layout: id 0, no properties, the top-level rows as children.
pub open spec fn root_of(rows: Seq<RowView>, recurse: bool) -> NodeView {
    NodeView { id: 0, properties: Seq::empty(), children: nodes_of(rows, recurse) }
}

/// The root of a layout names every top-level row whether or not it recurses, so
/// a shell can ask for a submenu on demand.
pub proof fn a_shallow_layout_names_every_row(rows: Seq<RowView>, recurse: bool)
    ensures
        root_of(rows, recurse).id == 0,
        root_of(rows, recurse).children.len() == rows.len(),
        forall|i: int|
            0 <= i < rows.len() ==> (#[trigger] root_of(rows, recurse).children[i])
                == node_of(rows[i], recurse),
    decreases rows.len(),
{
    if rows.len() > 0 {
        a_shallow_layout_names_every_row(rows.drop_last(), recurse);
        assert forall|i: int| 0 <= i < rows.len() implies (
        #[trigger] root_of(rows, recurse).children[i]) == node_of(rows[i], recurse) by {
            if i < rows.len() - 1 {
                assert(root_of(rows.drop_last(), recurse).children[i] == node_of(
                    rows.drop_last()[i],
                    recurse,
                ));
            }
        }
    }
}

/// Encode a row into a layout node, recursing when asked.
fn layout_node(row: &MenuRow, recurse: bool) -> (node: MenuNode)
    ensures
        node@ == node_of(row@, recurse),
    decreases row, 0nat,
{
    let children = if recurse {
        layout_nodes(&row.children, true)
    } else {
        let none: Vec<MenuNode> = Vec::new();
        proof {
            assert(nodes_view(none@) =~= Seq::empty());
        }
        none
    };
    MenuNode { id: row.id, properties: row.properties(), children }
}

/// Encode rows into layout nodes.
fn layout_nodes(rows: &Vec<MenuRow>, recurse: bool) -> (nodes: Vec<MenuNode>)
    ensures
        nodes_view(nodes@) == nodes_of(rows_view(rows@), recurse),
    decreases rows, 1nat,
{
    let ghost all = rows_view(rows@);
    let mut nodes: Vec<MenuNode> = Vec::new();
    let mut i: usize = 0;
    proof {
        crate::platform_linux::dbusmenu::lemma_rows_view(rows@);
        assert(all.take(0) =~= Seq::empty());
    }
    while i < rows.len()
        invariant
            i <= rows.len(),
            all == rows_view(rows@),
            all.len() == rows@.len(),
            forall|j: int| 0 <= j < rows@.len() ==> #[trigger] all[j] == rows@[j]@,
            nodes_view(nodes@) == nodes_of(all.take(i as int), recurse),
        decreases rows.len() - i,
    {
        let ghost before = nodes@;
        let node = layout_node(&rows[i], recurse);
        nodes.push(node);
        proof {
            assert(nodes@.drop_last() =~= before);
            assert(all.take(i as int + 1).drop_last() =~= all.take(i as int));
            assert(all.take(i as int + 1).last() == all[i as int]);
        }
        i = i + 1;
    }
    proof {
        assert(all.take(i as int) =~= all);
    }
    nodes
}

// ---------------------------------------------------------------------------
// Snapshot
// ---------------------------------------------------------------------------
/// The answers for the given ids: id and wanted properties of each row that
/// exists, in the order asked; unknown ids are skipped.
pub open spec fn grouped(rows: Seq<RowView>, ids: Seq<i32>, wanted: Seq<String>) -> Seq<
    (i32, Seq<PropertyView>),
>
    decreases ids.len(),
{
    if ids.len() == 0 {
        Seq::empty()
    } else {
        let head = grouped(rows, ids.drop_last(), wanted);
        match addressed(rows, ids.last()) {
            Some(row) => head.push((ids.last(), row.properties().filter(is_wanted(wanted)))),
            None => head,
        }
    }
}

/// What grouped answers say.
pub open spec fn groups_view(groups: Seq<(i32, Vec<Property>)>) -> Seq<(i32, Seq<PropertyView>)> {
    groups.map_values(|group: (i32, Vec<Property>)| (group.0, properties_view(group.1@)))
}

/// The value of the property called `name`.
pub open spec fn value_of(properties: Seq<PropertyView>, name: Seq<char>) -> Option<ValueView>
    decreases properties.len(),
{
    if properties.len() == 0 {
        None
    } else {
        match value_of(properties.drop_last(), name) {
            Some(value) => Some(value),
            None => if properties.last().name == name {
                Some(properties.last().value)
            } else {
                None
            },
        }
    }
}

/// The value of one property of one row.
pub open spec fn property_at(rows: Seq<RowView>, id: i32, name: Seq<char>) -> Option<ValueView> {
    match addressed(rows, id) {
        Some(row) => value_of(row.properties(), name),
        None => None,
    }
}

proof fn lemma_value_of_prefix(properties: Seq<PropertyView>, name: Seq<char>, n: int)
    requires
        0 <= n <= properties.len(),
    ensures
        value_of(properties.take(n), name) matches Some(value) ==> value_of(properties, name)
            == Some(value),
    decreases properties.len() - n,
{
    if n == properties.len() {
        assert(properties.take(n) =~= properties);
    } else {
        lemma_value_of_prefix(properties, name, n + 1);
        assert(properties.take(n + 1).drop_last() =~= properties.take(n));
    }
}

/// Take the property called `name` out of a list.
fn pick(properties: Vec<Property>, name: &str) -> (value: Option<PropertyValue>)
    ensures
        value is Some <==> value_of(properties_view(properties@), name@) is Some,
        value matches Some(v) ==> value_of(properties_view(properties@), name@) == Some(v@),
{
    let ghost said = properties_view(properties@);
    let mut rest = properties;
    let mut i: usize = 0;
    proof {
        assert(said.take(0) =~= Seq::empty());
    }
    while i < rest.len()
        invariant
            i <= rest.len(),
            said == properties_view(rest@),
            said == properties_view(properties@),
            value_of(said.take(i as int), name@) is None,
        decreases rest.len() - i,
    {
        proof {
            assert(said.take(i as int + 1).drop_last() =~= said.take(i as int));
            assert(said.take(i as int + 1).last() == rest@[i as int]@);
            lemma_value_of_prefix(said, name@, i as int + 1);
        }
        if same(rest[i].name.as_str(), name) {
            let found = rest.swap_remove(i);
            return Some(found.value);
        }
        i = i + 1;
    }
    proof {
        assert(said.take(i as int) =~= said);
    }
    None
}

impl MenuSnapshot {
    /// Encode the whole tree as the `GetLayout` root node.
    ///
    /// The root carries id 0 and no properties; the children are the top-level
    /// rows.
    pub fn root_node(&self, recurse: bool) -> (root: MenuNode)
        ensures
            root@ == root_of(self@, recurse),
    {
        let root = MenuNode {
            id: 0,
            properties: Vec::new(),
            children: layout_nodes(self.rows(), recurse),
        };
        proof {
            assert(root@.properties =~= Seq::empty());
        }
        root
    }

    /// The id/property pairs for `GetGroupProperties`.
    pub fn group_properties(&self, ids: &Vec<i32>, wanted: &Vec<String>) -> (groups: Vec<
        (i32, Vec<Property>),
    >)
        ensures
            groups_view(groups@) == grouped(self@, ids@, wanted@),
    {
        let mut groups: Vec<(i32, Vec<Property>)> = Vec::new();
        let mut i: usize = 0;
        proof {
            assert(ids@.take(0) =~= Seq::empty());
            assert(groups_view(groups@) =~= Seq::empty());
        }
        while i < ids.len()
            invariant
                i <= ids.len(),
                groups_view(groups@) == grouped(self@, ids@.take(i as int), wanted@),
            decreases ids.len() - i,
        {
            let ghost before = groups@;
            let id: i32 = ids[i];
            proof {
                assert(ids@.take(i as int + 1).drop_last() =~= ids@.take(i as int));
                assert(ids@.take(i as int + 1).last() == id);
            }
            if let Some(row) = self.row(id) {
                let kept = keep_wanted(row.properties(), wanted);
                groups.push((id, kept));
                proof {
                    assert(groups_view(groups@) =~= groups_view(before).push(
                        (id, properties_view(kept@)),
                    ));
                }
            }
            i = i + 1;
        }
        proof {
            assert(ids@.take(i as int) =~= ids@);
        }
        groups
    }

    /// One property of one row.
    pub fn property(&self, id: i32, name: &str) -> (value: Option<PropertyValue>)
        ensures
            value is Some <==> property_at(self@, id, name@) is Some,
            value matches Some(v) ==> property_at(self@, id, name@) == Some(v@),
    {
        match self.row(id) {
            Some(row) => pick(row.properties(), name),
            None => None,
        }
    }
}

// ---------------------------------------------------------------------------
// The interface
// ---------------------------------------------------------------------------
/// The dbusmenu interface exported at [`MENU_PATH`]: the menu of an icon under a
/// revision that grows whenever the shell has to read the layout again.
#[derive(Debug)]
pub struct DBusMenuInterface {
    revision: u32,
    announced: Option<MenuSnapshot>,
}

/// The revision after `revision`; the largest one is kept rather than starting
/// over.
pub open spec fn later_revision(revision: u32) -> u32 {
    if revision == u32::MAX {
        u32::MAX
    } else {
        (revision + 1) as u32
    }
}

/// Whether a layout request goes below the top level. A depth of 0 means
/// "unlimited", and so does a negative one.
pub open spec fn recurses(recursion_depth: i32) -> bool {
    recursion_depth != 1
}

/// The rows a shell sees of an icon with the given menu.
pub open spec fn shown_rows(store: StoreView, menu: Option<MenuRef>) -> Seq<RowView> {
    match menu {
        Some(menu) => laid_out(store, menu),
        None => Seq::empty(),
    }
}

/// Whether the menu, if there is one, can be laid out.
pub open spec fn can_show(store: StoreView, menu: Option<MenuRef>) -> bool {
    menu matches Some(menu) ==> nests(store, menu)
}

/// The call that a reported interaction leads to: a click on a row that carries a
/// callback. Other events have no meaning for a host.
pub open spec fn event_call(
    actions: ActionsView,
    rows: Seq<RowView>,
    id: i32,
    event_id: Seq<char>,
) -> Option<TrayCall> {
    if event_id == "clicked"@ {
        match addressed(rows, id) {
            Some(row) => call_of(actions, row.action, TrayEvent::Click),
            None => None,
        }
    } else {
        None
    }
}

/// The call that event `i` of a batch leads to.
pub open spec fn call_at(
    actions: ActionsView,
    rows: Seq<RowView>,
    events: Seq<(i32, String)>,
    i: int,
) -> Option<TrayCall> {
    event_call(actions, rows, events[i].0, events[i].1@)
}

/// The first call that the events of a batch from place `from` on lead to, and
/// the place after its event.
pub open spec fn first_call(
    actions: ActionsView,
    rows: Seq<RowView>,
    events: Seq<(i32, String)>,
    from: int,
) -> Option<(TrayCall, int)>
    decreases events.len() - from,
{
    if from >= events.len() {
        None
    } else {
        match call_at(actions, rows, events, from) {
            Some(call) => Some((call, from + 1)),
            None => first_call(actions, rows, events, from + 1),
        }
    }
}

/// What a refused property read is answered.
pub open spec fn property_refusal(
    menu: Option<MenuRef>,
    rows: Seq<RowView>,
    id: i32,
    name: Seq<char>,
) -> Seq<char> {
    if menu is None {
        "no menu is attached; cannot read '"@ + name + "'"@
    } else if addressed(rows, id) is None {
        "unknown menu item id "@ + signed_decimal(id as int)
    } else {
        "item "@ + signed_decimal(id as int) + " has no property '"@ + name + "'"@
    }
}

impl DBusMenuInterface {
    /// The current layout revision.
    pub closed spec fn view(self) -> u32 {
        self.revision
    }

    /// The rows that the shell was last told to read.
    pub closed spec fn announced(self) -> Seq<RowView> {
        match self.announced {
            Some(snapshot) => snapshot@,
            None => Seq::empty(),
        }
    }

    /// A menu that was never announced.
    pub fn new() -> (interface: Self)
        ensures
            interface@ == 0,
            interface.announced() == Seq::<RowView>::empty(),
    {
        DBusMenuInterface { revision: 0, announced: None }
    }

    /// Whether the rows of the menu, at whatever depth, are others than those the
    /// shell was last told to read.
    pub fn is_stale(&self, store: &MenuStore, menu: Option<MenuRef>) -> (stale: bool)
        requires
            can_show(store@, menu),
        ensures
            stale == (shown_rows(store@, menu) != self.announced()),
    {
        match (MenuSnapshot::from_menu(store, menu), &self.announced) {
            (Some(now), Some(before)) => !now.same_as(before),
            (Some(now), None) => now.rows().len() != 0,
            (None, Some(before)) => before.rows().len() != 0,
            (None, None) => false,
        }
    }

    /// Bring the announcement up to date: where another menu was attached or its
    /// rows changed, the revision advances, and is returned for the shell to be
    /// told.
    pub fn announce(&mut self, store: &MenuStore, menu: Option<MenuRef>, attached: bool) -> (
        revision: Option<u32>)
        requires
            can_show(store@, menu),
        ensures
            revision is Some <==> attached || shown_rows(store@, menu) != old(self).announced(),
            revision matches Some(r) ==> r == final(self)@ && final(self)@ == later_revision(
                old(self)@,
            ),
            revision is None ==> final(self)@ == old(self)@,
            final(self).announced() == shown_rows(store@, menu),
    {
        if !attached && !self.is_stale(store, menu) {
            return None;
        }
        self.announced = MenuSnapshot::from_menu(store, menu);
        Some(self.bump_revision())
    }

    /// The current layout revision.
    pub fn revision(&self) -> (revision: u32)
        ensures
            revision == self@,
    {
        self.revision
    }

    /// Advance the menu revision and return the new one. It stays at the largest
    /// value rather than starting over.
    pub fn bump_revision(&mut self) -> (revision: u32)
        ensures
            revision == final(self)@,
            final(self)@ == later_revision(old(self)@),
            final(self).announced() == old(self).announced(),
    {
        self.revision = self.revision.saturating_add(1);
        self.revision
    }

    /// Return the menu tree under its revision. Without a menu the root is empty,
    /// so that the shell renders nothing instead of surfacing an error.
    pub fn get_layout(&self, store: &MenuStore, menu: Option<MenuRef>, recursion_depth: i32) -> (
        layout: (u32, MenuNode))
        requires
            can_show(store@, menu),
        ensures
            layout.0 == self@,
            layout.1@ == root_of(shown_rows(store@, menu), recurses(recursion_depth)),
    {
        let recurse = recursion_depth <= 0 || recursion_depth > 1;
        let root = match MenuSnapshot::from_menu(store, menu) {
            Some(snapshot) => snapshot.root_node(recurse),
            None => {
                let root = MenuNode { id: 0, properties: Vec::new(), children: Vec::new() };
                proof {
                    assert(root@.properties =~= Seq::empty());
                    assert(root@.children =~= Seq::empty());
                }
                root
            },
        };
        (self.revision, root)
    }

    /// Incremental property read for a set of ids.
    pub fn get_group_properties(
        &self,
        store: &MenuStore,
        menu: Option<MenuRef>,
        ids: &Vec<i32>,
        property_names: &Vec<String>,
    ) -> (groups: Vec<(i32, Vec<Property>)>)
        requires
            can_show(store@, menu),
        ensures
            menu is None ==> groups@.len() == 0,
            menu matches Some(m) ==> groups_view(groups@) == grouped(
                laid_out(store@, m),
                ids@,
                property_names@,
            ),
    {
        match MenuSnapshot::from_menu(store, menu) {
            Some(snapshot) => snapshot.group_properties(ids, property_names),
            None => Vec::new(),
        }
    }

    /// Single property read. A refusal says what is missing: the menu, the row or
    /// the property.
    pub fn get_property(&self, store: &MenuStore, menu: Option<MenuRef>, id: i32, name: &str) -> (
        res: Result<PropertyValue, String>)
        requires
            can_show(store@, menu),
        ensures
            res is Ok <==> menu is Some && property_at(
                shown_rows(store@, menu),
                id,
                name@,
            ) is Some,
            res matches Ok(value) ==> property_at(shown_rows(store@, menu), id, name@) == Some(
                value@,
            ),
            res matches Err(text) ==> text@ == property_refusal(
                menu,
                shown_rows(store@, menu),
                id,
                name@,
            ),
    {
        let snapshot = match MenuSnapshot::from_menu(store, menu) {
            Some(snapshot) => snapshot,
            None => {
                return Err(
                    "no menu is attached; cannot read '".to_owned().concat(name).concat("'"),
                );
            },
        };
        if snapshot.row(id).is_none() {
            return Err("unknown menu item id ".to_owned().concat(show_signed(id).as_str()));
        }
        match snapshot.property(id, name) {
            Some(value) => Ok(value),
            None => Err(
                "item ".to_owned().concat(show_signed(id).as_str()).concat(
                    " has no property '",
                ).concat(name).concat("'"),
            ),
        }
    }

    /// A shell-reported interaction with a row: the call it leads to, if any.
    pub fn event(
        &self,
        store: &MenuStore,
        actions: &ActionStore,
        menu: Option<MenuRef>,
        id: i32,
        event_id: &str,
    ) -> (call: Option<TrayCall>)
        requires
            can_show(store@, menu),
        ensures
            call == event_call(actions@, shown_rows(store@, menu), id, event_id@),
    {
        if !same(event_id, "clicked") {
            return None;
        }
        let snapshot = match MenuSnapshot::from_menu(store, menu) {
            Some(snapshot) => snapshot,
            None => {
                proof {
                    assert(crate::platform_linux::dbusmenu::preorder(Seq::empty())
                        =~= Seq::empty());
                }
                return None;
            },
        };
        match snapshot.row(id) {
            Some(row) => actions.call(row.action, TrayEvent::Click),
            None => None,
        }
    }

    /// Batched variant of [`DBusMenuInterface::event`]: the first call that the
    /// events from place `from` on lead to, and the place from which to go on.
    ///
    /// The events are applied in order: a caller makes the call before it asks
    /// for the next one, which is looked up in the menu as the call left it.
    pub fn event_group(
        &self,
        store: &MenuStore,
        actions: &ActionStore,
        menu: Option<MenuRef>,
        events: &Vec<(i32, String)>,
        from: usize,
    ) -> (next: Option<(TrayCall, usize)>)
        requires
            can_show(store@, menu),
        ensures
            next is Some <==> first_call(
                actions@,
                shown_rows(store@, menu),
                events@,
                from as int,
            ) is Some,
            next matches Some(n) ==> first_call(
                actions@,
                shown_rows(store@, menu),
                events@,
                from as int,
            ) == Some((n.0, n.1 as int)),
    {
        let ghost rows = shown_rows(store@, menu);
        let mut i: usize = from;
        while i < events.len()
            invariant
                from <= i,
                can_show(store@, menu),
                rows == shown_rows(store@, menu),
                first_call(actions@, rows, events@, from as int) == first_call(
                    actions@,
                    rows,
                    events@,
                    i as int,
                ),
            decreases events.len() - i,
        {
            if let Some(call) = self.event(
                store,
                actions,
                menu,
                events[i].0,
                events[i].1.as_str(),
            ) {
                return Some((call, i + 1));
            }
            i = i + 1;
        }
        None
    }

    /// Whether the shell should re-read a submenu before showing it.
    ///
    /// Always `true`: the rows are snapshotted per call, so a re-read is cheap
    /// and the shell can never show a stale submenu.
    pub fn about_to_show(&self, id: i32) -> (reread: bool)
        ensures
            reread,
    {
        true
    }
}

/// A change of the number of rows, or of the label, the state or the checkbox of
/// a row, makes the announced layout stale.
pub proof fn a_changed_row_is_announced(
    before: StoreView,
    after: StoreView,
    menu: MenuRef,
    i: int,
)
    requires
        ({
            let old_rows = menu_at(before, menu).rows;
            let new_rows = menu_at(after, menu).rows;
            ||| old_rows.len() != new_rows.len()
            ||| {
                &&& 0 <= i < old_rows.len()
                &&& {
                    ||| old_rows[i].1.label() != new_rows[i].1.label()
                    ||| old_rows[i].1.state().enabled != new_rows[i].1.state().enabled
                    ||| old_rows[i].1 is Checkbox != new_rows[i].1 is Checkbox
                    ||| old_rows[i].1 is Checkbox && old_rows[i].1.state().checked
                        != new_rows[i].1.state().checked
                }
            }
        }),
    ensures
        shown_rows(before, Some(menu)) != shown_rows(after, Some(menu)),
{
    lemma_rows_are_shown(
        before,
        menu_at(before, menu).rows,
        1,
        (depth_of(before, menu) - 1) as nat,
    );
    lemma_rows_are_shown(after, menu_at(after, menu).rows, 1, (depth_of(after, menu) - 1) as nat);
    let shown = laid_out(before, menu);
    let then = laid_out(after, menu);
    if shown.len() == then.len() {
        assert(shown[i] != then[i]);
    }
}

/// A batch is applied in order: no event before the one that leads to a call is
/// passed over, the next search starts right behind it, and a batch ends once no
/// event is left that leads to a call.
pub proof fn a_batch_is_applied_in_order(
    actions: ActionsView,
    rows: Seq<RowView>,
    events: Seq<(i32, String)>,
    from: int,
)
    requires
        0 <= from,
    ensures
        match first_call(actions, rows, events, from) {
            Some((call, next)) => {
                &&& from < next <= events.len()
                &&& call_at(actions, rows, events, next - 1) == Some(call)
                &&& forall|i: int|
                    from <= i < next - 1 ==> #[trigger] call_at(actions, rows, events, i) is None
            },
            None => forall|i: int|
                from <= i < events.len() ==> #[trigger] call_at(actions, rows, events, i) is None,
        },
    decreases events.len() - from,
{
    if from < events.len() && call_at(actions, rows, events, from) is None {
        a_batch_is_applied_in_order(actions, rows, events, from + 1);
    }
}

// ---------------------------------------------------------------------------
// What a shell reads
// ---------------------------------------------------------------------------
proof fn lemma_value_at(properties: Seq<PropertyView>, k: int)
    requires
        0 <= k < properties.len(),
        forall|j: int| 0 <= j < k ==> (#[trigger] properties[j]).name != properties[k].name,
    ensures
        value_of(properties, properties[k].name) == Some(properties[k].value),
    decreases properties.len(),
{
    let head = properties.drop_last();
    if k < properties.len() - 1 {
        assert(head[k] == properties[k]);
        assert forall|j: int| 0 <= j < k implies (#[trigger] head[j]).name != head[k].name by {
            assert(head[j] == properties[j]);
        }
        lemma_value_at(head, k);
    } else {
        assert forall|j: int| 0 <= j < head.len() implies (#[trigger] head[j]).name
            != properties[k].name by {
            assert(head[j] == properties[j]);
        }
        lemma_no_value(head, properties[k].name);
    }
}

proof fn lemma_no_value(properties: Seq<PropertyView>, name: Seq<char>)
    requires
        forall|j: int| 0 <= j < properties.len() ==> (#[trigger] properties[j]).name != name,
    ensures
        value_of(properties, name) is None,
    decreases properties.len(),
{
    if properties.len() > 0 {
        let head = properties.drop_last();
        assert forall|j: int| 0 <= j < head.len() implies (#[trigger] head[j]).name != name by {
            assert(head[j] == properties[j]);
        }
        lemma_no_value(head, name);
        assert(properties[properties.len() - 1].name != name);
    }
}

proof fn lemma_row_value(row: RowView, k: int)
    requires
        0 <= k < row.properties().len(),
    ensures
        value_of(row.properties(), row.properties()[k].name) == Some(row.properties()[k].value),
{
    assert forall|j: int| 0 <= j < k implies (#[trigger] row.properties()[j]).name
        != row.properties()[k].name by {
        property_names_are_distinct(row, j, k);
    }
    lemma_value_at(row.properties(), k);
}

/// A shell reads the kind, the label and the state of a row: a separator is one,
/// a row without a label exposes none, and every row is visible.
pub proof fn a_row_exposes_its_label_and_state(row: RowView)
    ensures
        value_of(row.properties(), "type"@) == Some(
            ValueView::Text(
                if row.separator {
                    "separator"@
                } else {
                    "standard"@
                },
            ),
        ),
        value_of(row.properties(), "label"@) == (match row.label {
            Some(label) => Some(ValueView::Text(label)),
            None => None,
        }),
        value_of(row.properties(), "enabled"@) == Some(ValueView::Flag(row.enabled)),
        value_of(row.properties(), "visible"@) == Some(ValueView::Flag(true)),
{
    lemma_property_names();
    let said = row.properties();
    let labels: int = if row.label is Some {
        1
    } else {
        0
    };
    assert(said[0] == text_property("type"@, row.kind()));
    lemma_row_value(row, 0);
    assert(said[labels + 1] == flag_property("enabled"@, row.enabled));
    lemma_row_value(row, labels + 1);
    assert(said[labels + 2] == flag_property("visible"@, true));
    lemma_row_value(row, labels + 2);
    if row.label is Some {
        assert(said[1] == text_property("label"@, row.label->0));
        lemma_row_value(row, 1);
    } else {
        lemma_other_names(row, "label"@);
    }
}

/// The names that a row exposes.
proof fn lemma_other_names(row: RowView, name: Seq<char>)
    requires
        name != "type"@,
        name != "enabled"@,
        name != "visible"@,
        row.label is Some ==> name != "label"@,
        row.checkbox ==> name != "toggle-type"@ && name != "toggle-state"@,
        row.submenu ==> name != "children-display"@,
    ensures
        value_of(row.properties(), name) is None,
{
    lemma_no_value(row.properties(), name);
}

/// A shell draws a check mark beside a checkbox and nowhere else: the toggle
/// state of a checkbox is 1 while it is checked and 0 while it is not.
pub proof fn a_checkbox_exposes_its_value(row: RowView)
    ensures
        value_of(row.properties(), "toggle-state"@) == (if !row.checkbox {
            None
        } else if row.checked {
            Some(ValueView::Number(1))
        } else {
            Some(ValueView::Number(0))
        }),
        value_of(row.properties(), "toggle-type"@) == (if row.checkbox {
            Some(ValueView::Text("checkmark"@))
        } else {
            None
        }),
{
    lemma_property_names();
    let said = row.properties();
    let labels: int = if row.label is Some {
        1
    } else {
        0
    };
    if row.checkbox {
        assert(said[labels + 3] == text_property("toggle-type"@, "checkmark"@));
        lemma_row_value(row, labels + 3);
        assert(said[labels + 4].name == "toggle-state"@);
        lemma_row_value(row, labels + 4);
    } else {
        lemma_other_names(row, "toggle-type"@);
        lemma_other_names(row, "toggle-state"@);
    }
}

/// A shell offers to open a row exactly when it is a submenu; there is nothing
/// else to read of a row.
pub proof fn a_submenu_exposes_that_it_opens(row: RowView, name: Seq<char>)
    requires
        name != "type"@ && name != "label"@ && name != "enabled"@ && name != "visible"@,
        name != "toggle-type"@ && name != "toggle-state"@,
    ensures
        value_of(row.properties(), name) == (if row.submenu && name == "children-display"@ {
            Some(ValueView::Text("submenu"@))
        } else {
            None
        }),
{
    lemma_property_names();
    let said = row.properties();
    let labels: int = if row.label is Some {
        1
    } else {
        0
    };
    let checks: int = if row.checkbox {
        2
    } else {
        0
    };
    if row.submenu && name == "children-display"@ {
        assert(said[labels + 3 + checks] == text_property("children-display"@, "submenu"@));
        lemma_row_value(row, labels + 3 + checks);
    } else {
        lemma_other_names(row, name);
    }
}

/// Two checkboxes whose values differ differ in what a shell reads of them.
pub proof fn unlike_checkboxes_are_told_apart(a: RowView, b: RowView)
    requires
        a.checkbox,
        b.checkbox,
    ensures
        value_of(a.properties(), "toggle-state"@) == value_of(b.properties(), "toggle-state"@)
            <==> a.checked == b.checked,
{
    a_checkbox_exposes_its_value(a);
    a_checkbox_exposes_its_value(b);
}

/// A layout answers a row under its id, with its properties, and goes below it
/// exactly when asked to.
pub proof fn a_node_stands_for_its_row(row: RowView, recurse: bool)
    ensures
        node_of(row, recurse).id == row.id,
        node_of(row, recurse).properties == row.properties(),
        node_of(row, recurse).children.len() == (if recurse {
            row.children.len()
        } else {
            0
        }),
        recurse ==> forall|i: int|
            0 <= i < row.children.len() ==> #[trigger] node_of(row, recurse).children[i] == node_of(
                row.children[i],
                true,
            ),
{
    a_shallow_layout_names_every_row(row.children, true);
    if recurse {
        assert(node_of(row, true).children == root_of(row.children, true).children);
    }
}

/// A layout request for one level leaves out what is nested in the top-level
/// rows; every other request has it all.
pub proof fn only_a_depth_of_one_is_shallow(rows: Seq<RowView>, recursion_depth: i32, i: int)
    requires
        0 <= i < rows.len(),
    ensures
        root_of(rows, recurses(recursion_depth)).children[i].children.len() == (if recursion_depth
            == 1 {
            0
        } else {
            rows[i].children.len()
        }),
{
    a_shallow_layout_names_every_row(rows, recurses(recursion_depth));
    a_node_stands_for_its_row(rows[i], recurses(recursion_depth));
}

/// What a shell reads of a checkbox is the value of the row in the menu: 1 while
/// it is checked and 0 while it is not. Its label is the label of the row, and it
/// is enabled exactly when the row is.
pub proof fn a_shell_reads_each_row_of_the_menu(
    store: StoreView,
    menu: MenuRef,
    recursion_depth: i32,
    i: int,
)
    requires
        nests(store, menu),
        0 <= i < menu_at(store, menu).rows.len(),
    ensures
        ({
            let item = menu_at(store, menu).rows[i].1;
            let root = root_of(shown_rows(store, Some(menu)), recurses(recursion_depth));
            let read = root.children[i].properties;
            &&& root.children.len() == menu_at(store, menu).rows.len()
            &&& value_of(read, "toggle-state"@) == (if !(item is Checkbox) {
                None
            } else if item.state().checked {
                Some(ValueView::Number(1))
            } else {
                Some(ValueView::Number(0))
            })
            &&& value_of(read, "enabled"@) == Some(ValueView::Flag(item.state().enabled))
            &&& value_of(read, "label"@) == (match item.label() {
                Some(label) => Some(ValueView::Text(label)),
                None => None,
            })
            &&& value_of(read, "type"@) == Some(
                ValueView::Text(
                    if item is Separator {
                        "separator"@
                    } else {
                        "standard"@
                    },
                ),
            )
            &&& value_of(read, "children-display"@) == (if item is Submenu {
                Some(ValueView::Text("submenu"@))
            } else {
                None
            })
        }),
{
    let rows = laid_out(store, menu);
    let recurse = recurses(recursion_depth);
    a_layout_says_what_the_menu_holds(store, menu, depth_of(store, menu));
    a_shallow_layout_names_every_row(rows, recurse);
    a_node_stands_for_its_row(rows[i], recurse);
    a_row_exposes_its_label_and_state(rows[i]);
    a_checkbox_exposes_its_value(rows[i]);
    lemma_property_names();
    a_submenu_exposes_that_it_opens(rows[i], "children-display"@);
    assert(root_of(rows, recurse).children[i] == node_of(rows[i], recurse));
}

/// One read of a group answers what two reads of its parts would, one after the
/// other.
pub proof fn groups_are_answered_in_order(
    rows: Seq<RowView>,
    first: Seq<i32>,
    then: Seq<i32>,
    wanted: Seq<String>,
)
    ensures
        grouped(rows, first + then, wanted) == grouped(rows, first, wanted) + grouped(
            rows,
            then,
            wanted,
        ),
    decreases then.len(),
{
    if then.len() == 0 {
        assert(first + then =~= first);
        assert(grouped(rows, first, wanted) + grouped(rows, then, wanted) =~= grouped(
            rows,
            first,
            wanted,
        ));
    } else {
        assert((first + then).drop_last() =~= first + then.drop_last());
        assert((first + then).last() == then.last());
        groups_are_answered_in_order(rows, first, then.drop_last(), wanted);
        assert(grouped(rows, first + then, wanted) =~= grouped(rows, first, wanted) + grouped(
            rows,
            then,
            wanted,
        ));
    }
}

/// An id that addresses no row is passed over; any other is answered with those
/// properties of its row that are asked for, and with all of them when none is
/// named.
pub proof fn a_group_answers_what_is_asked_for(
    rows: Seq<RowView>,
    id: i32,
    wanted: Seq<String>,
    property: PropertyView,
)
    ensures
        ({
            let answer = grouped(rows, seq![id], wanted);
            match addressed(rows, id) {
                None => answer.len() == 0,
                Some(row) => {
                    &&& answer.len() == 1
                    &&& answer[0].0 == id
                    &&& wanted.len() == 0 ==> answer[0].1 == row.properties()
                    &&& answer[0].1.contains(property) <==> row.properties().contains(property) && (
                    wanted.len() == 0 || exists|i: int|
                        0 <= i < wanted.len() && #[trigger] wanted[i]@ == property.name)
                },
            }
        }),
{
    let ids = seq![id];
    assert(ids.drop_last() =~= Seq::empty());
    assert(grouped(rows, ids.drop_last(), wanted) =~= Seq::empty());
    assert(ids.last() == id);
    if let Some(row) = addressed(rows, id) {
        let keep = is_wanted(wanted);
        let said = row.properties();
        lemma_kept(said, keep, property);
        if wanted.len() == 0 {
            lemma_all_wanted(said, keep);
        }
    }
}

proof fn lemma_kept(
    properties: Seq<PropertyView>,
    keep: spec_fn(PropertyView) -> bool,
    property: PropertyView,
)
    ensures
        properties.filter(keep).contains(property) <==> properties.contains(property) && keep(
            property,
        ),
    decreases properties.len(),
{
    reveal(Seq::filter);
    if properties.len() > 0 {
        let head = properties.drop_last();
        let last = properties.last();
        lemma_kept(head, keep, property);
        let kept = head.filter(keep);
        assert(properties == head.push(last));
        if properties.contains(property) {
            let k = choose|k: int| 0 <= k < properties.len() && properties[k] == property;
            if k < head.len() {
                assert(head[k] == property);
            }
        }
        if head.contains(property) {
            let k = choose|k: int| 0 <= k < head.len() && head[k] == property;
            assert(properties[k] == property);
        }
        assert(properties[properties.len() - 1] == last);
        if keep(last) {
            assert(properties.filter(keep) == kept.push(last));
            assert(kept.push(last)[kept.len() as int] == last);
            if kept.contains(property) {
                let k = choose|k: int| 0 <= k < kept.len() && kept[k] == property;
                assert(kept.push(last)[k] == property);
            }
            if kept.push(last).contains(property) && property != last {
                let k = choose|k: int|
                    0 <= k < kept.push(last).len() && kept.push(last)[k] == property;
                assert(kept[k] == property);
            }
        }
    }
}

proof fn lemma_all_wanted(properties: Seq<PropertyView>, keep: spec_fn(PropertyView) -> bool)
    requires
        forall|property: PropertyView| #[trigger] keep(property),
    ensures
        properties.filter(keep) == properties,
    decreases properties.len(),
{
    reveal(Seq::filter);
    if properties.len() > 0 {
        lemma_all_wanted(properties.drop_last(), keep);
        assert(keep(properties.last()));
    }
    assert(properties.filter(keep) =~= properties);
}

/// Whether a click on any row leads to the callback that the row itself carries,
/// and no other event leads anywhere; the same of what is nested in it.
pub open spec fn clicks_lead_home(
    actions: ActionsView,
    store: StoreView,
    all: Seq<RowView>,
    rows: Seq<Row>,
    said: Seq<RowView>,
    depth: nat,
) -> bool
    decreases depth,
{
    &&& said.len() == rows.len()
    &&& forall|i: int|
        0 <= i < rows.len() ==> {
            &&& event_call(actions, all, said[i].id, "clicked"@) == (match (#[trigger] rows[i]).1 {
                ItemView::Text { action, .. } => call_of(actions, action, TrayEvent::Click),
                ItemView::Checkbox { action, .. } => call_of(actions, action, TrayEvent::Click),
                _ => None,
            })
            &&& rows[i].1 is Submenu ==> depth > 0 && clicks_lead_home(
                actions,
                store,
                all,
                menu_at(store, rows[i].1->Submenu_children).rows,
                said[i].children,
                (depth - 1) as nat,
            )
        }
}

proof fn lemma_clicks_lead_home(
    actions: ActionsView,
    store: StoreView,
    all: Seq<RowView>,
    rows: Seq<Row>,
    said: Seq<RowView>,
    depth: nat,
)
    requires
        is_said(store, rows, said, depth),
        forall|row: RowView| #[trigger]
            preorder(said).contains(row) ==> addressed(all, row.id) == Some(row),
    ensures
        clicks_lead_home(actions, store, all, rows, said, depth),
    decreases depth,
{
    assert forall|i: int| 0 <= i < rows.len() implies {
        &&& event_call(actions, all, said[i].id, "clicked"@) == (match (#[trigger] rows[i]).1 {
            ItemView::Text { action, .. } => call_of(actions, action, TrayEvent::Click),
            ItemView::Checkbox { action, .. } => call_of(actions, action, TrayEvent::Click),
            _ => None,
        })
        &&& rows[i].1 is Submenu ==> depth > 0 && clicks_lead_home(
            actions,
            store,
            all,
            menu_at(store, rows[i].1->Submenu_children).rows,
            said[i].children,
            (depth - 1) as nat,
        )
    } by {
        every_row_is_shown(said, i);
        assert(addressed(all, said[i].id) == Some(said[i]));
        if let ItemView::Submenu { children, .. } = rows[i].1 {
            assert forall|row: RowView| #[trigger]
                preorder(said[i].children).contains(row) implies addressed(all, row.id) == Some(
                row,
            ) by {
                assert(preorder(said).contains(row));
            }
            lemma_clicks_lead_home(
                actions,
                store,
                all,
                menu_at(store, children).rows,
                said[i].children,
                (depth - 1) as nat,
            );
        }
    }
}

/// A click that a shell reports of a row, at any depth, calls what that row
/// carries in the menu, as long as ids do not run out.
pub proof fn a_click_calls_what_its_row_carries(
    actions: ActionsView,
    store: StoreView,
    menu: MenuRef,
    depth: nat,
)
    requires
        nests_within(store, menu, depth),
        preorder(laid_out(store, menu)).len() <= i32::MAX,
    ensures
        clicks_lead_home(
            actions,
            store,
            shown_rows(store, Some(menu)),
            menu_at(store, menu).rows,
            laid_out(store, menu),
            (depth - 1) as nat,
        ),
{
    let all = laid_out(store, menu);
    a_layout_says_what_the_menu_holds(store, menu, depth);
    assert forall|row: RowView| #[trigger] preorder(all).contains(row) implies addressed(
        all,
        row.id,
    ) == Some(row) by {
        let k = choose|k: int| 0 <= k < preorder(all).len() && preorder(all)[k] == row;
        ids_are_contiguous_and_address_one_row(store, menu, k);
    }
    lemma_clicks_lead_home(
        actions,
        store,
        all,
        menu_at(store, menu).rows,
        all,
        (depth - 1) as nat,
    );
}

/// Nothing but a click leads to a call, and none does without a menu.
pub proof fn only_a_click_leads_to_a_call(
    actions: ActionsView,
    store: StoreView,
    menu: Option<MenuRef>,
    id: i32,
    event_id: Seq<char>,
)
    ensures
        event_id != "clicked"@ || menu is None ==> event_call(
            actions,
            shown_rows(store, menu),
            id,
            event_id,
        ) is None,
{
    assert(preorder(Seq::empty()) =~= Seq::empty());
}

/// A revision grows until it has reached the largest one, and never falls.
pub proof fn revisions_grow(revision: u32)
    ensures
        later_revision(revision) >= revision,
        revision < u32::MAX ==> later_revision(revision) == revision + 1,
{
}

/// A refused read says what is missing: the menu, the row or the property, the
/// last two with the id.
pub proof fn a_refused_read_says_what_is_missing(
    menu: Option<MenuRef>,
    rows: Seq<RowView>,
    id: i32,
    name: Seq<char>,
)
    ensures
        ({
            let text = property_refusal(menu, rows, id, name);
            let number = signed_decimal(id as int);
            &&& menu is None ==> text == "no menu is attached; cannot read '"@ + name + "'"@
            &&& menu is Some && addressed(rows, id) is None ==> text == "unknown menu item id "@
                + number
            &&& menu is Some && addressed(rows, id) is Some ==> text == "item "@ + number
                + " has no property '"@ + name + "'"@
        }),
{
}

/// The properties that are handed to a shell say the kind, the label and the
/// state of the row, and of a checkbox its value: 1 while it is checked and 0
/// while it is not.
pub proof fn a_row_hands_out_what_it_shows(row: MenuRow, properties: Vec<Property>)
    requires
        call_ensures(MenuRow::properties, (&row,), properties),
    ensures
        ({
            let read = properties_view(properties@);
            &&& value_of(read, "toggle-state"@) == (if !row.checkbox {
                None
            } else if row.checked {
                Some(ValueView::Number(1))
            } else {
                Some(ValueView::Number(0))
            })
            &&& value_of(read, "enabled"@) == Some(ValueView::Flag(row.enabled))
            &&& value_of(read, "visible"@) == Some(ValueView::Flag(true))
            &&& row.label is Some ==> value_of(read, "label"@) == Some(
                ValueView::Text(row.label->0@),
            )
            &&& row.label is None ==> value_of(read, "label"@) is None
            &&& value_of(read, "type"@) == Some(
                ValueView::Text(
                    if row.separator {
                        "separator"@
                    } else {
                        "standard"@
                    },
                ),
            )
        }),
{
    a_row_exposes_its_label_and_state(row@);
    a_checkbox_exposes_its_value(row@);
}

/// A layout is answered under the current revision: the rows of the menu under
/// the root's id, each with what it shows, or no rows without a menu.
pub proof fn a_layout_is_the_menu_under_its_revision(
    interface: DBusMenuInterface,
    store: MenuStore,
    menu: Option<MenuRef>,
    recursion_depth: i32,
    layout: (u32, MenuNode),
    i: int,
)
    requires
        call_ensures(
            DBusMenuInterface::get_layout,
            (&interface, &store, menu, recursion_depth),
            layout,
        ),
        can_show(store@, menu),
    ensures
        layout.0 == interface@,
        layout.1@.id == 0,
        layout.1@.properties.len() == 0,
        menu is None ==> layout.1@.children.len() == 0,
        menu matches Some(m) ==> layout.1@.children.len() == menu_at(store@, m).rows.len(),
        menu is Some && 0 <= i < menu_at(store@, menu->0).rows.len() ==> {
            let item = menu_at(store@, menu->0).rows[i].1;
            let read = layout.1@.children[i].properties;
            &&& item is Checkbox ==> value_of(read, "toggle-state"@) == Some(
                ValueView::Number(
                    if item.state().checked {
                        1
                    } else {
                        0
                    },
                ),
            )
            &&& value_of(read, "enabled"@) == Some(ValueView::Flag(item.state().enabled))
            &&& item.label() matches Some(label) ==> value_of(read, "label"@) == Some(
                ValueView::Text(label),
            )
            &&& recursion_depth == 1 ==> layout.1@.children[i].children.len() == 0
            &&& recursion_depth != 1 && item is Submenu ==> layout.1@.children[i].children.len()
                == menu_at(store@, item->Submenu_children).rows.len()
        },
{
    match menu {
        None => {
            assert(nodes_of(Seq::empty(), recurses(recursion_depth)) =~= Seq::empty());
        },
        Some(m) => {
            let rows = laid_out(store@, m);
            a_layout_says_what_the_menu_holds(store@, m, depth_of(store@, m));
            a_shallow_layout_names_every_row(rows, recurses(recursion_depth));
            if 0 <= i < menu_at(store@, m).rows.len() {
                a_shell_reads_each_row_of_the_menu(store@, m, recursion_depth, i);
                only_a_depth_of_one_is_shallow(rows, recursion_depth, i);
                let depth = (depth_of(store@, m) - 1) as nat;
                let item = menu_at(store@, m).rows[i].1;
                if let ItemView::Submenu { children, .. } = item {
                    assert(is_said(
                        store@,
                        menu_at(store@, children).rows,
                        rows[i].children,
                        (depth - 1) as nat,
                    ));
                }
            }
        },
    }
}

/// A property that is read is the one the row shows; a refusal says what is
/// missing, and comes exactly when the menu, the row or the property is.
pub proof fn a_property_is_read_as_shown(
    interface: DBusMenuInterface,
    store: MenuStore,
    menu: MenuRef,
    k: int,
    name: &str,
    res: Result<PropertyValue, String>,
)
    requires
        nests(store@, menu),
        preorder(laid_out(store@, menu)).len() <= i32::MAX,
        0 <= k < preorder(laid_out(store@, menu)).len(),
        call_ensures(
            DBusMenuInterface::get_property,
            (&interface, &store, Some(menu), (k + 1) as i32, name),
            res,
        ),
    ensures
        ({
            let row = preorder(laid_out(store@, menu))[k];
            &&& res is Ok <==> value_of(row.properties(), name@) is Some
            &&& res matches Ok(value) ==> value_of(row.properties(), name@) == Some(value@)
            &&& name@ == "toggle-state"@ && row.checkbox ==> (res matches Ok(value) && value@
                == ValueView::Number(
                if row.checked {
                    1
                } else {
                    0
                },
            ))
            &&& name@ == "enabled"@ ==> (res matches Ok(value) && value@ == ValueView::Flag(
                row.enabled,
            ))
        }),
{
    ids_are_contiguous_and_address_one_row(store@, menu, k);
    let row = preorder(laid_out(store@, menu))[k];
    a_checkbox_exposes_its_value(row);
    a_row_exposes_its_label_and_state(row);
}

/// A shell is told to read the layout again exactly when another menu was attached
/// or the rows are others than it was last told of; the revision grows with every
/// announcement, and afterwards nothing is left to announce.
pub proof fn an_announcement_brings_the_shell_up_to_date(
    interface: &mut DBusMenuInterface,
    store: MenuStore,
    menu: Option<MenuRef>,
    attached: bool,
    revision: Option<u32>,
    later: DBusMenuInterface,
    stale: bool,
)
    requires
        can_show(store@, menu),
        call_ensures(DBusMenuInterface::announce, (interface, &store, menu, attached), revision),
        later == *final(interface),
        call_ensures(DBusMenuInterface::is_stale, (&later, &store, menu), stale),
    ensures
        attached ==> revision is Some,
        !attached ==> (revision is Some <==> shown_rows(store@, menu)
            != old(interface).announced()),
        revision matches Some(r) ==> r == final(interface)@ && r >= old(interface)@ && (old(
            interface,
        )@ < u32::MAX ==> r == old(interface)@ + 1),
        revision is None ==> final(interface)@ == old(interface)@,
        !stale,
{
}

/// A click on a row calls what the row carries, and any other event calls nothing.
pub proof fn a_reported_click_calls_its_row(
    interface: DBusMenuInterface,
    store: MenuStore,
    actions: ActionStore,
    menu: MenuRef,
    k: int,
    event_id: &str,
    call: Option<TrayCall>,
)
    requires
        nests(store@, menu),
        preorder(laid_out(store@, menu)).len() <= i32::MAX,
        0 <= k < preorder(laid_out(store@, menu)).len(),
        call_ensures(
            DBusMenuInterface::event,
            (&interface, &store, &actions, Some(menu), (k + 1) as i32, event_id),
            call,
        ),
    ensures
        event_id@ == "clicked"@ ==> call == call_of(
            actions@,
            preorder(laid_out(store@, menu))[k].action,
            TrayEvent::Click,
        ),
        event_id@ != "clicked"@ ==> call is None,
{
    ids_are_contiguous_and_address_one_row(store@, menu, k);
}

/// A group read answers the known ids in the order they were asked for, each under
/// its own id, and nothing without a menu.
pub proof fn a_group_read_answers_known_ids(
    interface: DBusMenuInterface,
    store: MenuStore,
    menu: Option<MenuRef>,
    ids: Vec<i32>,
    names: Vec<String>,
    groups: Vec<(i32, Vec<Property>)>,
)
    requires
        can_show(store@, menu),
        call_ensures(
            DBusMenuInterface::get_group_properties,
            (&interface, &store, menu, &ids, &names),
            groups,
        ),
    ensures
        menu is None ==> groups@.len() == 0,
        menu matches Some(m) ==> groups_view(groups@) == grouped(
            laid_out(store@, m),
            ids@,
            names@,
        ),
        menu matches Some(m) ==> (forall|i: int|
            0 <= i < ids@.len() ==> addressed(laid_out(store@, m), #[trigger] ids@[i]) is Some)
            ==> groups@.len() == ids@.len(),
{
    if let Some(m) = menu {
        let rows = laid_out(store@, m);
        assert(groups_view(groups@).len() == groups@.len());
        if forall|i: int| 0 <= i < ids@.len() ==> addressed(rows, #[trigger] ids@[i]) is Some {
            lemma_all_answered(rows, ids@, names@);
        }
    }
}

proof fn lemma_all_answered(rows: Seq<RowView>, ids: Seq<i32>, wanted: Seq<String>)
    requires
        forall|i: int| 0 <= i < ids.len() ==> addressed(rows, #[trigger] ids[i]) is Some,
    ensures
        grouped(rows, ids, wanted).len() == ids.len(),
        forall|i: int| 0 <= i < ids.len() ==> (#[trigger] grouped(rows, ids, wanted)[i]).0 == ids[i],
    decreases ids.len(),
{
    if ids.len() > 0 {
        let head = ids.drop_last();
        assert forall|i: int| 0 <= i < head.len() implies addressed(
            rows,
            #[trigger] head[i],
        ) is Some by {
            assert(head[i] == ids[i]);
        }
        lemma_all_answered(rows, head, wanted);
        assert(addressed(rows, ids[ids.len() - 1]) is Some);
        assert forall|i: int| 0 <= i < ids.len() implies (#[trigger] grouped(
            rows,
            ids,
            wanted,
        )[i]).0 == ids[i] by {
            if i < head.len() {
                assert(grouped(rows, ids, wanted)[i] == grouped(rows, head, wanted)[i]);
            }
        }
    }
}

} // verus!
