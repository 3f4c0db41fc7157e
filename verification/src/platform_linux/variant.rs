//! Values as the D-Bus variants that travel to a shell, and back from a portal.

use crate::platform_linux::appearance::ProbeAnswer;
use crate::platform_linux::dbusmenu::RowView;
use crate::platform_linux::dbusmenu_export::{
    nodes_view, properties_view, property_names_are_distinct, MenuNode, NodeView, Property,
    PropertyValue, PropertyView, ValueView,
};
use std::collections::HashMap;
use vstd::prelude::*;

verus! {

// ---------------------------------------------------------------------------
// Variants
// ---------------------------------------------------------------------------
/// A D-Bus variant that owns its contents, `zvariant::OwnedValue`.
#[verifier::external_type_specification]
#[verifier::external_body]
pub struct ExOwnedValue(zvariant::OwnedValue);

/// What a variant holds, as far as it matters here.
#[verifier::ext_equal]
pub enum VariantView {
    /// A string, a boolean or a signed 32-bit integer.
    Value(ValueView),
    /// A byte.
    Byte(u8),
    /// An unsigned 32-bit integer, bare or inside one further variant.
    Unsigned(u32),
    /// What a menu node carries behind its properties.
    Children(ChildrenView),
    /// Anything else.
    Other,
}

/// What a menu node carries behind its properties.
#[verifier::ext_equal]
pub enum ChildrenView {
    /// A structure without fields: nothing at all.
    Empty,
    /// A list of menu nodes.
    Nodes(Seq<ChildView>),
}

/// A menu node inside a variant.
#[verifier::ext_equal]
pub struct ChildView {
    /// The id of the node.
    pub id: i32,
    /// Its properties by name.
    pub properties: Map<Seq<char>, ValueView>,
    /// What it carries behind them.
    pub children: ChildrenView,
}

/// What a variant holds.
pub uninterp spec fn contents(variant: zvariant::OwnedValue) -> VariantView;

/// Make a string variant with `zvariant::Value::from` and own it with
/// `zvariant::Value::try_to_owned`: it holds the text. Owning fails for file
/// descriptors only, so there always is a result.
#[verifier::external_body]
fn own_text(text: &str) -> (variant: Option<zvariant::OwnedValue>)
    ensures
        variant is Some,
        contents(variant->0) == VariantView::Value(ValueView::Text(text@)),
{
    zvariant::Value::from(text).try_to_owned().ok()
}

/// Make a boolean variant with `zvariant::Value::from` and own it with
/// `zvariant::Value::try_to_owned`: it holds the flag, and there always is a
/// result.
#[verifier::external_body]
fn own_flag(flag: bool) -> (variant: Option<zvariant::OwnedValue>)
    ensures
        variant is Some,
        contents(variant->0) == VariantView::Value(ValueView::Flag(flag)),
{
    zvariant::Value::from(flag).try_to_owned().ok()
}

/// Make a signed 32-bit integer variant with `zvariant::Value::from` and own it
/// with `zvariant::Value::try_to_owned`: it holds the number, and there always is
/// a result.
#[verifier::external_body]
fn own_number(number: i32) -> (variant: Option<zvariant::OwnedValue>)
    ensures
        variant is Some,
        contents(variant->0) == VariantView::Value(ValueView::Number(number)),
{
    zvariant::Value::from(number).try_to_owned().ok()
}

/// Make a byte variant with `zvariant::Value::from` and own it with
/// `zvariant::Value::try_to_owned`: it holds the byte, and there always is a
/// result.
#[verifier::external_body]
fn own_byte(byte: u8) -> (variant: Option<zvariant::OwnedValue>)
    ensures
        variant is Some,
        contents(variant->0) == VariantView::Byte(byte),
{
    zvariant::Value::from(byte).try_to_owned().ok()
}

/// Make a structure without fields with `zvariant::StructureBuilder` and own it
/// with `zvariant::Value::try_to_owned`: it holds nothing, and there always is a
/// result.
#[verifier::external_body]
fn own_nothing() -> (variant: Option<zvariant::OwnedValue>)
    ensures
        variant is Some,
        contents(variant->0) == VariantView::Children(ChildrenView::Empty),
{
    zvariant::Value::from(zvariant::StructureBuilder::new().build()).try_to_owned().ok()
}

/// Read an unsigned 32-bit integer with `zvariant::Value::downcast_ref`. It looks
/// through one further variant, and refuses every other type.
#[verifier::external_body]
fn unsigned_in(variant: &zvariant::OwnedValue) -> (number: Option<u32>)
    ensures
        number == (match contents(*variant) {
            VariantView::Unsigned(number) => Some(number),
            _ => None,
        }),
{
    variant.downcast_ref::<u32>().ok()
}

// ---------------------------------------------------------------------------
// Properties and hints
// ---------------------------------------------------------------------------
/// What named variants hold.
pub open spec fn named_view(variants: Seq<(String, zvariant::OwnedValue)>) -> Seq<
    (Seq<char>, VariantView),
> {
    variants.map_values(|named: (String, zvariant::OwnedValue)| (named.0@, contents(named.1)))
}

/// Properties as named variants.
pub open spec fn variants_of(properties: Seq<PropertyView>) -> Seq<(Seq<char>, VariantView)> {
    properties.map_values(
        |property: PropertyView| (property.name, VariantView::Value(property.value)),
    )
}

/// One property value as a variant: a text as a string, a flag as a boolean and
/// a number as a signed 32-bit integer.
pub fn property_variant(value: &PropertyValue) -> (variant: zvariant::OwnedValue)
    ensures
        contents(variant) == VariantView::Value(value@),
{
    let variant = match value {
        PropertyValue::Text(text) => own_text(text.as_str()),
        PropertyValue::Flag(flag) => own_flag(*flag),
        PropertyValue::Number(number) => own_number(*number),
    };
    variant.unwrap()
}

/// The hints of a notification request: its urgency as a byte, where it is told.
pub fn notification_hints(urgency: Option<u8>) -> (hints: Vec<(String, zvariant::OwnedValue)>)
    ensures
        named_view(hints@) == (match urgency {
            Some(level) => seq![("urgency"@, VariantView::Byte(level))],
            None => Seq::empty(),
        }),
{
    let mut hints: Vec<(String, zvariant::OwnedValue)> = Vec::new();
    if let Some(level) = urgency {
        hints.push(("urgency".to_owned(), own_byte(level).unwrap()));
    }
    proof {
        match urgency {
            Some(level) => {
                assert(named_view(hints@) =~= seq![("urgency"@, VariantView::Byte(level))]);
            },
            None => {
                assert(named_view(hints@) =~= Seq::empty());
            },
        }
    }
    hints
}

/// Own the properties of a row so that they can travel over D-Bus.
pub fn owned_props(properties: &Vec<Property>) -> (variants: Vec<(String, zvariant::OwnedValue)>)
    ensures
        named_view(variants@) == variants_of(properties_view(properties@)),
{
    let mut variants: Vec<(String, zvariant::OwnedValue)> = Vec::new();
    let mut i: usize = 0;
    while i < properties.len()
        invariant
            i <= properties.len(),
            named_view(variants@) == variants_of(properties_view(properties@).take(i as int)),
        decreases properties.len() - i,
    {
        let ghost before = variants@;
        let variant = property_variant(&properties[i].value);
        variants.push((properties[i].name.clone(), variant));
        proof {
            let said = properties_view(properties@);
            let added = (said[i as int].name, VariantView::Value(said[i as int].value));
            assert(named_view(variants@) =~= named_view(before).push(added));
            assert(said.take(i as int + 1) =~= said.take(i as int).push(said[i as int]));
            assert(variants_of(said.take(i as int + 1)) =~= variants_of(said.take(i as int)).push(
                added,
            ));
        }
        i = i + 1;
    }
    proof {
        assert(properties_view(properties@).take(i as int) =~= properties_view(properties@));
    }
    variants
}

/// What a settings portal answered: a number, or nothing to go by.
pub fn portal_answer(value: &zvariant::OwnedValue) -> (answer: ProbeAnswer)
    ensures
        answer == (match contents(*value) {
            VariantView::Unsigned(number) => ProbeAnswer::Number(number),
            _ => ProbeAnswer::Silent,
        }),
{
    match unsigned_in(value) {
        Some(number) => ProbeAnswer::Number(number),
        None => ProbeAnswer::Silent,
    }
}

// ---------------------------------------------------------------------------
// Layouts
// ---------------------------------------------------------------------------
/// A menu node below the root, ready for D-Bus: what it carries is a variant of
/// its own.
#[derive(Debug)]
pub struct WireChild {
    pub id: i32,
    pub properties: Vec<(String, zvariant::OwnedValue)>,
    pub children: zvariant::OwnedValue,
}

/// The root of a layout, ready for D-Bus.
#[derive(Debug)]
pub struct WireNode {
    pub id: i32,
    pub properties: Vec<(String, zvariant::OwnedValue)>,
    pub children: Vec<WireChild>,
    /// Icon data; there is none.
    pub data: zvariant::OwnedValue,
}

/// Properties by name; a later one replaces an earlier one.
pub open spec fn by_name(named: Seq<(Seq<char>, VariantView)>) -> Map<Seq<char>, ValueView>
    decreases named.len(),
{
    if named.len() == 0 {
        Map::empty()
    } else {
        by_name(named.drop_last()).insert(named.last().0, named.last().1->Value_0)
    }
}

impl WireChild {
    /// What the node holds.
    pub open spec fn said(self) -> ChildView {
        ChildView {
            id: self.id,
            properties: by_name(named_view(self.properties@)),
            children: contents(self.children)->Children_0,
        }
    }

    /// Whether its properties are property values and it carries nothing but
    /// further nodes.
    pub open spec fn is_plain(self) -> bool {
        &&& contents(self.children) is Children
        &&& forall|i: int|
            0 <= i < self.properties@.len() ==> (#[trigger] named_view(self.properties@)[i]).1
                is Value
    }
}

/// What nodes hold.
pub open spec fn children_said(children: Seq<WireChild>) -> Seq<ChildView> {
    children.map_values(|child: WireChild| child.said())
}

/// Pack a list of nodes, each a structure of its id, its properties as a
/// dictionary and its further variant, with `zvariant::Value::new`, and own it
/// with `zvariant::Value::try_to_owned`: it holds the nodes. Owning fails for
/// file descriptors only, and there are none in plain nodes.
#[verifier::external_body]
fn own_children(children: Vec<WireChild>) -> (variant: Option<zvariant::OwnedValue>)
    requires
        forall|i: int| 0 <= i < children@.len() ==> (#[trigger] children@[i]).is_plain(),
    ensures
        variant is Some,
        contents(variant->0) == VariantView::Children(
            ChildrenView::Nodes(children_said(children@)),
        ),
{
    let nodes: Vec<(i32, HashMap<String, zvariant::OwnedValue>, zvariant::OwnedValue)> = children
        .into_iter()
        .map(|child| (child.id, child.properties.into_iter().collect(), child.children))
        .collect();
    zvariant::Value::new(nodes).try_to_owned().ok()
}

/// A layout node as a node inside a variant.
pub open spec fn wire_child(node: NodeView) -> ChildView
    decreases node,
{
    ChildView {
        id: node.id,
        properties: by_name(variants_of(node.properties)),
        children: ChildrenView::Nodes(wire_children(node.children)),
    }
}

/// Layout nodes as nodes inside a variant.
pub open spec fn wire_children(nodes: Seq<NodeView>) -> Seq<ChildView>
    decreases nodes,
{
    if nodes.len() == 0 {
        Seq::empty()
    } else {
        wire_children(nodes.drop_last()).push(wire_child(nodes.last()))
    }
}

/// Encode a node below the root.
fn encode_child(node: &MenuNode) -> (child: WireChild)
    ensures
        child.is_plain(),
        child.said() == wire_child(node@),
    decreases node, 0nat,
{
    let children = own_children(encode_children(&node.children)).unwrap();
    let child = WireChild { id: node.id, properties: owned_props(&node.properties), children };
    proof {
        let named = named_view(child.properties@);
        assert(named.len() == child.properties@.len());
        assert forall|i: int| 0 <= i < child.properties@.len() implies (#[trigger] named[i]).1
            is Value by {
            assert(named[i] == variants_of(node@.properties)[i]);
        }
    }
    child
}

/// Encode nodes below the root.
fn encode_children(nodes: &Vec<MenuNode>) -> (children: Vec<WireChild>)
    ensures
        forall|i: int| 0 <= i < children@.len() ==> (#[trigger] children@[i]).is_plain(),
        children_said(children@) == wire_children(nodes_view(nodes@)),
    decreases nodes, 1nat,
{
    let ghost all = nodes_view(nodes@);
    let mut children: Vec<WireChild> = Vec::new();
    let mut i: usize = 0;
    proof {
        crate::platform_linux::dbusmenu_export::lemma_nodes_view(nodes@);
        assert(all.take(0) =~= Seq::empty());
        assert(children_said(children@) =~= Seq::empty());
    }
    while i < nodes.len()
        invariant
            i <= nodes.len(),
            all == nodes_view(nodes@),
            all.len() == nodes@.len(),
            forall|j: int| 0 <= j < nodes@.len() ==> #[trigger] all[j] == nodes@[j]@,
            forall|j: int| 0 <= j < children@.len() ==> (#[trigger] children@[j]).is_plain(),
            children_said(children@) == wire_children(all.take(i as int)),
        decreases nodes.len() - i,
    {
        let ghost before = children@;
        let child = encode_child(&nodes[i]);
        children.push(child);
        proof {
            assert(children_said(children@) =~= children_said(before).push(child.said()));
            assert(all.take(i as int + 1).drop_last() =~= all.take(i as int));
            assert(all.take(i as int + 1).last() == all[i as int]);
        }
        i = i + 1;
    }
    proof {
        assert(all.take(i as int) =~= all);
    }
    children
}

/// Encode a layout for D-Bus: the root with its nodes, each of which carries its
/// own nodes as a variant.
pub fn encode_layout(root: &MenuNode) -> (wire: WireNode)
    ensures
        wire.id == root@.id,
        named_view(wire.properties@) == variants_of(root@.properties),
        children_said(wire.children@) == wire_children(root@.children),
        contents(wire.data) == VariantView::Children(ChildrenView::Empty),
{
    WireNode {
        id: root.id,
        properties: owned_props(&root.properties),
        children: encode_children(&root.children),
        data: own_nothing().unwrap(),
    }
}

proof fn lemma_by_name(named: Seq<(Seq<char>, VariantView)>, i: int)
    requires
        0 <= i < named.len(),
        forall|j: int, k: int|
            0 <= j < k < named.len() ==> (#[trigger] named[j]).0 != (#[trigger] named[k]).0,
    ensures
        by_name(named).contains_key(named[i].0),
        by_name(named)[named[i].0] == named[i].1->Value_0,
    decreases named.len(),
{
    if i < named.len() - 1 {
        let rest = named.drop_last();
        assert forall|j: int, k: int| 0 <= j < k < rest.len() implies (#[trigger] rest[j]).0 != (
        #[trigger] rest[k]).0 by {
            assert(named[j].0 != named[k].0);
        }
        lemma_by_name(rest, i);
        assert(rest[i] == named[i]);
        assert(named[i].0 != named[named.len() - 1].0);
    }
}

/// No property of a row is lost when the row is packed into a variant.
pub proof fn packing_keeps_every_property(row: RowView, i: int)
    requires
        0 <= i < row.properties().len(),
    ensures
        by_name(variants_of(row.properties())).contains_key(row.properties()[i].name),
        by_name(variants_of(row.properties()))[row.properties()[i].name]
            == row.properties()[i].value,
{
    let named = variants_of(row.properties());
    assert forall|j: int, k: int| 0 <= j < k < named.len() implies (#[trigger] named[j]).0 != (
    #[trigger] named[k]).0 by {
        property_names_are_distinct(row, j, k);
    }
    lemma_by_name(named, i);
}

/// A packed property is one of the row: under a name that the row does not expose
/// there is nothing.
pub proof fn packing_adds_no_property(named: Seq<(Seq<char>, VariantView)>, name: Seq<char>)
    requires
        forall|i: int| 0 <= i < named.len() ==> (#[trigger] named[i]).0 != name,
    ensures
        !by_name(named).contains_key(name),
    decreases named.len(),
{
    if named.len() > 0 {
        let rest = named.drop_last();
        assert forall|i: int| 0 <= i < rest.len() implies (#[trigger] rest[i]).0 != name by {
            assert(rest[i] == named[i]);
        }
        packing_adds_no_property(rest, name);
        assert(named[named.len() - 1].0 != name);
    }
}

/// Packing keeps the tree of a layout: every node under its id, its properties by
/// name, and the nodes below it in their order.
pub proof fn packing_keeps_the_tree(nodes: Seq<NodeView>, i: int)
    requires
        0 <= i < nodes.len(),
    ensures
        wire_children(nodes).len() == nodes.len(),
        wire_children(nodes)[i].id == nodes[i].id,
        wire_children(nodes)[i].properties == by_name(variants_of(nodes[i].properties)),
        wire_children(nodes)[i].children == ChildrenView::Nodes(wire_children(nodes[i].children)),
    decreases nodes.len(),
{
    let rest = nodes.drop_last();
    lemma_as_many_children(nodes);
    lemma_as_many_children(rest);
    assert(wire_children(nodes) == wire_children(rest).push(wire_child(nodes.last())));
    if i < nodes.len() - 1 {
        packing_keeps_the_tree(rest, i);
        assert(rest[i] == nodes[i]);
    } else {
        assert(wire_child(nodes.last()).id == nodes[i].id);
    }
}

proof fn lemma_as_many_children(nodes: Seq<NodeView>)
    ensures
        wire_children(nodes).len() == nodes.len(),
    decreases nodes.len(),
{
    if nodes.len() > 0 {
        lemma_as_many_children(nodes.drop_last());
    }
}

/// A checkbox arrives at the shell with the toggle state 1 while it is checked
/// and 0 while it is not.
pub proof fn a_packed_checkbox_keeps_its_value(row: RowView)
    requires
        row.checkbox,
    ensures
        by_name(variants_of(row.properties())).contains_key("toggle-state"@),
        by_name(variants_of(row.properties()))["toggle-state"@] == ValueView::Number(
            if row.checked {
                1
            } else {
                0
            },
        ),
{
    let labels: int = if row.label is Some {
        1
    } else {
        0
    };
    assert(row.properties()[labels + 4].name == "toggle-state"@);
    packing_keeps_every_property(row, labels + 4);
}

/// The urgency of a notification travels as one byte under its name, and not at
/// all where it is not told.
pub proof fn an_urgency_travels_as_a_byte(
    urgency: Option<u8>,
    hints: Vec<(String, zvariant::OwnedValue)>,
)
    requires
        call_ensures(notification_hints, (urgency,), hints),
    ensures
        urgency is None ==> hints@.len() == 0,
        urgency matches Some(level) ==> hints@.len() == 1 && hints@[0].0@ == "urgency"@ && contents(
            hints@[0].1,
        ) == VariantView::Byte(level),
{
    let said = named_view(hints@);
    assert(said.len() == hints@.len());
    if urgency is Some {
        assert(said[0] == (hints@[0].0@, contents(hints@[0].1)));
    }
}

/// A layout arrives under its id, with as many nodes as it has, and no icon data;
/// a portal's answer is the unsigned number it holds, and silence otherwise.
pub proof fn a_layout_arrives_whole(
    root: MenuNode,
    wire: WireNode,
    value: zvariant::OwnedValue,
    answer: ProbeAnswer,
)
    requires
        call_ensures(encode_layout, (&root,), wire),
        call_ensures(portal_answer, (&value,), answer),
    ensures
        wire.id == root@.id,
        wire.children@.len() == root@.children.len(),
        wire.properties@.len() == root@.properties.len(),
        children_said(wire.children@) == wire_children(root@.children),
        contents(value) matches VariantView::Unsigned(n) ==> answer == ProbeAnswer::Number(n),
        !(contents(value) is Unsigned) ==> answer == ProbeAnswer::Silent,
{
    lemma_as_many_children(root@.children);
    assert(children_said(wire.children@).len() == wire.children@.len());
    assert(named_view(wire.properties@).len() == wire.properties@.len());
    assert(variants_of(root@.properties).len() == root@.properties.len());
}

} // verus!
