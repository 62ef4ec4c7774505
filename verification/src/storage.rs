//! Packed graph storage: nodes, values, attributes and edges in flat pools,
//! with identifiers that are positions in them.

use vstd::prelude::*;
use vstd::utf8::{decode_utf8, encode_utf8, valid_utf8};
use std::collections::HashMap;
use crate::base::{TypeModel, TypeTag};
use crate::bytes::{le_bytes, le_value, push_le8, read_le, signed, unsigned, utf8_str};

verus! {

/// The fixed part of a node: its operator number and where its inputs,
/// outputs and attributes stand in the pools.
#[derive(Debug, Clone, Copy, Default)]
pub struct NodeHeader {
    pub op_tag: u8,
    pub inputs_off: u32,
    pub inputs_len: u32,
    pub outputs_off: u32,
    pub outputs_len: u32,
    pub attrs_off: u32,
    pub attrs_len: u32,
    pub parent_region: u32,
}

/// The fixed part of a value: its type number, where its shape and its name
/// stand in the pools, and the node that defines it.
#[derive(Debug, Clone, Copy, Default)]
pub struct ValueHeader {
    pub type_tag: u8,
    pub rank: u8,
    pub shape_off: u32,
    pub name_off: u32,
    pub def_node: u32,
}

/// What an attribute is about.
#[derive(Debug, Clone, Copy, PartialEq, Eq, Hash, Structural)]
pub enum AttrKey {
    Strides,
    Padding,
    Dilation,
    Groups,
    Axis,
    Alpha,
    Beta,
    TransposeA,
    TransposeB,
    Epsilon,
    Shape,
    /// The value of a constant node.
    Value,
    /// The axis order of a transposition.
    Perm,
    Custom,
}

impl AttrKey {
    /// The number that stands for the key in an entry.
    pub open spec fn tag(self) -> u8 {
        match self {
            AttrKey::Strides => 0,
            AttrKey::Padding => 1,
            AttrKey::Dilation => 2,
            AttrKey::Groups => 3,
            AttrKey::Axis => 4,
            AttrKey::Alpha => 5,
            AttrKey::Beta => 6,
            AttrKey::TransposeA => 7,
            AttrKey::TransposeB => 8,
            AttrKey::Epsilon => 9,
            AttrKey::Shape => 10,
            AttrKey::Value => 11,
            AttrKey::Perm => 12,
            AttrKey::Custom => 255,
        }
    }

    pub fn code(self) -> (r: u8)
        ensures
            r == self.tag(),
    {
        match self {
            AttrKey::Strides => 0,
            AttrKey::Padding => 1,
            AttrKey::Dilation => 2,
            AttrKey::Groups => 3,
            AttrKey::Axis => 4,
            AttrKey::Alpha => 5,
            AttrKey::Beta => 6,
            AttrKey::TransposeA => 7,
            AttrKey::TransposeB => 8,
            AttrKey::Epsilon => 9,
            AttrKey::Shape => 10,
            AttrKey::Value => 11,
            AttrKey::Perm => 12,
            AttrKey::Custom => 255,
        }
    }

    pub fn from_u8(v: u8) -> (r: Option<Self>)
        ensures
            match r {
                Some(k) => k.tag() == v,
                None => forall|k: AttrKey| k.tag() != v,
            },
    {
        match v {
            0 => Some(AttrKey::Strides),
            1 => Some(AttrKey::Padding),
            2 => Some(AttrKey::Dilation),
            3 => Some(AttrKey::Groups),
            4 => Some(AttrKey::Axis),
            5 => Some(AttrKey::Alpha),
            6 => Some(AttrKey::Beta),
            7 => Some(AttrKey::TransposeA),
            8 => Some(AttrKey::TransposeB),
            9 => Some(AttrKey::Epsilon),
            10 => Some(AttrKey::Shape),
            11 => Some(AttrKey::Value),
            12 => Some(AttrKey::Perm),
            255 => Some(AttrKey::Custom),
            _ => None,
        }
    }
}

/// Different attribute keys have different numbers.
pub proof fn attr_key_injective(a: AttrKey, b: AttrKey)
    requires
        a.tag() == b.tag(),
    ensures
        a == b,
{
}

/// How the data of an attribute is laid out.
#[derive(Debug, Clone, Copy, PartialEq, Eq, Structural)]
pub enum AttrTag {
    Int,
    Float,
    Bool,
    IntArray,
    FloatArray,
}

impl AttrTag {
    /// The number that stands for the layout in an entry.
    pub open spec fn tag(self) -> u8 {
        match self {
            AttrTag::Int => 0,
            AttrTag::Float => 1,
            AttrTag::Bool => 2,
            AttrTag::IntArray => 3,
            AttrTag::FloatArray => 4,
        }
    }

    pub fn code(self) -> (r: u8)
        ensures
            r == self.tag(),
    {
        match self {
            AttrTag::Int => 0,
            AttrTag::Float => 1,
            AttrTag::Bool => 2,
            AttrTag::IntArray => 3,
            AttrTag::FloatArray => 4,
        }
    }

    pub fn from_u8(v: u8) -> (r: Option<Self>)
        ensures
            match r {
                Some(k) => k.tag() == v,
                None => forall|k: AttrTag| k.tag() != v,
            },
    {
        match v {
            0 => Some(AttrTag::Int),
            1 => Some(AttrTag::Float),
            2 => Some(AttrTag::Bool),
            3 => Some(AttrTag::IntArray),
            4 => Some(AttrTag::FloatArray),
            _ => None,
        }
    }
}

/// Different attribute layouts have different numbers.
pub proof fn attr_tag_injective(a: AttrTag, b: AttrTag)
    requires
        a.tag() == b.tag(),
    ensures
        a == b,
{
}

/// An attribute: its key, its layout, and where its data stands.
#[derive(Debug, Clone, Copy, Default)]
pub struct AttrEntry {
    pub key: u8,
    pub tag: u8,
    pub data_off: u32,
    pub data_len: u32,
}

/// The packed pools of a graph.
#[derive(Debug)]
pub struct StorageGraph {
    pub node_hdr: Vec<NodeHeader>,
    pub value_hdr: Vec<ValueHeader>,
    pub edges: Vec<u32>,
    pub attrs: Vec<AttrEntry>,
    pub attr_data: Vec<u8>,
    pub shape_data: Vec<i64>,
    pub name_data: Vec<u8>,
    pub custom_keys: HashMap<u32, String>,
    pub inputs: Vec<u32>,
    pub outputs: Vec<u32>,
}

/// The contents of the pools.
#[verifier::ext_equal]
pub struct StorageModel {
    pub nodes: Seq<NodeHeader>,
    pub values: Seq<ValueHeader>,
    pub edges: Seq<u32>,
    pub attrs: Seq<AttrEntry>,
    pub attr_data: Seq<u8>,
    pub shape_data: Seq<i64>,
    pub name_data: Seq<u8>,
    pub custom_keys: Map<u32, String>,
    pub inputs: Seq<u32>,
    pub outputs: Seq<u32>,
}

/// The bytes of a sequence of eight byte words, one after the other.
pub open spec fn pack_words(s: Seq<u64>) -> Seq<u8>
    decreases s.len(),
{
    if s.len() == 0 {
        Seq::empty()
    } else {
        pack_words(s.drop_last()) + le_bytes(s.last() as nat, 8)
    }
}

/// The eight byte words that a byte sequence holds; a shorter rest is dropped.
pub open spec fn unpack_words(b: Seq<u8>) -> Seq<u64> {
    Seq::new((b.len() / 8) as nat, |i: int| le_value(b.subrange(8 * i, 8 * i + 8)) as u64)
}

/// The bits of signed numbers.
pub open spec fn words_of(s: Seq<i64>) -> Seq<u64> {
    Seq::new(s.len(), |i: int| unsigned(s[i]))
}

/// The signed numbers with the given bits.
pub open spec fn ints_of(s: Seq<u64>) -> Seq<i64> {
    Seq::new(s.len(), |i: int| signed(s[i]))
}

/// The bytes of `b` up to the first zero byte, or all of them.
pub open spec fn until_nul(b: Seq<u8>) -> Seq<u8>
    decreases b.len(),
{
    if b.len() == 0 || b[0] == 0 {
        Seq::empty()
    } else {
        seq![b[0]] + until_nul(b.skip(1))
    }
}

impl StorageModel {
    /// The storage of an empty graph.
    pub open spec fn empty() -> StorageModel {
        StorageModel {
            nodes: Seq::empty(),
            values: Seq::empty(),
            edges: Seq::empty(),
            attrs: Seq::empty(),
            attr_data: Seq::empty(),
            shape_data: Seq::empty(),
            name_data: Seq::empty(),
            custom_keys: Map::empty(),
            inputs: Seq::empty(),
            outputs: Seq::empty(),
        }
    }

    /// With one more node, without operands and attributes.
    pub open spec fn with_node(self, op_tag: u8) -> StorageModel {
        StorageModel {
            nodes: self.nodes.push(
                NodeHeader {
                    op_tag,
                    inputs_off: 0,
                    inputs_len: 0,
                    outputs_off: 0,
                    outputs_len: 0,
                    attrs_off: 0,
                    attrs_len: 0,
                    parent_region: u32::MAX,
                },
            ),
            ..self
        }
    }

    /// With one more value.
    pub open spec fn with_value(self, h: ValueHeader) -> StorageModel {
        StorageModel { values: self.values.push(h), ..self }
    }

    /// With the inputs of a node set.
    pub open spec fn with_inputs(self, node: int, ins: Seq<u32>) -> StorageModel {
        StorageModel {
            nodes: self.nodes.update(
                node,
                NodeHeader {
                    inputs_off: self.edges.len() as u32,
                    inputs_len: ins.len() as u32,
                    ..self.nodes[node]
                },
            ),
            edges: self.edges + ins,
            ..self
        }
    }

    /// With the outputs of a node set.
    pub open spec fn with_outputs(self, node: int, outs: Seq<u32>) -> StorageModel {
        StorageModel {
            nodes: self.nodes.update(
                node,
                NodeHeader {
                    outputs_off: self.edges.len() as u32,
                    outputs_len: outs.len() as u32,
                    ..self.nodes[node]
                },
            ),
            edges: self.edges + outs,
            ..self
        }
    }

    /// With one more attribute entry, counted to a node.
    pub open spec fn with_entry(self, node: int, entry: AttrEntry) -> StorageModel {
        let h = self.nodes[node];
        StorageModel {
            nodes: self.nodes.update(
                node,
                NodeHeader {
                    attrs_off: if h.attrs_len == 0 {
                        self.attrs.len() as u32
                    } else {
                        h.attrs_off
                    },
                    attrs_len: (h.attrs_len + 1) as u32,
                    ..h
                },
            ),
            attrs: self.attrs.push(entry),
            ..self
        }
    }

    /// The entry that an attribute with the given data gets.
    pub open spec fn entry_for(self, key: AttrKey, tag: AttrTag, data: Seq<u8>) -> AttrEntry {
        AttrEntry {
            key: key.tag(),
            tag: tag.tag(),
            data_off: self.attr_data.len() as u32,
            data_len: data.len() as u32,
        }
    }

    /// With one more attribute of a node, data included.
    pub open spec fn with_attr(
        self,
        node: int,
        key: AttrKey,
        tag: AttrTag,
        data: Seq<u8>,
    ) -> StorageModel {
        StorageModel { attr_data: self.attr_data + data, ..self }.with_entry(
            node,
            self.entry_for(key, tag, data),
        )
    }

    /// With more shape data.
    pub open spec fn with_shape(self, dims: Seq<i64>) -> StorageModel {
        StorageModel { shape_data: self.shape_data + dims, ..self }
    }

    /// Where the next shape will stand.
    pub open spec fn next_shape(self) -> u32 {
        self.shape_data.len() as u32
    }

    /// With another shape for a value.
    pub open spec fn reshaped(self, v: int, dims: Seq<i64>) -> StorageModel {
        StorageModel {
            values: self.values.update(
                v,
                ValueHeader {
                    rank: dims.len() as u8,
                    shape_off: self.next_shape(),
                    ..self.values[v]
                },
            ),
            ..self.with_shape(dims)
        }
    }

    /// With a name, if there is one, and its closing zero byte.
    pub open spec fn with_name(self, name: Option<Seq<char>>) -> StorageModel {
        match name {
            None => self,
            Some(s) => StorageModel { name_data: (self.name_data + encode_utf8(s)).push(0), ..self },
        }
    }

    /// Where the next name will stand, if there is one.
    pub open spec fn next_name(self, name: Option<Seq<char>>) -> u32 {
        match name {
            None => u32::MAX,
            Some(s) => self.name_data.len() as u32,
        }
    }

    /// With one more value of the given type, with its shape and its name.
    pub open spec fn with_typed(self, ty: TypeModel, name: Option<Seq<char>>, def: u32) -> StorageModel {
        self.with_shape(ty.shape()).with_name(name).with_value(
            ValueHeader {
                type_tag: ty.type_tag().tag(),
                rank: ty.shape().len() as u8,
                shape_off: if ty.dims is Some {
                    self.next_shape()
                } else {
                    0
                },
                name_off: self.next_name(name),
                def_node: def,
            },
        )
    }

    /// The type of a value whose type number is known.
    pub open spec fn value_type(self, v: int) -> TypeModel {
        let t = TypeTag::of_tag(self.values[v].type_tag)->0;
        TypeModel {
            elem: t.elem(),
            dims: if t.tensor() {
                Some(self.value_shape(v))
            } else {
                None
            },
        }
    }

    /// The inputs of a node.
    pub open spec fn node_inputs(self, node: int) -> Seq<u32> {
        let h = self.nodes[node];
        self.edges.subrange(h.inputs_off as int, h.inputs_off + h.inputs_len)
    }

    /// The outputs of a node.
    pub open spec fn node_outputs(self, node: int) -> Seq<u32> {
        let h = self.nodes[node];
        self.edges.subrange(h.outputs_off as int, h.outputs_off + h.outputs_len)
    }

    /// The attribute entries of a node.
    pub open spec fn node_attrs(self, node: int) -> Seq<AttrEntry> {
        let h = self.nodes[node];
        self.attrs.subrange(h.attrs_off as int, h.attrs_off + h.attrs_len)
    }

    /// The data of an attribute.
    pub open spec fn attr_bytes(self, e: AttrEntry, len: int) -> Seq<u8> {
        self.attr_data.subrange(e.data_off as int, e.data_off + len)
    }

    /// The shape of a value.
    pub open spec fn value_shape(self, v: int) -> Seq<i64> {
        let h = self.values[v];
        self.shape_data.subrange(h.shape_off as int, h.shape_off + h.rank)
    }

    /// The bytes of the name of a value.
    pub open spec fn name_bytes(self, v: int) -> Seq<u8> {
        until_nul(self.name_data.skip(self.values[v].name_off as int))
    }

    /// The name of a value, if it has one that is valid text.
    pub open spec fn value_name(self, v: int) -> Option<Seq<char>> {
        if self.values[v].name_off == u32::MAX || !valid_utf8(self.name_bytes(v)) {
            None
        } else {
            Some(decode_utf8(self.name_bytes(v)))
        }
    }

    /// Whether a range of a pool lies within it.
    pub open spec fn within(off: u32, len: u32, pool: nat) -> bool {
        off + len <= pool && off + len <= u32::MAX
    }

    /// Whether the inputs of a node are there.
    pub open spec fn inputs_ok(self, node: int) -> bool {
        let h = self.nodes[node];
        StorageModel::within(h.inputs_off, h.inputs_len, self.edges.len())
    }

    /// Whether the outputs of a node are there.
    pub open spec fn outputs_ok(self, node: int) -> bool {
        let h = self.nodes[node];
        StorageModel::within(h.outputs_off, h.outputs_len, self.edges.len())
    }

    /// Whether the attribute entries of a node are there.
    pub open spec fn attrs_ok(self, node: int) -> bool {
        let h = self.nodes[node];
        StorageModel::within(h.attrs_off, h.attrs_len, self.attrs.len())
    }

    /// Whether what a node refers to is there.
    pub open spec fn node_ok(self, node: int) -> bool {
        self.inputs_ok(node) && self.outputs_ok(node) && self.attrs_ok(node)
    }

    /// Whether the shape of a value is there.
    pub open spec fn shape_ok(self, v: int) -> bool {
        let h = self.values[v];
        StorageModel::within(h.shape_off, h.rank as u32, self.shape_data.len())
    }

    /// Whether the name of a value starts in the pool, if it has one.
    pub open spec fn name_ok(self, v: int) -> bool {
        let h = self.values[v];
        h.name_off == u32::MAX || h.name_off <= self.name_data.len()
    }

    /// Whether what a value refers to is there.
    pub open spec fn value_ok(self, v: int) -> bool {
        self.shape_ok(v) && self.name_ok(v)
    }

    /// Whether the data of an attribute that is one number is there.
    pub open spec fn number_ok(self, e: AttrEntry) -> bool {
        e.data_off + 8 <= self.attr_data.len() && e.data_off + 8 <= u32::MAX
    }

    /// Whether the data of an attribute that is an array is there.
    pub open spec fn array_ok(self, e: AttrEntry) -> bool {
        e.data_off + e.data_len <= self.attr_data.len()
    }

    /// Whether the data of an attribute is there, as its layout asks.
    pub open spec fn entry_ok(self, e: AttrEntry) -> bool {
        &&& e.data_off + e.data_len <= self.attr_data.len()
        &&& e.tag == AttrTag::Int.tag() || e.tag == AttrTag::Float.tag() ==> e.data_len == 8
            && e.data_off + 8 <= u32::MAX
        &&& e.tag == AttrTag::Bool.tag() ==> e.data_len == 1
    }

    /// A well formed storage: every header refers to what is there, and
    /// identifiers fit their type.
    pub open spec fn wf(self) -> bool {
        &&& self.nodes.len() <= u32::MAX
        &&& self.values.len() <= u32::MAX
        &&& forall|i: int| 0 <= i < self.nodes.len() ==> #[trigger] self.node_ok(i)
        &&& forall|i: int| 0 <= i < self.values.len() ==> #[trigger] self.value_ok(i)
        &&& forall|i: int| 0 <= i < self.attrs.len() ==> self.entry_ok(#[trigger] self.attrs[i])
    }
}

impl Default for StorageGraph {
    fn default() -> (r: Self)
        ensures
            r@ == StorageModel::empty(),
    {
        StorageGraph::new()
    }
}

impl StorageGraph {
    pub open spec fn view(&self) -> StorageModel {
        StorageModel {
            nodes: self.node_hdr@,
            values: self.value_hdr@,
            edges: self.edges@,
            attrs: self.attrs@,
            attr_data: self.attr_data@,
            shape_data: self.shape_data@,
            name_data: self.name_data@,
            custom_keys: self.custom_keys@,
            inputs: self.inputs@,
            outputs: self.outputs@,
        }
    }

    pub fn new() -> (r: Self)
        ensures
            r@ == StorageModel::empty(),
            r@.wf(),
    {
        StorageGraph {
            node_hdr: Vec::new(),
            value_hdr: Vec::new(),
            edges: Vec::new(),
            attrs: Vec::new(),
            attr_data: Vec::new(),
            shape_data: Vec::new(),
            name_data: Vec::new(),
            custom_keys: HashMap::new(),
            inputs: Vec::new(),
            outputs: Vec::new(),
        }
    }

    pub fn node_count(&self) -> (r: usize)
        ensures
            r == self@.nodes.len(),
    {
        self.node_hdr.len()
    }

    pub fn value_count(&self) -> (r: usize)
        ensures
            r == self@.values.len(),
    {
        self.value_hdr.len()
    }

    pub fn alloc_node(&mut self, op_tag: u8) -> (r: u32)
        ensures
            r == old(self)@.nodes.len() as u32,
            final(self)@ == old(self)@.with_node(op_tag),
    {
        let id = self.node_hdr.len() as u32;
        self.node_hdr.push(
            NodeHeader {
                op_tag,
                inputs_off: 0,
                inputs_len: 0,
                outputs_off: 0,
                outputs_len: 0,
                attrs_off: 0,
                attrs_len: 0,
                parent_region: u32::MAX,
            },
        );
        id
    }

    pub fn alloc_value(
        &mut self,
        type_tag: u8,
        rank: u8,
        shape_off: u32,
        name_off: u32,
        def_node: u32,
    ) -> (r: u32)
        ensures
            r == old(self)@.values.len() as u32,
            final(self)@ == old(self)@.with_value(
                (ValueHeader { type_tag, rank, shape_off, name_off, def_node }),
            ),
    {
        let id = self.value_hdr.len() as u32;
        self.value_hdr.push(ValueHeader { type_tag, rank, shape_off, name_off, def_node });
        id
    }

    pub fn set_node_inputs(&mut self, node: u32, inputs: &[u32])
        requires
            node < old(self)@.nodes.len(),
        ensures
            final(self)@ == old(self)@.with_inputs(node as int, inputs@),
    {
        let off = self.edges.len() as u32;
        self.edges.extend_from_slice(inputs);
        assert(self.edges@ == old(self).edges@ + inputs@);
        let mut h = self.node_hdr[node as usize];
        h.inputs_off = off;
        h.inputs_len = inputs.len() as u32;
        self.node_hdr.set(node as usize, h);
    }

    pub fn set_node_outputs(&mut self, node: u32, outputs: &[u32])
        requires
            node < old(self)@.nodes.len(),
        ensures
            final(self)@ == old(self)@.with_outputs(node as int, outputs@),
    {
        let off = self.edges.len() as u32;
        self.edges.extend_from_slice(outputs);
        assert(self.edges@ == old(self).edges@ + outputs@);
        let mut h = self.node_hdr[node as usize];
        h.outputs_off = off;
        h.outputs_len = outputs.len() as u32;
        self.node_hdr.set(node as usize, h);
    }

    pub fn add_attr_int(&mut self, node: u32, key: AttrKey, val: i64)
        requires
            node < old(self)@.nodes.len(),
            old(self)@.nodes[node as int].attrs_len < u32::MAX,
        ensures
            final(self)@ == old(self)@.with_attr(
                node as int,
                key,
                AttrTag::Int,
                le_bytes(unsigned(val) as nat, 8),
            ),
    {
        proof {
            crate::bytes::le_round_trip(unsigned(val) as nat, 8);
        }
        let data_off = self.attr_data.len() as u32;
        push_le8(&mut self.attr_data, val as u64);
        self.push_attr(
            node,
            AttrEntry { key: key.code(), tag: AttrTag::Int.code(), data_off, data_len: 8 },
        );
    }

    /// The float is given by its bits.
    pub fn add_attr_float(&mut self, node: u32, key: AttrKey, val: u64)
        requires
            node < old(self)@.nodes.len(),
            old(self)@.nodes[node as int].attrs_len < u32::MAX,
        ensures
            final(self)@ == old(self)@.with_attr(
                node as int,
                key,
                AttrTag::Float,
                le_bytes(val as nat, 8),
            ),
    {
        proof {
            crate::bytes::le_round_trip(val as nat, 8);
        }
        let data_off = self.attr_data.len() as u32;
        push_le8(&mut self.attr_data, val);
        self.push_attr(
            node,
            AttrEntry { key: key.code(), tag: AttrTag::Float.code(), data_off, data_len: 8 },
        );
    }

    pub fn add_attr_bool(&mut self, node: u32, key: AttrKey, val: bool)
        requires
            node < old(self)@.nodes.len(),
            old(self)@.nodes[node as int].attrs_len < u32::MAX,
        ensures
            final(self)@ == old(self)@.with_attr(
                node as int,
                key,
                AttrTag::Bool,
                seq![if val { 1u8 } else { 0u8 }],
            ),
    {
        let data_off = self.attr_data.len() as u32;
        self.attr_data.push(if val { 1 } else { 0 });
        assert(self.attr_data@ == old(self).attr_data@ + seq![if val { 1u8 } else { 0u8 }]);
        self.push_attr(
            node,
            AttrEntry { key: key.code(), tag: AttrTag::Bool.code(), data_off, data_len: 1 },
        );
    }

    pub fn add_attr_int_array(&mut self, node: u32, key: AttrKey, vals: &[i64])
        requires
            node < old(self)@.nodes.len(),
            old(self)@.nodes[node as int].attrs_len < u32::MAX,
        ensures
            final(self)@ == old(self)@.with_attr(
                node as int,
                key,
                AttrTag::IntArray,
                pack_words(words_of(vals@)),
            ),
    {
        let start: usize = self.attr_data.len();
        let mut i: usize = 0;
        while i < vals.len()
            invariant
                i <= vals@.len(),
                start == old(self).attr_data@.len(),
                *self == (StorageGraph { attr_data: self.attr_data, ..*old(self) }),
                self.attr_data@ == old(self).attr_data@ + pack_words(words_of(vals@.take(i as int))),
            decreases vals@.len() - i,
        {
            let ghost done = words_of(vals@.take(i as int));
            let ghost next = words_of(vals@.take(i + 1));
            assert(next.drop_last() == done);
            assert(old(self).attr_data@ + (pack_words(done) + le_bytes(next.last() as nat, 8)) == (
            old(self).attr_data@ + pack_words(done)) + le_bytes(next.last() as nat, 8));
            push_le8(&mut self.attr_data, vals[i] as u64);
            i += 1;
        }
        assert(vals@.take(i as int) == vals@);
        let data_len = (self.attr_data.len() - start) as u32;
        self.push_attr(
            node,
            AttrEntry {
                key: key.code(),
                tag: AttrTag::IntArray.code(),
                data_off: start as u32,
                data_len,
            },
        );
    }

    /// The floats are given by their bits.
    pub fn add_attr_float_array(&mut self, node: u32, key: AttrKey, vals: &[u64])
        requires
            node < old(self)@.nodes.len(),
            old(self)@.nodes[node as int].attrs_len < u32::MAX,
        ensures
            final(self)@ == old(self)@.with_attr(
                node as int,
                key,
                AttrTag::FloatArray,
                pack_words(vals@),
            ),
    {
        let start: usize = self.attr_data.len();
        let mut i: usize = 0;
        while i < vals.len()
            invariant
                i <= vals@.len(),
                start == old(self).attr_data@.len(),
                *self == (StorageGraph { attr_data: self.attr_data, ..*old(self) }),
                self.attr_data@ == old(self).attr_data@ + pack_words(vals@.take(i as int)),
            decreases vals@.len() - i,
        {
            let ghost done = vals@.take(i as int);
            let ghost next = vals@.take(i + 1);
            assert(next.drop_last() == done);
            assert(old(self).attr_data@ + (pack_words(done) + le_bytes(next.last() as nat, 8)) == (
            old(self).attr_data@ + pack_words(done)) + le_bytes(next.last() as nat, 8));
            push_le8(&mut self.attr_data, vals[i]);
            i += 1;
        }
        assert(vals@.take(i as int) == vals@);
        let data_len = (self.attr_data.len() - start) as u32;
        self.push_attr(
            node,
            AttrEntry {
                key: key.code(),
                tag: AttrTag::FloatArray.code(),
                data_off: start as u32,
                data_len,
            },
        );
    }

    fn push_attr(&mut self, node: u32, entry: AttrEntry)
        requires
            node < old(self)@.nodes.len(),
            old(self)@.nodes[node as int].attrs_len < u32::MAX,
        ensures
            final(self)@ == old(self)@.with_entry(node as int, entry),
    {
        let off = self.attrs.len() as u32;
        self.attrs.push(entry);
        let mut h = self.node_hdr[node as usize];
        if h.attrs_len == 0 {
            h.attrs_off = off;
        }
        h.attrs_len = h.attrs_len + 1;
        self.node_hdr.set(node as usize, h);
    }

    pub fn add_shape(&mut self, dims: &[i64]) -> (r: u32)
        ensures
            r == old(self)@.next_shape(),
            final(self)@ == old(self)@.with_shape(dims@),
    {
        let off = self.shape_data.len() as u32;
        self.shape_data.extend_from_slice(dims);
        assert(self.shape_data@ == old(self).shape_data@ + dims@);
        off
    }

    pub fn add_name(&mut self, name: Option<&str>) -> (r: u32)
        ensures
            r == old(self)@.next_name(text_of(name)),
            final(self)@ == old(self)@.with_name(text_of(name)),
    {
        match name {
            None => u32::MAX,
            Some(s) => {
                let off = self.name_data.len() as u32;
                self.name_data.extend_from_slice(s.as_bytes());
                assert(self.name_data@ == old(self).name_data@ + encode_utf8(s@));
                self.name_data.push(0);
                off
            },
        }
    }

    pub fn node_inputs(&self, node: u32) -> (r: &[u32])
        requires
            node < self@.nodes.len(),
            self@.inputs_ok(node as int),
        ensures
            r@ == self@.node_inputs(node as int),
    {
        let h = self.node_hdr[node as usize];
        vstd::slice::slice_subrange(
            self.edges.as_slice(),
            h.inputs_off as usize,
            (h.inputs_off + h.inputs_len) as usize,
        )
    }

    pub fn node_outputs(&self, node: u32) -> (r: &[u32])
        requires
            node < self@.nodes.len(),
            self@.outputs_ok(node as int),
        ensures
            r@ == self@.node_outputs(node as int),
    {
        let h = self.node_hdr[node as usize];
        vstd::slice::slice_subrange(
            self.edges.as_slice(),
            h.outputs_off as usize,
            (h.outputs_off + h.outputs_len) as usize,
        )
    }

    pub fn node_attrs(&self, node: u32) -> (r: &[AttrEntry])
        requires
            node < self@.nodes.len(),
            self@.attrs_ok(node as int),
        ensures
            r@ == self@.node_attrs(node as int),
    {
        let h = self.node_hdr[node as usize];
        vstd::slice::slice_subrange(
            self.attrs.as_slice(),
            h.attrs_off as usize,
            (h.attrs_off + h.attrs_len) as usize,
        )
    }

    pub fn attr_int(&self, entry: &AttrEntry) -> (r: i64)
        requires
            entry.tag == AttrTag::Int.tag(),
            self@.number_ok(*entry),
        ensures
            r == signed(le_value(self@.attr_bytes(*entry, 8)) as u64),
    {
        read_le(self.attr_data.as_slice(), entry.data_off as usize, 8) as i64
    }

    /// The bits of the float.
    pub fn attr_float(&self, entry: &AttrEntry) -> (r: u64)
        requires
            entry.tag == AttrTag::Float.tag(),
            self@.number_ok(*entry),
        ensures
            r == le_value(self@.attr_bytes(*entry, 8)),
    {
        read_le(self.attr_data.as_slice(), entry.data_off as usize, 8)
    }

    pub fn attr_bool(&self, entry: &AttrEntry) -> (r: bool)
        requires
            entry.tag == AttrTag::Bool.tag(),
            entry.data_off < self@.attr_data.len(),
        ensures
            r == (self@.attr_data[entry.data_off as int] != 0),
    {
        self.attr_data[entry.data_off as usize] != 0
    }

    pub fn attr_int_array(&self, entry: &AttrEntry) -> (r: Vec<i64>)
        requires
            entry.tag == AttrTag::IntArray.tag(),
            self@.array_ok(*entry),
        ensures
            r@ == ints_of(unpack_words(self@.attr_bytes(*entry, entry.data_len as int))),
    {
        let words = self.words(entry);
        let mut out: Vec<i64> = Vec::new();
        let mut i: usize = 0;
        while i < words.len()
            invariant
                i <= words@.len(),
                out@ == ints_of(words@.take(i as int)),
            decreases words@.len() - i,
        {
            out.push(words[i] as i64);
            i += 1;
            assert(ints_of(words@.take(i as int)) == ints_of(words@.take(i - 1)).push(
                signed(words@[i - 1]),
            ));
        }
        assert(words@.take(i as int) == words@);
        out
    }

    /// The bits of the floats.
    pub fn attr_float_array(&self, entry: &AttrEntry) -> (r: Vec<u64>)
        requires
            entry.tag == AttrTag::FloatArray.tag(),
            self@.array_ok(*entry),
        ensures
            r@ == unpack_words(self@.attr_bytes(*entry, entry.data_len as int)),
    {
        self.words(entry)
    }

    fn words(&self, entry: &AttrEntry) -> (r: Vec<u64>)
        requires
            entry.data_off + entry.data_len <= self@.attr_data.len(),
        ensures
            r@ == unpack_words(self@.attr_bytes(*entry, entry.data_len as int)),
    {
        let start: usize = entry.data_off as usize;
        let count: usize = entry.data_len as usize / 8;
        let len: usize = self.attr_data.len();
        let ghost data = self@.attr_bytes(*entry, entry.data_len as int);
        let mut out: Vec<u64> = Vec::new();
        let mut i: usize = 0;
        while i < count
            invariant
                i <= count,
                count == entry.data_len / 8,
                start == entry.data_off,
                len == self.attr_data@.len(),
                start + entry.data_len <= len,
                data == self.attr_data@.subrange(start as int, start + entry.data_len),
                out@ == unpack_words(data).take(i as int),
            decreases count - i,
        {
            assert(data.subrange(8 * i as int, 8 * i + 8) == self.attr_data@.subrange(
                start + 8 * i,
                start + 8 * i + 8,
            ));
            out.push(read_le(self.attr_data.as_slice(), start + 8 * i, 8));
            i += 1;
            assert(unpack_words(data).take(i as int) == unpack_words(data).take(i - 1).push(
                unpack_words(data)[i - 1],
            ));
        }
        assert(unpack_words(data).take(count as int) == unpack_words(data));
        out
    }

    pub fn value_shape(&self, value: u32) -> (r: &[i64])
        requires
            value < self@.values.len(),
            self@.shape_ok(value as int),
        ensures
            r@ == self@.value_shape(value as int),
    {
        let h = self.value_hdr[value as usize];
        vstd::slice::slice_subrange(
            self.shape_data.as_slice(),
            h.shape_off as usize,
            (h.shape_off + h.rank as u32) as usize,
        )
    }

    /// Gives a value another shape; the old one stays in the pool.
    pub fn set_value_shape(&mut self, value: u32, dims: &[i64])
        requires
            value < old(self)@.values.len(),
        ensures
            final(self)@ == old(self)@.reshaped(value as int, dims@),
    {
        let new_off = self.add_shape(dims);
        let mut h = self.value_hdr[value as usize];
        h.rank = dims.len() as u8;
        h.shape_off = new_off;
        self.value_hdr.set(value as usize, h);
    }

    pub fn value_name(&self, value: u32) -> (r: Option<&str>)
        requires
            value < self@.values.len(),
            self@.name_ok(value as int),
        ensures
            text_of(r) == self@.value_name(value as int),
    {
        let h = self.value_hdr[value as usize];
        if h.name_off == u32::MAX {
            return None;
        }
        let start: usize = h.name_off as usize;
        let ghost rest = self.name_data@.skip(start as int);
        let mut end: usize = start;
        while end < self.name_data.len() && self.name_data[end] != 0
            invariant
                start <= end <= self.name_data@.len(),
                rest == self.name_data@.skip(start as int),
                until_nul(rest) == self.name_data@.subrange(start as int, end as int) + until_nul(
                    self.name_data@.skip(end as int),
                ),
            decreases self.name_data@.len() - end,
        {
            let ghost here = self.name_data@.skip(end as int);
            assert(here.skip(1) == self.name_data@.skip(end + 1));
            assert(self.name_data@.subrange(start as int, end as int) + (seq![here[0]] + until_nul(
                here.skip(1),
            )) == self.name_data@.subrange(start as int, end + 1) + until_nul(here.skip(1)));
            end += 1;
        }
        assert(until_nul(self.name_data@.skip(end as int)) == Seq::<u8>::empty());
        assert(until_nul(rest) == self.name_data@.subrange(start as int, end as int));
        match utf8_str(vstd::slice::slice_subrange(self.name_data.as_slice(), start, end)) {
            Ok(s) => Some(s),
            Err(_) => None,
        }
    }

    pub fn value_def(&self, value: u32) -> (r: u32)
        requires
            value < self@.values.len(),
        ensures
            r == self@.values[value as int].def_node,
    {
        self.value_hdr[value as usize].def_node
    }
}

/// The characters of an optional string.
pub open spec fn text_of(s: Option<&str>) -> Option<Seq<char>> {
    match s {
        None => None,
        Some(t) => Some(t@),
    }
}

} // verus!
