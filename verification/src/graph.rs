//! The graph: a name over packed storage, with typed access to nodes and
//! values, and compaction.

use vstd::prelude::*;
use std::collections::{HashMap, HashSet};
use crate::base::{
    Attr, DType, ErrorKind, ErrorModel, NeutronError, NodeId, OpKind, Result, Type, TypeModel, TypeTag,
    ValueId, numbered, unknown_op, unknown_type,
};
use crate::bytes::{le_bytes, le_value, unsigned};
use crate::storage::{
    AttrEntry, AttrKey, AttrTag, StorageGraph, StorageModel, pack_words, text_of, words_of,
};
use crate::text::dec;

verus! {

/// The bits of the first float attribute with the given key.
pub open spec fn first_float(m: StorageModel, attrs: Seq<AttrEntry>, key: AttrKey) -> Option<u64>
    decreases attrs.len(),
{
    if attrs.len() == 0 {
        None
    } else if attrs[0].key == key.tag() && attrs[0].tag == AttrTag::Float.tag() {
        Some(le_value(m.attr_bytes(attrs[0], 8)) as u64)
    } else {
        first_float(m, attrs.skip(1), key)
    }
}

/// Whether the first float attribute with the given key can be read, if there is
/// one.
pub open spec fn float_there(m: StorageModel, attrs: Seq<AttrEntry>, key: AttrKey) -> bool
    decreases attrs.len(),
{
    if attrs.len() == 0 {
        true
    } else if attrs[0].key == key.tag() && attrs[0].tag == AttrTag::Float.tag() {
        m.number_ok(attrs[0])
    } else {
        float_there(m, attrs.skip(1), key)
    }
}

/// A node, seen through its graph.
#[derive(Debug, Clone, Copy)]
pub struct NodeView<'a> {
    pub id: NodeId,
    pub kind: OpKind,
    pub storage: &'a StorageGraph,
}

impl<'a> NodeView<'a> {
    pub fn inputs(&self) -> (r: &'a [ValueId])
        requires
            self.id < self.storage@.nodes.len(),
            self.storage@.inputs_ok(self.id as int),
        ensures
            r@ == self.storage@.node_inputs(self.id as int),
    {
        self.storage.node_inputs(self.id)
    }

    pub fn outputs(&self) -> (r: &'a [ValueId])
        requires
            self.id < self.storage@.nodes.len(),
            self.storage@.outputs_ok(self.id as int),
        ensures
            r@ == self.storage@.node_outputs(self.id as int),
    {
        self.storage.node_outputs(self.id)
    }

    pub fn attrs(&self) -> (r: &'a [AttrEntry])
        requires
            self.id < self.storage@.nodes.len(),
            self.storage@.attrs_ok(self.id as int),
        ensures
            r@ == self.storage@.node_attrs(self.id as int),
    {
        self.storage.node_attrs(self.id)
    }

    /// The bits of the value of a constant node that has one.
    pub fn constant_value(&self) -> (r: Option<u64>)
        requires
            self.kind == OpKind::Constant ==> {
                &&& self.id < self.storage@.nodes.len()
                &&& self.storage@.attrs_ok(self.id as int)
                &&& float_there(
                    self.storage@,
                    self.storage@.node_attrs(self.id as int),
                    AttrKey::Value,
                )
            },
        ensures
            r == if self.kind == OpKind::Constant {
                first_float(
                    self.storage@,
                    self.storage@.node_attrs(self.id as int),
                    AttrKey::Value,
                )
            } else {
                None
            },
    {
        if self.kind != OpKind::Constant {
            return None;
        }
        let attrs = self.attrs();
        let ghost m = self.storage@;
        let mut i: usize = 0;
        assert(attrs@.skip(0) == attrs@);
        while i < attrs.len()
            invariant
                i <= attrs@.len(),
                m == self.storage@,
                self.kind == OpKind::Constant,
                attrs@ == m.node_attrs(self.id as int),
                float_there(m, attrs@.skip(i as int), AttrKey::Value),
                first_float(m, attrs@, AttrKey::Value) == first_float(
                    m,
                    attrs@.skip(i as int),
                    AttrKey::Value,
                ),
            decreases attrs@.len() - i,
        {
            let e = attrs[i];
            assert(attrs@.skip(i as int)[0] == e);
            assert(attrs@.skip(i as int).skip(1) == attrs@.skip(i + 1));
            if e.key == AttrKey::Value.code() && e.tag == AttrTag::Float.code() {
                return Some(self.storage.attr_float(&e));
            }
            i += 1;
        }
        None
    }
}

/// A value, seen through its graph.
#[derive(Debug, Clone, Copy)]
pub struct ValueView<'a> {
    pub id: ValueId,
    pub type_tag: TypeTag,
    pub storage: &'a StorageGraph,
}

impl<'a> ValueView<'a> {
    pub fn dtype(&self) -> (r: DType)
        ensures
            r == self.type_tag.elem(),
    {
        self.type_tag.dtype()
    }

    pub fn is_tensor(&self) -> (r: bool)
        ensures
            r == self.type_tag.tensor(),
    {
        self.type_tag.is_tensor()
    }

    pub fn shape(&self) -> (r: &'a [i64])
        requires
            self.id < self.storage@.values.len(),
            self.storage@.shape_ok(self.id as int),
        ensures
            r@ == self.storage@.value_shape(self.id as int),
    {
        self.storage.value_shape(self.id)
    }

    pub fn name(&self) -> (r: Option<&'a str>)
        requires
            self.id < self.storage@.values.len(),
            self.storage@.name_ok(self.id as int),
        ensures
            text_of(r) == self.storage@.value_name(self.id as int),
    {
        self.storage.value_name(self.id)
    }

    pub fn def_node(&self) -> (r: NodeId)
        requires
            self.id < self.storage@.values.len(),
        ensures
            r == self.storage@.values[self.id as int].def_node,
    {
        self.storage.value_def(self.id)
    }
}

/// A named graph.
#[derive(Debug)]
pub struct Graph {
    pub name: String,
    pub storage: StorageGraph,
}

/// What a graph holds.
#[verifier::ext_equal]
pub struct GraphModel {
    pub name: Seq<char>,
    pub storage: StorageModel,
}

impl GraphModel {
    /// A graph without nodes and values.
    pub open spec fn empty(name: Seq<char>) -> GraphModel {
        GraphModel { name, storage: StorageModel::empty() }
    }

    /// The graph with other contents.
    pub open spec fn storing(self, storage: StorageModel) -> GraphModel {
        GraphModel { storage, ..self }
    }

    pub open spec fn with_node(self, kind: OpKind) -> GraphModel {
        self.storing(self.storage.with_node(kind.tag()))
    }

    pub open spec fn with_typed(self, ty: TypeModel, name: Option<Seq<char>>, def: u32) -> GraphModel {
        self.storing(self.storage.with_typed(ty, name, def))
    }

    pub open spec fn with_inputs(self, node: int, ins: Seq<u32>) -> GraphModel {
        self.storing(self.storage.with_inputs(node, ins))
    }

    pub open spec fn with_outputs(self, node: int, outs: Seq<u32>) -> GraphModel {
        self.storing(self.storage.with_outputs(node, outs))
    }

    /// With one more input of the graph.
    pub open spec fn marking_input(self, v: u32) -> GraphModel {
        self.storing(StorageModel { inputs: self.storage.inputs.push(v), ..self.storage })
    }

    /// With one more output of the graph.
    pub open spec fn marking_output(self, v: u32) -> GraphModel {
        self.storing(StorageModel { outputs: self.storage.outputs.push(v), ..self.storage })
    }

    pub open spec fn with_attr(self, node: int, key: AttrKey, attr: AttrModel) -> GraphModel {
        self.storing(self.storage.with_attr(node, key, attr.layout(), attr.data()))
    }

    /// Whether the operands of a node can be read.
    pub open spec fn operands_readable(self, node: int) -> bool {
        self.storage.inputs_ok(node) && self.storage.outputs_ok(node)
    }

    /// Whether a value can be copied: its name can be read, and its shape if it is
    /// a tensor. A value whose type is not known is not copied.
    pub open spec fn copyable(self, v: u32) -> bool {
        self.value_error(v) is None ==> {
            &&& self.storage.name_ok(v as int)
            &&& TypeTag::of_tag(self.storage.values[v as int].type_tag)->0.tensor()
                ==> self.storage.shape_ok(v as int)
        }
    }

    /// Whether a node can be copied: its operator is known, its operands can be
    /// read, and its outputs can be copied.
    pub open spec fn node_copyable(self, node: int) -> bool {
        &&& self.kind(node) is Some
        &&& self.operands_readable(node)
        &&& forall|k: int|
            0 <= k < self.storage.node_outputs(node).len() ==> self.copyable(
                #[trigger] self.storage.node_outputs(node)[k],
            )
    }

    /// Whether nodes can be removed: the other nodes and the inputs of the graph
    /// can be copied.
    pub open spec fn compactable(self, removed: Set<u32>) -> bool {
        &&& self.storage.nodes.len() <= u32::MAX
        &&& forall|i: int|
            0 <= i < self.storage.nodes.len() && !removed.contains(i as u32)
                ==> #[trigger] self.node_copyable(i)
        &&& forall|k: int|
            0 <= k < self.storage.inputs.len() ==> self.copyable(#[trigger] self.storage.inputs[k])
    }

    /// The kind of a node whose operator number is known.
    pub open spec fn kind(self, node: int) -> Option<OpKind> {
        OpKind::of_tag(self.storage.nodes[node].op_tag)
    }

    /// Why a node cannot be seen, if it cannot.
    pub open spec fn node_error(self, id: u32) -> Option<ErrorModel> {
        if id >= self.storage.nodes.len() {
            Some((ErrorKind::Ir, "节点 ID "@ + dec(id as nat) + " 越界"@))
        } else if OpKind::of_tag(self.storage.nodes[id as int].op_tag) is None {
            Some(unknown_op(self.storage.nodes[id as int].op_tag))
        } else {
            None
        }
    }

    /// Why a value cannot be seen, if it cannot.
    pub open spec fn value_error(self, id: u32) -> Option<ErrorModel> {
        if id >= self.storage.values.len() {
            Some((ErrorKind::Ir, "值 ID "@ + dec(id as nat) + " 越界"@))
        } else if TypeTag::of_tag(self.storage.values[id as int].type_tag) is None {
            Some(unknown_type(self.storage.values[id as int].type_tag))
        } else {
            None
        }
    }
}

/// What an attribute value says.
pub enum AttrModel {
    Int(i64),
    Float(u64),
    Bool(bool),
    IntArray(Seq<i64>),
}

impl AttrModel {
    /// How the attribute is laid out.
    pub open spec fn layout(self) -> AttrTag {
        match self {
            AttrModel::Int(_) => AttrTag::Int,
            AttrModel::Float(_) => AttrTag::Float,
            AttrModel::Bool(_) => AttrTag::Bool,
            AttrModel::IntArray(_) => AttrTag::IntArray,
        }
    }

    /// The bytes of the attribute.
    pub open spec fn data(self) -> Seq<u8> {
        match self {
            AttrModel::Int(v) => le_bytes(unsigned(v) as nat, 8),
            AttrModel::Float(v) => le_bytes(v as nat, 8),
            AttrModel::Bool(v) => seq![if v { 1u8 } else { 0u8 }],
            AttrModel::IntArray(v) => pack_words(words_of(v)),
        }
    }
}

impl Attr {
    pub open spec fn view(&self) -> AttrModel {
        match self {
            Attr::Int(v) => AttrModel::Int(*v),
            Attr::Float(v) => AttrModel::Float(*v),
            Attr::Bool(v) => AttrModel::Bool(*v),
            Attr::IntArray(v) => AttrModel::IntArray(v@),
        }
    }
}

impl Default for Graph {
    fn default() -> (r: Self)
        ensures
            r@ == GraphModel::empty(Seq::empty()),
    {
        Graph { name: String::new(), storage: StorageGraph::new() }
    }
}

/// `head`, a number, and `tail`, one after the other.
pub(crate) fn around(head: &str, n: u64, tail: &str) -> (r: String)
    ensures
        r@ == head@ + dec(n as nat) + tail@,
{
    let mut s = numbered(head, n);
    s.append(tail);
    s
}

impl Graph {
    pub open spec fn view(&self) -> GraphModel {
        GraphModel { name: self.name@, storage: self.storage@ }
    }

    /// The storage is well formed.
    pub open spec fn wf(&self) -> bool {
        self@.storage.wf()
    }

    pub fn new(name: &str) -> (r: Self)
        ensures
            r@ == GraphModel::empty(name@),
            r.wf(),
    {
        Graph { name: name.to_owned(), storage: StorageGraph::new() }
    }

    pub fn node_count(&self) -> (r: usize)
        ensures
            r == self@.storage.nodes.len(),
    {
        self.storage.node_count()
    }

    pub fn value_count(&self) -> (r: usize)
        ensures
            r == self@.storage.values.len(),
    {
        self.storage.value_count()
    }

    pub fn inputs(&self) -> (r: &[ValueId])
        ensures
            r@ == self@.storage.inputs,
    {
        self.storage.inputs.as_slice()
    }

    pub fn outputs(&self) -> (r: &[ValueId])
        ensures
            r@ == self@.storage.outputs,
    {
        self.storage.outputs.as_slice()
    }

    pub fn add_node(&mut self, kind: OpKind) -> (r: NodeId)
        ensures
            r == old(self)@.storage.nodes.len() as u32,
            final(self)@ == old(self)@.with_node(kind),
    {
        self.storage.alloc_node(kind.code())
    }

    /// Adds a node with its operands. The identifier of the node has to fit its type.
    pub fn add_node_with(&mut self, kind: OpKind, inputs: &[ValueId], outputs: &[ValueId]) -> (r: NodeId)
        requires
            old(self)@.storage.nodes.len() <= u32::MAX,
        ensures
            r == old(self)@.storage.nodes.len(),
            final(self)@ == old(self)@.with_node(kind).with_inputs(r as int, inputs@).with_outputs(
                r as int,
                outputs@,
            ),
    {
        let id = self.storage.alloc_node(kind.code());
        self.storage.set_node_inputs(id, inputs);
        self.storage.set_node_outputs(id, outputs);
        id
    }

    pub fn add_value(&mut self, ty: Type, name: Option<&str>, def: NodeId) -> (r: ValueId)
        ensures
            r == old(self)@.storage.values.len() as u32,
            final(self)@ == old(self)@.with_typed(ty@, text_of(name), def),
    {
        let tag = ty.to_tag();
        let (rank, shape_off): (u8, u32) = match &ty {
            Type::Scalar(_) => (0u8, 0u32),
            Type::Tensor { dims, .. } => {
                let off = self.storage.add_shape(dims.as_slice());
                (dims.len() as u8, off)
            },
        };
        proof {
            assert(self@.storage == old(self)@.storage.with_shape(ty@.shape()));
        }
        let name_off = self.storage.add_name(name);
        self.storage.alloc_value(tag.code(), rank, shape_off, name_off, def)
    }

    /// Adds a value that no node defines.
    pub fn add_input(&mut self, ty: Type, name: Option<&str>) -> (r: ValueId)
        ensures
            r == old(self)@.storage.values.len() as u32,
            final(self)@ == old(self)@.with_typed(ty@, text_of(name), u32::MAX),
    {
        self.add_value(ty, name, u32::MAX)
    }

    /// Adds a constant node with its value and its output. The float is given
    /// by its bits. The identifier of the node has to fit its type.
    pub fn add_constant_f64(&mut self, val: u64) -> (r: (NodeId, ValueId))
        requires
            old(self)@.storage.nodes.len() <= u32::MAX,
        ensures
            r.0 == old(self)@.storage.nodes.len(),
            r.1 == old(self)@.storage.values.len() as u32,
            final(self)@ == old(self)@.with_node(OpKind::Constant).with_typed(
                (TypeModel { elem: DType::F32, dims: None }),
                None,
                r.0,
            ).with_outputs(r.0 as int, seq![r.1]).with_attr(
                r.0 as int,
                AttrKey::Value,
                AttrModel::Float(val),
            ),
    {
        let node = self.storage.alloc_node(OpKind::Constant.code());
        let out = self.add_value(Type::Scalar(DType::F32), None, node);
        let outs: Vec<ValueId> = vec![out];
        self.storage.set_node_outputs(node, outs.as_slice());
        assert(outs@ == seq![out]);
        self.storage.add_attr_float(node, AttrKey::Value, val);
        (node, out)
    }

    pub fn mark_output(&mut self, v: ValueId)
        ensures
            final(self)@ == old(self)@.marking_output(v),
    {
        self.storage.outputs.push(v);
    }

    pub fn mark_input(&mut self, v: ValueId)
        ensures
            final(self)@ == old(self)@.marking_input(v),
    {
        self.storage.inputs.push(v);
    }

    pub fn add_attr(&mut self, node: NodeId, key: AttrKey, attr: Attr)
        requires
            node < old(self)@.storage.nodes.len(),
            old(self)@.storage.nodes[node as int].attrs_len < u32::MAX,
        ensures
            final(self)@ == old(self)@.with_attr(node as int, key, attr@),
    {
        match attr {
            Attr::Int(v) => self.storage.add_attr_int(node, key, v),
            Attr::Float(v) => self.storage.add_attr_float(node, key, v),
            Attr::Bool(v) => self.storage.add_attr_bool(node, key, v),
            Attr::IntArray(v) => self.storage.add_attr_int_array(node, key, v.as_slice()),
        }
    }

    pub fn node(&self, id: NodeId) -> (r: Result<NodeView<'_>>)
        ensures
            match r {
                Ok(n) => self@.node_error(id) is None && n.id == id && n.storage == self.storage
                    && self@.kind(id as int) == Some(n.kind) && n.kind.tag()
                    == self@.storage.nodes[id as int].op_tag,
                Err(e) => self@.node_error(id) == Some(e@),
            },
    {
        if id as usize >= self.storage.node_hdr.len() {
            return Err(NeutronError::Ir(around("节点 ID ", id as u64, " 越界")));
        }
        match OpKind::from_u8(self.storage.node_hdr[id as usize].op_tag) {
            Ok(kind) => Ok(NodeView { id, kind, storage: &self.storage }),
            Err(e) => Err(e),
        }
    }

    pub fn value(&self, id: ValueId) -> (r: Result<ValueView<'_>>)
        ensures
            match r {
                Ok(v) => self@.value_error(id) is None && v.id == id && v.storage == self.storage
                    && TypeTag::of_tag(self@.storage.values[id as int].type_tag) == Some(v.type_tag),
                Err(e) => self@.value_error(id) == Some(e@),
            },
    {
        if id as usize >= self.storage.value_hdr.len() {
            return Err(NeutronError::Ir(around("值 ID ", id as u64, " 越界")));
        }
        match TypeTag::from_u8(self.storage.value_hdr[id as usize].type_tag) {
            Ok(type_tag) => Ok(ValueView { id, type_tag, storage: &self.storage }),
            Err(e) => Err(e),
        }
    }

    /// Removes nodes: builds the graph of the nodes that are not in
    /// `remove_nodes`, and returns it with what became of the old node and
    /// value identifiers.
    pub fn compact(&self, remove_nodes: &HashSet<NodeId>) -> (r: (
        Graph,
        HashMap<NodeId, NodeId>,
        HashMap<ValueId, ValueId>,
    ))
        requires
            self@.compactable(remove_nodes@),
        ensures
            ({
                let c = CompactionModel::of(self@, remove_nodes@);
                r.0@ == c.graph && r.1@ == c.nodes && r.2@ == c.values
            }),
    {
        broadcast use vstd::std_specs::hash::group_hash_axioms;

        let mut c = Compaction {
            graph: Graph::new(self.name.as_str()),
            node_map: HashMap::new(),
            value_map: HashMap::new(),
        };
        let n = self.node_count() as u32;
        let mut i: u32 = 0;
        while i < n
            invariant
                i <= n,
                n == self@.storage.nodes.len(),
                self@.compactable(remove_nodes@),
                c@ == CompactionModel::kept(self@, remove_nodes@, i as nat),
            decreases n - i,
        {
            if !remove_nodes.contains(&i) {
                assert(self@.node_copyable(i as int));
                c.copy_node(self, i);
            }
            i += 1;
        }
        c.copy_inputs(self);
        let ghost copied = c@;
        proof {
            kept_nodes(self@, remove_nodes@, n as nat);
            inputs_keep_nodes(
                CompactionModel::kept(self@, remove_nodes@, n as nat),
                self@,
                self@.storage.inputs,
            );
        }
        let mut i: u32 = 0;
        while i < n
            invariant
                i <= n,
                n == self@.storage.nodes.len(),
                self@.compactable(remove_nodes@),
                forall|j: u32| #[trigger]
                    copied.nodes.contains_key(j) ==> j < n && !remove_nodes@.contains(j),
                c@ == copied.connecting(self@, i as nat),
                c@.nodes == copied.nodes,
                c@.values == copied.values,
                c@.graph.storage.nodes.len() == copied.graph.storage.nodes.len(),
                forall|j: u32|
                    #[trigger] copied.nodes.contains_key(j) ==> copied.nodes[j]
                        < copied.graph.storage.nodes.len(),
            decreases n - i,
        {
            let ghost before = c@;
            if let Some(id) = c.node_map.get(&i) {
                let id: u32 = *id;
                assert(copied.nodes.contains_key(i));
                assert(self@.node_copyable(i as int));
                let ins = c.rename(self.storage.node_inputs(i));
                let outs = c.rename(self.storage.node_outputs(i));
                proof {
                    renamed_by_values(before, copied, self@.storage.node_inputs(i as int));
                    renamed_by_values(before, copied, self@.storage.node_outputs(i as int));
                }
                c.graph.storage.set_node_inputs(id, ins.as_slice());
                c.graph.storage.set_node_outputs(id, outs.as_slice());
            }
            i += 1;
        }
        let outs = c.rename(self.outputs());
        let mut k: usize = 0;
        let ghost connected = c@;
        while k < outs.len()
            invariant
                k <= outs@.len(),
                c@ == (CompactionModel {
                    graph: connected.graph.storing(
                        StorageModel {
                            outputs: connected.graph.storage.outputs + outs@.take(k as int),
                            ..connected.graph.storage
                        },
                    ),
                    ..connected
                }),
            decreases outs@.len() - k,
        {
            c.graph.mark_output(outs[k]);
            k += 1;
            assert(connected.graph.storage.outputs + outs@.take(k as int) == (
            connected.graph.storage.outputs + outs@.take(k - 1)).push(outs@[k - 1]));
        }
        assert(outs@.take(k as int) == outs@);
        assert(c@ == CompactionModel::of(self@, remove_nodes@));
        (c.graph, c.node_map, c.value_map)
    }

    /// The node identifiers, in order.
    pub fn node_ids(&self) -> (r: Vec<NodeId>)
        ensures
            r@ == ids(self@.storage.nodes.len() as u32),
    {
        ids_below(self.node_count() as u32)
    }

    /// The value identifiers, in order.
    pub fn value_ids(&self) -> (r: Vec<ValueId>)
        ensures
            r@ == ids(self@.storage.values.len() as u32),
    {
        ids_below(self.value_count() as u32)
    }
}

/// The identifiers below `n`, in order.
pub open spec fn ids(n: u32) -> Seq<u32> {
    Seq::new(n as nat, |i: int| i as u32)
}

fn ids_below(n: u32) -> (r: Vec<u32>)
    ensures
        r@ == ids(n),
{
    let mut v: Vec<u32> = Vec::new();
    let mut i: u32 = 0;
    while i < n
        invariant
            i <= n,
            v@ == ids(i),
        decreases n - i,
    {
        v.push(i);
        i += 1;
        assert(ids(i) == ids((i - 1) as u32).push((i - 1) as u32));
    }
    v
}

/// A graph under construction, with what became of the nodes and the values
/// of the graph that it is made from.
#[verifier::ext_equal]
pub struct CompactionModel {
    pub graph: GraphModel,
    pub nodes: Map<u32, u32>,
    pub values: Map<u32, u32>,
}

impl CompactionModel {
    /// With a copy of the value `v` of `src`, defined by `def`, if `v` is a
    /// value whose type is known.
    pub open spec fn copying_value(self, src: GraphModel, v: u32, def: u32) -> CompactionModel {
        if src.value_error(v) is Some {
            self
        } else {
            CompactionModel {
                graph: self.graph.with_typed(
                    src.storage.value_type(v as int),
                    src.storage.value_name(v as int),
                    def,
                ),
                values: self.values.insert(v, self.graph.storage.values.len() as u32),
                ..self
            }
        }
    }

    /// With copies of several values, in order.
    pub open spec fn copying_values(self, src: GraphModel, vs: Seq<u32>, def: u32) -> CompactionModel
        decreases vs.len(),
    {
        if vs.len() == 0 {
            self
        } else {
            self.copying_values(src, vs.drop_last(), def).copying_value(src, vs.last(), def)
        }
    }

    /// With a copy of the node `i` of `src` and of its outputs.
    pub open spec fn copying_node(self, src: GraphModel, i: u32) -> CompactionModel {
        let id = self.graph.storage.nodes.len() as u32;
        CompactionModel {
            graph: self.graph.storing(
                self.graph.storage.with_node(src.storage.nodes[i as int].op_tag),
            ),
            nodes: self.nodes.insert(i, id),
            ..self
        }.copying_values(src, src.storage.node_outputs(i as int), id)
    }

    /// The first `n` nodes of `src` that are not removed, with their outputs.
    pub open spec fn kept(src: GraphModel, removed: Set<u32>, n: nat) -> CompactionModel
        decreases n,
    {
        if n == 0 {
            CompactionModel {
                graph: GraphModel::empty(src.name),
                nodes: Map::empty(),
                values: Map::empty(),
            }
        } else {
            let before = CompactionModel::kept(src, removed, (n - 1) as nat);
            if removed.contains((n - 1) as u32) {
                before
            } else {
                before.copying_node(src, (n - 1) as u32)
            }
        }
    }

    /// With copies of those inputs of `src` that were not copied yet.
    pub open spec fn copying_inputs(self, src: GraphModel, ins: Seq<u32>) -> CompactionModel
        decreases ins.len(),
    {
        if ins.len() == 0 {
            self
        } else {
            let before = self.copying_inputs(src, ins.drop_last());
            let v = ins.last();
            if before.values.contains_key(v) || src.value_error(v) is Some {
                before
            } else {
                let after = before.copying_value(src, v, u32::MAX);
                CompactionModel { graph: after.graph.marking_input(after.values[v]), ..after }
            }
        }
    }

    /// The identifiers of the copies of those of the given values that were copied.
    pub open spec fn renamed(self, vs: Seq<u32>) -> Seq<u32>
        decreases vs.len(),
    {
        if vs.len() == 0 {
            Seq::empty()
        } else if self.values.contains_key(vs.last()) {
            self.renamed(vs.drop_last()).push(self.values[vs.last()])
        } else {
            self.renamed(vs.drop_last())
        }
    }

    /// With the copies of the first `n` nodes of `src` connected as in `src`.
    pub open spec fn connecting(self, src: GraphModel, n: nat) -> CompactionModel
        decreases n,
    {
        if n == 0 {
            self
        } else {
            let before = self.connecting(src, (n - 1) as nat);
            let i = (n - 1) as u32;
            if self.nodes.contains_key(i) {
                let id = self.nodes[i] as int;
                CompactionModel {
                    graph: before.graph.with_inputs(
                        id,
                        self.renamed(src.storage.node_inputs(i as int)),
                    ).with_outputs(id, self.renamed(src.storage.node_outputs(i as int))),
                    ..before
                }
            } else {
                before
            }
        }
    }

    /// With the copies of the outputs of `src` marked as outputs.
    pub open spec fn marking_outputs(self, outs: Seq<u32>) -> CompactionModel {
        CompactionModel {
            graph: self.graph.storing(
                StorageModel {
                    outputs: self.graph.storage.outputs + self.renamed(outs),
                    ..self.graph.storage
                },
            ),
            ..self
        }
    }

    /// The nodes of `src` that are not removed, in order, with their outputs
    /// and with the inputs of `src`, connected by the new identifiers.
    /// Attributes are not carried over.
    pub open spec fn of(src: GraphModel, removed: Set<u32>) -> CompactionModel {
        let n = src.storage.nodes.len();
        CompactionModel::kept(src, removed, n).copying_inputs(src, src.storage.inputs).connecting(
            src,
            n,
        ).marking_outputs(src.storage.outputs)
    }
}

struct Compaction {
    graph: Graph,
    node_map: HashMap<NodeId, NodeId>,
    value_map: HashMap<ValueId, ValueId>,
}

impl Compaction {
    spec fn view(&self) -> CompactionModel {
        CompactionModel { graph: self.graph@, nodes: self.node_map@, values: self.value_map@ }
    }

    fn copy_value(&mut self, src: &Graph, v: ValueId, def: NodeId)
        requires
            src@.copyable(v),
        ensures
            final(self)@ == old(self)@.copying_value(src@, v, def),
    {
        broadcast use vstd::std_specs::hash::group_hash_axioms;

        if let Ok(old_v) = src.value(v) {
            let ty = if old_v.is_tensor() {
                let mut dims: Vec<i64> = Vec::new();
                dims.extend_from_slice(old_v.shape());
                assert(dims@ == src@.storage.value_shape(v as int));
                Type::Tensor { dtype: old_v.dtype(), dims }
            } else {
                Type::Scalar(old_v.dtype())
            };
            let new_vid = self.graph.add_value(ty, old_v.name(), def);
            self.value_map.insert(v, new_vid);
        }
    }

    fn copy_node(&mut self, src: &Graph, i: NodeId)
        requires
            i < src@.storage.nodes.len(),
            src@.node_copyable(i as int),
        ensures
            final(self)@ == old(self)@.copying_node(src@, i),
    {
        broadcast use vstd::std_specs::hash::group_hash_axioms;

        if let Ok(old_node) = src.node(i) {
            let id = self.graph.add_node(old_node.kind);
            self.node_map.insert(i, id);
            let outs = old_node.outputs();
            let ghost begin = self@;
            let mut k: usize = 0;
            while k < outs.len()
                invariant
                    k <= outs@.len(),
                    outs@ == src@.storage.node_outputs(i as int),
                    src@.node_copyable(i as int),
                    self@ == begin.copying_values(src@, outs@.take(k as int), id),
                decreases outs@.len() - k,
            {
                assert(src@.copyable(src@.storage.node_outputs(i as int)[k as int]));
                self.copy_value(src, outs[k], id);
                k += 1;
                assert(outs@.take(k as int).drop_last() == outs@.take(k - 1));
            }
            assert(outs@.take(k as int) == outs@);
        }
    }

    fn copy_inputs(&mut self, src: &Graph)
        requires
            forall|k: int|
                0 <= k < src@.storage.inputs.len() ==> src@.copyable(#[trigger] src@.storage.inputs[k]),
        ensures
            final(self)@ == old(self)@.copying_inputs(src@, src@.storage.inputs),
    {
        broadcast use vstd::std_specs::hash::group_hash_axioms;

        let ins = src.inputs();
        let ghost begin = self@;
        let mut k: usize = 0;
        while k < ins.len()
            invariant
                k <= ins@.len(),
                ins@ == src@.storage.inputs,
                forall|k: int|
                    0 <= k < src@.storage.inputs.len() ==> src@.copyable(
                        #[trigger] src@.storage.inputs[k],
                    ),
                self@ == begin.copying_inputs(src@, ins@.take(k as int)),
            decreases ins@.len() - k,
        {
            let v = ins[k];
            assert(src@.copyable(src@.storage.inputs[k as int]));
            assert(ins@.take(k + 1).drop_last() == ins@.take(k as int));
            if !self.value_map.contains_key(&v) {
                let known = src.value(v).is_ok();
                self.copy_value(src, v, u32::MAX);
                if known {
                    let new_vid = *self.value_map.get(&v).unwrap();
                    self.graph.mark_input(new_vid);
                }
            }
            k += 1;
        }
        assert(ins@.take(k as int) == ins@);
    }

    fn rename(&self, vs: &[ValueId]) -> (r: Vec<ValueId>)
        ensures
            r@ == self@.renamed(vs@),
    {
        broadcast use vstd::std_specs::hash::group_hash_axioms;

        let mut out: Vec<ValueId> = Vec::new();
        let mut k: usize = 0;
        while k < vs.len()
            invariant
                k <= vs@.len(),
                out@ == self@.renamed(vs@.take(k as int)),
            decreases vs@.len() - k,
        {
            assert(vs@.take(k + 1).drop_last() == vs@.take(k as int));
            if let Some(n) = self.value_map.get(&vs[k]) {
                out.push(*n);
            }
            k += 1;
        }
        assert(vs@.take(k as int) == vs@);
        out
    }
}

/// How many of the identifiers below `n` are not removed.
pub open spec fn survivors(removed: Set<u32>, n: nat) -> nat
    decreases n,
{
    if n == 0 {
        0
    } else {
        survivors(removed, (n - 1) as nat) + if removed.contains((n - 1) as u32) {
            0nat
        } else {
            1nat
        }
    }
}

/// Renaming depends on what became of the values alone.
proof fn renamed_by_values(a: CompactionModel, b: CompactionModel, vs: Seq<u32>)
    requires
        a.values == b.values,
    ensures
        a.renamed(vs) == b.renamed(vs),
    decreases vs.len(),
{
    if vs.len() > 0 {
        renamed_by_values(a, b, vs.drop_last());
    }
}

/// Copying values does not touch nodes.
proof fn values_keep_nodes(c: CompactionModel, src: GraphModel, vs: Seq<u32>, def: u32)
    ensures
        ({
            let d = c.copying_values(src, vs, def);
            &&& d.nodes == c.nodes
            &&& d.graph.storage.nodes == c.graph.storage.nodes
            &&& d.graph.storage.edges == c.graph.storage.edges
            &&& d.graph.name == c.graph.name
        }),
    decreases vs.len(),
{
    if vs.len() > 0 {
        values_keep_nodes(c, src, vs.drop_last(), def);
    }
}

/// Copying inputs does not touch nodes.
proof fn inputs_keep_nodes(c: CompactionModel, src: GraphModel, ins: Seq<u32>)
    ensures
        ({
            let d = c.copying_inputs(src, ins);
            &&& d.nodes == c.nodes
            &&& d.graph.storage.nodes == c.graph.storage.nodes
            &&& d.graph.storage.edges == c.graph.storage.edges
            &&& d.graph.name == c.graph.name
        }),
    decreases ins.len(),
{
    if ins.len() > 0 {
        inputs_keep_nodes(c, src, ins.drop_last());
    }
}

/// The nodes that are kept get consecutive identifiers in their old order,
/// and keep their operator numbers.
proof fn kept_nodes(src: GraphModel, removed: Set<u32>, n: nat)
    requires
        n <= src.storage.nodes.len() <= u32::MAX,
    ensures
        ({
            let c = CompactionModel::kept(src, removed, n);
            &&& c.graph.storage.nodes.len() == survivors(removed, n) <= n
            &&& c.graph.storage.edges.len() == 0
            &&& forall|j: u32| #[trigger]
                c.nodes.contains_key(j) <==> j < n && !removed.contains(j)
            &&& forall|j: u32| #[trigger]
                c.nodes.contains_key(j) ==> c.nodes[j] == survivors(removed, j as nat) && c.nodes[j]
                    < c.graph.storage.nodes.len()
                    && c.graph.storage.nodes[c.nodes[j] as int].op_tag
                    == src.storage.nodes[j as int].op_tag
        }),
    decreases n,
{
    if n > 0 {
        kept_nodes(src, removed, (n - 1) as nat);
        let c = CompactionModel::kept(src, removed, (n - 1) as nat);
        let i = (n - 1) as u32;
        if !removed.contains(i) {
            let id = c.graph.storage.nodes.len() as u32;
            let d = CompactionModel {
                graph: c.graph.storing(c.graph.storage.with_node(src.storage.nodes[i as int].op_tag)),
                nodes: c.nodes.insert(i, id),
                ..c
            };
            values_keep_nodes(d, src, src.storage.node_outputs(i as int), id);
        }
    }
}

/// Identifiers that are kept keep their order.
proof fn survivors_grow(removed: Set<u32>, i: nat, j: nat)
    requires
        i <= j <= u32::MAX,
    ensures
        survivors(removed, i) <= survivors(removed, j),
        i < j && !removed.contains(i as u32) ==> survivors(removed, i) < survivors(removed, j),
    decreases j,
{
    if i < j {
        survivors_grow(removed, i, (j - 1) as nat);
    }
}

/// Connecting sets the operands of the copied nodes, one node at a time.
proof fn connecting_sets_operands(c: CompactionModel, src: GraphModel, n: nat)
    requires
        n <= u32::MAX,
        c.connecting(src, n).graph.storage.edges.len() <= u32::MAX,
        forall|j: u32| #[trigger]
            c.nodes.contains_key(j) ==> c.nodes[j] < c.graph.storage.nodes.len(),
        forall|i: u32, j: u32|
            #![trigger c.nodes[i], c.nodes[j]]
            c.nodes.contains_key(i) && c.nodes.contains_key(j) && i != j ==> c.nodes[i] != c.nodes[j],
    ensures
        ({
            let d = c.connecting(src, n);
            &&& d.nodes == c.nodes && d.values == c.values
            &&& d.graph.name == c.graph.name
            &&& d.graph.storage.values == c.graph.storage.values
            &&& d.graph.storage.outputs == c.graph.storage.outputs
            &&& d.graph.storage.nodes.len() == c.graph.storage.nodes.len()
            &&& c.graph.storage.edges.len() <= d.graph.storage.edges.len()
            &&& forall|k: int|
                0 <= k < c.graph.storage.nodes.len() ==> (#[trigger] d.graph.storage.nodes[k]).op_tag
                    == c.graph.storage.nodes[k].op_tag
            &&& forall|j: u32|
                j < n && #[trigger] c.nodes.contains_key(j) ==> {
                    let id = c.nodes[j] as int;
                    let h = d.graph.storage.nodes[id];
                    &&& h.inputs_off + h.inputs_len <= d.graph.storage.edges.len()
                    &&& h.outputs_off + h.outputs_len <= d.graph.storage.edges.len()
                    &&& d.graph.storage.node_inputs(id) == c.renamed(src.storage.node_inputs(j as int))
                    &&& d.graph.storage.node_outputs(id) == c.renamed(
                        src.storage.node_outputs(j as int),
                    )
                }
        }),
    decreases n,
{
    if n > 0 {
        let i = (n - 1) as u32;
        let b = c.connecting(src, (n - 1) as nat);
        let d = c.connecting(src, n);
        connecting_sets_operands(c, src, (n - 1) as nat);
        if c.nodes.contains_key(i) {
            let at = c.nodes[i] as int;
            let ins = c.renamed(src.storage.node_inputs(i as int));
            let outs = c.renamed(src.storage.node_outputs(i as int));
            assert(d.graph.storage.edges == b.graph.storage.edges + ins + outs);
            assert(d.graph.storage.node_inputs(at) == ins);
            assert(d.graph.storage.node_outputs(at) == outs);
            assert forall|j: u32| j < n && #[trigger] c.nodes.contains_key(j) implies {
                let id = c.nodes[j] as int;
                let h = d.graph.storage.nodes[id];
                &&& h.inputs_off + h.inputs_len <= d.graph.storage.edges.len()
                &&& h.outputs_off + h.outputs_len <= d.graph.storage.edges.len()
                &&& d.graph.storage.node_inputs(id) == c.renamed(src.storage.node_inputs(j as int))
                &&& d.graph.storage.node_outputs(id) == c.renamed(src.storage.node_outputs(j as int))
            } by {
                if j != i {
                    let id = c.nodes[j] as int;
                    assert(id != at);
                    assert(d.graph.storage.nodes[id] == b.graph.storage.nodes[id]);
                    assert(d.graph.storage.node_inputs(id) == b.graph.storage.node_inputs(id));
                    assert(d.graph.storage.node_outputs(id) == b.graph.storage.node_outputs(id));
                }
            }
        }
    }
}

/// What compaction promises. Exactly the nodes that are not removed are kept;
/// they get consecutive identifiers in their old order and keep their
/// operators. Their operands are the copies of their old operands, in the old
/// order, as far as those were copied, and so are the outputs of the graph.
pub proof fn compaction_keeps_graph(src: GraphModel, removed: Set<u32>)
    requires
        src.storage.wf(),
        CompactionModel::of(src, removed).graph.storage.edges.len() <= u32::MAX,
    ensures
        ({
            let c = CompactionModel::of(src, removed);
            &&& c.graph.name == src.name
            &&& c.graph.storage.nodes.len() == survivors(removed, src.storage.nodes.len())
            &&& forall|j: u32| #[trigger]
                c.nodes.contains_key(j) <==> j < src.storage.nodes.len() && !removed.contains(j)
            &&& forall|i: u32, j: u32|
                #![trigger c.nodes[i], c.nodes[j]]
                c.nodes.contains_key(i) && c.nodes.contains_key(j) && i < j ==> c.nodes[i]
                    < c.nodes[j]
            &&& forall|j: u32| #[trigger]
                c.nodes.contains_key(j) ==> {
                    let id = c.nodes[j] as int;
                    &&& id < c.graph.storage.nodes.len()
                    &&& c.graph.storage.nodes[id].op_tag == src.storage.nodes[j as int].op_tag
                    &&& c.graph.storage.node_inputs(id) == c.renamed(src.storage.node_inputs(j as int))
                    &&& c.graph.storage.node_outputs(id) == c.renamed(
                        src.storage.node_outputs(j as int),
                    )
                }
            &&& c.graph.storage.outputs == c.renamed(src.storage.outputs)
        }),
{
    let n = src.storage.nodes.len();
    let k = CompactionModel::kept(src, removed, n);
    let a = k.copying_inputs(src, src.storage.inputs);
    let b = a.connecting(src, n);
    let c = CompactionModel::of(src, removed);
    kept_nodes(src, removed, n);
    inputs_keep_nodes(k, src, src.storage.inputs);
    kept_outputs_empty(src, removed, n);
    inputs_keep_outputs(k, src, src.storage.inputs);
    assert forall|i: u32, j: u32|
        #![trigger a.nodes[i], a.nodes[j]]
        a.nodes.contains_key(i) && a.nodes.contains_key(j) && i < j implies a.nodes[i]
        < a.nodes[j] by {
        survivors_grow(removed, i as nat, j as nat);
    }
    assert forall|i: u32, j: u32|
        #![trigger a.nodes[i], a.nodes[j]]
        a.nodes.contains_key(i) && a.nodes.contains_key(j) && i != j implies a.nodes[i]
        != a.nodes[j] by {
        if i < j {
            survivors_grow(removed, i as nat, j as nat);
        } else {
            survivors_grow(removed, j as nat, i as nat);
        }
    }
    connecting_sets_operands(a, src, n);
    renamed_by_values(b, c, src.storage.outputs);
    assert(c.graph.storage.outputs == c.renamed(src.storage.outputs));
    assert forall|j: u32| #[trigger] c.nodes.contains_key(j) implies {
        let id = c.nodes[j] as int;
        &&& id < c.graph.storage.nodes.len()
        &&& c.graph.storage.nodes[id].op_tag == src.storage.nodes[j as int].op_tag
        &&& c.graph.storage.node_inputs(id) == c.renamed(src.storage.node_inputs(j as int))
        &&& c.graph.storage.node_outputs(id) == c.renamed(src.storage.node_outputs(j as int))
    } by {
        renamed_by_values(a, c, src.storage.node_inputs(j as int));
        renamed_by_values(a, c, src.storage.node_outputs(j as int));
        assert(a.nodes.contains_key(j));
        let id = a.nodes[j] as int;
        assert(c.graph.storage.nodes[id] == b.graph.storage.nodes[id]);
        assert(c.graph.storage.node_inputs(id) == b.graph.storage.node_inputs(id));
        assert(c.graph.storage.node_outputs(id) == b.graph.storage.node_outputs(id));
    }
}

/// The nodes that are kept stand in the copy, before it is connected.
pub proof fn compacted_nodes(src: GraphModel, removed: Set<u32>)
    requires
        src.storage.nodes.len() <= u32::MAX,
    ensures
        ({
            let n = src.storage.nodes.len();
            let a = CompactionModel::kept(src, removed, n).copying_inputs(src, src.storage.inputs);
            forall|j: u32| #[trigger]
                a.nodes.contains_key(j) ==> a.nodes[j] < a.graph.storage.nodes.len()
        }),
{
    let n = src.storage.nodes.len();
    kept_nodes(src, removed, n);
    inputs_keep_nodes(CompactionModel::kept(src, removed, n), src, src.storage.inputs);
}

/// Copying values does not touch the outputs of the graph.
proof fn values_keep_outputs(c: CompactionModel, src: GraphModel, vs: Seq<u32>, def: u32)
    ensures
        c.copying_values(src, vs, def).graph.storage.outputs == c.graph.storage.outputs,
    decreases vs.len(),
{
    if vs.len() > 0 {
        values_keep_outputs(c, src, vs.drop_last(), def);
    }
}

proof fn inputs_keep_outputs(c: CompactionModel, src: GraphModel, ins: Seq<u32>)
    ensures
        c.copying_inputs(src, ins).graph.storage.outputs == c.graph.storage.outputs,
    decreases ins.len(),
{
    if ins.len() > 0 {
        inputs_keep_outputs(c, src, ins.drop_last());
    }
}

proof fn kept_outputs_empty(src: GraphModel, removed: Set<u32>, n: nat)
    ensures
        CompactionModel::kept(src, removed, n).graph.storage.outputs == Seq::<u32>::empty(),
        CompactionModel::kept(src, removed, n).graph.name == src.name,
    decreases n,
{
    if n > 0 {
        kept_outputs_empty(src, removed, (n - 1) as nat);
        let c = CompactionModel::kept(src, removed, (n - 1) as nat);
        let i = (n - 1) as u32;
        if !removed.contains(i) {
            let id = c.graph.storage.nodes.len() as u32;
            let d = CompactionModel {
                graph: c.graph.storing(c.graph.storage.with_node(src.storage.nodes[i as int].op_tag)),
                nodes: c.nodes.insert(i, id),
                ..c
            };
            values_keep_outputs(d, src, src.storage.node_outputs(i as int), id);
            values_keep_nodes(d, src, src.storage.node_outputs(i as int), id);
        }
    }
}

} // verus!
