//! What every operation on a graph keeps.
//!
//! Offsets into the pools of a graph are 32 bit numbers, so the laws hold as
//! long as the pools do not outgrow them.

use vstd::prelude::*;
use crate::arch::{kinds_known, lowerable};
use crate::backend::extract::{entry_readable, tensor_readable, tensors_readable};
use crate::base::{OpKind, TypeModel, op_tag_round_trip};
use crate::bytes::{le_bytes, le_value};
use crate::common::dumpable;
use crate::graph::{AttrModel, CompactionModel, GraphModel, compacted_nodes, first_float};
use crate::storage::{AttrEntry, AttrKey, AttrTag, StorageModel};
use crate::storage_laws::{inputs_read_back, node_is_added, outputs_read_back};

verus! {

/// Whether offsets into the pools fit their type.
pub open spec fn roomy(m: StorageModel) -> bool {
    &&& m.nodes.len() <= u32::MAX
    &&& m.values.len() <= u32::MAX
    &&& m.edges.len() <= u32::MAX
    &&& m.attrs.len() <= u32::MAX
    &&& m.attr_data.len() <= u32::MAX
    &&& m.shape_data.len() <= u32::MAX
    &&& m.name_data.len() <= u32::MAX
}

/// Whether an operand is a value of the graph, or stands for a missing one
/// where that may be.
pub open spec fn operand_ok(m: StorageModel, v: u32, missing: bool) -> bool {
    v < m.values.len() || (missing && v == u32::MAX)
}

/// Whether all operands are.
pub open spec fn operands_ok(m: StorageModel, vs: Seq<u32>, missing: bool) -> bool {
    forall|i: int| 0 <= i < vs.len() ==> operand_ok(m, #[trigger] vs[i], missing)
}

/// Whether the operands of a node are.
pub open spec fn node_connected(m: StorageModel, node: int, missing: bool) -> bool {
    operands_ok(m, m.node_inputs(node), missing) && operands_ok(m, m.node_outputs(node), missing)
}

/// A sound graph: its storage is well formed, its operators are known, and the
/// operands of its nodes are values of the graph.
pub open spec fn sound(g: GraphModel, missing: bool) -> bool {
    &&& g.storage.wf()
    &&& kinds_known(g, g.storage.nodes.len())
    &&& forall|i: int|
        0 <= i < g.storage.nodes.len() ==> #[trigger] node_connected(g.storage, i, missing)
}

/// An empty graph is sound.
pub proof fn empty_is_sound(name: Seq<char>, missing: bool)
    ensures
        sound(GraphModel::empty(name), missing),
{
}

/// A sound graph without missing operands can be shown and lowered, and its
/// kernels can be made.
pub proof fn sound_is_usable(g: GraphModel)
    requires
        sound(g, false),
    ensures
        dumpable(g),
        lowerable(g),
        g.extractable(),
        kinds_known(g, g.storage.nodes.len()),
{
    let m = g.storage;
    assert forall|i: int| 0 <= i < m.nodes.len() implies #[trigger] g.operands_readable(i) by {
        assert(m.node_ok(i));
    }
    assert forall|i: int| 0 <= i < m.nodes.len() && g.kind(i) is Some implies #[trigger] g.kernel_readable(
        i,
    ) by {
        assert(m.node_ok(i));
        assert(node_connected(m, i, false));
        operands_are_readable(m, m.node_inputs(i));
        operands_are_readable(m, m.node_outputs(i));
        assert forall|k: int| 0 <= k < m.node_attrs(i).len() implies entry_readable(
            m,
            #[trigger] m.node_attrs(i)[k],
        ) by {
            let e = m.attrs[m.nodes[i].attrs_off + k];
            assert(m.node_attrs(i)[k] == e);
            assert(m.entry_ok(e));
        }
    }
}

/// Values of a well formed graph can be read.
proof fn operands_are_readable(m: StorageModel, vs: Seq<u32>)
    requires
        m.wf(),
        operands_ok(m, vs, false),
    ensures
        tensors_readable(m, vs),
{
    assert forall|k: int| 0 <= k < vs.len() implies tensor_readable(m, #[trigger] vs[k]) by {
        assert(operand_ok(m, vs[k], false));
        assert(m.value_ok(vs[k] as int));
    }
}

/// A graph whose values grow and whose nodes stay keeps its operands.
proof fn same_nodes_stay_connected(a: StorageModel, b: StorageModel, missing: bool)
    requires
        a.nodes == b.nodes,
        a.edges == b.edges,
        a.values.len() <= b.values.len(),
        forall|i: int| 0 <= i < a.nodes.len() ==> #[trigger] node_connected(a, i, missing),
    ensures
        forall|i: int| 0 <= i < b.nodes.len() ==> #[trigger] node_connected(b, i, missing),
{
    assert forall|i: int| 0 <= i < b.nodes.len() implies #[trigger] node_connected(b, i, missing) by {
        assert(node_connected(a, i, missing));
        assert(b.node_inputs(i) == a.node_inputs(i));
        assert(b.node_outputs(i) == a.node_outputs(i));
        assert forall|k: int| 0 <= k < b.node_inputs(i).len() implies operand_ok(
            b,
            #[trigger] b.node_inputs(i)[k],
            missing,
        ) by {
            assert(operand_ok(a, a.node_inputs(i)[k], missing));
        }
        assert forall|k: int| 0 <= k < b.node_outputs(i).len() implies operand_ok(
            b,
            #[trigger] b.node_outputs(i)[k],
            missing,
        ) by {
            assert(operand_ok(a, a.node_outputs(i)[k], missing));
        }
    }
}

/// Nodes keep their operators where their operator numbers stay.
proof fn same_tags_stay_known(a: GraphModel, b: GraphModel)
    requires
        a.storage.nodes.len() == b.storage.nodes.len(),
        forall|i: int|
            0 <= i < a.storage.nodes.len() ==> (#[trigger] b.storage.nodes[i]).op_tag
                == a.storage.nodes[i].op_tag,
        kinds_known(a, a.storage.nodes.len()),
    ensures
        kinds_known(b, b.storage.nodes.len()),
{
    assert forall|i: int| 0 <= i < b.storage.nodes.len() implies #[trigger] b.kind(i) is Some by {
        assert(a.kind(i) is Some);
        assert(b.storage.nodes[i].op_tag == a.storage.nodes[i].op_tag);
    }
}

/// Adding a node keeps a graph sound.
pub proof fn node_keeps_sound(g: GraphModel, kind: OpKind, missing: bool)
    requires
        sound(g, missing),
        roomy(g.with_node(kind).storage),
    ensures
        sound(g.with_node(kind), missing),
        roomy(g.storage),
{
    op_tag_round_trip(kind);
    tagged_node_keeps_sound(g, kind.tag(), missing);
}

/// Adding a node with a known operator number keeps a graph sound.
proof fn tagged_node_keeps_sound(g: GraphModel, op_tag: u8, missing: bool)
    requires
        sound(g, missing),
        OpKind::of_tag(op_tag) is Some,
        roomy(g.storage.with_node(op_tag)),
    ensures
        sound(g.storing(g.storage.with_node(op_tag)), missing),
        roomy(g.storage),
{
    let h = g.storing(g.storage.with_node(op_tag));
    let a = g.storage;
    let b = h.storage;
    node_is_added(a, op_tag);
    assert forall|i: int| 0 <= i < b.nodes.len() implies #[trigger] h.kind(i) is Some by {
        if i < a.nodes.len() {
            assert(g.kind(i) is Some);
            assert(b.nodes[i] == a.nodes[i]);
        }
    }
    assert forall|i: int| 0 <= i < b.nodes.len() implies #[trigger] node_connected(b, i, missing) by {
        if i < a.nodes.len() {
            assert(node_connected(a, i, missing));
            assert(b.nodes[i] == a.nodes[i]);
            assert(b.node_inputs(i) == a.node_inputs(i));
            assert(b.node_outputs(i) == a.node_outputs(i));
            assert forall|k: int| 0 <= k < b.node_inputs(i).len() implies operand_ok(
                b,
                #[trigger] b.node_inputs(i)[k],
                missing,
            ) by {
                assert(operand_ok(a, a.node_inputs(i)[k], missing));
            }
            assert forall|k: int| 0 <= k < b.node_outputs(i).len() implies operand_ok(
                b,
                #[trigger] b.node_outputs(i)[k],
                missing,
            ) by {
                assert(operand_ok(a, a.node_outputs(i)[k], missing));
            }
        } else {
            assert(b.node_inputs(i) == Seq::<u32>::empty());
            assert(b.node_outputs(i) == Seq::<u32>::empty());
        }
    }
}

/// Adding a value keeps a graph sound.
pub proof fn value_keeps_sound(
    g: GraphModel,
    ty: TypeModel,
    name: Option<Seq<char>>,
    def: u32,
    missing: bool,
)
    requires
        sound(g, missing),
        roomy(g.with_typed(ty, name, def).storage),
    ensures
        sound(g.with_typed(ty, name, def), missing),
        roomy(g.storage),
{
    let h = g.with_typed(ty, name, def);
    let a = g.storage;
    let b = h.storage;
    assert forall|i: int| 0 <= i < b.nodes.len() implies #[trigger] b.node_ok(i) by {
        assert(a.node_ok(i));
    }
    assert forall|i: int| 0 <= i < b.values.len() implies #[trigger] b.value_ok(i) by {
        if i < a.values.len() {
            assert(a.value_ok(i));
        }
    }
    same_tags_stay_known(g, h);
    same_nodes_stay_connected(a, b, missing);
}

/// Marking an input or an output of the graph keeps it sound.
pub proof fn marks_keep_sound(g: GraphModel, v: u32, missing: bool)
    requires
        sound(g, missing),
    ensures
        sound(g.marking_input(v), missing),
        sound(g.marking_output(v), missing),
        roomy(g.marking_input(v).storage) == roomy(g.storage),
        roomy(g.marking_output(v).storage) == roomy(g.storage),
{
    edges_stay_sound(g, g.marking_input(v), missing);
    edges_stay_sound(g, g.marking_output(v), missing);
}

/// Soundness does not depend on the name, the inputs and the outputs.
pub proof fn edges_stay_sound(g: GraphModel, h: GraphModel, missing: bool)
    requires
        sound(g, missing),
        h.storage.nodes == g.storage.nodes,
        h.storage.values == g.storage.values,
        h.storage.edges == g.storage.edges,
        h.storage.attrs == g.storage.attrs,
        h.storage.attr_data == g.storage.attr_data,
        h.storage.shape_data == g.storage.shape_data,
        h.storage.name_data == g.storage.name_data,
    ensures
        sound(h, missing),
{
    let a = g.storage;
    let b = h.storage;
    assert forall|i: int| 0 <= i < b.nodes.len() implies #[trigger] b.node_ok(i) by {
        assert(a.node_ok(i));
    }
    assert forall|i: int| 0 <= i < b.values.len() implies #[trigger] b.value_ok(i) by {
        assert(a.value_ok(i));
    }
    assert forall|i: int| 0 <= i < b.attrs.len() implies b.entry_ok(#[trigger] b.attrs[i]) by {
        assert(a.entry_ok(a.attrs[i]));
    }
    same_tags_stay_known(g, h);
    same_nodes_stay_connected(a, b, missing);
}

/// Setting the inputs of a node keeps a graph sound.
pub proof fn inputs_keep_sound(g: GraphModel, node: int, ins: Seq<u32>, missing: bool)
    requires
        sound(g, missing),
        0 <= node < g.storage.nodes.len(),
        operands_ok(g.storage, ins, missing),
        roomy(g.with_inputs(node, ins).storage),
    ensures
        sound(g.with_inputs(node, ins), missing),
        roomy(g.storage),
{
    let h = g.with_inputs(node, ins);
    inputs_read_back(g.storage, node, ins);
    same_tags_stay_known(g, h);
    operands_set(g.storage, h.storage, node, missing);
}

/// Setting the outputs of a node keeps a graph sound.
pub proof fn outputs_keep_sound(g: GraphModel, node: int, outs: Seq<u32>, missing: bool)
    requires
        sound(g, missing),
        0 <= node < g.storage.nodes.len(),
        operands_ok(g.storage, outs, missing),
        roomy(g.with_outputs(node, outs).storage),
    ensures
        sound(g.with_outputs(node, outs), missing),
        roomy(g.storage),
{
    let h = g.with_outputs(node, outs);
    outputs_read_back(g.storage, node, outs);
    same_tags_stay_known(g, h);
    operands_set(g.storage, h.storage, node, missing);
}

/// Where the operands of one node are set and those of the others stay, all
/// operands are in order.
proof fn operands_set(a: StorageModel, b: StorageModel, node: int, missing: bool)
    requires
        a.nodes.len() == b.nodes.len(),
        a.values.len() == b.values.len(),
        0 <= node < a.nodes.len(),
        b.node_inputs(node) == a.node_inputs(node) || operands_ok(a, b.node_inputs(node), missing),
        b.node_outputs(node) == a.node_outputs(node) || operands_ok(a, b.node_outputs(node), missing),
        forall|i: int|
            0 <= i < a.nodes.len() && i != node ==> #[trigger] b.node_inputs(i) == a.node_inputs(i)
                && b.node_outputs(i) == a.node_outputs(i),
        forall|i: int| 0 <= i < a.nodes.len() ==> #[trigger] node_connected(a, i, missing),
    ensures
        forall|i: int| 0 <= i < b.nodes.len() ==> #[trigger] node_connected(b, i, missing),
{
    assert forall|i: int| 0 <= i < b.nodes.len() implies #[trigger] node_connected(b, i, missing) by {
        assert(node_connected(a, i, missing));
        if i != node {
            assert(b.node_inputs(i) == a.node_inputs(i));
        }
        assert(operands_ok(a, b.node_inputs(i), missing));
        assert(operands_ok(a, b.node_outputs(i), missing));
        assert forall|k: int| 0 <= k < b.node_inputs(i).len() implies operand_ok(
            b,
            #[trigger] b.node_inputs(i)[k],
            missing,
        ) by {
            assert(operand_ok(a, b.node_inputs(i)[k], missing));
        }
        assert forall|k: int| 0 <= k < b.node_outputs(i).len() implies operand_ok(
            b,
            #[trigger] b.node_outputs(i)[k],
            missing,
        ) by {
            assert(operand_ok(a, b.node_outputs(i)[k], missing));
        }
    }
}

/// Giving a node an attribute keeps a graph sound.
pub proof fn attr_data_keeps_sound(
    g: GraphModel,
    node: int,
    key: AttrKey,
    tag: AttrTag,
    data: Seq<u8>,
    missing: bool,
)
    requires
        sound(g, missing),
        0 <= node < g.storage.nodes.len(),
        tag == AttrTag::Int || tag == AttrTag::Float ==> data.len() == 8,
        tag == AttrTag::Bool ==> data.len() == 1,
        roomy(g.storage.with_attr(node, key, tag, data)),
    ensures
        sound(g.storing(g.storage.with_attr(node, key, tag, data)), missing),
        roomy(g.storage),
{
    let h = g.storing(g.storage.with_attr(node, key, tag, data));
    let a = g.storage;
    let b = h.storage;
    assert(a.node_ok(node));
    assert forall|i: int| 0 <= i < b.nodes.len() implies #[trigger] b.node_ok(i) by {
        assert(a.node_ok(i));
    }
    assert forall|i: int| 0 <= i < b.values.len() implies #[trigger] b.value_ok(i) by {
        assert(a.value_ok(i));
    }
    assert forall|i: int| 0 <= i < b.attrs.len() implies b.entry_ok(#[trigger] b.attrs[i]) by {
        if i < a.attrs.len() {
            assert(a.entry_ok(a.attrs[i]));
        }
    }
    same_tags_stay_known(g, h);
    assert forall|i: int| 0 <= i < b.nodes.len() implies #[trigger] node_connected(b, i, missing) by {
        assert(node_connected(a, i, missing));
        assert(b.node_inputs(i) == a.node_inputs(i));
        assert(b.node_outputs(i) == a.node_outputs(i));
        assert forall|k: int| 0 <= k < b.node_inputs(i).len() implies operand_ok(
            b,
            #[trigger] b.node_inputs(i)[k],
            missing,
        ) by {
            assert(operand_ok(a, a.node_inputs(i)[k], missing));
        }
        assert forall|k: int| 0 <= k < b.node_outputs(i).len() implies operand_ok(
            b,
            #[trigger] b.node_outputs(i)[k],
            missing,
        ) by {
            assert(operand_ok(a, a.node_outputs(i)[k], missing));
        }
    }
}

/// The bytes of a number of a given width.
proof fn le_bytes_len(v: nat, n: nat)
    ensures
        le_bytes(v, n).len() == n,
    decreases n,
{
    if n > 0 {
        le_bytes_len(v / 256, (n - 1) as nat);
    }
}

/// Giving a node an attribute keeps a graph sound.
pub proof fn attr_keeps_sound(g: GraphModel, node: int, key: AttrKey, attr: AttrModel, missing: bool)
    requires
        sound(g, missing),
        0 <= node < g.storage.nodes.len(),
        roomy(g.with_attr(node, key, attr).storage),
    ensures
        sound(g.with_attr(node, key, attr), missing),
        roomy(g.storage),
{
    match attr {
        AttrModel::Int(v) => le_bytes_len(crate::bytes::unsigned(v) as nat, 8),
        AttrModel::Float(v) => le_bytes_len(v as nat, 8),
        _ => {},
    }
    attr_data_keeps_sound(g, node, key, attr.layout(), attr.data(), missing);
}

/// Whether the copies of values are values of the copy.
spec fn copies_there(c: CompactionModel) -> bool {
    forall|v: u32| #[trigger] c.values.contains_key(v) ==> c.values[v] < c.graph.storage.values.len()
}

/// A sound copy under construction.
spec fn copied(c: CompactionModel) -> bool {
    sound(c.graph, false) && copies_there(c)
}

proof fn copying_value_keeps(c: CompactionModel, src: GraphModel, v: u32, def: u32)
    requires
        copied(c),
        roomy(c.copying_value(src, v, def).graph.storage),
    ensures
        copied(c.copying_value(src, v, def)),
{
    if src.value_error(v) is None {
        value_keeps_sound(
            c.graph,
            src.storage.value_type(v as int),
            src.storage.value_name(v as int),
            def,
            false,
        );
    }
}

proof fn copying_values_keep(c: CompactionModel, src: GraphModel, vs: Seq<u32>, def: u32)
    requires
        roomy(c.copying_values(src, vs, def).graph.storage),
    ensures
        roomy(c.graph.storage),
        copied(c) ==> copied(c.copying_values(src, vs, def)),
    decreases vs.len(),
{
    if vs.len() > 0 {
        let d = c.copying_values(src, vs.drop_last(), def);
        assert(roomy(d.graph.storage));
        copying_values_keep(c, src, vs.drop_last(), def);
        if copied(c) {
            copying_value_keeps(d, src, vs.last(), def);
        }
    }
}

proof fn kept_keeps(src: GraphModel, removed: Set<u32>, n: nat)
    requires
        n <= src.storage.nodes.len() <= u32::MAX,
        kinds_known(src, src.storage.nodes.len()),
        roomy(CompactionModel::kept(src, removed, n).graph.storage),
    ensures
        copied(CompactionModel::kept(src, removed, n)),
    decreases n,
{
    if n == 0 {
        empty_is_sound(src.name, false);
    } else {
        let c = CompactionModel::kept(src, removed, (n - 1) as nat);
        let i = (n - 1) as u32;
        if removed.contains(i) {
            kept_keeps(src, removed, (n - 1) as nat);
        } else {
            let id = c.graph.storage.nodes.len() as u32;
            let tag = src.storage.nodes[i as int].op_tag;
            let d = CompactionModel {
                graph: c.graph.storing(c.graph.storage.with_node(tag)),
                nodes: c.nodes.insert(i, id),
                ..c
            };
            copying_values_keep(d, src, src.storage.node_outputs(i as int), id);
            assert(roomy(c.graph.storage));
            kept_keeps(src, removed, (n - 1) as nat);
            assert(src.kind(i as int) is Some);
            tagged_node_keeps_sound(c.graph, tag, false);
            assert(copied(d));
        }
    }
}

proof fn copying_inputs_keep(c: CompactionModel, src: GraphModel, ins: Seq<u32>)
    requires
        roomy(c.copying_inputs(src, ins).graph.storage),
    ensures
        roomy(c.graph.storage),
        copied(c) ==> copied(c.copying_inputs(src, ins)),
    decreases ins.len(),
{
    if ins.len() > 0 {
        let b = c.copying_inputs(src, ins.drop_last());
        let v = ins.last();
        assert(roomy(b.graph.storage));
        copying_inputs_keep(c, src, ins.drop_last());
        if copied(c) && !(b.values.contains_key(v) || src.value_error(v) is Some) {
            let after = b.copying_value(src, v, u32::MAX);
            copying_value_keeps(b, src, v, u32::MAX);
            marks_keep_sound(after.graph, after.values[v], false);
        }
    }
}

proof fn renamed_ok(c: CompactionModel, vs: Seq<u32>)
    requires
        copies_there(c),
    ensures
        operands_ok(c.graph.storage, c.renamed(vs), false),
    decreases vs.len(),
{
    if vs.len() > 0 {
        renamed_ok(c, vs.drop_last());
        let before = c.renamed(vs.drop_last());
        let all = c.renamed(vs);
        assert forall|i: int| 0 <= i < all.len() implies operand_ok(
            c.graph.storage,
            #[trigger] all[i],
            false,
        ) by {
            if i < before.len() {
                assert(operand_ok(c.graph.storage, before[i], false));
            }
        }
    }
}

proof fn connecting_keeps(c: CompactionModel, src: GraphModel, n: nat)
    requires
        forall|j: u32| #[trigger]
            c.nodes.contains_key(j) ==> c.nodes[j] < c.graph.storage.nodes.len(),
    ensures
        ({
            let d = c.connecting(src, n);
            &&& d.nodes == c.nodes
            &&& d.graph.storage.nodes.len() == c.graph.storage.nodes.len()
            &&& d.graph.storage.values == c.graph.storage.values
            &&& roomy(d.graph.storage) ==> roomy(c.graph.storage)
            &&& roomy(d.graph.storage) && copied(c) ==> sound(d.graph, false)
        }),
    decreases n,
{
    if n > 0 {
        connecting_keeps(c, src, (n - 1) as nat);
        let b = c.connecting(src, (n - 1) as nat);
        let d = c.connecting(src, n);
        let i = (n - 1) as u32;
        if c.nodes.contains_key(i) {
            let id = c.nodes[i] as int;
            let ins = c.renamed(src.storage.node_inputs(i as int));
            let outs = c.renamed(src.storage.node_outputs(i as int));
            let g = b.graph.with_inputs(id, ins);
            if roomy(d.graph.storage) && copied(c) {
                assert(roomy(g.storage));
                assert(roomy(b.graph.storage));
                renamed_ok(c, src.storage.node_inputs(i as int));
                renamed_ok(c, src.storage.node_outputs(i as int));
                operands_move(c.graph.storage, b.graph.storage, ins);
                operands_move(c.graph.storage, g.storage, outs);
                inputs_keep_sound(b.graph, id, ins, false);
                outputs_keep_sound(g, id, outs, false);
            }
        }
    }
}

/// Operands stay values where values stay.
proof fn operands_move(a: StorageModel, b: StorageModel, vs: Seq<u32>)
    requires
        a.values == b.values,
        operands_ok(a, vs, false),
    ensures
        operands_ok(b, vs, false),
{
    assert forall|i: int| 0 <= i < vs.len() implies operand_ok(b, #[trigger] vs[i], false) by {
        assert(operand_ok(a, vs[i], false));
    }
}

/// Compaction yields a sound graph: operands that were not copied are left
/// out, so none is missing.
pub proof fn compaction_is_sound(src: GraphModel, removed: Set<u32>)
    requires
        src.storage.wf(),
        kinds_known(src, src.storage.nodes.len()),
        roomy(CompactionModel::of(src, removed).graph.storage),
    ensures
        sound(CompactionModel::of(src, removed).graph, false),
{
    let n = src.storage.nodes.len();
    let k = CompactionModel::kept(src, removed, n);
    let a = k.copying_inputs(src, src.storage.inputs);
    let b = a.connecting(src, n);
    let c = CompactionModel::of(src, removed);
    assert(roomy(b.graph.storage));
    compacted_nodes(src, removed);
    connecting_keeps(a, src, n);
    copying_inputs_keep(k, src, src.storage.inputs);
    kept_keeps(src, removed, n);
    edges_stay_sound(b.graph, c.graph, false);
}

/// Whether an entry is a float under a key.
pub open spec fn is_float_under(e: AttrEntry, key: AttrKey) -> bool {
    e.key == key.tag() && e.tag == AttrTag::Float.tag()
}

/// The value of a constant is that of the first float attribute under the key, as it
/// was stored, and there is none exactly if there is no such attribute.
pub proof fn first_float_counts(m: StorageModel, attrs: Seq<AttrEntry>, key: AttrKey, j: int)
    ensures
        0 <= j < attrs.len() && is_float_under(attrs[j], key) && (forall|i: int|
            0 <= i < j ==> !is_float_under(#[trigger] attrs[i], key)) ==> first_float(m, attrs, key)
            == Some(le_value(m.attr_data.subrange(attrs[j].data_off as int, attrs[j].data_off + 8)) as u64),
        first_float(m, attrs, key) is None <==> forall|i: int|
            0 <= i < attrs.len() ==> !is_float_under(#[trigger] attrs[i], key),
    decreases attrs.len(),
{
    if attrs.len() > 0 {
        let rest = attrs.skip(1);
        first_float_counts(m, rest, key, j - 1);
        if forall|i: int| 0 <= i < attrs.len() ==> !is_float_under(#[trigger] attrs[i], key) {
            assert forall|i: int| 0 <= i < rest.len() implies !is_float_under(
                #[trigger] rest[i],
                key,
            ) by {
                assert(!is_float_under(attrs[i + 1], key));
            }
            assert(!is_float_under(attrs[0], key));
        }
        if first_float(m, attrs, key) is None {
            assert forall|i: int| 0 <= i < attrs.len() implies !is_float_under(
                #[trigger] attrs[i],
                key,
            ) by {
                if i > 0 {
                    assert(rest[i - 1] == attrs[i]);
                }
            }
        }
        if 0 <= j < attrs.len() && is_float_under(attrs[j], key) && (forall|i: int|
            0 <= i < j ==> !is_float_under(#[trigger] attrs[i], key)) {
            if j > 0 {
                assert(!is_float_under(attrs[0], key));
                assert(rest[j - 1] == attrs[j]);
                assert forall|i: int| 0 <= i < j - 1 implies !is_float_under(
                    #[trigger] rest[i],
                    key,
                ) by {
                    assert(!is_float_under(attrs[i + 1], key));
                }
            }
        }
    }
}

} // verus!
