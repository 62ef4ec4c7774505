//! Graphs that are read are sound.

use vstd::prelude::*;
use crate::base::{OpKind, TypeModel};
use crate::frontend::dsl::{
    args_from, args_of, blank, dsl_graph, lines_from, node_statement, statement, without_comment,
};
use crate::frontend::messages::{AttrInfoModel, ModelInfoModel, NodeInfoModel, TensorInfoModel};

use crate::frontend::onnx::{
    Build, code_points, graph_name, graph_of, op_for, prepared, setting, unknown_dims, with_attributes,
};
use crate::graph::{AttrModel, GraphModel};
use crate::graph_laws::{
    attr_data_keeps_sound, attr_keeps_sound, edges_stay_sound, empty_is_sound, inputs_keep_sound,
    marks_keep_sound, node_keeps_sound, operand_ok, operands_ok, outputs_keep_sound, roomy, sound,
    value_keeps_sound,
};
use crate::storage::{AttrKey, AttrTag, pack_words};
use crate::text::{parts, trimmed};

verus! {

/// Whether names stand for values of the graph.
pub open spec fn names_there(b: Build) -> bool {
    forall|n: Seq<char>| #[trigger]
        b.names.contains_key(n) ==> b.names[n] < b.graph.storage.values.len()
}

/// A sound graph under construction.
pub open spec fn built(b: Build, missing: bool) -> bool {
    sound(b.graph, missing) && names_there(b)
}

/// Arguments that are read are values of the graph.
proof fn args_are_there(b: Build, args: Seq<Seq<char>>, k: nat, acc: Seq<u32>, n: nat)
    requires
        names_there(b),
        operands_ok(b.graph.storage, acc, false),
        args_from(b, args, k, acc, n) is Ok,
    ensures
        operands_ok(b.graph.storage, args_from(b, args, k, acc, n)->Ok_0, false),
    decreases args.len() - k,
{
    if k < args.len() {
        let a = trimmed(args[k as int]);
        if b.names.contains_key(a) {
            let next = acc.push(b.names[a]);
            assert forall|i: int| 0 <= i < next.len() implies operand_ok(
                b.graph.storage,
                #[trigger] next[i],
                false,
            ) by {
                if i < acc.len() {
                    assert(operand_ok(b.graph.storage, acc[i], false));
                }
            }
            args_are_there(b, args, k + 1, next, n);
        }
    }
}

/// A statement keeps a graph sound.
proof fn statement_keeps_built(b: Build, line: Seq<char>, n: nat)
    requires
        statement(b, line, n) is Ok,
        built(b, false),
        roomy(statement(b, line, n)->Ok_0.graph.storage),
    ensures
        built(statement(b, line, n)->Ok_0, false),
{
    let c = statement(b, line, n)->Ok_0;
    if crate::text::starts_with(line, "graph "@) {
        edges_stay_sound(b.graph, c.graph, false);
    } else if crate::text::starts_with(line, "in "@) {
        let rest = trimmed(line.skip("in "@.len() as int));
        let at = crate::text::find_from(rest, ':', 0)->0;
        let name = trimmed(rest.take(at as int));
        let ty = crate::frontend::dsl::type_of(trimmed(rest.skip(at as int + 1)), n)->Ok_0;
        let g = b.graph.with_typed(ty, Some(name), u32::MAX);
        value_keeps_sound(b.graph, ty, Some(name), u32::MAX, false);
        marks_keep_sound(g, b.next_value(), false);
    } else if crate::text::starts_with(line, "out "@) {
        let rest = trimmed(line.skip("out "@.len() as int));
        marks_keep_sound(b.graph, b.names[rest], false);
    } else {
        let i = crate::text::find_from(line, '=', 0)->0;
        node_keeps_built(b, trimmed(line.take(i as int)), trimmed(line.skip(i as int + 1)), n);
    }
}

/// A node statement keeps a graph sound.
proof fn node_keeps_built(b: Build, out: Seq<char>, rhs: Seq<char>, n: nat)
    requires
        node_statement(b, out, rhs, n) is Ok,
        built(b, false),
        roomy(node_statement(b, out, rhs, n)->Ok_0.graph.storage),
    ensures
        built(node_statement(b, out, rhs, n)->Ok_0, false),
{
    let p = crate::text::find_from(rhs, '(', 0)->0;
    let kind = crate::frontend::dsl::dsl_op(trimmed(rhs.take(p as int)));
    let args = crate::text::trim_end_char(trimmed(rhs.skip(p as int + 1)), ')');
    let node = b.next_node();
    let v = b.next_value();
    let g1 = b.graph.with_node(kind);
    let g2 = g1.with_typed(unknown_dims(2), Some(out), node);
    let g3 = g2.with_outputs(node as int, seq![v]);
    let c = Build { graph: g3, names: b.names.insert(out, v) };
    let ins = args_of(c, args, n)->Ok_0;
    let g4 = g3.with_inputs(node as int, ins);
    assert(node_statement(b, out, rhs, n)->Ok_0.graph == g4);
    assert(roomy(g3.storage));
    assert(roomy(g2.storage));
    assert(roomy(g1.storage));
    node_keeps_sound(b.graph, kind, false);
    value_keeps_sound(g1, unknown_dims(2), Some(out), node, false);
    assert(operand_ok(g2.storage, v, false));
    outputs_keep_sound(g2, node as int, seq![v], false);
    assert(names_there(c));
    if trimmed(args).len() > 0 {
        args_are_there(c, parts(args, ','), 0, Seq::empty(), n);
    }
    inputs_keep_sound(g3, node as int, ins, false);
}

/// A statement does not shrink the pools.
proof fn statement_grows(b: Build, line: Seq<char>, n: nat)
    requires
        statement(b, line, n) is Ok,
        roomy(statement(b, line, n)->Ok_0.graph.storage),
    ensures
        roomy(b.graph.storage),
{
}

/// Neither do several.
proof fn lines_grow(b: Build, lines: Seq<Seq<char>>, k: nat)
    requires
        lines_from(b, lines, k) is Ok,
        roomy(lines_from(b, lines, k)->Ok_0.graph.storage),
    ensures
        roomy(b.graph.storage),
    decreases lines.len() - k,
{
    if k < lines.len() {
        let line = trimmed(without_comment(lines[k as int]));
        if line.len() == 0 {
            lines_grow(b, lines, k + 1);
        } else {
            lines_grow(statement(b, line, k + 1)->Ok_0, lines, k + 1);
            statement_grows(b, line, k + 1);
        }
    }
}

/// Statements keep a graph sound.
proof fn lines_keep_built(b: Build, lines: Seq<Seq<char>>, k: nat)
    requires
        lines_from(b, lines, k) is Ok,
        built(b, false),
        roomy(lines_from(b, lines, k)->Ok_0.graph.storage),
    ensures
        built(lines_from(b, lines, k)->Ok_0, false),
    decreases lines.len() - k,
{
    if k < lines.len() {
        let line = trimmed(without_comment(lines[k as int]));
        if line.len() == 0 {
            lines_keep_built(b, lines, k + 1);
        } else {
            let c = statement(b, line, k + 1)->Ok_0;
            lines_grow(c, lines, k + 1);
            statement_keeps_built(b, line, k + 1);
            lines_keep_built(c, lines, k + 1);
        }
    }
}

/// The graph of a text that can be read is sound: its storage is well formed,
/// its operators are known, and the operands of its nodes are values of the
/// graph.
pub proof fn text_graph_is_sound(src: Seq<char>)
    requires
        dsl_graph(src) is Ok,
        roomy(dsl_graph(src)->Ok_0.graph.storage),
    ensures
        sound(dsl_graph(src)->Ok_0.graph, false),
{
    empty_is_sound("dsl"@, false);
    assert(built(blank(), false));
    lines_keep_built(blank(), parts(src, '\n'), 0);
}

/// Adding a value under a name keeps a graph sound.
proof fn value_keeps_built(b: Build, ty: TypeModel, name: Seq<char>, def: u32)
    requires
        built(b, true),
        roomy(b.with_value(ty, name, def).graph.storage),
    ensures
        built(b.with_value(ty, name, def), true),
{
    value_keeps_sound(b.graph, ty, Some(name), def, true);
}

/// Adding inputs does not shrink the pools.
pub(crate) proof fn inputs_grow(b: Build, names: Seq<Seq<char>>)
    requires
        roomy(b.with_inputs(names).graph.storage),
    ensures
        roomy(b.graph.storage),
    decreases names.len(),
{
    if names.len() > 0 {
        inputs_grow(b, names.drop_last());
    }
}

proof fn inputs_keep_built(b: Build, names: Seq<Seq<char>>)
    requires
        built(b, true),
        roomy(b.with_inputs(names).graph.storage),
    ensures
        built(b.with_inputs(names), true),
    decreases names.len(),
{
    if names.len() > 0 {
        let c = b.with_inputs(names.drop_last());
        assert(roomy(c.graph.storage));
        inputs_keep_built(b, names.drop_last());
        let d = c.with_value(unknown_dims(2), names.last(), u32::MAX);
        value_keeps_built(c, unknown_dims(2), names.last(), u32::MAX);
        marks_keep_sound(d.graph, c.next_value(), true);
    }
}

/// Adding a tensor keeps a graph sound.
proof fn tensor_keeps_built(b: Build, t: TensorInfoModel)
    requires
        built(b, true),
        roomy(b.with_tensor(t).graph.storage),
    ensures
        built(b.with_tensor(t), true),
        roomy(b.graph.storage),
        b.graph.storage.nodes.len() <= b.with_tensor(t).graph.storage.nodes.len(),
{
    if b.names.contains_key(t.name) {
    } else if t.values.len() > 0 && (t.data_type == 1 || t.data_type == 11) {
        let node = b.next_node();
        let out = b.next_value();
        let ty = TypeModel { elem: crate::base::DType::F32, dims: Some(t.dims) };
        let b1 = Build { graph: b.graph.with_node(OpKind::Constant), ..b };
        let b2 = b1.with_value(ty, t.name, node);
        let g = b2.graph.with_outputs(node as int, seq![out]);
        assert(roomy(g.storage));
        assert(roomy(b2.graph.storage));
        assert(roomy(b1.graph.storage));
        node_keeps_sound(b.graph, OpKind::Constant, true);
        assert(built(b1, true));
        value_keeps_built(b1, ty, t.name, node);
        assert(operand_ok(b2.graph.storage, out, true));
        outputs_keep_sound(b2.graph, node as int, seq![out], true);
        if t.values.len() == 1 {
            attr_keeps_sound(g, node as int, AttrKey::Value, AttrModel::Float(t.values[0]), true);
        } else {
            attr_data_keeps_sound(
                g,
                node as int,
                AttrKey::Value,
                AttrTag::FloatArray,
                pack_words(t.values),
                true,
            );
        }
    } else {
        value_keeps_built(b, unknown_dims(1), t.name, u32::MAX);
    }
}

pub(crate) proof fn tensors_grow(b: Build, ts: Seq<TensorInfoModel>)
    requires
        roomy(b.with_tensors(ts).graph.storage),
    ensures
        roomy(b.graph.storage),
    decreases ts.len(),
{
    if ts.len() > 0 {
        tensor_grows(b.with_tensors(ts.drop_last()), ts.last());
        tensors_grow(b, ts.drop_last());
    }
}

pub(crate) proof fn tensor_grows(b: Build, t: TensorInfoModel)
    requires
        roomy(b.with_tensor(t).graph.storage),
    ensures
        roomy(b.graph.storage),
{
}

proof fn tensors_keep_built(b: Build, ts: Seq<TensorInfoModel>)
    requires
        built(b, true),
        roomy(b.with_tensors(ts).graph.storage),
    ensures
        built(b.with_tensors(ts), true),
    decreases ts.len(),
{
    if ts.len() > 0 {
        let c = b.with_tensors(ts.drop_last());
        tensor_grows(c, ts.last());
        tensors_keep_built(b, ts.drop_last());
        tensor_keeps_built(c, ts.last());
    }
}

/// Attributes do not shrink the pools, and keep nodes, values and edges.
pub(crate) proof fn attributes_grow(g: GraphModel, node: int, kind: OpKind, attrs: Seq<AttrInfoModel>)
    requires
        0 <= node < g.storage.nodes.len(),
    ensures
        ({
            let h = with_attributes(g, node, kind, attrs);
            &&& roomy(h.storage) ==> roomy(g.storage)
            &&& h.storage.nodes.len() == g.storage.nodes.len()
            &&& h.storage.values == g.storage.values
        }),
    decreases attrs.len(),
{
    if attrs.len() > 0 {
        attributes_grow(g, node, kind, attrs.drop_last());
    }
}

proof fn attributes_keep_sound(g: GraphModel, node: int, kind: OpKind, attrs: Seq<AttrInfoModel>)
    requires
        sound(g, true),
        0 <= node < g.storage.nodes.len(),
        roomy(with_attributes(g, node, kind, attrs).storage),
    ensures
        sound(with_attributes(g, node, kind, attrs), true),
    decreases attrs.len(),
{
    if attrs.len() > 0 {
        let before = with_attributes(g, node, kind, attrs.drop_last());
        attributes_grow(g, node, kind, attrs.drop_last());
        assert(roomy(before.storage));
        attributes_keep_sound(g, node, kind, attrs.drop_last());
        if let Some((key, value)) = setting(kind, attrs.last()) {
            attr_keeps_sound(before, node, key, value, true);
        }
    }
}

/// Adding the outputs of a node does not shrink the pools, and keeps nodes.
pub(crate) proof fn outputs_grow(b: Build, names: Seq<Seq<char>>, node: u32)
    ensures
        ({
            let c = b.with_outputs(names, node);
            &&& roomy(c.graph.storage) ==> roomy(b.graph.storage)
            &&& c.graph.storage.nodes == b.graph.storage.nodes
        }),
    decreases names.len(),
{
    if names.len() > 0 {
        outputs_grow(b, names.drop_last(), node);
    }
}

proof fn outputs_keep_built(b: Build, names: Seq<Seq<char>>, node: u32)
    requires
        built(b, true),
        roomy(b.with_outputs(names, node).graph.storage),
    ensures
        built(b.with_outputs(names, node), true),
    decreases names.len(),
{
    if names.len() > 0 {
        let c = b.with_outputs(names.drop_last(), node);
        assert(roomy(c.graph.storage));
        outputs_keep_built(b, names.drop_last(), node);
        value_keeps_built(c, unknown_dims(2), names.last(), node);
    }
}

/// What names stand for can be used as operands.
proof fn resolved_ok(b: Build, names: Seq<Seq<char>>)
    requires
        names_there(b),
    ensures
        operands_ok(b.graph.storage, b.resolved(names), true),
{
    let vs = b.resolved(names);
    assert forall|i: int| 0 <= i < vs.len() implies operand_ok(
        b.graph.storage,
        #[trigger] vs[i],
        true,
    ) by {
        if b.names.contains_key(names[i]) {
            assert(b.names[names[i]] < b.graph.storage.values.len());
        }
    }
}

/// Adding a node with its outputs and attributes keeps a graph sound.
pub(crate) proof fn onnx_node_keeps_built(b: Build, n: NodeInfoModel)
    requires
        roomy(b.with_node(n).graph.storage),
    ensures
        roomy(b.graph.storage),
        built(b, true) ==> built(b.with_node(n), true),
{
    let kind = op_for(n.op_type);
    let node = b.next_node();
    let added = b.graph.with_node(kind);
    let named = if kind == OpKind::Custom {
        added.with_attr(node as int, AttrKey::Shape, AttrModel::IntArray(code_points(n.op_type)))
    } else {
        added
    };
    let b1 = Build { graph: named, ..b };
    let b2 = b1.with_outputs(n.outputs, node);
    let outs = b2.resolved(n.outputs);
    let g = b2.graph.with_outputs(node as int, outs);
    outputs_grow(b1, n.outputs, node);
    attributes_grow(g, node as int, kind, n.attributes);
    assert(roomy(g.storage));
    assert(roomy(b2.graph.storage));
    assert(roomy(named.storage));
    assert(roomy(added.storage));
    if built(b, true) {
        node_keeps_sound(b.graph, kind, true);
        if kind == OpKind::Custom {
            attr_keeps_sound(
                added,
                node as int,
                AttrKey::Shape,
                AttrModel::IntArray(code_points(n.op_type)),
                true,
            );
        }
        assert(built(b1, true));
        outputs_keep_built(b1, n.outputs, node);
        resolved_ok(b2, n.outputs);
        outputs_keep_sound(b2.graph, node as int, outs, true);
        attributes_keep_sound(g, node as int, kind, n.attributes);
        assert(with_attributes(g, node as int, kind, n.attributes).storage.values
            == b2.graph.storage.values);
    }
}

/// Adding nodes adds as many.
pub(crate) proof fn nodes_are_counted(b: Build, ns: Seq<NodeInfoModel>)
    ensures
        b.with_nodes(ns).graph.storage.nodes.len() == b.graph.storage.nodes.len() + ns.len(),
    decreases ns.len(),
{
    if ns.len() > 0 {
        nodes_are_counted(b, ns.drop_last());
        node_is_counted(b.with_nodes(ns.drop_last()), ns.last());
    }
}

proof fn node_is_counted(b: Build, n: NodeInfoModel)
    ensures
        b.with_node(n).graph.storage.nodes.len() == b.graph.storage.nodes.len() + 1,
{
    let kind = op_for(n.op_type);
    let node = b.next_node();
    let added = b.graph.with_node(kind);
    let named = if kind == OpKind::Custom {
        added.with_attr(node as int, AttrKey::Shape, AttrModel::IntArray(code_points(n.op_type)))
    } else {
        added
    };
    let b1 = Build { graph: named, ..b };
    let b2 = b1.with_outputs(n.outputs, node);
    outputs_grow(b1, n.outputs, node);
    attributes_grow(
        b2.graph.with_outputs(node as int, b2.resolved(n.outputs)),
        node as int,
        kind,
        n.attributes,
    );
}

pub(crate) proof fn onnx_nodes_keep_built(b: Build, ns: Seq<NodeInfoModel>)
    requires
        roomy(b.with_nodes(ns).graph.storage),
    ensures
        roomy(b.graph.storage),
        built(b, true) ==> built(b.with_nodes(ns), true),
    decreases ns.len(),
{
    if ns.len() > 0 {
        onnx_node_keeps_built(b.with_nodes(ns.drop_last()), ns.last());
        onnx_nodes_keep_built(b, ns.drop_last());
    }
}

/// Connecting nodes does not shrink the pools, and keeps names and values.
pub(crate) proof fn connecting_grows(b: Build, first: int, ns: Seq<NodeInfoModel>)
    requires
        0 <= first,
        first + ns.len() <= b.graph.storage.nodes.len(),
    ensures
        ({
            let c = b.connecting(first, ns);
            &&& roomy(c.graph.storage) ==> roomy(b.graph.storage)
            &&& c.names == b.names
            &&& c.graph.storage.values == b.graph.storage.values
            &&& c.graph.storage.nodes.len() == b.graph.storage.nodes.len()
        }),
    decreases ns.len(),
{
    if ns.len() > 0 {
        connecting_grows(b, first, ns.drop_last());
    }
}

proof fn connecting_keeps_built(b: Build, first: int, ns: Seq<NodeInfoModel>)
    requires
        built(b, true),
        0 <= first,
        first + ns.len() <= b.graph.storage.nodes.len(),
        roomy(b.connecting(first, ns).graph.storage),
    ensures
        built(b.connecting(first, ns), true),
    decreases ns.len(),
{
    if ns.len() > 0 {
        let c = b.connecting(first, ns.drop_last());
        connecting_grows(b, first, ns.drop_last());
        assert(roomy(c.graph.storage));
        connecting_keeps_built(b, first, ns.drop_last());
        resolved_ok(b, ns.last().inputs);
        let ins = b.resolved(ns.last().inputs);
        assert forall|i: int| 0 <= i < ins.len() implies operand_ok(
            c.graph.storage,
            #[trigger] ins[i],
            true,
        ) by {
            assert(operand_ok(b.graph.storage, ins[i], true));
        }
        inputs_keep_sound(c.graph, first + ns.len() - 1, ins, true);
    }
}

pub(crate) proof fn marking_keeps_sound(b: Build, names: Seq<Seq<char>>)
    ensures
        roomy(b.marking_outputs(names).graph.storage) == roomy(b.graph.storage),
        sound(b.graph, true) ==> sound(b.marking_outputs(names).graph, true),
    decreases names.len(),
{
    if names.len() > 0 {
        marking_keeps_sound(b, names.drop_last());
        let c = b.marking_outputs(names.drop_last());
        if b.names.contains_key(names.last()) && sound(c.graph, true) {
            marks_keep_sound(c.graph, b.names[names.last()], true);
        }
    }
}

/// The graph of a model is sound: its storage is well formed, its operators are
/// known, and the operands of its nodes are values of the graph, or the largest
/// number for names that the model does not define.
pub proof fn model_graph_is_sound(m: ModelInfoModel)
    requires
        roomy(graph_of(m).storage),
    ensures
        sound(graph_of(m), true),
{
    let start = Build { graph: GraphModel::empty(graph_name(m)), names: Map::empty() };
    let with_inputs = start.with_inputs(m.inputs);
    let p = prepared(m);
    let all = p.with_nodes(m.nodes);
    let first = p.graph.storage.nodes.len() as int;
    let connected = all.connecting(first, m.nodes);
    marking_keeps_sound(connected, m.outputs);
    nodes_are_counted(p, m.nodes);
    connecting_grows(all, first, m.nodes);
    onnx_nodes_keep_built(p, m.nodes);
    tensors_grow(with_inputs, m.initializers);
    empty_is_sound(graph_name(m), true);
    assert(built(start, true));
    inputs_keep_built(start, m.inputs);
    tensors_keep_built(with_inputs, m.initializers);
    connecting_keeps_built(all, first, m.nodes);
}

} // verus!
