//! What the graph of a model says of the model.

use vstd::prelude::*;
use crate::backend::extract::kernel_of;
use crate::backend::kernel_laws::{attribute_reaches_kernel, elements_reach_kernel};
use crate::base::{DType, OpKind, TypeModel};
use crate::compaction_order::in_order;
use crate::frontend::laws::{
    attributes_grow, built, connecting_grows, inputs_grow, nodes_are_counted, onnx_node_keeps_built,
    onnx_nodes_keep_built, outputs_grow, tensor_grows, tensors_grow,
};
use crate::frontend::messages::{
    AttrInfoModel, AttrValueModel, ModelInfoModel, NodeInfoModel, TensorInfoModel,
};
use crate::frontend::onnx::{
    Build, code_points, graph_name, graph_of, op_for, prepared, setting, unknown_dims, with_attributes,
};
use crate::graph::{AttrModel, GraphModel};
use crate::graph_laws::{
    node_keeps_sound, operand_ok, outputs_keep_sound, roomy, value_keeps_sound,
};
use crate::storage::{AttrKey, StorageModel};

verus! {

/// Whether `v` is the first place at which a name stands.
pub open spec fn stands_at(defs: Seq<Seq<char>>, name: Seq<char>, v: int) -> bool {
    &&& 0 <= v < defs.len()
    &&& defs[v] == name
    &&& forall|j: int| 0 <= j < v ==> #[trigger] defs[j] != name
}

/// The names of the tensors that become values, after those of `taken`: a tensor
/// whose name is taken, or stands before, does not.
pub open spec fn tensors_defined(taken: Seq<Seq<char>>, ts: Seq<TensorInfoModel>) -> Seq<Seq<char>>
    decreases ts.len(),
{
    if ts.len() == 0 {
        Seq::empty()
    } else {
        let before = tensors_defined(taken, ts.drop_last());
        if (taken + before).contains(ts.last().name) {
            before
        } else {
            before.push(ts.last().name)
        }
    }
}

/// The names of the outputs of nodes, in order.
pub open spec fn outputs_defined(ns: Seq<NodeInfoModel>) -> Seq<Seq<char>>
    decreases ns.len(),
{
    if ns.len() == 0 {
        Seq::empty()
    } else {
        outputs_defined(ns.drop_last()) + ns.last().outputs
    }
}

/// The names of the values of the graph of a model, in order: its inputs, those of
/// its tensors that become values, and the outputs of its nodes.
pub open spec fn defined(m: ModelInfoModel) -> Seq<Seq<char>> {
    m.inputs + tensors_defined(m.inputs, m.initializers) + outputs_defined(m.nodes)
}

/// Whether `v` is what a name stands for: the first value with that name, or the
/// largest number if there is none.
pub open spec fn names_value(defs: Seq<Seq<char>>, name: Seq<char>, v: u32) -> bool {
    if defs.contains(name) {
        stands_at(defs, name, v as int)
    } else {
        v == u32::MAX
    }
}

/// Whether `vs` holds what each of the names stands for, at its place.
pub open spec fn names_values(defs: Seq<Seq<char>>, names: Seq<Seq<char>>, vs: Seq<u32>) -> bool {
    &&& vs.len() == names.len()
    &&& forall|k: int| 0 <= k < names.len() ==> names_value(defs, names[k], #[trigger] vs[k])
}

/// Whether the names of a graph under construction are those of its values.
spec fn follows(b: Build, defs: Seq<Seq<char>>) -> bool {
    &&& b.graph.storage.values.len() == defs.len()
    &&& forall|n: Seq<char>| #[trigger] b.names.contains_key(n) <==> defs.contains(n)
    &&& forall|n: Seq<char>| #[trigger] b.names.contains_key(n) ==> stands_at(
        defs,
        n,
        b.names[n] as int,
    )
}

/// What a name stands for does not change when values are added.
proof fn first_place_stays(defs: Seq<Seq<char>>, more: Seq<Seq<char>>, name: Seq<char>, v: int)
    requires
        stands_at(defs, name, v),
    ensures
        stands_at(defs + more, name, v),
        (defs + more).contains(name),
{
    let all = defs + more;
    assert(all[v] == defs[v]);
    assert forall|j: int| 0 <= j < v implies #[trigger] all[j] != name by {
        assert(all[j] == defs[j]);
    }
}

/// One more name at the end.
proof fn one_more_name(defs: Seq<Seq<char>>, name: Seq<char>)
    ensures
        forall|n: Seq<char>| #[trigger]
            defs.push(name).contains(n) <==> defs.contains(n) || n == name,
        !defs.contains(name) ==> stands_at(defs.push(name), name, defs.len() as int),
{
    let all = defs.push(name);
    assert forall|n: Seq<char>| #[trigger] all.contains(n) <==> defs.contains(n) || n == name by {
        if defs.contains(n) {
            let j = choose|j: int| 0 <= j < defs.len() && defs[j] == n;
            assert(all[j] == n);
        }
        if all.contains(n) && n != name {
            let j = choose|j: int| 0 <= j < all.len() && all[j] == n;
            assert(defs[j] == n);
        }
        assert(all[defs.len() as int] == name);
    }
    if !defs.contains(name) {
        assert forall|j: int| 0 <= j < defs.len() implies #[trigger] all[j] != name by {
            assert(all[j] == defs[j]);
        }
    }
}

/// A value that is added has the next place.
proof fn value_follows(b: Build, defs: Seq<Seq<char>>, ty: TypeModel, name: Seq<char>, def: u32)
    requires
        follows(b, defs),
        defs.len() < u32::MAX,
    ensures
        follows(b.with_value(ty, name, def), defs.push(name)),
{
    let c = b.with_value(ty, name, def);
    let all = defs.push(name);
    one_more_name(defs, name);
    assert(all == defs + seq![name]);
    assert forall|n: Seq<char>| #[trigger] c.names.contains_key(n) implies stands_at(
        all,
        n,
        c.names[n] as int,
    ) by {
        if b.names.contains_key(n) {
            first_place_stays(defs, seq![name], n, b.names[n] as int);
        }
    }
}

/// Inputs become values in order, and each is marked.
proof fn inputs_follow(b: Build, names: Seq<Seq<char>>)
    requires
        b.graph.storage.values.len() == 0,
        b.graph.storage.inputs.len() == 0,
        b.names == Map::<Seq<char>, u32>::empty(),
        roomy(b.with_inputs(names).graph.storage),
    ensures
        ({
            let c = b.with_inputs(names);
            &&& follows(c, names)
            &&& c.graph.storage.inputs.len() == names.len()
            &&& forall|i: int| 0 <= i < names.len() ==> #[trigger] c.graph.storage.inputs[i] == i
            &&& c.graph.storage.outputs == b.graph.storage.outputs
            &&& c.graph.storage.nodes == b.graph.storage.nodes
            &&& c.graph.name == b.graph.name
        }),
    decreases names.len(),
{
    if names.len() > 0 {
        let front = names.drop_last();
        let c = b.with_inputs(front);
        assert(roomy(c.graph.storage));
        inputs_follow(b, front);
        value_follows(c, front, unknown_dims(2), names.last(), u32::MAX);
        assert(front.push(names.last()) == names);
    }
}

/// Tensors that become values do so in order.
proof fn tensors_follow(b: Build, defs: Seq<Seq<char>>, ts: Seq<TensorInfoModel>)
    requires
        follows(b, defs),
        roomy(b.with_tensors(ts).graph.storage),
    ensures
        ({
            let c = b.with_tensors(ts);
            &&& follows(c, defs + tensors_defined(defs, ts))
            &&& c.graph.storage.inputs == b.graph.storage.inputs
            &&& c.graph.storage.outputs == b.graph.storage.outputs
            &&& c.graph.name == b.graph.name
        }),
    decreases ts.len(),
{
    if ts.len() == 0 {
        assert(defs + tensors_defined(defs, ts) == defs);
    } else {
        let front = ts.drop_last();
        let t = ts.last();
        let c = b.with_tensors(front);
        let d = c.with_tensor(t);
        tensor_grows(c, t);
        tensors_follow(b, defs, front);
        let known = defs + tensors_defined(defs, front);
        if !c.names.contains_key(t.name) {
            assert(known.push(t.name) == defs + tensors_defined(defs, ts));
            if t.values.len() > 0 && (t.data_type == 1 || t.data_type == 11) {
                let node = c.next_node();
                let b1 = Build { graph: c.graph.with_node(OpKind::Constant), ..c };
                let ty = TypeModel {
                    elem: DType::F32,
                    dims: Some(t.dims),
                };
                let b2 = b1.with_value(ty, t.name, node);
                assert(d.graph.storage.values == b2.graph.storage.values);
                assert(follows(b1, known));
                value_follows(b1, known, ty, t.name, node);
            } else {
                value_follows(c, known, unknown_dims(1), t.name, u32::MAX);
            }
        }
    }
}

/// The outputs of a node become values in order, each defined by the node.
proof fn outputs_follow(b: Build, defs: Seq<Seq<char>>, names: Seq<Seq<char>>, node: u32)
    requires
        follows(b, defs),
        roomy(b.with_outputs(names, node).graph.storage),
    ensures
        ({
            let c = b.with_outputs(names, node);
            let k = b.graph.storage;
            let m = c.graph.storage;
            &&& follows(c, defs + names)
            &&& c.graph.name == b.graph.name
            &&& m.inputs == k.inputs && m.outputs == k.outputs && m.nodes == k.nodes && m.edges
                == k.edges
            &&& forall|v: int| 0 <= v < k.values.len() ==> #[trigger] m.values[v] == k.values[v]
            &&& forall|i: int|
                0 <= i < names.len() ==> (#[trigger] m.values[k.values.len() + i]).def_node == node
                    && m.values[k.values.len() + i].rank == 2
        }),
    decreases names.len(),
{
    if names.len() == 0 {
        assert(defs + names == defs);
    } else {
        let front = names.drop_last();
        let c = b.with_outputs(front, node);
        assert(roomy(c.graph.storage));
        outputs_follow(b, defs, front, node);
        value_follows(c, defs + front, unknown_dims(2), names.last(), node);
        assert((defs + front).push(names.last()) == defs + names);
    }
}

/// What names stand for, at their places.
proof fn resolved_follows(b: Build, defs: Seq<Seq<char>>, names: Seq<Seq<char>>)
    requires
        follows(b, defs),
    ensures
        names_values(defs, names, b.resolved(names)),
{
    let vs = b.resolved(names);
    assert forall|k: int| 0 <= k < names.len() implies names_value(defs, names[k], #[trigger] vs[k]) by {
        assert(b.names.contains_key(names[k]) <==> defs.contains(names[k]));
    }
}

/// Attributes leave all else as it is.
proof fn attributes_keep_rest(g: GraphModel, node: int, kind: OpKind, attrs: Seq<AttrInfoModel>)
    requires
        0 <= node < g.storage.nodes.len(),
    ensures
        ({
            let k = g.storage;
            let m = with_attributes(g, node, kind, attrs).storage;
            &&& m.inputs == k.inputs && m.outputs == k.outputs && m.edges == k.edges && m.values
                == k.values
            &&& m.nodes.len() == k.nodes.len()
            &&& with_attributes(g, node, kind, attrs).name == g.name
            &&& forall|i: int| 0 <= i < k.nodes.len() ==> same_operands(k, m, i)
        }),
    decreases attrs.len(),
{
    if attrs.len() > 0 {
        let front = attrs.drop_last();
        attributes_keep_rest(g, node, kind, front);
        let h = with_attributes(g, node, kind, front);
        let m = with_attributes(g, node, kind, attrs).storage;
        assert forall|i: int| 0 <= i < g.storage.nodes.len() implies same_operands(
            g.storage,
            m,
            i,
        ) by {
            assert(same_operands(g.storage, h.storage, i));
        }
    }
}

/// Whether a node has the same operator and the same operands in two storages.
#[verifier::inline]
spec fn same_operands(k: StorageModel, m: StorageModel, i: int) -> bool {
    let a = k.nodes[i];
    let b = #[trigger] m.nodes[i];
    &&& a.op_tag == b.op_tag
    &&& a.inputs_off == b.inputs_off && a.inputs_len == b.inputs_len
    &&& a.outputs_off == b.outputs_off && a.outputs_len == b.outputs_len
}

/// Whether a node has the operator and the outputs of a node of the model.
spec fn node_follows(m: StorageModel, defs: Seq<Seq<char>>, id: int, n: NodeInfoModel) -> bool {
    let h = m.nodes[id];
    &&& h.op_tag == op_for(n.op_type).tag()
    &&& h.outputs_off + h.outputs_len <= m.edges.len()
    &&& names_values(defs, n.outputs, m.node_outputs(id))
}

/// What holds of a node goes on to hold when edges and values are added.
proof fn node_follows_on(
    k: StorageModel,
    m: StorageModel,
    defs: Seq<Seq<char>>,
    more: Seq<Seq<char>>,
    id: int,
    n: NodeInfoModel,
)
    requires
        node_follows(k, defs, id, n),
        forall|i: int| 0 <= i < n.outputs.len() ==> defs.contains(#[trigger] n.outputs[i]),
        0 <= id < k.nodes.len(),
        id < m.nodes.len(),
        m.nodes[id].op_tag == k.nodes[id].op_tag,
        m.nodes[id].outputs_off == k.nodes[id].outputs_off,
        m.nodes[id].outputs_len == k.nodes[id].outputs_len,
        k.edges.len() <= m.edges.len(),
        forall|e: int| 0 <= e < k.edges.len() ==> #[trigger] m.edges[e] == k.edges[e],
    ensures
        node_follows(m, defs + more, id, n),
        forall|i: int|
            0 <= i < n.outputs.len() ==> (defs + more).contains(#[trigger] n.outputs[i]),
{
    assert(m.node_outputs(id) == k.node_outputs(id));
    let vs = m.node_outputs(id);
    assert forall|i: int| 0 <= i < n.outputs.len() implies names_value(
        defs + more,
        n.outputs[i],
        #[trigger] vs[i],
    ) && (defs + more).contains(n.outputs[i]) by {
        assert(defs.contains(n.outputs[i]));
        assert(names_value(defs, n.outputs[i], k.node_outputs(id)[i]));
        first_place_stays(defs, more, n.outputs[i], vs[i] as int);
    }
    assert forall|i: int| 0 <= i < n.outputs.len() implies (defs + more).contains(
        #[trigger] n.outputs[i],
    ) by {
        assert(names_value(defs + more, n.outputs[i], vs[i]));
    }
}

/// A node that is added has its operator and its outputs.
proof fn node_is_there(b: Build, defs: Seq<Seq<char>>, n: NodeInfoModel)
    requires
        follows(b, defs),
        roomy(b.with_node(n).graph.storage),
    ensures
        ({
            let c = b.with_node(n);
            let k = b.graph.storage;
            let m = c.graph.storage;
            let id = k.nodes.len() as int;
            &&& follows(c, defs + n.outputs)
            &&& m.inputs == k.inputs && m.outputs == k.outputs && c.graph.name == b.graph.name
            &&& m.nodes.len() == id + 1
            &&& node_follows(m, defs + n.outputs, id, n)
            &&& forall|i: int| 0 <= i < id ==> #[trigger] m.nodes[i] == k.nodes[i]
            &&& k.edges.len() <= m.edges.len()
            &&& forall|e: int| 0 <= e < k.edges.len() ==> #[trigger] m.edges[e] == k.edges[e]
            &&& forall|v: int| 0 <= v < k.values.len() ==> #[trigger] m.values[v] == k.values[v]
            &&& forall|i: int|
                0 <= i < n.outputs.len() ==> (#[trigger] m.values[k.values.len() + i]).def_node == id
                    && m.values[k.values.len() + i].rank == 2
        }),
{
    let kind = op_for(n.op_type);
    let node = b.next_node();
    let id = b.graph.storage.nodes.len() as int;
    let added = b.graph.with_node(kind);
    let named = if kind == OpKind::Custom {
        added.with_attr(node as int, AttrKey::Shape, AttrModel::IntArray(code_points(n.op_type)))
    } else {
        added
    };
    let b1 = Build { graph: named, ..b };
    let b2 = b1.with_outputs(n.outputs, node);
    let outs = b2.resolved(n.outputs);
    let g = b2.graph.with_outputs(node as int, outs);
    let m = b.with_node(n).graph.storage;
    onnx_node_keeps_built(b, n);
    outputs_grow(b1, n.outputs, node);
    attributes_grow(g, node as int, kind, n.attributes);
    assert(roomy(g.storage));
    assert(roomy(b2.graph.storage));
    assert(follows(b1, defs));
    outputs_follow(b1, defs, n.outputs, node);
    resolved_follows(b2, defs + n.outputs, n.outputs);
    attributes_keep_rest(g, node as int, kind, n.attributes);
    assert(same_operands(g.storage, m, id));
    assert(m.node_outputs(id) == outs);
    assert forall|i: int| 0 <= i < id implies #[trigger] m.nodes[i] == b.graph.storage.nodes[i] by {
        attributes_keep_others(g, node as int, kind, n.attributes, i);
    }
}

/// Attributes of a node leave the other nodes as they are.
proof fn attributes_keep_others(
    g: GraphModel,
    node: int,
    kind: OpKind,
    attrs: Seq<AttrInfoModel>,
    i: int,
)
    requires
        0 <= node < g.storage.nodes.len(),
        0 <= i < g.storage.nodes.len(),
        i != node,
    ensures
        with_attributes(g, node, kind, attrs).storage.nodes[i] == g.storage.nodes[i],
        with_attributes(g, node, kind, attrs).storage.nodes.len() == g.storage.nodes.len(),
    decreases attrs.len(),
{
    if attrs.len() > 0 {
        attributes_keep_others(g, node, kind, attrs.drop_last(), i);
    }
}

/// How many outputs the first `i` nodes have together.
pub open spec fn outputs_before(ns: Seq<NodeInfoModel>, i: nat) -> nat {
    outputs_defined(ns.take(i as int)).len()
}

/// Whether the value of the j-th output of the i-th node is defined by the node
/// `id`; the outputs stand behind `before` other values.
spec fn output_defined(
    m: StorageModel,
    before: nat,
    ns: Seq<NodeInfoModel>,
    id: int,
    i: int,
    j: int,
) -> bool {
    let v = m.values[before + outputs_before(ns, i as nat) + j];
    v.def_node == id && v.rank == 2
}

/// Nodes that are added stand in order, each with its operator and its outputs.
proof fn nodes_are_there(b: Build, defs: Seq<Seq<char>>, ns: Seq<NodeInfoModel>)
    requires
        follows(b, defs),
        roomy(b.with_nodes(ns).graph.storage),
    ensures
        ({
            let c = b.with_nodes(ns);
            let k = b.graph.storage;
            let m = c.graph.storage;
            let all = defs + outputs_defined(ns);
            &&& follows(c, all)
            &&& m.inputs == k.inputs && m.outputs == k.outputs && c.graph.name == b.graph.name
            &&& m.nodes.len() == k.nodes.len() + ns.len()
            &&& forall|i: int|
                0 <= i < ns.len() ==> node_follows(m, all, k.nodes.len() + i, #[trigger] ns[i])
            &&& forall|i: int, j: int|
                0 <= i < ns.len() && 0 <= j < ns[i].outputs.len() ==> all.contains(
                    #[trigger] ns[i].outputs[j],
                )
            &&& forall|i: int, j: int|
                0 <= i < ns.len() && 0 <= j < ns[i].outputs.len() ==> #[trigger] output_defined(
                    m,
                    defs.len(),
                    ns,
                    k.nodes.len() + i,
                    i,
                    j,
                )
        }),
    decreases ns.len(),
{
    if ns.len() == 0 {
        assert(defs + outputs_defined(ns) == defs);
    } else {
        let front = ns.drop_last();
        let n = ns.last();
        let c = b.with_nodes(front);
        let d = b.with_nodes(ns);
        let k = b.graph.storage;
        let m = d.graph.storage;
        let some = defs + outputs_defined(front);
        let all = defs + outputs_defined(ns);
        let last = (ns.len() - 1) as int;
        onnx_node_keeps_built(c, n);
        nodes_are_there(b, defs, front);
        node_is_there(c, some, n);
        assert(some + n.outputs == all);
        assert forall|i: int| 0 <= i < ns.len() implies {
            &&& node_follows(m, all, k.nodes.len() + i, #[trigger] ns[i])
            &&& forall|j: int| 0 <= j < ns[i].outputs.len() ==> all.contains(#[trigger] ns[i].outputs[j])
        } by {
            if i < last {
                assert(ns[i] == front[i]);
                assert forall|j: int| 0 <= j < front[i].outputs.len() implies some.contains(
                    #[trigger] front[i].outputs[j],
                ) by {}
                node_follows_on(c.graph.storage, m, some, n.outputs, k.nodes.len() + i, front[i]);
            } else {
                assert forall|j: int| 0 <= j < n.outputs.len() implies all.contains(
                    #[trigger] n.outputs[j],
                ) by {
                    assert(all[some.len() + j] == n.outputs[j]);
                }
            }
        }
        assert forall|i: int, j: int|
            0 <= i < ns.len() && 0 <= j < ns[i].outputs.len() implies all.contains(
            #[trigger] ns[i].outputs[j],
        ) by {
            assert(node_follows(m, all, k.nodes.len() + i, ns[i]));
        }
        assert forall|i: int, j: int|
            0 <= i < ns.len() && 0 <= j < ns[i].outputs.len() implies #[trigger] output_defined(
            m,
            defs.len(),
            ns,
            k.nodes.len() + i,
            i,
            j,
        ) by {
            if i < last {
                assert(front[i] == ns[i]);
                assert(front.take(i) == ns.take(i));
                assert(output_defined(
                    c.graph.storage,
                    defs.len(),
                    front,
                    k.nodes.len() + i,
                    i,
                    j,
                ));
                place_is_there(front, i, j);
                assert(m.values[defs.len() + outputs_before(ns, i as nat) + j]
                    == c.graph.storage.values[defs.len() + outputs_before(ns, i as nat) + j]);
            } else {
                assert(ns.take(i) == front);
                assert(m.values[some.len() + j].def_node == k.nodes.len() + i);
            }
        }
    }
}

/// The outputs of a node stand among those of all nodes.
proof fn place_is_there(ns: Seq<NodeInfoModel>, i: int, j: int)
    requires
        0 <= i < ns.len(),
        0 <= j < ns[i].outputs.len(),
    ensures
        outputs_before(ns, i as nat) + j < outputs_defined(ns).len(),
        outputs_defined(ns)[outputs_before(ns, i as nat) + j] == ns[i].outputs[j],
    decreases ns.len(),
{
    let front = ns.drop_last();
    if i < ns.len() - 1 {
        assert(front.take(i) == ns.take(i));
        place_is_there(front, i, j);
    } else {
        assert(ns.take(i) == front);
    }
}

/// Connecting nodes sets their inputs, and leaves all else as it is.
proof fn connecting_follows(b: Build, first: int, defs: Seq<Seq<char>>, ns: Seq<NodeInfoModel>)
    requires
        follows(b, defs),
        0 <= first,
        first + ns.len() <= b.graph.storage.nodes.len(),
        roomy(b.connecting(first, ns).graph.storage),
    ensures
        ({
            let k = b.graph.storage;
            let c = b.connecting(first, ns);
            let m = c.graph.storage;
            &&& c.names == b.names && c.graph.name == b.graph.name
            &&& m.inputs == k.inputs && m.outputs == k.outputs && m.values == k.values
            &&& m.nodes.len() == k.nodes.len()
            &&& k.edges.len() <= m.edges.len()
            &&& forall|e: int| 0 <= e < k.edges.len() ==> #[trigger] m.edges[e] == k.edges[e]
            &&& forall|i: int| 0 <= i < k.nodes.len() ==> (#[trigger] m.nodes[i]).op_tag
                == k.nodes[i].op_tag && m.nodes[i].outputs_off == k.nodes[i].outputs_off
                && m.nodes[i].outputs_len == k.nodes[i].outputs_len
            &&& forall|i: int|
                0 <= i < ns.len() ==> inputs_follow_names(m, defs, first + i, #[trigger] ns[i])
        }),
    decreases ns.len(),
{
    if ns.len() > 0 {
        let front = ns.drop_last();
        let n = ns.last();
        let c = b.connecting(first, front);
        let d = b.connecting(first, ns);
        let id = first + ns.len() - 1;
        connecting_grows(b, first, front);
        assert(roomy(c.graph.storage));
        connecting_follows(b, first, defs, front);
        resolved_follows(b, defs, n.inputs);
        let m = d.graph.storage;
        assert(m.node_inputs(id) == b.resolved(n.inputs));
        assert forall|i: int| 0 <= i < ns.len() implies inputs_follow_names(
            m,
            defs,
            first + i,
            #[trigger] ns[i],
        ) by {
            if i < ns.len() - 1 {
                assert(front[i] == ns[i]);
                assert(inputs_follow_names(c.graph.storage, defs, first + i, front[i]));
                assert(m.nodes[first + i] == c.graph.storage.nodes[first + i]);
                assert(m.node_inputs(first + i) == c.graph.storage.node_inputs(first + i));
            }
        }
    }
}

/// Whether a node has the inputs of a node of the model.
spec fn inputs_follow_names(m: StorageModel, defs: Seq<Seq<char>>, id: int, n: NodeInfoModel) -> bool {
    let h = m.nodes[id];
    &&& h.inputs_off + h.inputs_len <= m.edges.len()
    &&& names_values(defs, n.inputs, m.node_inputs(id))
}

/// Whether the place `i` holds a name that stands for a value.
pub open spec fn is_known(defs: Seq<Seq<char>>, names: Seq<Seq<char>>, i: int) -> bool {
    0 <= i < names.len() && defs.contains(names[i])
}

/// Whether `outs` holds, in order, what those of the names stand for that stand for
/// a value; `at` are their places.
pub open spec fn known_values(
    defs: Seq<Seq<char>>,
    names: Seq<Seq<char>>,
    at: Seq<int>,
    outs: Seq<u32>,
) -> bool {
    &&& in_order(at)
    &&& forall|i: int| #[trigger] at.contains(i) <==> is_known(defs, names, i)
    &&& outs.len() == at.len()
    &&& forall|p: int|
        0 <= p < at.len() ==> stands_at(defs, names[at[p]], #[trigger] outs[p] as int)
}

/// The outputs that are marked are what the known names stand for.
proof fn marked_outputs(b: Build, defs: Seq<Seq<char>>, names: Seq<Seq<char>>) -> (at: Seq<int>)
    requires
        follows(b, defs),
        b.graph.storage.outputs.len() == 0,
    ensures
        ({
            let k = b.graph.storage;
            let m = b.marking_outputs(names).graph.storage;
            &&& known_values(defs, names, at, m.outputs)
            &&& m == (StorageModel { outputs: m.outputs, ..k })
            &&& b.marking_outputs(names).graph.name == b.graph.name
        }),
    decreases names.len(),
{
    let m = b.marking_outputs(names).graph.storage;
    if names.len() == 0 {
        assert(m == (StorageModel { outputs: m.outputs, ..b.graph.storage }));
        Seq::empty()
    } else {
        let front = names.drop_last();
        let n = front.len() as int;
        let k = b.marking_outputs(front).graph.storage;
        let before = marked_outputs(b, defs, front);
        assert forall|i: int| i != n implies (#[trigger] is_known(defs, names, i) <==> is_known(
            defs,
            front,
            i,
        )) by {
            if 0 <= i < n {
                assert(front[i] == names[i]);
            }
        }
        assert(!is_known(defs, front, n));
        assert forall|p: int| 0 <= p < before.len() implies 0 <= #[trigger] before[p] < n by {
            assert(before.contains(before[p]));
            assert(is_known(defs, front, before[p]));
        }
        assert(b.names.contains_key(names.last()) <==> defs.contains(names.last()));
        if b.names.contains_key(names.last()) {
            let at = before.push(n);
            assert(in_order(at)) by {
                assert forall|p: int, q: int| 0 <= p < q < at.len() implies #[trigger] at[p]
                    < #[trigger] at[q] by {
                    if q < before.len() {
                        assert(before[p] < before[q]);
                    } else {
                        assert(before[p] < n);
                    }
                }
            }
            assert forall|i: int| #[trigger] at.contains(i) <==> is_known(defs, names, i) by {
                if at.contains(i) && i != n {
                    let p = choose|p: int| 0 <= p < at.len() && at[p] == i;
                    assert(before[p] == i);
                }
                if before.contains(i) {
                    let p = choose|p: int| 0 <= p < before.len() && before[p] == i;
                    assert(at[p] == i);
                }
                assert(at[before.len() as int] == n);
            }
            assert forall|p: int| 0 <= p < at.len() implies stands_at(
                defs,
                names[at[p]],
                #[trigger] m.outputs[p] as int,
            ) by {
                if p < before.len() {
                    assert(at[p] == before[p]);
                    assert(k.outputs[p] == m.outputs[p]);
                    assert(front[before[p]] == names[before[p]]);
                }
            }
            at
        } else {
            assert forall|p: int| 0 <= p < before.len() implies stands_at(
                defs,
                names[before[p]],
                #[trigger] m.outputs[p] as int,
            ) by {
                assert(k.outputs[p] == m.outputs[p]);
                assert(0 <= before[p] < n);
                assert(front[before[p]] == names[before[p]]);
            }
            before
        }
    }
}

/// The graph of a model says what the model says. Its values are the inputs, the
/// tensors and the outputs of the nodes, in order, and its inputs are the first of
/// them. The last nodes of the graph are the nodes of the model, in order, each
/// with its operator; the k-th operand of each is what the k-th name stands for,
/// the first value with that name. An output of a node is a value that the node
/// defines. The outputs of the graph are, in order, what those of the names of
/// the outputs stand for that stand for a value; their places are handed back.
pub proof fn graph_says_model(m: ModelInfoModel) -> (at: Seq<int>)
    requires
        roomy(graph_of(m).storage),
    ensures
        ({
            let g = graph_of(m);
            let s = g.storage;
            let first = s.nodes.len() - m.nodes.len();
            let before = m.inputs.len() + tensors_defined(m.inputs, m.initializers).len();
            &&& g.name == graph_name(m)
            &&& s.values.len() == defined(m).len()
            &&& s.inputs.len() == m.inputs.len()
            &&& forall|i: int| 0 <= i < m.inputs.len() ==> #[trigger] s.inputs[i] == i
            &&& first >= 0
            &&& forall|i: int|
                0 <= i < m.nodes.len() ==> {
                    let n = #[trigger] m.nodes[i];
                    &&& s.nodes[first + i].op_tag == op_for(n.op_type).tag()
                    &&& names_values(defined(m), n.inputs, s.node_inputs(first + i))
                    &&& names_values(defined(m), n.outputs, s.node_outputs(first + i))
                }
            &&& forall|i: int, j: int|
                0 <= i < m.nodes.len() && 0 <= j < m.nodes[i].outputs.len() ==> {
                    let v = before + outputs_before(m.nodes, i as nat) + j;
                    &&& defined(m)[v] == #[trigger] m.nodes[i].outputs[j]
                    &&& s.values[v].def_node == first + i
                    &&& s.values[v].rank == 2
                }
            &&& known_values(defined(m), m.outputs, at, s.outputs)
        }),
{
    let start = Build { graph: GraphModel::empty(graph_name(m)), names: Map::empty() };
    let with_inputs = start.with_inputs(m.inputs);
    let p = prepared(m);
    let all = p.with_nodes(m.nodes);
    let first = p.graph.storage.nodes.len() as int;
    let connected = all.connecting(first, m.nodes);
    let known = m.inputs + tensors_defined(m.inputs, m.initializers);
    crate::frontend::laws::marking_keeps_sound(connected, m.outputs);
    nodes_are_counted(p, m.nodes);
    connecting_grows(all, first, m.nodes);
    onnx_nodes_keep_built(p, m.nodes);
    tensors_grow(with_inputs, m.initializers);
    inputs_grow(start, m.inputs);
    inputs_follow(start, m.inputs);
    tensors_follow(with_inputs, m.inputs, m.initializers);
    nodes_are_there(p, known, m.nodes);
    connecting_follows(all, first, defined(m), m.nodes);
    let at = marked_outputs(connected, defined(m), m.outputs);
    let s = graph_of(m).storage;
    assert forall|i: int| 0 <= i < m.nodes.len() implies {
        let n = #[trigger] m.nodes[i];
        &&& s.nodes[first + i].op_tag == op_for(n.op_type).tag()
        &&& names_values(defined(m), n.inputs, s.node_inputs(first + i))
        &&& names_values(defined(m), n.outputs, s.node_outputs(first + i))
    } by {
        let n = m.nodes[i];
        assert(node_follows(all.graph.storage, defined(m), first + i, n));
        assert forall|j: int| 0 <= j < n.outputs.len() implies defined(m).contains(
            #[trigger] n.outputs[j],
        ) by {
            assert(m.nodes[i].outputs[j] == n.outputs[j]);
        }
        node_follows_on(
            all.graph.storage,
            connected.graph.storage,
            defined(m),
            Seq::empty(),
            first + i,
            n,
        );
        assert(defined(m) + Seq::<Seq<char>>::empty() == defined(m));
        assert(inputs_follow_names(connected.graph.storage, defined(m), first + i, n));
        assert(s.node_inputs(first + i) == connected.graph.storage.node_inputs(first + i));
        assert(s.node_outputs(first + i) == connected.graph.storage.node_outputs(first + i));
    }
    assert forall|i: int, j: int| 0 <= i < m.nodes.len() && 0 <= j < m.nodes[i].outputs.len() implies {
        let v = known.len() + outputs_before(m.nodes, i as nat) + j;
        &&& defined(m)[v] == #[trigger] m.nodes[i].outputs[j]
        &&& s.values[v].def_node == first + i
        &&& s.values[v].rank == 2
    } by {
        place_is_there(m.nodes, i, j);
        assert(output_defined(all.graph.storage, known.len(), m.nodes, first + i, i, j));
    }
    at
}

/// If all names of the outputs of a model stand for values, its graph has as many
/// outputs, and each is what the name at its place stands for.
pub proof fn every_known_output_is_marked(m: ModelInfoModel)
    requires
        roomy(graph_of(m).storage),
        forall|i: int| 0 <= i < m.outputs.len() ==> #[trigger] is_known(defined(m), m.outputs, i),
    ensures
        graph_of(m).storage.outputs.len() == m.outputs.len(),
        forall|i: int|
            0 <= i < m.outputs.len() ==> stands_at(
                defined(m),
                m.outputs[i],
                #[trigger] graph_of(m).storage.outputs[i] as int,
            ),
{
    let at = graph_says_model(m);
    assert forall|i: int| #[trigger] at.contains(i) <==> 0 <= i < m.outputs.len() by {
        if 0 <= i < m.outputs.len() {
            assert(is_known(defined(m), m.outputs, i));
        }
    }
    crate::compaction_order::all_places(at, m.outputs.len());
    assert forall|i: int| 0 <= i < m.outputs.len() implies stands_at(
        defined(m),
        m.outputs[i],
        #[trigger] graph_of(m).storage.outputs[i] as int,
    ) by {
        assert(at[i] == i);
    }
}

/// What the attributes of a model set. Reductions take their axis from `axis`, or
/// from the first of `axes`; concatenation from `axis`; normalization its epsilon;
/// transposition its permutation and reshaping its shape.
pub proof fn attributes_set_what_they_name(kind: OpKind, v: i64, e: u64, vs: Seq<i64>)
    ensures
        kind == OpKind::ReduceSum || kind == OpKind::ReduceMean || kind == OpKind::ReduceMax || kind
            == OpKind::Concat ==> setting(
            kind,
            (AttrInfoModel { name: "axis"@, value: AttrValueModel::Int(v) }),
        ) == Some((AttrKey::Axis, AttrModel::Int(v))),
        (kind == OpKind::ReduceSum || kind == OpKind::ReduceMean || kind == OpKind::ReduceMax)
            && vs.len() > 0 ==> setting(
            kind,
            (AttrInfoModel { name: "axes"@, value: AttrValueModel::Ints(vs) }),
        ) == Some((AttrKey::Axis, AttrModel::Int(vs[0]))),
        setting(
            OpKind::LayerNorm,
            (AttrInfoModel { name: "epsilon"@, value: AttrValueModel::Float(e) }),
        ) == Some((AttrKey::Epsilon, AttrModel::Float(e))),
        setting(
            OpKind::Transpose,
            (AttrInfoModel { name: "perm"@, value: AttrValueModel::Ints(vs) }),
        ) == Some((AttrKey::Perm, AttrModel::IntArray(vs))),
        setting(
            OpKind::Reshape,
            (AttrInfoModel { name: "shape"@, value: AttrValueModel::Ints(vs) }),
        ) == Some((AttrKey::Shape, AttrModel::IntArray(vs))),
{
}

/// A tensor with elements becomes a constant: a node of its own with one output, the
/// next value, which stands under the name of the tensor, and whose kernel holds the
/// elements of the tensor, all of them and in order.
pub proof fn tensor_becomes_constant(b: Build, t: TensorInfoModel)
    requires
        built(b, true),
        roomy(b.with_tensor(t).graph.storage),
        b.graph.storage.attrs.len() < u32::MAX,
        !b.names.contains_key(t.name),
        t.values.len() > 0,
        t.data_type == 1 || t.data_type == 11,
    ensures
        ({
            let c = b.with_tensor(t);
            let m = c.graph.storage;
            let id = b.graph.storage.nodes.len() as int;
            let k = kernel_of(m, id as u32, OpKind::Constant);
            &&& m.nodes.len() == id + 1
            &&& m.nodes[id].op_tag == OpKind::Constant.tag()
            &&& m.node_outputs(id) == seq![b.next_value()]
            &&& c.names == b.names.insert(t.name, b.next_value())
            &&& m.values.len() == b.graph.storage.values.len() + 1
            &&& m.values.last().def_node == id
            &&& m.shape_data == b.graph.storage.shape_data + t.dims
            &&& t.values.len() == 1 ==> k.attrs.value == Some(t.values[0])
            &&& t.values.len() > 1 ==> k.attrs.tensor_data == t.values
        }),
{
    let node = b.next_node();
    let out = b.next_value();
    let id = node as int;
    let ty = TypeModel { elem: DType::F32, dims: Some(t.dims) };
    let b1 = Build { graph: b.graph.with_node(OpKind::Constant), ..b };
    let b2 = b1.with_value(ty, t.name, node);
    let g = b2.graph.with_outputs(id, seq![out]);
    assert(roomy(g.storage));
    assert(roomy(b2.graph.storage));
    assert(roomy(b1.graph.storage));
    node_keeps_sound(b.graph, OpKind::Constant, true);
    value_keeps_sound(b1.graph, ty, Some(t.name), node, true);
    assert(operand_ok(b2.graph.storage, out, true));
    outputs_keep_sound(b2.graph, id, seq![out], true);
    assert(g.storage.nodes[id].attrs_len == 0);
    assert(g.storage.node_outputs(id) == seq![out]);
    let m = b.with_tensor(t).graph.storage;
    if t.values.len() == 1 {
        attribute_reaches_kernel(
            g,
            node,
            OpKind::Constant,
            AttrKey::Value,
            AttrModel::Float(t.values[0]),
        );
    } else {
        elements_reach_kernel(g.storage, node, OpKind::Constant, t.values);
    }
    assert(m.node_outputs(id) == g.storage.node_outputs(id));
}

proof fn code_point_is_char(x: char, y: char)
    requires
        x as i64 == y as i64,
    ensures
        x == y,
{
}

/// The code points under which the name of an unknown operator is kept tell names
/// apart, and hold every character at its place.
pub proof fn code_points_hold_names(a: Seq<char>, b: Seq<char>)
    ensures
        code_points(a).len() == a.len(),
        forall|i: int| 0 <= i < a.len() ==> #[trigger] code_points(a)[i] == a[i] as i64,
        code_points(a) == code_points(b) ==> a == b,
{
    if code_points(a) == code_points(b) {
        assert(code_points(b).len() == b.len());
        assert forall|i: int| 0 <= i < a.len() implies a[i] == b[i] by {
            assert(code_points(a)[i] == code_points(b)[i]);
            code_point_is_char(a[i], b[i]);
        }
        assert(a =~= b);
    }
}

} // verus!
