//! What becomes of the values of a graph when nodes are removed.

use vstd::prelude::*;
use vstd::utf8::{decode_utf8_encode_utf8, encode_utf8};
use crate::base::{TypeModel, TypeTag, type_tag_round_trip};
use crate::graph::{CompactionModel, GraphModel, compacted_nodes};
use crate::graph_laws::roomy;
use crate::storage::{StorageModel, until_nul};
use crate::storage_laws::{name_closed, name_is_read, names_stay, without_nul};

verus! {

/// Whether a node is kept.
pub open spec fn is_kept(src: GraphModel, removed: Set<u32>, j: u32) -> bool {
    j < src.storage.nodes.len() && !removed.contains(j)
}

/// Whether a node has a value among its outputs.
pub open spec fn outputs_value(src: GraphModel, j: u32, v: u32) -> bool {
    src.storage.node_outputs(j as int).contains(v)
}

/// Whether one of the kept nodes below `n` has a value among its outputs.
pub open spec fn output_below(src: GraphModel, removed: Set<u32>, n: nat, v: u32) -> bool {
    exists|j: u32| j < n && is_kept(src, removed, j) && #[trigger] outputs_value(src, j, v)
}

/// Whether `j` is the last of the kept nodes below `n` that have a value among
/// their outputs.
pub open spec fn last_below(src: GraphModel, removed: Set<u32>, n: nat, j: u32, v: u32) -> bool {
    &&& j < n && is_kept(src, removed, j) && outputs_value(src, j, v)
    &&& forall|k: u32| j < k < n && is_kept(src, removed, k) ==> !#[trigger] outputs_value(src, k, v)
}

/// Whether the copy of a value is there, with the type, and so the shape, and the
/// name of the value.
pub open spec fn is_copy(c: CompactionModel, src: GraphModel, v: u32) -> bool {
    let m = c.graph.storage;
    let w = c.values[v] as int;
    &&& w < m.values.len()
    &&& TypeTag::of_tag(m.values[w].type_tag) is Some
    &&& m.value_type(w) == src.storage.value_type(v as int)
    &&& m.value_name(w) == src.storage.value_name(v as int)
}

/// Whether values that were copied have different copies.
pub open spec fn copies_differ(c: CompactionModel) -> bool {
    forall|u: u32, v: u32|
        #![trigger c.values[u], c.values[v]]
        c.values.contains_key(u) && c.values.contains_key(v) && u != v ==> c.values[u] != c.values[v]
}

/// Whether a value of the new graph is the copy of a value.
pub open spec fn copies_some(c: CompactionModel, w: int) -> bool {
    exists|v: u32| #![trigger c.values[v]] c.values.contains_key(v) && c.values[v] == w
}

/// Whether every value of the new graph is a copy.
pub open spec fn only_copies(c: CompactionModel) -> bool {
    forall|w: int| 0 <= w < c.graph.storage.values.len() ==> #[trigger] copies_some(c, w)
}

/// Whether no value that can be copied stands twice among the outputs of the
/// kept nodes.
pub open spec fn outputs_differ(src: GraphModel, removed: Set<u32>) -> bool {
    forall|i: u32, j: u32, a: int, b: int|
        #![trigger src.storage.node_outputs(i as int)[a], src.storage.node_outputs(j as int)[b]]
        is_kept(src, removed, i) && is_kept(src, removed, j) && 0 <= a < src.storage.node_outputs(
            i as int,
        ).len() && 0 <= b < src.storage.node_outputs(j as int).len() && src.storage.node_outputs(
            i as int,
        )[a] == src.storage.node_outputs(j as int)[b] && src.value_error(
            src.storage.node_outputs(i as int)[a],
        ) is None ==> i == j && a == b
}

/// What holds of a copy under construction: every value of it can be read, and
/// values that were copied have copies of their own.
spec fn faithful(c: CompactionModel, src: GraphModel) -> bool {
    let m = c.graph.storage;
    &&& forall|w: int| 0 <= w < m.values.len() ==> #[trigger] m.value_ok(w) && name_closed(m, w)
    &&& forall|v: u32| #[trigger]
        c.values.contains_key(v) ==> src.value_error(v) is None && is_copy(c, src, v)
    &&& copies_differ(c)
}

/// Bytes up to the first zero byte hold none.
proof fn until_nul_without_nul(b: Seq<u8>)
    ensures
        without_nul(until_nul(b)),
    decreases b.len(),
{
    if b.len() > 0 && b[0] != 0 {
        until_nul_without_nul(b.skip(1));
        let rest = until_nul(b.skip(1));
        assert forall|i: int| 0 <= i < until_nul(b).len() implies #[trigger] until_nul(b)[i] != 0 by {
            if i > 0 {
                assert(until_nul(b)[i] == rest[i - 1]);
            }
        }
    }
}

/// A name that was read is encoded without a zero byte.
proof fn read_name_without_nul(m: StorageModel, v: int)
    requires
        m.value_name(v) is Some,
    ensures
        without_nul(encode_utf8(m.value_name(v)->0)),
{
    let b = m.name_bytes(v);
    until_nul_without_nul(m.name_data.skip(m.values[v].name_off as int));
    decode_utf8_encode_utf8(b);
}

/// A value that is stored can be read, and the values before it stay as they were.
proof fn stored_value_is_read(
    m: StorageModel,
    ty: TypeModel,
    name: Option<Seq<char>>,
    def: u32,
)
    requires
        forall|w: int| 0 <= w < m.values.len() ==> #[trigger] m.value_ok(w) && name_closed(m, w),
        ty.shape().len() <= 255,
        roomy(m.with_typed(ty, name, def)),
        name is Some ==> without_nul(encode_utf8(name->0)),
    ensures
        ({
            let n = m.with_typed(ty, name, def);
            let v = m.values.len() as int;
            &&& forall|w: int| 0 <= w < n.values.len() ==> #[trigger] n.value_ok(w) && name_closed(n, w)
            &&& TypeTag::of_tag(n.values[v].type_tag) is Some
            &&& n.value_type(v) == ty
            &&& n.value_name(v) == name
            &&& forall|w: int|
                0 <= w < v ==> #[trigger] n.value_type(w) == m.value_type(w) && n.value_name(w)
                    == m.value_name(w)
        }),
{
    let n = m.with_typed(ty, name, def);
    let v = m.values.len() as int;
    assert forall|w: int| 0 <= w < v implies #[trigger] n.value_type(w) == m.value_type(w)
        && n.value_name(w) == m.value_name(w) && n.value_ok(w) && name_closed(n, w) by {
        assert(m.value_ok(w));
        assert(n.values[w] == m.values[w]);
        assert(n.value_shape(w) == m.value_shape(w));
        names_stay(m, n, w);
    }
    assert forall|w: int| 0 <= w < n.values.len() implies #[trigger] n.value_ok(w) && name_closed(
        n,
        w,
    ) by {
        if w < v {
            assert(n.value_type(w) == m.value_type(w));
        }
    }
    assert(n.value_shape(v) == ty.shape());
    type_tag_round_trip(ty.type_tag(), TypeTag::of_tag(ty.type_tag().tag())->0);
    if let Some(s) = name {
        assert(n.name_data == m.name_data + encode_utf8(s).push(0) + Seq::<u8>::empty());
        name_is_read(n, v, m.name_data, s, Seq::empty());
    }
}

/// What copying a value does.
proof fn value_is_copied(c: CompactionModel, src: GraphModel, v: u32, def: u32)
    requires
        src.storage.wf(),
        faithful(c, src),
        src.value_error(v) is None,
        roomy(c.copying_value(src, v, def).graph.storage),
    ensures
        ({
            let d = c.copying_value(src, v, def);
            &&& faithful(d, src)
            &&& d.values.contains_key(v) && d.values[v] == c.graph.storage.values.len()
            &&& d.graph.storage.values[d.values[v] as int].def_node == def
            &&& forall|w: int|
                0 <= w < c.graph.storage.values.len() ==> #[trigger] d.graph.storage.values[w]
                    == c.graph.storage.values[w]
            &&& only_copies(c) && !c.values.contains_key(v) ==> only_copies(d)
        }),
{
    let d = c.copying_value(src, v, def);
    let m = c.graph.storage;
    let ty = src.storage.value_type(v as int);
    let name = src.storage.value_name(v as int);
    assert(src.storage.value_ok(v as int));
    assert(src.storage.value_shape(v as int).len() == src.storage.values[v as int].rank);
    if name is Some {
        read_name_without_nul(src.storage, v as int);
    }
    stored_value_is_read(m, ty, name, def);
    assert forall|u: u32| #[trigger] d.values.contains_key(u) implies src.value_error(u) is None
        && is_copy(d, src, u) by {
        if u != v {
            assert(c.values.contains_key(u));
            let w = c.values[u] as int;
            assert(d.graph.storage.value_type(w) == m.value_type(w));
            assert(d.graph.storage.values[w] == m.values[w]);
        }
    }
    assert forall|a: u32, b: u32|
        #![trigger d.values[a], d.values[b]]
        d.values.contains_key(a) && d.values.contains_key(b) && a != b implies d.values[a]
        != d.values[b] by {
        if a != v {
            assert(c.values.contains_key(a) && is_copy(c, src, a));
        }
        if b != v {
            assert(c.values.contains_key(b) && is_copy(c, src, b));
        }
    }
    if only_copies(c) && !c.values.contains_key(v) {
        assert forall|w: int| 0 <= w < d.graph.storage.values.len() implies #[trigger] copies_some(
            d,
            w,
        ) by {
            if w < m.values.len() {
                assert(copies_some(c, w));
                let u = choose|u: u32|
                    #![trigger c.values[u]]
                    c.values.contains_key(u) && c.values[u] == w;
                assert(d.values.contains_key(u) && d.values[u] == w);
            } else {
                assert(d.values.contains_key(v) && d.values[v] == w);
            }
        }
    }
}

/// Copying values only adds to the pools.
proof fn values_grow(c: CompactionModel, src: GraphModel, vs: Seq<u32>, def: u32)
    requires
        roomy(c.copying_values(src, vs, def).graph.storage),
    ensures
        roomy(c.graph.storage),
    decreases vs.len(),
{
    if vs.len() > 0 {
        let d = c.copying_values(src, vs.drop_last(), def);
        assert(roomy(d.graph.storage));
        values_grow(c, src, vs.drop_last(), def);
    }
}

/// Whether values can be copied without one being copied twice.
spec fn fresh(c: CompactionModel, src: GraphModel, vs: Seq<u32>) -> bool {
    &&& forall|a: int|
        0 <= a < vs.len() && src.value_error(#[trigger] vs[a]) is None ==> !c.values.contains_key(vs[a])
    &&& forall|a: int, b: int|
        0 <= a < b < vs.len() && src.value_error(#[trigger] vs[a]) is None ==> vs[a]
            != #[trigger] vs[b]
}

/// So can those before the last one, and the last one is none of them.
proof fn fresh_front(c: CompactionModel, src: GraphModel, vs: Seq<u32>)
    requires
        vs.len() > 0,
        fresh(c, src, vs),
    ensures
        fresh(c, src, vs.drop_last()),
        src.value_error(vs.last()) is None ==> !c.values.contains_key(vs.last())
            && !vs.drop_last().contains(vs.last()),
{
    let front = vs.drop_last();
    let x = vs.last();
    assert(vs[vs.len() - 1] == x);
    assert forall|a: int| 0 <= a < front.len() implies #[trigger] front[a] == vs[a] by {}
    if src.value_error(x) is None && front.contains(x) {
        let a = choose|a: int| 0 <= a < front.len() && front[a] == x;
        assert(vs[a] == x);
        assert(vs[a] != vs[vs.len() - 1]);
    }
}

/// A value stands in a sequence if it stands before the last place or there.
proof fn front_or_last(vs: Seq<u32>, v: u32)
    requires
        vs.len() > 0,
    ensures
        vs.contains(v) <==> vs.drop_last().contains(v) || v == vs.last(),
{
    let front = vs.drop_last();
    if vs.contains(v) {
        let a = choose|a: int| 0 <= a < vs.len() && vs[a] == v;
        if a < front.len() {
            assert(front[a] == v);
        }
    }
    if front.contains(v) {
        let a = choose|a: int| 0 <= a < front.len() && front[a] == v;
        assert(vs[a] == v);
    }
    assert(vs[vs.len() - 1] == vs.last());
}

/// What copying values does: those whose type is known have a copy that `def`
/// defines, and the others keep what they had.
proof fn values_are_copied(c: CompactionModel, src: GraphModel, vs: Seq<u32>, def: u32)
    requires
        src.storage.wf(),
        faithful(c, src),
        roomy(c.copying_values(src, vs, def).graph.storage),
    ensures
        ({
            let d = c.copying_values(src, vs, def);
            &&& faithful(d, src)
            &&& d.nodes == c.nodes
            &&& forall|v: u32| #[trigger]
                d.values.contains_key(v) <==> c.values.contains_key(v) || (src.value_error(v) is None
                    && vs.contains(v))
            &&& forall|v: u32| #[trigger]
                d.values.contains_key(v) && vs.contains(v)
                    ==> d.graph.storage.values[d.values[v] as int].def_node == def
            &&& forall|v: u32| #[trigger]
                d.values.contains_key(v) && !vs.contains(v) ==> d.values[v] == c.values[v]
                    && d.graph.storage.values[d.values[v] as int]
                    == c.graph.storage.values[c.values[v] as int]
            &&& only_copies(c) && fresh(c, src, vs) ==> only_copies(d)
        }),
    decreases vs.len(),
{
    if vs.len() > 0 {
        let front = vs.drop_last();
        let x = vs.last();
        let b = c.copying_values(src, front, def);
        let d = c.copying_values(src, vs, def);
        assert(roomy(b.graph.storage));
        values_are_copied(c, src, front, def);
        assert forall|v: u32| #[trigger] vs.contains(v) <==> front.contains(v) || v == x by {
            front_or_last(vs, v);
        }
        if fresh(c, src, vs) {
            fresh_front(c, src, vs);
        }
        if src.value_error(x) is None {
            value_is_copied(b, src, x, def);
            assert forall|v: u32| #[trigger] d.values.contains_key(v) && v != x implies d.values[v]
                == b.values[v] && d.graph.storage.values[d.values[v] as int]
                == b.graph.storage.values[b.values[v] as int] by {
                assert(b.values.contains_key(v));
                assert(is_copy(b, src, v));
            }
        }
        assert forall|v: u32| #[trigger] d.values.contains_key(v) && vs.contains(
            v,
        ) implies d.graph.storage.values[d.values[v] as int].def_node == def by {
            if v != x {
                assert(b.values.contains_key(v) && front.contains(v));
            }
        }
        assert forall|v: u32| #[trigger] d.values.contains_key(v) && !vs.contains(
            v,
        ) implies d.values[v] == c.values[v] && d.graph.storage.values[d.values[v] as int]
            == c.graph.storage.values[c.values[v] as int] by {
            assert(b.values.contains_key(v) && !front.contains(v));
        }
    }
}

/// What holds of copies depends on the values and their pools alone.
proof fn copies_move(c: CompactionModel, d: CompactionModel, src: GraphModel)
    requires
        faithful(c, src),
        d.values == c.values,
        d.graph.storage.values == c.graph.storage.values,
        d.graph.storage.shape_data == c.graph.storage.shape_data,
        d.graph.storage.name_data == c.graph.storage.name_data,
    ensures
        faithful(d, src),
        only_copies(c) ==> only_copies(d),
{
    let m = c.graph.storage;
    let n = d.graph.storage;
    assert forall|w: int| 0 <= w < n.values.len() implies #[trigger] n.value_ok(w) && name_closed(
        n,
        w,
    ) by {
        assert(m.value_ok(w));
    }
    assert forall|v: u32| #[trigger] d.values.contains_key(v) implies src.value_error(v) is None
        && is_copy(d, src, v) by {
        assert(c.values.contains_key(v) && is_copy(c, src, v));
        let w = c.values[v] as int;
        assert(n.value_shape(w) == m.value_shape(w));
        assert(n.value_type(w) == m.value_type(w));
        assert(n.value_name(w) == m.value_name(w));
    }
    assert(copies_differ(d));
    if only_copies(c) {
        assert forall|w: int| 0 <= w < n.values.len() implies #[trigger] copies_some(d, w) by {
            assert(copies_some(c, w));
        }
    }
}

/// What is there when the first `n` nodes were gone through.
proof fn kept_values(src: GraphModel, removed: Set<u32>, n: nat)
    requires
        src.storage.wf(),
        n <= src.storage.nodes.len(),
        roomy(CompactionModel::kept(src, removed, n).graph.storage),
    ensures
        ({
            let c = CompactionModel::kept(src, removed, n);
            &&& faithful(c, src)
            &&& forall|j: u32| j < n && is_kept(src, removed, j) ==> #[trigger] c.nodes.contains_key(j)
            &&& forall|v: u32| #[trigger]
                c.values.contains_key(v) <==> src.value_error(v) is None && output_below(
                    src,
                    removed,
                    n,
                    v,
                )
            &&& forall|j: u32, v: u32|
                c.values.contains_key(v) && #[trigger] last_below(src, removed, n, j, v)
                    ==> c.graph.storage.values[c.values[v] as int].def_node == c.nodes[j]
            &&& outputs_differ(src, removed) ==> only_copies(c)
        }),
    decreases n,
{
    let c = CompactionModel::kept(src, removed, n);
    if n > 0 {
        let i = (n - 1) as u32;
        let p = (n - 1) as nat;
        let b = CompactionModel::kept(src, removed, p);
        let outs = src.storage.node_outputs(i as int);
        if removed.contains(i) {
            kept_values(src, removed, p);
            assert forall|v: u32| #[trigger] output_below(src, removed, n, v) <==> output_below(
                src,
                removed,
                p,
                v,
            ) by {
                if output_below(src, removed, n, v) {
                    let j = choose|j: u32|
                        j < n && is_kept(src, removed, j) && #[trigger] outputs_value(src, j, v);
                    assert(j < p && is_kept(src, removed, j) && outputs_value(src, j, v));
                }
                if output_below(src, removed, p, v) {
                    let j = choose|j: u32|
                        j < p && is_kept(src, removed, j) && #[trigger] outputs_value(src, j, v);
                    assert(j < n && is_kept(src, removed, j) && outputs_value(src, j, v));
                }
            }
            assert forall|j: u32, v: u32|
                c.values.contains_key(v) && #[trigger] last_below(
                    src,
                    removed,
                    n,
                    j,
                    v,
                ) implies c.graph.storage.values[c.values[v] as int].def_node == c.nodes[j] by {
                assert(last_below(src, removed, p, j, v));
            }
        } else {
            let id = b.graph.storage.nodes.len() as u32;
            let e = CompactionModel {
                graph: b.graph.storing(b.graph.storage.with_node(src.storage.nodes[i as int].op_tag)),
                nodes: b.nodes.insert(i, id),
                ..b
            };
            values_grow(e, src, outs, id);
            assert(roomy(b.graph.storage));
            kept_values(src, removed, p);
            copies_move(b, e, src);
            values_are_copied(e, src, outs, id);
            assert(is_kept(src, removed, i));
            assert forall|v: u32| #[trigger] output_below(src, removed, n, v) <==> output_below(
                src,
                removed,
                p,
                v,
            ) || outs.contains(v) by {
                if output_below(src, removed, n, v) {
                    let j = choose|j: u32|
                        j < n && is_kept(src, removed, j) && #[trigger] outputs_value(src, j, v);
                    if j != i {
                        assert(j < p && is_kept(src, removed, j) && outputs_value(src, j, v));
                    }
                }
                if output_below(src, removed, p, v) {
                    let j = choose|j: u32|
                        j < p && is_kept(src, removed, j) && #[trigger] outputs_value(src, j, v);
                    assert(j < n && is_kept(src, removed, j) && outputs_value(src, j, v));
                }
                if outs.contains(v) {
                    assert(i < n && is_kept(src, removed, i) && outputs_value(src, i, v));
                }
            }
            assert forall|j: u32, v: u32|
                c.values.contains_key(v) && #[trigger] last_below(
                    src,
                    removed,
                    n,
                    j,
                    v,
                ) implies c.graph.storage.values[c.values[v] as int].def_node == c.nodes[j] by {
                if outs.contains(v) {
                    assert(outputs_value(src, i, v));
                    assert(j == i);
                } else {
                    assert(!outputs_value(src, i, v));
                    assert(last_below(src, removed, p, j, v));
                    assert(e.values.contains_key(v));
                }
            }
            if outputs_differ(src, removed) {
                assert forall|a: int| 0 <= a < outs.len() && src.value_error(
                    #[trigger] outs[a],
                ) is None implies !e.values.contains_key(outs[a]) by {
                    if b.values.contains_key(outs[a]) {
                        let v = outs[a];
                        assert(output_below(src, removed, p, v));
                        let j = choose|j: u32|
                            j < p && is_kept(src, removed, j) && #[trigger] outputs_value(src, j, v);
                        let there = src.storage.node_outputs(j as int);
                        let k = choose|k: int| 0 <= k < there.len() && there[k] == v;
                        assert(src.storage.node_outputs(i as int)[a] == src.storage.node_outputs(
                            j as int,
                        )[k]);
                    }
                }
                assert forall|a: int, k: int|
                    0 <= a < k < outs.len() && src.value_error(
                        #[trigger] outs[a],
                    ) is None implies outs[a] != #[trigger] outs[k] by {
                    if outs[a] == outs[k] {
                        assert(src.storage.node_outputs(i as int)[a] == src.storage.node_outputs(
                            i as int,
                        )[k]);
                    }
                }
                assert(fresh(e, src, outs));
            }
        }
    } else {
        assert forall|v: u32| !(#[trigger] output_below(src, removed, 0, v)) by {}
    }
}

/// What copying inputs does: those that have no copy yet, and whose type is
/// known, get one that no node defines.
proof fn inputs_are_copied(c: CompactionModel, src: GraphModel, ins: Seq<u32>)
    requires
        src.storage.wf(),
        faithful(c, src),
        roomy(c.copying_inputs(src, ins).graph.storage),
    ensures
        ({
            let d = c.copying_inputs(src, ins);
            &&& faithful(d, src)
            &&& d.nodes == c.nodes
            &&& forall|v: u32| #[trigger]
                d.values.contains_key(v) <==> c.values.contains_key(v) || (src.value_error(v) is None
                    && ins.contains(v))
            &&& forall|v: u32| #[trigger]
                d.values.contains_key(v) ==> if c.values.contains_key(v) {
                    d.values[v] == c.values[v] && d.graph.storage.values[d.values[v] as int]
                        == c.graph.storage.values[c.values[v] as int]
                } else {
                    d.graph.storage.values[d.values[v] as int].def_node == u32::MAX
                }
            &&& only_copies(c) ==> only_copies(d)
        }),
    decreases ins.len(),
{
    if ins.len() > 0 {
        let front = ins.drop_last();
        let x = ins.last();
        let b = c.copying_inputs(src, front);
        let d = c.copying_inputs(src, ins);
        assert(roomy(b.graph.storage));
        inputs_are_copied(c, src, front);
        assert forall|v: u32| #[trigger] ins.contains(v) <==> front.contains(v) || v == x by {
            front_or_last(ins, v);
        }
        if !(b.values.contains_key(x) || src.value_error(x) is Some) {
            let after = b.copying_value(src, x, u32::MAX);
            value_is_copied(b, src, x, u32::MAX);
            copies_move(after, d, src);
            assert forall|v: u32| #[trigger] d.values.contains_key(v) && v != x implies d.values[v]
                == b.values[v] && d.graph.storage.values[d.values[v] as int]
                == b.graph.storage.values[b.values[v] as int] by {
                assert(b.values.contains_key(v));
                assert(is_copy(b, src, v));
            }
            assert forall|v: u32| #[trigger] d.values.contains_key(v) implies if c.values.contains_key(
                v,
            ) {
                d.values[v] == c.values[v] && d.graph.storage.values[d.values[v] as int]
                    == c.graph.storage.values[c.values[v] as int]
            } else {
                d.graph.storage.values[d.values[v] as int].def_node == u32::MAX
            } by {
                if v != x {
                    assert(b.values.contains_key(v));
                } else {
                    assert(!c.values.contains_key(x)) by {
                        if c.values.contains_key(x) {
                            assert(b.values.contains_key(x));
                        }
                    }
                }
            }
        }
    }
}

/// Copying inputs only adds to the pools.
proof fn inputs_grow(c: CompactionModel, src: GraphModel, ins: Seq<u32>)
    requires
        roomy(c.copying_inputs(src, ins).graph.storage),
    ensures
        roomy(c.graph.storage),
    decreases ins.len(),
{
    if ins.len() > 0 {
        let d = c.copying_inputs(src, ins.drop_last());
        assert(roomy(d.graph.storage));
        inputs_grow(c, src, ins.drop_last());
    }
}

/// Connecting nodes keeps values.
proof fn connecting_keeps_values(c: CompactionModel, src: GraphModel, n: nat)
    requires
        forall|j: u32| #[trigger]
            c.nodes.contains_key(j) ==> c.nodes[j] < c.graph.storage.nodes.len(),
    ensures
        ({
            let d = c.connecting(src, n);
            let k = c.graph.storage;
            let m = d.graph.storage;
            &&& d.nodes == c.nodes && d.values == c.values
            &&& m.values == k.values && m.shape_data == k.shape_data && m.name_data == k.name_data
            &&& m.attrs == k.attrs && m.attr_data == k.attr_data
            &&& m.nodes.len() == k.nodes.len() && m.edges.len() >= k.edges.len()
        }),
    decreases n,
{
    if n > 0 {
        connecting_keeps_values(c, src, (n - 1) as nat);
    }
}

/// What compaction promises of values. Exactly the outputs of kept nodes and the
/// inputs of the graph are copied, as far as they are values whose type is known;
/// each has a copy of its own, with its type, shape and name. The copy of an
/// output is defined by the copy of its node, the last one of several; the copy
/// of any other value by no node.
pub proof fn compaction_keeps_values(src: GraphModel, removed: Set<u32>)
    requires
        src.storage.wf(),
        roomy(CompactionModel::of(src, removed).graph.storage),
    ensures
        ({
            let c = CompactionModel::of(src, removed);
            let n = src.storage.nodes.len();
            &&& forall|v: u32| #[trigger]
                c.values.contains_key(v) <==> src.value_error(v) is None && (output_below(
                    src,
                    removed,
                    n,
                    v,
                ) || src.storage.inputs.contains(v))
            &&& copies_differ(c)
            &&& forall|v: u32| #[trigger] c.values.contains_key(v) ==> is_copy(c, src, v)
            &&& forall|j: u32, v: u32|
                c.values.contains_key(v) && #[trigger] last_below(src, removed, n, j, v)
                    ==> c.graph.storage.values[c.values[v] as int].def_node == c.nodes[j]
            &&& forall|v: u32| #[trigger]
                c.values.contains_key(v) && !output_below(src, removed, n, v)
                    ==> c.graph.storage.values[c.values[v] as int].def_node == u32::MAX
        }),
{
    values_of_compaction(src, removed);
}

/// Every value of the compacted graph is the copy of a value, so the copies and
/// the values that were copied stand one for one, if no value stands twice among
/// the outputs of the kept nodes.
pub proof fn compaction_adds_no_values(src: GraphModel, removed: Set<u32>)
    requires
        src.storage.wf(),
        roomy(CompactionModel::of(src, removed).graph.storage),
        outputs_differ(src, removed),
    ensures
        copies_differ(CompactionModel::of(src, removed)),
        only_copies(CompactionModel::of(src, removed)),
{
    values_of_compaction(src, removed);
}

/// What is there of values when compaction is done.
proof fn values_of_compaction(src: GraphModel, removed: Set<u32>)
    requires
        src.storage.wf(),
        roomy(CompactionModel::of(src, removed).graph.storage),
    ensures
        ({
            let c = CompactionModel::of(src, removed);
            let n = src.storage.nodes.len();
            &&& faithful(c, src)
            &&& forall|v: u32| #[trigger]
                c.values.contains_key(v) <==> src.value_error(v) is None && (output_below(
                    src,
                    removed,
                    n,
                    v,
                ) || src.storage.inputs.contains(v))
            &&& forall|j: u32, v: u32|
                c.values.contains_key(v) && #[trigger] last_below(src, removed, n, j, v)
                    ==> c.graph.storage.values[c.values[v] as int].def_node == c.nodes[j]
            &&& forall|v: u32| #[trigger]
                c.values.contains_key(v) && !output_below(src, removed, n, v)
                    ==> c.graph.storage.values[c.values[v] as int].def_node == u32::MAX
            &&& outputs_differ(src, removed) ==> only_copies(c)
        }),
{
    let n = src.storage.nodes.len();
    let k = CompactionModel::kept(src, removed, n);
    let a = k.copying_inputs(src, src.storage.inputs);
    let c = CompactionModel::of(src, removed);
    compacted_nodes(src, removed);
    connecting_keeps_values(a, src, n);
    assert(roomy(a.graph.storage));
    inputs_grow(k, src, src.storage.inputs);
    kept_values(src, removed, n);
    inputs_are_copied(k, src, src.storage.inputs);
    copies_move(a, c, src);
    assert forall|j: u32, v: u32|
        c.values.contains_key(v) && #[trigger] last_below(
            src,
            removed,
            n,
            j,
            v,
        ) implies c.graph.storage.values[c.values[v] as int].def_node == c.nodes[j] by {
        assert(outputs_value(src, j, v));
        assert(output_below(src, removed, n, v));
        assert(a.values.contains_key(v));
        assert(k.values.contains_key(v));
    }
    assert forall|v: u32| #[trigger] c.values.contains_key(v) && !output_below(
        src,
        removed,
        n,
        v,
    ) implies c.graph.storage.values[c.values[v] as int].def_node == u32::MAX by {
        assert(a.values.contains_key(v));
        assert(!k.values.contains_key(v));
    }
}

} // verus!
