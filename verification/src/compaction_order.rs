//! In what order the values of a graph stand when nodes are removed.

use vstd::prelude::*;
use crate::compaction_laws::{is_kept, output_below, outputs_value};
use crate::graph::{CompactionModel, GraphModel, compaction_keeps_graph};

verus! {

/// Whether places stand in order, each once.
pub open spec fn in_order(at: Seq<int>) -> bool {
    forall|p: int, q: int| 0 <= p < q < at.len() ==> #[trigger] at[p] < #[trigger] at[q]
}

/// Whether the place `i` of `vs` holds a value that was copied.
pub open spec fn was_copied(values: Map<u32, u32>, vs: Seq<u32>, i: int) -> bool {
    0 <= i < vs.len() && values.contains_key(vs[i])
}

/// Whether `out` holds, in order, the copies of those of `vs` that were copied:
/// the places of `vs` that hold such a value are those of `at`, in order, and
/// `out` holds one copy for each.
pub open spec fn copies_of(values: Map<u32, u32>, vs: Seq<u32>, at: Seq<int>, out: Seq<u32>) -> bool {
    &&& in_order(at)
    &&& forall|i: int| #[trigger] at.contains(i) <==> was_copied(values, vs, i)
    &&& out.len() == at.len()
    &&& forall|p: int| 0 <= p < at.len() ==> #[trigger] out[p] == values[vs[at[p]]]
}

/// Whether the input at place `i` becomes an input of the compacted graph: it can
/// be read, no kept node has it among its outputs, and it does not stand among
/// the inputs before.
pub open spec fn stays_input(src: GraphModel, removed: Set<u32>, i: int) -> bool {
    let ins = src.storage.inputs;
    &&& 0 <= i < ins.len()
    &&& src.value_error(ins[i]) is None
    &&& !output_below(src, removed, src.storage.nodes.len(), ins[i])
    &&& first_at(ins, i)
}

/// Whether the value at place `i` does not stand at an earlier place.
pub open spec fn first_at(vs: Seq<u32>, i: int) -> bool {
    forall|j: int| 0 <= j < i ==> #[trigger] vs[j] != vs[i]
}

/// Whether copying inputs makes an input of the one at place `i`.
spec fn is_new_input(c: CompactionModel, src: GraphModel, ins: Seq<u32>, i: int) -> bool {
    &&& 0 <= i < ins.len()
    &&& src.value_error(ins[i]) is None
    &&& !c.values.contains_key(ins[i])
    &&& first_at(ins, i)
}

/// One more place at the end, after all others, keeps places in order.
proof fn place_is_added(at: Seq<int>, n: int)
    requires
        in_order(at),
        forall|p: int| 0 <= p < at.len() ==> #[trigger] at[p] < n,
    ensures
        in_order(at.push(n)),
        forall|i: int| #[trigger] at.push(n).contains(i) <==> at.contains(i) || i == n,
{
    let b = at.push(n);
    assert forall|i: int| #[trigger] b.contains(i) <==> at.contains(i) || i == n by {
        if b.contains(i) && i != n {
            let p = choose|p: int| 0 <= p < b.len() && b[p] == i;
            assert(at[p] == i);
        }
        if at.contains(i) {
            let p = choose|p: int| 0 <= p < at.len() && at[p] == i;
            assert(b[p] == i);
        }
        assert(b[at.len() as int] == n);
    }
}

/// Places of a sequence without its last are places of the sequence.
proof fn first_in_front(vs: Seq<u32>, i: int)
    requires
        0 <= i < vs.len() - 1,
    ensures
        first_at(vs.drop_last(), i) <==> first_at(vs, i),
{
    let front = vs.drop_last();
    if first_at(front, i) {
        assert forall|j: int| 0 <= j < i implies #[trigger] vs[j] != vs[i] by {
            assert(front[j] != front[i]);
        }
    }
    if first_at(vs, i) {
        assert forall|j: int| 0 <= j < i implies #[trigger] front[j] != front[i] by {
            assert(vs[j] != vs[i]);
        }
    }
}

/// Copying inputs marks the copy of each new one as an input, in order.
proof fn inputs_are_marked(c: CompactionModel, src: GraphModel, ins: Seq<u32>) -> (at: Seq<int>)
    requires
        c.graph.storage.inputs.len() == 0,
    ensures
        ({
            let d = c.copying_inputs(src, ins);
            &&& in_order(at)
            &&& forall|i: int| #[trigger] at.contains(i) <==> is_new_input(c, src, ins, i)
            &&& d.graph.storage.inputs.len() == at.len()
            &&& forall|p: int|
                0 <= p < at.len() ==> 0 <= #[trigger] at[p] < ins.len() && d.values.contains_key(
                    ins[at[p]],
                ) && d.graph.storage.inputs[p] == d.values[ins[at[p]]]
            &&& forall|v: u32| #[trigger]
                d.values.contains_key(v) <==> c.values.contains_key(v) || (src.value_error(v) is None
                    && ins.contains(v))
        }),
    decreases ins.len(),
{
    if ins.len() == 0 {
        Seq::empty()
    } else {
        let front = ins.drop_last();
        let x = ins.last();
        let n = front.len() as int;
        let b = c.copying_inputs(src, front);
        let d = c.copying_inputs(src, ins);
        let before = inputs_are_marked(c, src, front);
        assert forall|v: u32| #[trigger] ins.contains(v) <==> front.contains(v) || v == x by {
            if front.contains(v) {
                let j = choose|j: int| 0 <= j < front.len() && front[j] == v;
                assert(ins[j] == v);
            }
            if ins.contains(v) && v != x {
                let j = choose|j: int| 0 <= j < ins.len() && ins[j] == v;
                assert(front[j] == v);
            }
            assert(ins[n] == x);
        }
        assert forall|i: int| i != n implies (#[trigger] is_new_input(c, src, ins, i)
            <==> is_new_input(c, src, front, i)) by {
            if 0 <= i < n {
                first_in_front(ins, i);
            }
        }
        assert(front.contains(x) <==> !first_at(ins, n)) by {
            if front.contains(x) {
                let j = choose|j: int| 0 <= j < front.len() && front[j] == x;
                assert(ins[j] == ins[n]);
            }
            if !first_at(ins, n) {
                let j = choose|j: int| 0 <= j < n && ins[j] == ins[n];
                assert(front[j] == x);
            }
        }
        assert(is_new_input(c, src, ins, n) <==> !(b.values.contains_key(x) || src.value_error(
            x,
        ) is Some));
        if is_new_input(c, src, ins, n) {
            assert forall|p: int| 0 <= p < before.len() implies #[trigger] before[p] < n by {
                assert(before.contains(before[p]));
            }
            place_is_added(before, n);
            let at = before.push(n);
            assert forall|p: int| 0 <= p < at.len() implies 0 <= #[trigger] at[p] < ins.len()
                && d.values.contains_key(ins[at[p]]) && d.graph.storage.inputs[p]
                == d.values[ins[at[p]]] by {
                if p < before.len() {
                    assert(before[p] == at[p]);
                    assert(front[at[p]] == ins[at[p]]);
                    assert(b.values.contains_key(ins[at[p]]));
                }
            }
            at
        } else {
            assert forall|p: int| 0 <= p < before.len() implies 0 <= #[trigger] before[p] < ins.len()
                && d.values.contains_key(ins[before[p]]) && d.graph.storage.inputs[p]
                == d.values[ins[before[p]]] by {
                assert(front[before[p]] == ins[before[p]]);
            }
            before
        }
    }
}

/// Copying values copies those that can be read, and marks nothing.
proof fn values_are_known(c: CompactionModel, src: GraphModel, vs: Seq<u32>, def: u32)
    ensures
        ({
            let d = c.copying_values(src, vs, def);
            &&& d.graph.storage.inputs == c.graph.storage.inputs
            &&& forall|v: u32| #[trigger]
                d.values.contains_key(v) <==> c.values.contains_key(v) || (src.value_error(v) is None
                    && vs.contains(v))
        }),
    decreases vs.len(),
{
    if vs.len() > 0 {
        let front = vs.drop_last();
        values_are_known(c, src, front, def);
        assert forall|v: u32| #[trigger] vs.contains(v) <==> front.contains(v) || v == vs.last() by {
            if front.contains(v) {
                let j = choose|j: int| 0 <= j < front.len() && front[j] == v;
                assert(vs[j] == v);
            }
            if vs.contains(v) && v != vs.last() {
                let j = choose|j: int| 0 <= j < vs.len() && vs[j] == v;
                assert(front[j] == v);
            }
            assert(vs[vs.len() - 1] == vs.last());
        }
    }
}

/// The values that keeping nodes copies are their outputs.
proof fn kept_are_known(src: GraphModel, removed: Set<u32>, n: nat)
    requires
        n <= src.storage.nodes.len() <= u32::MAX,
    ensures
        ({
            let c = CompactionModel::kept(src, removed, n);
            &&& c.graph.storage.inputs.len() == 0
            &&& forall|v: u32| #[trigger]
                c.values.contains_key(v) <==> src.value_error(v) is None && output_below(
                    src,
                    removed,
                    n,
                    v,
                )
        }),
    decreases n,
{
    if n > 0 {
        let i = (n - 1) as u32;
        let b = CompactionModel::kept(src, removed, (n - 1) as nat);
        let c = CompactionModel::kept(src, removed, n);
        kept_are_known(src, removed, (n - 1) as nat);
        assert forall|v: u32| #[trigger]
            output_below(src, removed, n, v) <==> output_below(src, removed, (n - 1) as nat, v) || (
            !removed.contains(i) && outputs_value(src, i, v)) by {
            if output_below(src, removed, n, v) {
                let j = choose|j: u32|
                    j < n && is_kept(src, removed, j) && #[trigger] outputs_value(src, j, v);
                assert(outputs_value(src, j, v));
                assert(j == i || j < n - 1);
            }
            if output_below(src, removed, (n - 1) as nat, v) {
                let j = choose|j: u32|
                    j < n - 1 && is_kept(src, removed, j) && #[trigger] outputs_value(src, j, v);
                assert(outputs_value(src, j, v));
            }
        }
        if !removed.contains(i) {
            let id = b.graph.storage.nodes.len() as u32;
            let d = CompactionModel {
                graph: b.graph.storing(b.graph.storage.with_node(src.storage.nodes[i as int].op_tag)),
                nodes: b.nodes.insert(i, id),
                ..b
            };
            values_are_known(d, src, src.storage.node_outputs(i as int), id);
        }
    }
}

/// Connecting nodes marks no inputs.
proof fn connecting_keeps_marks(c: CompactionModel, src: GraphModel, n: nat)
    ensures
        c.connecting(src, n).graph.storage.inputs == c.graph.storage.inputs,
        c.connecting(src, n).values == c.values,
    decreases n,
{
    if n > 0 {
        connecting_keeps_marks(c, src, (n - 1) as nat);
    }
}

/// The inputs of the compacted graph are, in order, the copies of those inputs of
/// the graph that can be read, that no kept node has among its outputs, and that
/// did not occur before. The places of those are handed back.
pub proof fn compaction_keeps_inputs(src: GraphModel, removed: Set<u32>) -> (at: Seq<int>)
    requires
        src.storage.nodes.len() <= u32::MAX,
    ensures
        ({
            let c = CompactionModel::of(src, removed);
            &&& in_order(at)
            &&& forall|i: int| #[trigger] at.contains(i) <==> stays_input(src, removed, i)
            &&& c.graph.storage.inputs.len() == at.len()
            &&& forall|p: int|
                0 <= p < at.len() ==> #[trigger] c.graph.storage.inputs[p]
                    == c.values[src.storage.inputs[at[p]]]
        }),
{
    let n = src.storage.nodes.len();
    let k = CompactionModel::kept(src, removed, n);
    kept_are_known(src, removed, n);
    let at = inputs_are_marked(k, src, src.storage.inputs);
    connecting_keeps_marks(k.copying_inputs(src, src.storage.inputs), src, n);
    assert forall|i: int| #[trigger] at.contains(i) <==> stays_input(src, removed, i) by {
        assert(is_new_input(k, src, src.storage.inputs, i) <==> stays_input(src, removed, i));
    }
    at
}

/// A sequence of places in order, of which every place below `n` is one, holds
/// the places themselves.
pub proof fn all_places(at: Seq<int>, n: nat)
    requires
        in_order(at),
        forall|i: int| #[trigger] at.contains(i) <==> 0 <= i < n,
    ensures
        at.len() == n,
        forall|p: int| 0 <= p < n ==> #[trigger] at[p] == p,
    decreases n,
{
    if n == 0 {
        if at.len() > 0 {
            assert(at.contains(at[0]));
        }
    } else {
        let last = (n - 1) as int;
        assert(at.contains(last));
        let p = choose|p: int| 0 <= p < at.len() && at[p] == last;
        assert(p == at.len() - 1) by {
            if p < at.len() - 1 {
                assert(at[p] < at[at.len() - 1]);
                assert(at.contains(at[at.len() - 1]));
            }
        }
        let front = at.drop_last();
        assert forall|i: int| #[trigger] front.contains(i) <==> 0 <= i < n - 1 by {
            if front.contains(i) {
                let q = choose|q: int| 0 <= q < front.len() && front[q] == i;
                assert(at[q] == i);
                assert(at.contains(i));
                assert(at[q] < at[p]);
            }
            if 0 <= i < n - 1 {
                assert(at.contains(i));
                let q = choose|q: int| 0 <= q < at.len() && at[q] == i;
                assert(q != p);
                assert(front[q] == i);
            }
        }
        assert(in_order(front)) by {
            assert forall|p: int, q: int| 0 <= p < q < front.len() implies #[trigger] front[p]
                < #[trigger] front[q] by {
                assert(at[p] < at[q]);
            }
        }
        all_places(front, (n - 1) as nat);
        assert forall|q: int| 0 <= q < n implies #[trigger] at[q] == q by {
            if q < n - 1 {
                assert(front[q] == q);
            }
        }
    }
}

/// If the inputs of a graph are different values that can be read, and no kept
/// node has one of them among its outputs, the compacted graph has as many inputs,
/// and each is the copy of the one at its place.
pub proof fn compaction_keeps_each_input(src: GraphModel, removed: Set<u32>)
    requires
        src.storage.nodes.len() <= u32::MAX,
        forall|i: int|
            0 <= i < src.storage.inputs.len() ==> #[trigger] stays_input(src, removed, i),
    ensures
        ({
            let c = CompactionModel::of(src, removed);
            &&& c.graph.storage.inputs.len() == src.storage.inputs.len()
            &&& forall|i: int|
                0 <= i < src.storage.inputs.len() ==> #[trigger] c.graph.storage.inputs[i]
                    == c.values[src.storage.inputs[i]]
            &&& c.graph.storage.inputs == c.renamed(src.storage.inputs)
        }),
{
    let c = CompactionModel::of(src, removed);
    let n = src.storage.nodes.len();
    let k = CompactionModel::kept(src, removed, n);
    let at = compaction_keeps_inputs(src, removed);
    all_places(at, src.storage.inputs.len());
    kept_are_known(src, removed, n);
    let _ = inputs_are_marked(k, src, src.storage.inputs);
    connecting_keeps_marks(k.copying_inputs(src, src.storage.inputs), src, n);
    let also = renaming_keeps_order(c, src.storage.inputs);
    assert forall|i: int| #[trigger] also.contains(i) <==> 0 <= i < src.storage.inputs.len() by {
        if 0 <= i < src.storage.inputs.len() {
            assert(stays_input(src, removed, i));
            assert(src.storage.inputs.contains(src.storage.inputs[i]));
            assert(was_copied(c.values, src.storage.inputs, i));
        }
    }
    all_places(also, src.storage.inputs.len());
    assert forall|i: int| 0 <= i < src.storage.inputs.len() implies #[trigger] c.graph.storage.inputs[i]
        == c.values[src.storage.inputs[i]] by {
        assert(at[i] == i);
    }
    assert forall|i: int| 0 <= i < src.storage.inputs.len() implies #[trigger] c.renamed(
        src.storage.inputs,
    )[i] == c.values[src.storage.inputs[i]] by {
        assert(also[i] == i);
    }
    assert(c.graph.storage.inputs == c.renamed(src.storage.inputs));
}

/// Renaming values gives the copies of those that were copied, in order. Their
/// places are handed back.
pub proof fn renaming_keeps_order(c: CompactionModel, vs: Seq<u32>) -> (at: Seq<int>)
    ensures
        copies_of(c.values, vs, at, c.renamed(vs)),
    decreases vs.len(),
{
    if vs.len() == 0 {
        Seq::empty()
    } else {
        let front = vs.drop_last();
        let n = front.len() as int;
        let before = renaming_keeps_order(c, front);
        assert forall|i: int| i != n implies (#[trigger] was_copied(c.values, vs, i)
            <==> was_copied(c.values, front, i)) by {
            if 0 <= i < n {
                assert(front[i] == vs[i]);
            }
        }
        assert forall|p: int| 0 <= p < before.len() implies 0 <= #[trigger] before[p] < n
            && front[before[p]] == vs[before[p]] by {
            assert(before.contains(before[p]));
            assert(was_copied(c.values, front, before[p]));
        }
        assert(!was_copied(c.values, front, n));
        let old_out = c.renamed(front);
        let out = c.renamed(vs);
        if c.values.contains_key(vs.last()) {
            place_is_added(before, n);
            let at = before.push(n);
            assert forall|p: int| 0 <= p < at.len() implies #[trigger] out[p]
                == c.values[vs[at[p]]] by {
                if p < before.len() {
                    assert(at[p] == before[p]);
                    assert(out[p] == old_out[p]);
                }
            }
            at
        } else {
            assert forall|p: int| 0 <= p < before.len() implies #[trigger] out[p]
                == c.values[vs[before[p]]] by {
                assert(out[p] == old_out[p]);
                assert(before[p] == before[p]);
            }
            before
        }
    }
}

/// Renaming values that were all copied gives as many, each at its place.
pub proof fn renaming_keeps_places(c: CompactionModel, vs: Seq<u32>)
    requires
        forall|i: int| 0 <= i < vs.len() ==> c.values.contains_key(#[trigger] vs[i]),
    ensures
        c.renamed(vs).len() == vs.len(),
        forall|i: int| 0 <= i < vs.len() ==> #[trigger] c.renamed(vs)[i] == c.values[vs[i]],
{
    let at = renaming_keeps_order(c, vs);
    all_places(at, vs.len());
    assert forall|i: int| 0 <= i < vs.len() implies #[trigger] c.renamed(vs)[i] == c.values[vs[i]] by {
        assert(at[i] == i);
    }
}

/// Compaction keeps operands and outputs in order: those of the copy of a node,
/// and the outputs of the compacted graph, are the copies of the old ones, in
/// order, as far as those were copied; and where all were, each stands at its
/// old place.
pub proof fn compaction_keeps_order(src: GraphModel, removed: Set<u32>, j: u32)
    requires
        src.storage.wf(),
        CompactionModel::of(src, removed).graph.storage.edges.len() <= u32::MAX,
        is_kept(src, removed, j),
    ensures
        ({
            let c = CompactionModel::of(src, removed);
            let m = c.graph.storage;
            let id = c.nodes[j] as int;
            &&& stands_for(c, src.storage.node_inputs(j as int), m.node_inputs(id))
            &&& stands_for(c, src.storage.node_outputs(j as int), m.node_outputs(id))
            &&& stands_for(c, src.storage.outputs, m.outputs)
        }),
{
    let c = CompactionModel::of(src, removed);
    compaction_keeps_graph(src, removed);
    assert(c.nodes.contains_key(j));
    renamed_stands_for(c, src.storage.node_inputs(j as int));
    renamed_stands_for(c, src.storage.node_outputs(j as int));
    renamed_stands_for(c, src.storage.outputs);
}

/// Whether `out` holds the copies of those of `vs` that were copied, in order, and
/// where all were, each at its place.
pub open spec fn stands_for(c: CompactionModel, vs: Seq<u32>, out: Seq<u32>) -> bool {
    &&& exists|at: Seq<int>| copies_of(c.values, vs, at, out)
    &&& (forall|i: int| 0 <= i < vs.len() ==> c.values.contains_key(#[trigger] vs[i])) ==> out.len()
        == vs.len() && forall|i: int| 0 <= i < vs.len() ==> #[trigger] out[i] == c.values[vs[i]]
}

proof fn renamed_stands_for(c: CompactionModel, vs: Seq<u32>)
    ensures
        stands_for(c, vs, c.renamed(vs)),
{
    let at = renaming_keeps_order(c, vs);
    assert(copies_of(c.values, vs, at, c.renamed(vs)));
    if forall|i: int| 0 <= i < vs.len() ==> c.values.contains_key(#[trigger] vs[i]) {
        renaming_keeps_places(c, vs);
    }
}

} // verus!
