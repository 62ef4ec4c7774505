//! Passes over a graph and visitors of its nodes.

use vstd::prelude::*;
use vstd::hash_map::StringHashMap;
use crate::base::{NeutronError, NodeId, Result};
use crate::graph::{Graph, GraphModel, NodeView};

verus! {

/// What passes count.
pub struct PassContext {
    pub stats: StringHashMap<usize>,
}

impl Default for PassContext {
    fn default() -> (r: Self)
        ensures
            r.stats@ == Map::<Seq<char>, usize>::empty(),
    {
        PassContext { stats: StringHashMap::new() }
    }
}

impl PassContext {
    /// How often a key was counted.
    pub open spec fn count(self, key: Seq<char>) -> usize {
        if self.stats@.contains_key(key) {
            self.stats@[key]
        } else {
            0
        }
    }

    /// Counts a key once more.
    pub fn inc(&mut self, key: &str)
        requires
            old(self).count(key@) < usize::MAX,
        ensures
            final(self).stats@ == old(self).stats@.insert(key@, (old(self).count(key@) + 1) as usize),
    {
        let n: usize = match self.stats.get(key) {
            Some(n) => *n,
            None => 0,
        };
        self.stats.insert(key.to_owned(), n + 1);
    }
}

/// Something that changes a graph.
pub trait Pass {
    fn name(&self) -> &str;

    fn run(&mut self, graph: &mut Graph, ctx: &mut PassContext) -> Result<()>;
}

/// Something that looks at the nodes of a graph.
pub trait Visitor: Sized {
    /// What the visit of a node may do: how it may leave the visitor and what
    /// it may return. A visitor that says nothing may do anything.
    open spec fn visits(before: Self, graph: Graph, node: NodeId, after: Self, r: Result<()>) -> bool {
        true
    }

    /// Visits a node of the graph.
    fn visit_node(&mut self, graph: &Graph, node: NodeView<'_>) -> (r: Result<()>)
        requires
            node.id < graph@.storage.nodes.len(),
            graph@.kind(node.id as int) == Some(node.kind),
            *node.storage == graph.storage,
        ensures
            Self::visits(*old(self), *graph, node.id, *final(self), r),
    ;

    /// Visits the nodes in order, up to the first that cannot be seen or whose
    /// visit fails.
    fn visit_graph(&mut self, graph: &Graph) -> (r: Result<()>)
        requires
            graph@.storage.nodes.len() <= u32::MAX,
        default_ensures
            walks(
                |a: Self, n: NodeId, b: Self, s: Result<()>| Self::visits(a, *graph, n, b, s),
                graph@,
                *old(self),
                *final(self),
                r,
            ),
    {
        let ghost step = |a: Self, n: NodeId, b: Self, s: Result<()>| Self::visits(a, *graph, n, b, s);
        let ids = graph.node_ids();
        let mut k: usize = 0;
        let ghost mut states = seq![*self];
        while k < ids.len()
            invariant
                k <= ids@.len(),
                ids@.len() == graph@.storage.nodes.len(),
                ids@.len() <= u32::MAX,
                forall|i: int| 0 <= i < ids@.len() ==> ids@[i] == i,
                step == (|a: Self, n: NodeId, b: Self, s: Result<()>|
                    Self::visits(a, *graph, n, b, s)),
                states.len() == k + 1,
                states[0] == *old(self),
                states[k as int] == *self,
                forall|i: int|
                    0 <= i < k ==> #[trigger] visited(states, step, graph@, i, Ok::<(), NeutronError>(())),
            decreases ids@.len() - k,
        {
            match graph.node(ids[k]) {
                Ok(node) => {
                    let r = self.visit_node(graph, node);
                    proof {
                        let before = states;
                        states = states.push(*self);
                        assert forall|i: int| 0 <= i < k implies #[trigger] visited(
                            states,
                            step,
                            graph@,
                            i,
                            Ok::<(), NeutronError>(()),
                        ) by {
                            assert(visited(before, step, graph@, i, Ok::<(), NeutronError>(())));
                        }
                        assert(visited(states, step, graph@, k as int, r));
                    }
                    match r {
                        Ok(done) => {
                            assert(done == ());
                            assert(visited(states, step, graph@, k as int, Ok::<(), NeutronError>(())));
                        },
                        Err(e) => {
                            assert(walked(states, step, graph@, *old(self), *self, Err::<(), _>(e)));
                            return Err(e);
                        },
                    }
                },
                Err(e) => {
                    assert(walked(states, step, graph@, *old(self), *self, Err::<(), _>(e)));
                    return Err(e);
                },
            }
            k += 1;
        }
        assert(walked(states, step, graph@, *old(self), *self, Ok::<(), NeutronError>(())));
        Ok(())
    }
}

/// Whether a walk over the nodes of a graph may lead from one state to another
/// and return `r`.
pub open spec fn walks<V>(
    step: spec_fn(V, NodeId, V, Result<()>) -> bool,
    graph: GraphModel,
    before: V,
    after: V,
    r: Result<()>,
) -> bool {
    exists|states: Seq<V>| #[trigger] walked(states, step, graph, before, after, r)
}

/// Whether the node at `i` can be seen, and its visit, which returns `r`, leads
/// from one of the states to the next.
pub open spec fn visited<V>(
    states: Seq<V>,
    step: spec_fn(V, NodeId, V, Result<()>) -> bool,
    graph: GraphModel,
    i: int,
    r: Result<()>,
) -> bool {
    graph.kind(i) is Some && step(states[i], i as u32, states[i + 1], r)
}

/// Whether a walk over the nodes of a graph went through the given states: it
/// visits all nodes in order, or ends at the first that cannot be seen or whose
/// visit fails.
pub open spec fn walked<V>(
    states: Seq<V>,
    step: spec_fn(V, NodeId, V, Result<()>) -> bool,
    graph: GraphModel,
    before: V,
    after: V,
    r: Result<()>,
) -> bool {
    let n = states.len() - 1;
    &&& 0 <= n <= graph.storage.nodes.len()
    &&& states[0] == before
    &&& states[n] == after
    &&& match r {
        Ok(_) => n == graph.storage.nodes.len() && forall|i: int|
            0 <= i < n ==> #[trigger] visited(states, step, graph, i, Ok::<(), NeutronError>(())),
        Err(e) => {
            ||| {
                &&& n < graph.storage.nodes.len()
                &&& graph.node_error(n as u32) == Some(e@)
                &&& forall|i: int|
                    0 <= i < n ==> #[trigger] visited(states, step, graph, i, Ok::<(), NeutronError>(()))
            }
            ||| {
                &&& n > 0
                &&& visited(states, step, graph, n - 1, r)
                &&& forall|i: int|
                    0 <= i < n - 1 ==> #[trigger] visited(
                        states,
                        step,
                        graph,
                        i,
                        Ok::<(), NeutronError>(()),
                    )
            }
        },
    }
}

} // verus!
