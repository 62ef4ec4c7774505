//! Short texts that tell graphs apart in messages.

use vstd::prelude::*;
use crate::graph::{Graph, GraphModel};
use crate::storage::{StorageGraph, StorageModel};
use crate::text::{dec, push_dec, quote, quoted};

verus! {

impl StorageModel {
    /// How much the storage holds.
    pub open spec fn summary(self) -> Seq<char> {
        "StorageGraph { node_count: "@ + dec(self.nodes.len()) + ", value_count: "@ + dec(
            self.values.len(),
        ) + ", edge_count: "@ + dec(self.edges.len()) + ", attr_count: "@ + dec(self.attrs.len())
            + ", input_count: "@ + dec(self.inputs.len()) + ", output_count: "@ + dec(
            self.outputs.len(),
        ) + " }"@
    }
}

impl GraphModel {
    /// The name of the graph and how much it holds.
    pub open spec fn summary(self) -> Seq<char> {
        "Graph { name: "@ + quoted(self.name) + ", raw: "@ + self.storage.summary() + " }"@
    }
}

impl StorageGraph {
    /// How much the storage holds.
    pub fn summary(&self) -> (r: String)
        ensures
            r@ == self@.summary(),
    {
        let mut s = "StorageGraph { node_count: ".to_owned();
        push_dec(&mut s, self.node_hdr.len() as u64);
        s.append(", value_count: ");
        push_dec(&mut s, self.value_hdr.len() as u64);
        s.append(", edge_count: ");
        push_dec(&mut s, self.edges.len() as u64);
        s.append(", attr_count: ");
        push_dec(&mut s, self.attrs.len() as u64);
        s.append(", input_count: ");
        push_dec(&mut s, self.inputs.len() as u64);
        s.append(", output_count: ");
        push_dec(&mut s, self.outputs.len() as u64);
        s.append(" }");
        s
    }
}

impl Graph {
    /// The name of the graph and how much it holds.
    pub fn summary(&self) -> (r: String)
        ensures
            r@ == self@.summary(),
    {
        let mut s = "Graph { name: ".to_owned();
        s.append(quote(self.name.as_str()).as_str());
        s.append(", raw: ");
        s.append(self.storage.summary().as_str());
        s.append(" }");
        s
    }
}

} // verus!
