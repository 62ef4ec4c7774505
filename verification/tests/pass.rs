use neutron::base::{NeutronError, NodeId, OpKind, Result};
use neutron::graph::{Graph, NodeView};
use neutron::pass::{Pass, PassContext, Visitor};

struct Kinds {
    seen: Vec<(NodeId, OpKind)>,
    refuse: Option<OpKind>,
}

impl Visitor for Kinds {
    fn visit_node(&mut self, _graph: &Graph, node: NodeView<'_>) -> Result<()> {
        if Some(node.kind) == self.refuse {
            return Err(NeutronError::Ir("refused".to_string()));
        }
        self.seen.push((node.id, node.kind));
        Ok(())
    }
}

fn three_nodes() -> Graph {
    let mut g = Graph::new("visited");
    g.add_node(OpKind::Add);
    g.add_node(OpKind::Relu);
    g.add_node(OpKind::Sqrt);
    g
}

#[test]
fn visits_nodes_in_order() {
    let g = three_nodes();
    let mut v = Kinds { seen: vec![], refuse: None };
    v.visit_graph(&g).unwrap();
    assert_eq!(v.seen, vec![(0, OpKind::Add), (1, OpKind::Relu), (2, OpKind::Sqrt)]);
}

#[test]
fn stops_at_the_first_failing_visit() {
    let g = three_nodes();
    let mut v = Kinds { seen: vec![], refuse: Some(OpKind::Relu) };
    let e = v.visit_graph(&g).unwrap_err();
    assert!(matches!(e, NeutronError::Ir(ref s) if s == "refused"));
    assert_eq!(v.seen, vec![(0, OpKind::Add)]);
}

#[test]
fn stops_at_an_unknown_operator() {
    let mut g = three_nodes();
    g.storage.node_hdr[1].op_tag = 40;
    let mut v = Kinds { seen: vec![], refuse: None };
    assert!(v.visit_graph(&g).is_err());
    assert_eq!(v.seen, vec![(0, OpKind::Add)]);
}

struct AddReturn;

impl Pass for AddReturn {
    fn name(&self) -> &str {
        "add_return"
    }

    fn run(&mut self, graph: &mut Graph, ctx: &mut PassContext) -> Result<()> {
        graph.add_node(OpKind::Return);
        ctx.inc("nodes");
        Ok(())
    }
}

#[test]
fn passes_count_what_they_do() {
    let mut g = three_nodes();
    let mut ctx = PassContext::default();
    let mut p = AddReturn;
    p.run(&mut g, &mut ctx).unwrap();
    p.run(&mut g, &mut ctx).unwrap();
    assert_eq!(p.name(), "add_return");
    assert_eq!(g.node_count(), 5);
    assert_eq!(ctx.stats.get("nodes").copied(), Some(2));
    assert_eq!(ctx.stats.get("values").copied(), None);
}
