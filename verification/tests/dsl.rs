use neutron::base::{NeutronError, OpKind};
use neutron::frontend::dsl::parse;

#[test]
fn parses_simple_graph() {
    let src = r#"
        graph "test"
        in x: f32[2,3]
        in w: f32[3,4]
        y = matmul(x, w)   // 注释
        z = relu(y)
        out z
    "#;
    let g = parse(src).unwrap();
    assert_eq!(g.name, "test");
    assert_eq!(g.inputs().len(), 2, "应有 2 个输入");
    assert_eq!(g.outputs().len(), 1, "应有 1 个输出");
    let kinds: Vec<OpKind> = g.node_ids().into_iter().map(|id| g.node(id).unwrap().kind).collect();
    assert!(kinds.contains(&OpKind::MatMul));
    assert!(kinds.contains(&OpKind::Relu));
}

#[test]
fn parses_scalar_type() {
    let src = "in x: f32\nout x";
    let g = parse(src).unwrap();
    assert_eq!(g.inputs().len(), 1);
}

#[test]
fn dsl_unknown_op_becomes_custom() {
    let src = "in x: f32[4]\ny = foobar(x)\nout y";
    let g = parse(src).unwrap();
    let kinds: Vec<OpKind> = g.node_ids().into_iter().map(|id| g.node(id).unwrap().kind).collect();
    assert!(kinds.contains(&OpKind::Custom));
}

#[test]
fn error_on_undefined_arg() {
    let src = "y = relu(z)";
    let err = parse(src).unwrap_err();
    assert!(matches!(err, NeutronError::Frontend(_)));
}

#[test]
fn parses_no_input_node() {
    let src = "y = relu()";
    let g = parse(src).unwrap();
    assert_eq!(g.node_count(), 1);
    let n = g.node(0).unwrap();
    assert_eq!(n.kind, OpKind::Relu);
    assert_eq!(n.inputs().len(), 0);
}
