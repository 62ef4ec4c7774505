use neutron::arch::{lower, ArchGraph, ArchOp, CudaDesc};
use neutron::base::{DType, OpKind, Type};
use neutron::common::Target;
use neutron::graph::Graph;

#[test]
fn lower_basic() {
    let mut g = Graph::new("test");
    let ty = Type::Tensor {
        dtype: DType::F32,
        dims: vec![2, 3],
    };
    let x = g.add_input(ty.clone(), Some("x"));
    let add = g.add_node(OpKind::Add);
    let out = g.add_value(ty, Some("out"), add);
    g.storage.set_node_inputs(add, &[x, x]);
    g.storage.set_node_outputs(add, &[out]);
    g.mark_output(out);

    let ag = lower(&g, Target::Cuda).unwrap();
    assert_eq!(ag.len(), 1, "应有 1 个 ArchOp");
    assert!(matches!(&ag.ops[0], ArchOp::KernelCall { name, .. } if name == "add"));
    assert_eq!(ag.target, Target::Cuda);
}

#[test]
fn lower_empty_graph() {
    let g = Graph::new("empty");
    let ag = lower(&g, Target::Npu).unwrap();
    assert!(ag.is_empty());
    assert_eq!(ag.target, Target::Npu);
}

#[test]
fn lower_multi_op_kinds() {
    let mut g = Graph::new("multi");
    let ty = Type::Tensor {
        dtype: DType::F32,
        dims: vec![4, 8],
    };
    let x = g.add_input(ty.clone(), Some("x"));

    let relu = g.add_node(OpKind::Relu);
    let r_out = g.add_value(ty.clone(), Some("r"), relu);
    g.storage.set_node_inputs(relu, &[x]);
    g.storage.set_node_outputs(relu, &[r_out]);

    let sqrt = g.add_node(OpKind::Sqrt);
    let s_out = g.add_value(ty.clone(), Some("s"), sqrt);
    g.storage.set_node_inputs(sqrt, &[r_out]);
    g.storage.set_node_outputs(sqrt, &[s_out]);

    let tanh = g.add_node(OpKind::Tanh);
    let out = g.add_value(ty, Some("out"), tanh);
    g.storage.set_node_inputs(tanh, &[s_out]);
    g.storage.set_node_outputs(tanh, &[out]);
    g.mark_output(out);

    let ag = lower(&g, Target::Cpu).unwrap();
    assert_eq!(ag.len(), 3);
    assert!(matches!(&ag.ops[0], ArchOp::KernelCall { name, .. } if name == "relu"));
    assert!(matches!(&ag.ops[1], ArchOp::KernelCall { name, .. } if name == "sqrt"));
    assert!(matches!(&ag.ops[2], ArchOp::KernelCall { name, .. } if name == "tanh"));
}

#[test]
fn lower_all_opkinds_covered() {
    let ops = [
        OpKind::Add,
        OpKind::Sub,
        OpKind::Mul,
        OpKind::Div,
        OpKind::MatMul,
        OpKind::Relu,
        OpKind::Gelu,
        OpKind::Sigmoid,
        OpKind::Tanh,
        OpKind::Softmax,
        OpKind::LayerNorm,
        OpKind::Conv,
        OpKind::Pool,
        OpKind::Reshape,
        OpKind::Transpose,
        OpKind::Concat,
        OpKind::Slice,
        OpKind::Constant,
        OpKind::Placeholder,
        OpKind::Return,
        OpKind::Sqrt,
        OpKind::Exp,
        OpKind::Pow,
        OpKind::ReduceSum,
        OpKind::ReduceMean,
        OpKind::ReduceMax,
        OpKind::Rsqrt,
        OpKind::Reciprocal,
        OpKind::Abs,
        OpKind::Log,
        OpKind::Fused,
        OpKind::Custom,
    ];
    for op in ops {
        let mut g = Graph::new("single");
        let ty = Type::Tensor {
            dtype: DType::F32,
            dims: vec![2, 3],
        };
        let x = g.add_input(ty.clone(), Some("x"));
        let n = g.add_node(op);
        let out = g.add_value(ty, Some("out"), n);
        g.storage.set_node_inputs(n, &[x, x]);
        g.storage.set_node_outputs(n, &[out]);
        g.mark_output(out);

        let ag = lower(&g, Target::Cuda).unwrap();
        assert_eq!(ag.len(), 1, "OpKind {:?} 应 lower 成 1 个 ArchOp", op);
        match &ag.ops[0] {
            ArchOp::KernelCall { name, .. } => assert!(!name.is_empty(), "OpKind {:?} kernel 名为空", op),
            other => panic!("OpKind {:?} 应为 KernelCall，实际 {:?}", op, other),
        }
    }
}

#[test]
fn arch_graph_basic_api() {
    let mut ag = ArchGraph::new(Target::Cuda);
    assert!(ag.is_empty());
    assert_eq!(ag.len(), 0);

    ag.add(ArchOp::Load { addr: 0, dst: 1 });
    ag.add(ArchOp::Store { addr: 0, src: 1 });
    ag.add(ArchOp::KernelCall {
        name: "add".to_string(),
        inputs: vec![],
        outputs: vec![],
    });
    assert!(!ag.is_empty());
    assert_eq!(ag.len(), 3);
}

#[test]
fn cuda_desc_default_sane() {
    let d = CudaDesc::default();
    assert!(
        d.compute_capability.0 >= 8,
        "compute_capability major 应 >= 8"
    );
    assert!(d.shared_mem_bytes >= 32 * 1024, "shared_mem 应 >= 32KB");
}
