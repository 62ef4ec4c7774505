use neutron::backend::extract::{extract_kernels, op_short_name};
use neutron::base::{DType, OpKind, Type};
use neutron::graph::Graph;

#[test]
fn extract_kernels_basic() {
    let mut g = Graph::new("test");
    let ty = Type::Tensor {
        dtype: DType::F32,
        dims: vec![2, 3],
    };
    let x = g.add_input(ty.clone(), Some("x"));
    let add = g.add_node(OpKind::Add);
    let out = g.add_value(ty, Some("out"), add);
    g.storage.set_node_inputs(add, &[x, x]);
    g.storage.set_node_outputs(add, &[out]);
    g.mark_output(out);

    let specs = extract_kernels(&g);
    assert_eq!(specs.len(), 1, "应有 1 个 KernelSpec");
    let spec = &specs[0];
    assert_eq!(spec.op, OpKind::Add);
    assert_eq!(spec.inputs.len(), 2, "Add 应有 2 个输入");
    assert_eq!(spec.outputs.len(), 1, "Add 应有 1 个输出");
    assert_eq!(spec.dtype, DType::F32);
    assert!(spec.name.starts_with("neutron_add_"), "name 应为 neutron_add_*, 实际: {}", spec.name);
}

#[test]
fn extract_kernels_empty_graph() {
    let g = Graph::new("empty");
    let specs = extract_kernels(&g);
    assert!(specs.is_empty(), "空图应返回空 KernelSpec 列表");
}

#[test]
fn extract_kernels_multi_node() {
    let mut g = Graph::new("multi");
    let ty = Type::Tensor {
        dtype: DType::F32,
        dims: vec![4, 8],
    };
    let x = g.add_input(ty.clone(), Some("x"));
    let relu = g.add_node(OpKind::Relu);
    let r_out = g.add_value(ty.clone(), Some("r"), relu);
    g.storage.set_node_inputs(relu, &[x]);
    g.storage.set_node_outputs(relu, &[r_out]);
    let sqrt = g.add_node(OpKind::Sqrt);
    let out = g.add_value(ty, Some("out"), sqrt);
    g.storage.set_node_inputs(sqrt, &[r_out]);
    g.storage.set_node_outputs(sqrt, &[out]);
    g.mark_output(out);

    let specs = extract_kernels(&g);
    assert_eq!(specs.len(), 2, "应有 2 个 KernelSpec (relu + sqrt)");
    assert_eq!(specs[0].op, OpKind::Relu);
    assert_eq!(specs[1].op, OpKind::Sqrt);
    assert!(specs[0].name.ends_with("_0"), "第一个 kernel 名字应以 _0 结尾: {}", specs[0].name);
    assert!(specs[1].name.ends_with("_1"), "第二个 kernel 名字应以 _1 结尾: {}", specs[1].name);
}

#[test]
fn extract_tensor_metadata() {
    let mut g = Graph::new("meta");
    let ty = Type::Tensor {
        dtype: DType::F32,
        dims: vec![16, 32],
    };
    let x = g.add_input(ty.clone(), Some("input_x"));
    let add = g.add_node(OpKind::Add);
    let out = g.add_value(ty, Some("output_y"), add);
    g.storage.set_node_inputs(add, &[x, x]);
    g.storage.set_node_outputs(add, &[out]);
    g.mark_output(out);

    let specs = extract_kernels(&g);
    let spec = &specs[0];
    let in0 = &spec.inputs[0];
    assert_eq!(in0.name, "input_x");
    assert_eq!(in0.dims, vec![16, 32]);
    assert!(in0.is_input);
    let out0 = &spec.outputs[0];
    assert_eq!(out0.name, "output_y");
    assert_eq!(out0.dims, vec![16, 32]);
    assert!(!out0.is_input);
}

#[test]
fn op_short_name_all_variants_nonempty() {
    for op in [
        OpKind::Add, OpKind::Sub, OpKind::Mul, OpKind::Div,
        OpKind::MatMul, OpKind::Relu, OpKind::Gelu, OpKind::Sigmoid,
        OpKind::Tanh, OpKind::Softmax, OpKind::LayerNorm, OpKind::Conv,
        OpKind::Pool, OpKind::Reshape, OpKind::Transpose, OpKind::Concat,
        OpKind::Slice, OpKind::Constant, OpKind::Placeholder, OpKind::Return,
        OpKind::Sqrt, OpKind::Exp, OpKind::Pow,
        OpKind::ReduceSum, OpKind::ReduceMean, OpKind::ReduceMax,
        OpKind::Rsqrt, OpKind::Reciprocal, OpKind::Abs, OpKind::Log,
        OpKind::Fused, OpKind::Custom,
    ] {
        let name = op_short_name(op);
        assert!(!name.is_empty(), "OpKind::{:?} short name 为空", op);
    }
}

#[test]
fn every_kernel_has_its_own_name() {
    let mut g = Graph::new("many");
    for _ in 0..112 {
        g.add_node(OpKind::Relu);
    }
    let mut names: Vec<String> = extract_kernels(&g).into_iter().map(|k| k.name).collect();
    assert_eq!(names[0], "neutron_relu_0");
    assert_eq!(names[111], "neutron_relu_111");
    names.sort();
    names.dedup();
    assert_eq!(names.len(), 112);
}
