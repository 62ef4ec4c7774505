use neutron::backend::extract::extract_kernels;
use neutron::backend::spec::{DTypeExt, GpuArch, KernelAttrs, KernelSpec, SourceLang, TensorSpec};
use neutron::backend::{cann, cuda, emit_for, metal, triton};
use neutron::base::{Attr, DType, OpKind, Type};
use neutron::graph::Graph;
use neutron::lisp::{FloatAnswer, FloatRequest, Floats, Outcome};
use neutron::storage::AttrKey;

fn answer(q: &FloatRequest) -> FloatAnswer {
    let f = f64::from_bits;
    match q {
        FloatRequest::Add(a, b) => FloatAnswer::Bits((f(*a) + f(*b)).to_bits()),
        FloatRequest::Sub(a, b) => FloatAnswer::Bits((f(*a) - f(*b)).to_bits()),
        FloatRequest::Mul(a, b) => FloatAnswer::Bits((f(*a) * f(*b)).to_bits()),
        FloatRequest::Div(a, b) => FloatAnswer::Bits((f(*a) / f(*b)).to_bits()),
        FloatRequest::Parse(s) => FloatAnswer::Bits(s.parse::<f64>().unwrap().to_bits()),
        FloatRequest::Show(a) => FloatAnswer::Text(f(*a).to_string()),
        FloatRequest::Debug(a) => FloatAnswer::Text(format!("{:?}", f(*a))),
        FloatRequest::Fixed(a, n) => FloatAnswer::Text(format!("{:.*}", *n as usize, f(*a))),
    }
}

fn run<T, E>(mut op: impl FnMut(&mut Floats) -> Outcome<T, E>) -> Result<T, E> {
    let mut floats = Floats::new();
    loop {
        floats.rewind();
        match op(&mut floats) {
            Outcome::Done(t) => return Ok(t),
            Outcome::Failed(e) => return Err(e),
            Outcome::Stuck => panic!("stuck"),
            Outcome::Needs(q) => floats.answer(answer(&q)),
        }
    }
}

fn tensor(dims: Vec<i64>) -> TensorSpec {
    TensorSpec { name: "t".to_string(), dims, dtype: DType::F32, is_input: false }
}

fn kernel(op: OpKind, dims: Vec<i64>) -> KernelSpec {
    KernelSpec {
        name: "k".to_string(),
        op,
        inputs: vec![],
        outputs: vec![tensor(dims)],
        attrs: KernelAttrs::default(),
        dtype: DType::F32,
        node_idx: 0,
    }
}

#[test]
fn tensors_count_positive_dimensions() {
    assert_eq!(tensor(vec![2, 3, 4]).element_count(), 24);
    assert_eq!(tensor(vec![2, -1, 0, 5]).element_count(), 10);
    assert_eq!(tensor(vec![]).element_count(), 1);
    assert_eq!(tensor(vec![1024, 1024]).dims_str(), "1024, 1024");
    assert_eq!(tensor(vec![-1]).dims_str(), "-1");
    assert_eq!(tensor(vec![]).dims_str(), "");
    assert_eq!(tensor(vec![3]).bytes(), 12);
    assert_eq!(tensor(vec![3]).c_type(), "float");
    assert!(tensor(vec![i64::MAX]).count_fits());
    assert!(!tensor(vec![i64::MAX, 3]).count_fits());
}

#[test]
fn element_types_in_every_language() {
    assert_eq!(DType::BF16.c_type(), "__nv_bfloat16");
    assert_eq!(DType::BF16.msl_type(), "bfloat");
    assert_eq!(DType::BF16.triton_type(), "tl.bfloat16");
    assert_eq!(DType::BF16.cann_type(), "__bf16");
    assert_eq!(DType::I64.size_bytes(), 8);
    assert_eq!(DType::Bool.size_bytes(), 2);
}

#[test]
fn launches_of_every_kind() {
    let l = |op, dims, arch| {
        let l = kernel(op, dims).launch(arch);
        (l.grid, l.block, l.shared_mem)
    };
    let a = GpuArch::Ampere80;
    assert_eq!(l(OpKind::Add, vec![257], a), ((2, 1, 1), (256, 1, 1), 0));
    assert_eq!(l(OpKind::Add, vec![256], a), ((1, 1, 1), (256, 1, 1), 0));
    assert_eq!(l(OpKind::Pool, vec![1 << 32], a), ((1, 1, 1), (256, 1, 1), 0));
    assert_eq!(l(OpKind::ReduceMax, vec![300], a), ((300, 1, 1), (256, 1, 1), 1024));
    assert_eq!(l(OpKind::MatMul, vec![9], a), ((8, 8, 1), (16, 16, 1), 2048));
    assert_eq!(l(OpKind::MatMul, vec![9], GpuArch::Hopper90), ((8, 8, 1), (128, 1, 1), 228 * 1024));
    assert_eq!(l(OpKind::Softmax, vec![7, 9], a), ((7, 1, 1), (256, 1, 1), 1024));
    assert_eq!(l(OpKind::LayerNorm, vec![], a), ((1, 1, 1), (256, 1, 1), 1024));
    assert_eq!(l(OpKind::LayerNorm, vec![-1], a), ((u32::MAX, 1, 1), (256, 1, 1), 1024));
    assert_eq!(l(OpKind::Conv, vec![3], GpuArch::Apple6), ((16, 16, 1), (16, 16, 1), 16 * 1024));
    assert_eq!(l(OpKind::Return, vec![3], a), ((1, 1, 1), (1, 1, 1), 0));
    let mut k = kernel(OpKind::ReduceSum, vec![]);
    k.outputs.clear();
    assert_eq!(k.launch(a).grid, (1, 1, 1));
    assert_eq!(k.launch(a).grid_str(), "dim3(1, 1, 1)");
    assert_eq!(k.launch(a).block_str(), "dim3(256, 1, 1)");
}

#[test]
fn architectures_differ() {
    assert_eq!(GpuArch::Blackwell100.sm_version(), (10, 0));
    assert_eq!(GpuArch::Apple7.sm_version(), (8, 0));
    assert_eq!(GpuArch::Ascend310P3.max_shared_mem(), 65536);
    assert_eq!(GpuArch::Ascend910B1.warp_size(), 64);
    assert_eq!(GpuArch::Apple8.warp_size(), 32);
}

#[test]
fn attributes_reach_kernels() {
    let mut g = Graph::new("attrs");
    let n = g.add_node(OpKind::Conv);
    let v = g.add_value(Type::Scalar(DType::F16), None, n);
    g.storage.set_node_outputs(n, &[v]);
    g.add_attr(n, AttrKey::Axis, Attr::Int(1));
    g.add_attr(n, AttrKey::Axis, Attr::Int(2));
    g.add_attr(n, AttrKey::Strides, Attr::IntArray(vec![3, 4]));
    g.add_attr(n, AttrKey::Padding, Attr::IntArray(vec![5]));
    g.add_attr(n, AttrKey::Dilation, Attr::IntArray(vec![6]));
    g.add_attr(n, AttrKey::Groups, Attr::Int(7));
    g.add_attr(n, AttrKey::Epsilon, Attr::Float(0.25f64.to_bits()));
    g.add_attr(n, AttrKey::Value, Attr::Float(0.5f64.to_bits()));
    g.add_attr(n, AttrKey::Perm, Attr::IntArray(vec![1, 0]));
    g.add_attr(n, AttrKey::Shape, Attr::IntArray(vec![8]));
    g.add_attr(n, AttrKey::Alpha, Attr::Int(9));
    g.add_attr(n, AttrKey::Groups, Attr::Bool(true));
    g.storage.add_attr_float_array(n, AttrKey::Value, &[1, 2]);
    let ks = extract_kernels(&g);
    let k = &ks[0];
    assert_eq!(k.name, "neutron_conv_0");
    assert_eq!(k.dtype, DType::F16);
    assert_eq!(k.outputs[0].name, "t0");
    assert_eq!(k.attrs.axis, Some(2));
    assert_eq!(k.attrs.strides, vec![3, 4]);
    assert_eq!(k.attrs.conv_stride, vec![3, 4]);
    assert_eq!(k.attrs.pool_stride, vec![3, 4]);
    assert_eq!(k.attrs.conv_padding, vec![5]);
    assert_eq!(k.attrs.pool_padding, vec![5]);
    assert_eq!(k.attrs.conv_dilation, vec![6]);
    assert_eq!(k.attrs.conv_groups, Some(7));
    assert_eq!(k.attrs.epsilon, Some(0.25f64.to_bits()));
    assert_eq!(k.attrs.value, Some(0.5f64.to_bits()));
    assert_eq!(k.attrs.perm, vec![1, 0]);
    assert_eq!(k.attrs.shape, vec![8]);
    assert_eq!(k.attrs.tensor_data, vec![1, 2]);
    assert_eq!(k.attrs.custom_op_type, "");
}

#[test]
fn nodes_with_unknown_operators_have_no_kernel() {
    let mut g = Graph::new("gap");
    g.add_node(OpKind::Add);
    g.add_node(OpKind::Sub);
    g.add_node(OpKind::Custom);
    g.storage.node_hdr[1].op_tag = 200;
    let ks = extract_kernels(&g);
    assert_eq!(ks.len(), 2);
    assert_eq!(ks[0].name, "neutron_add_0");
    assert_eq!(ks[1].name, "neutron_custom_2");
    assert_eq!(ks[1].attrs.custom_op_type, "unknown");
    assert_eq!(ks[1].dtype, DType::F32);
}

#[test]
fn epsilons_are_written_as_each_language_wants() {
    let mut k = kernel(OpKind::LayerNorm, vec![4]);
    let a = GpuArch::Ampere80;
    assert!(run(|f| cuda::emit(std::slice::from_ref(&k), a, f)).unwrap().source.contains("0.000010"));
    assert!(run(|f| cann::emit(std::slice::from_ref(&k), a, f)).unwrap().source.contains("0.0000100000"));
    assert!(run(|f| metal::emit(std::slice::from_ref(&k), a, f)).unwrap().source.contains("0.00001"));
    k.attrs.epsilon = Some(0.125f64.to_bits());
    assert!(run(|f| cuda::emit(std::slice::from_ref(&k), a, f)).unwrap().source.contains("0.125000"));
    assert!(run(|f| cann::emit(std::slice::from_ref(&k), a, f)).unwrap().source.contains("0.1250000000"));
    assert!(run(|f| triton::emit(std::slice::from_ref(&k), a, f)).unwrap().source.contains("0.125"));
}

#[test]
fn constants_without_a_value_are_zero() {
    let mut k = kernel(OpKind::Constant, vec![5]);
    let out = run(|f| cuda::emit(std::slice::from_ref(&k), GpuArch::Ampere80, f)).unwrap();
    assert!(out.source.ends_with(
        "void launch_k(float* out, cudaStream_t stream) {\n    // Constant: init_constant value=0 n=5\n    k<<<dim3(1, 1, 1), dim3(1, 1, 1), 0, stream>>>(out, 0f, 5);\n}\n\n"
    ));
    k.outputs.clear();
    let out = run(|f| cuda::emit(std::slice::from_ref(&k), GpuArch::Ampere80, f)).unwrap();
    assert!(out.source.contains("value=0 n=1\n"));
}

#[test]
fn fused_kernels_name_their_operators() {
    let mut k = kernel(OpKind::Fused, vec![5]);
    let src = |k: &KernelSpec| run(|f| cuda::emit(std::slice::from_ref(k), GpuArch::Ampere80, f)).unwrap().source;
    assert!(src(&k).contains("        /* identity: no-op */\n"));
    k.attrs.fused_ops = vec!["gelu".to_string(), "abs".to_string(), "x".to_string()];
    let s = src(&k);
    assert!(s.contains("gelu, abs, x"));
    assert!(s.contains("        x = fabsf(x);\n        /* unknown op: x */\n"));
    let m = run(|f| metal::emit(std::slice::from_ref(&k), GpuArch::Apple6, f)).unwrap().source;
    assert!(m.contains("gelu -> abs -> x"));
    k.attrs.fused_ops.clear();
    let m = run(|f| metal::emit(std::slice::from_ref(&k), GpuArch::Apple6, f)).unwrap().source;
    assert!(m.contains("mul -> add -> relu"));
}

#[test]
fn class_names_are_made_from_kernel_names() {
    let class = |name: &str| {
        let mut k = kernel(OpKind::Add, vec![5]);
        k.name = name.to_string();
        let s = run(|f| cann::emit(std::slice::from_ref(&k), GpuArch::Ascend910B1, f)).unwrap().source;
        let at = s.find("class ").unwrap() + 6;
        s[at..].split(' ').next().unwrap().to_string()
    };
    assert_eq!(class("neutron_add_0"), "NeutronAdd0");
    assert_eq!(class("neutron_reduce_sum_12"), "NeutronReduceSum12");
    assert_eq!(class("a__bC"), "ABC");
    assert_eq!(class("é_ab_cd"), "éAbCd");
}

#[test]
fn tokens_in_names_are_replaced_in_turn() {
    let mut k = kernel(OpKind::Reshape, vec![5]);
    k.name = "__T__".to_string();
    let s = run(|f| metal::emit(std::slice::from_ref(&k), GpuArch::Apple6, f)).unwrap().source;
    assert!(s.contains("kernel void float("));
}

#[test]
fn every_kernel_and_launcher_stands_in_the_source() {
    let ks = [kernel(OpKind::Add, vec![600]), kernel(OpKind::Relu, vec![1])];
    let out = run(|f| metal::emit(&ks, GpuArch::Apple6, f)).unwrap();
    assert!(out.source.ends_with(
        "// launch_k: grid=(3, 1, 1), block=(256, 1, 1), threadgroup memory=0 bytes\n// launch_k: grid=(1, 1, 1), block=(256, 1, 1), threadgroup memory=0 bytes\n"
    ));
    assert_eq!(out.kernels[0].launch.grid, (3, 1, 1));
    assert_eq!(out.kernels[1].name, "k");
}

#[test]
fn cpu_source_is_a_remark() {
    let out = run(|f| emit_for(&Graph::new("g"), SourceLang::Cpu, GpuArch::Apple6, f)).unwrap();
    assert_eq!(out.source, "// CPU backend not implemented in this round\n");
    assert_eq!(out.arch, GpuArch::Apple6);
}
