use neutron::backend::metal::emit;
use neutron::backend::spec::{GpuArch, KernelAttrs, KernelSpec, SourceLang, TensorSpec};
use neutron::base::{DType, OpKind};
use neutron::lisp::{FloatAnswer, FloatRequest, Floats, Outcome};

fn answer(q: &FloatRequest) -> FloatAnswer {
    let f = f64::from_bits;
    match q {
        FloatRequest::Add(a, b) => FloatAnswer::Bits((f(*a) + f(*b)).to_bits()),
        FloatRequest::Sub(a, b) => FloatAnswer::Bits((f(*a) - f(*b)).to_bits()),
        FloatRequest::Mul(a, b) => FloatAnswer::Bits((f(*a) * f(*b)).to_bits()),
        FloatRequest::Div(a, b) => FloatAnswer::Bits((f(*a) / f(*b)).to_bits()),
        FloatRequest::Parse(s) => FloatAnswer::Bits(s.parse::<f64>().unwrap().to_bits()),
        FloatRequest::Show(a) => FloatAnswer::Text(f(*a).to_string()),
        FloatRequest::Debug(a) => FloatAnswer::Text(format!("{:?}", f(*a))),
        FloatRequest::Fixed(a, n) => FloatAnswer::Text(format!("{:.*}", *n as usize, f(*a))),
    }
}

fn run<T, E>(mut op: impl FnMut(&mut Floats) -> Outcome<T, E>) -> Result<T, E> {
    let mut floats = Floats::new();
    loop {
        floats.rewind();
        match op(&mut floats) {
            Outcome::Done(t) => return Ok(t),
            Outcome::Failed(e) => return Err(e),
            Outcome::Stuck => panic!("stuck"),
            Outcome::Needs(q) => floats.answer(answer(&q)),
        }
    }
}

fn op_short(op: OpKind) -> &'static str {
    match op {
        OpKind::Add => "add",
        OpKind::Sub => "sub",
        OpKind::Mul => "mul",
        OpKind::Div => "div",
        OpKind::MatMul => "matmul",
        OpKind::Relu => "relu",
        OpKind::Gelu => "gelu",
        OpKind::Sigmoid => "sigmoid",
        OpKind::Tanh => "tanh",
        OpKind::Softmax => "softmax",
        OpKind::LayerNorm => "layernorm",
        OpKind::Conv => "conv",
        OpKind::Pool => "pool",
        OpKind::Reshape => "reshape",
        OpKind::Transpose => "transpose",
        OpKind::Concat => "concat",
        OpKind::Slice => "slice",
        OpKind::Constant => "const",
        OpKind::Placeholder => "placeholder",
        OpKind::Return => "ret",
        OpKind::Sqrt => "sqrt",
        OpKind::Exp => "exp",
        OpKind::Pow => "pow",
        OpKind::ReduceSum => "reduce_sum",
        OpKind::ReduceMean => "reduce_mean",
        OpKind::ReduceMax => "reduce_max",
        OpKind::Rsqrt => "rsqrt",
        OpKind::Reciprocal => "reciprocal",
        OpKind::Abs => "abs",
        OpKind::Log => "log",
        OpKind::Fused => "fused",
        OpKind::Custom => "custom",
    }
}

fn make_spec(op: OpKind, idx: u32) -> KernelSpec {
    let name = format!("neutron_{}_{}", op_short(op), idx);
    let dtype = DType::F32;
    let tensor = TensorSpec {
        name: "t".to_string(),
        dims: vec![16, 16],
        dtype,
        is_input: true,
    };
    let out = TensorSpec {
        name: "o".to_string(),
        dims: vec![16, 16],
        dtype,
        is_input: false,
    };
    let mut attrs = KernelAttrs::default();
    match op {
        OpKind::LayerNorm => attrs.epsilon = Some(1e-5f64.to_bits()),
        OpKind::Constant => attrs.value = Some(1.5f64.to_bits()),
        OpKind::Fused => attrs.fused_ops = vec!["mul".to_string(), "add".to_string()],
        OpKind::Custom => attrs.custom_op_type = "MyOp".to_string(),
        _ => {}
    }
    let inputs = match op {
        OpKind::Add | OpKind::Sub | OpKind::Mul | OpKind::Div | OpKind::Pow | OpKind::Fused => {
            vec![tensor.clone(), tensor.clone()]
        }
        OpKind::Concat => vec![tensor.clone(), tensor.clone()],
        _ => vec![tensor],
    };
    KernelSpec {
        name,
        op,
        inputs,
        outputs: vec![out],
        attrs,
        dtype,
        node_idx: idx,
    }
}

fn all_ops() -> Vec<OpKind> {
    vec![
        OpKind::Add,
        OpKind::Sub,
        OpKind::Mul,
        OpKind::Div,
        OpKind::MatMul,
        OpKind::Relu,
        OpKind::Gelu,
        OpKind::Sigmoid,
        OpKind::Tanh,
        OpKind::Softmax,
        OpKind::LayerNorm,
        OpKind::Conv,
        OpKind::Pool,
        OpKind::Reshape,
        OpKind::Transpose,
        OpKind::Concat,
        OpKind::Slice,
        OpKind::Constant,
        OpKind::Placeholder,
        OpKind::Return,
        OpKind::Sqrt,
        OpKind::Exp,
        OpKind::Pow,
        OpKind::ReduceSum,
        OpKind::ReduceMean,
        OpKind::ReduceMax,
        OpKind::Rsqrt,
        OpKind::Reciprocal,
        OpKind::Abs,
        OpKind::Log,
        OpKind::Fused,
        OpKind::Custom,
    ]
}

fn all_archs() -> Vec<GpuArch> {
    vec![
        GpuArch::Ampere80,
        GpuArch::Hopper90,
        GpuArch::Blackwell100,
        GpuArch::Apple6,
        GpuArch::Apple7,
        GpuArch::Apple8,
        GpuArch::Ascend910B1,
        GpuArch::Ascend910B3,
        GpuArch::Ascend310P3,
    ]
}

#[test]
fn metal_test_emit_empty() {
    let out = run(|f| emit(&[], GpuArch::Apple6, f)).expect("emit 不应失败");
    assert_eq!(out.lang, SourceLang::Metal);
    assert_eq!(out.arch, GpuArch::Apple6);
    assert!(out.kernels.is_empty(), "空 kernel 列表应无 kernel_info");
    assert!(out.source.contains("#include <metal_stdlib>"));
    assert!(out.source.contains("using namespace metal;"));
    assert!(out.source.contains("Apple M1"));
}

#[test]
fn metal_test_emit_elementwise() {
    let specs = vec![make_spec(OpKind::Add, 0)];
    let out = run(|f| emit(&specs, GpuArch::Apple6, f)).expect("emit 失败");
    assert!(out.source.contains("kernel void"));
    assert!(out.source.contains("thread_position_in_grid"));
    assert!(out.source.contains("neutron_add_0"));
    assert!(out.source.contains("c[tid] = a[tid] + b[tid];"));
    assert_eq!(out.kernels.len(), 1);
    assert_eq!(out.kernels[0].name, "neutron_add_0");
}

#[test]
fn test_emit_matmul_apple6() {
    let specs = vec![make_spec(OpKind::MatMul, 4)];
    let out = run(|f| emit(&specs, GpuArch::Apple6, f)).expect("emit 失败");
    assert!(
        out.source.contains("simdgroup"),
        "Apple6 MatMul 必须用 simdgroup"
    );
    assert!(
        out.source.contains("simdgroup_multiply"),
        "Apple6 MatMul 必须调用 simdgroup_multiply"
    );
    assert!(out.source.contains("simdgroup<float8x8>"));
    assert!(out.source.contains("Apple M1"));
}

#[test]
fn test_emit_matmul_apple8() {
    let specs = vec![make_spec(OpKind::MatMul, 4)];
    let out = run(|f| emit(&specs, GpuArch::Apple8, f)).expect("emit 失败");
    assert!(out.source.contains("simdgroup"));
    assert!(out.source.contains("simdgroup_multiply"));
    assert!(out.source.contains("Apple M3"));
}

#[test]
fn metal_test_emit_softmax() {
    let specs = vec![make_spec(OpKind::Softmax, 5)];
    let out = run(|f| emit(&specs, GpuArch::Apple7, f)).expect("emit 失败");
    assert!(out.source.contains("threadgroup"));
    assert!(out.source.contains("max"), "softmax 必须有 max（数值稳定）");
    assert!(out
        .source
        .contains("threadgroup_barrier(mem_flags::mem_threadgroup)"));
    assert!(out.source.contains("exp"));
}

#[test]
fn metal_test_emit_layernorm() {
    let specs = vec![make_spec(OpKind::LayerNorm, 6)];
    let out = run(|f| emit(&specs, GpuArch::Apple7, f)).expect("emit 失败");
    assert!(
        out.source.contains("epsilon") || out.source.contains("mean"),
        "layernorm 应包含 epsilon 或 mean"
    );
    assert!(out.source.contains("mean"));
    assert!(out.source.contains("rsqrt"));
    assert!(out
        .source
        .contains("threadgroup_barrier(mem_flags::mem_threadgroup)"));
}

#[test]
fn metal_test_emit_reduce() {
    for (op, needle) in [
        (OpKind::ReduceSum, "+"),
        (OpKind::ReduceMean, "(float)N"),
        (OpKind::ReduceMax, "max"),
    ] {
        let specs = vec![make_spec(op, 22)];
        let out = run(|f| emit(&specs, GpuArch::Apple6, f)).expect("emit 失败");
        assert!(out.source.contains("kernel void"));
        assert!(out
            .source
            .contains("threadgroup_barrier(mem_flags::mem_threadgroup)"));
        assert!(out.source.contains(needle), "reduce 应包含 {needle:?}");
    }
}

#[test]
fn test_emit_transpose() {
    let specs = vec![make_spec(OpKind::Transpose, 14)];
    let out = run(|f| emit(&specs, GpuArch::Apple6, f)).expect("emit 失败");
    assert!(out.source.contains("threadgroup"));
    assert!(out
        .source
        .contains("threadgroup_barrier(mem_flags::mem_threadgroup)"));
    assert!(out.source.contains("TILE + 1"));
}

#[test]
fn metal_test_emit_all_ops() {
    for arch in all_archs() {
        let specs: Vec<KernelSpec> = all_ops()
            .into_iter()
            .enumerate()
            .map(|(i, op)| make_spec(op, i as u32))
            .collect();
        let out = run(|f| emit(&specs, arch, f)).expect("emit 不应失败");
        assert!(!out.source.is_empty(), "source 不应为空 (arch={:?})", arch);
        assert!(
            out.source.contains("kernel void"),
            "source 应包含 kernel void (arch={:?})",
            arch
        );
        assert!(out.source.contains("#include <metal_stdlib>"));
        assert_eq!(out.kernels.len(), specs.len());
        assert_eq!(out.arch, arch);
        for s in &specs {
            assert!(
                out.source.contains(&format!("// launch_{}:", s.name)),
                "应有 launch_{} 注释",
                s.name
            );
        }
    }
}
