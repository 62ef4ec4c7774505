use neutron::backend::triton::emit;
use neutron::backend::spec::{GpuArch, KernelAttrs, KernelSpec, SourceLang, TensorSpec};
use neutron::base::{DType, OpKind};
use neutron::lisp::{FloatAnswer, FloatRequest, Floats, Outcome};

fn answer(q: &FloatRequest) -> FloatAnswer {
    let f = f64::from_bits;
    match q {
        FloatRequest::Add(a, b) => FloatAnswer::Bits((f(*a) + f(*b)).to_bits()),
        FloatRequest::Sub(a, b) => FloatAnswer::Bits((f(*a) - f(*b)).to_bits()),
        FloatRequest::Mul(a, b) => FloatAnswer::Bits((f(*a) * f(*b)).to_bits()),
        FloatRequest::Div(a, b) => FloatAnswer::Bits((f(*a) / f(*b)).to_bits()),
        FloatRequest::Parse(s) => FloatAnswer::Bits(s.parse::<f64>().unwrap().to_bits()),
        FloatRequest::Show(a) => FloatAnswer::Text(f(*a).to_string()),
        FloatRequest::Debug(a) => FloatAnswer::Text(format!("{:?}", f(*a))),
        FloatRequest::Fixed(a, n) => FloatAnswer::Text(format!("{:.*}", *n as usize, f(*a))),
    }
}

fn run<T, E>(mut op: impl FnMut(&mut Floats) -> Outcome<T, E>) -> Result<T, E> {
    let mut floats = Floats::new();
    loop {
        floats.rewind();
        match op(&mut floats) {
            Outcome::Done(t) => return Ok(t),
            Outcome::Failed(e) => return Err(e),
            Outcome::Stuck => panic!("stuck"),
            Outcome::Needs(q) => floats.answer(answer(&q)),
        }
    }
}

fn op_short(op: OpKind) -> &'static str {
    match op {
        OpKind::Add => "add",
        OpKind::Sub => "sub",
        OpKind::Mul => "mul",
        OpKind::Div => "div",
        OpKind::MatMul => "matmul",
        OpKind::Relu => "relu",
        OpKind::Gelu => "gelu",
        OpKind::Sigmoid => "sigmoid",
        OpKind::Tanh => "tanh",
        OpKind::Softmax => "softmax",
        OpKind::LayerNorm => "layernorm",
        OpKind::Conv => "conv",
        OpKind::Pool => "pool",
        OpKind::Reshape => "reshape",
        OpKind::Transpose => "transpose",
        OpKind::Concat => "concat",
        OpKind::Slice => "slice",
        OpKind::Constant => "const",
        OpKind::Placeholder => "placeholder",
        OpKind::Return => "ret",
        OpKind::Sqrt => "sqrt",
        OpKind::Exp => "exp",
        OpKind::Pow => "pow",
        OpKind::ReduceSum => "reduce_sum",
        OpKind::ReduceMean => "reduce_mean",
        OpKind::ReduceMax => "reduce_max",
        OpKind::Rsqrt => "rsqrt",
        OpKind::Reciprocal => "reciprocal",
        OpKind::Abs => "abs",
        OpKind::Log => "log",
        OpKind::Fused => "fused",
        OpKind::Custom => "custom",
    }
}

fn make_spec(op: OpKind, idx: u32) -> KernelSpec {
    let name = format!("neutron_{}_{}", op_short(op), idx);
    let dtype = DType::F32;
    let tensor = TensorSpec {
        name: "t".to_string(),
        dims: vec![16, 16],
        dtype,
        is_input: true,
    };
    let out = TensorSpec {
        name: "o".to_string(),
        dims: vec![16, 16],
        dtype,
        is_input: false,
    };
    let mut attrs = KernelAttrs::default();
    match op {
        OpKind::LayerNorm => attrs.epsilon = Some(1e-5f64.to_bits()),
        OpKind::Constant => attrs.value = Some(1.5f64.to_bits()),
        OpKind::Fused => attrs.fused_ops = vec!["mul".to_string(), "add".to_string()],
        OpKind::Custom => attrs.custom_op_type = "MyOp".to_string(),
        _ => {}
    }
    let inputs = match op {
        OpKind::Add | OpKind::Sub | OpKind::Mul | OpKind::Div | OpKind::Pow | OpKind::Fused => {
            vec![tensor.clone(), tensor.clone()]
        }
        OpKind::Concat => vec![tensor.clone(), tensor.clone()],
        _ => vec![tensor],
    };
    KernelSpec {
        name,
        op,
        inputs,
        outputs: vec![out],
        attrs,
        dtype,
        node_idx: idx,
    }
}

fn all_ops() -> Vec<OpKind> {
    vec![
        OpKind::Add,
        OpKind::Sub,
        OpKind::Mul,
        OpKind::Div,
        OpKind::MatMul,
        OpKind::Relu,
        OpKind::Gelu,
        OpKind::Sigmoid,
        OpKind::Tanh,
        OpKind::Softmax,
        OpKind::LayerNorm,
        OpKind::Conv,
        OpKind::Pool,
        OpKind::Reshape,
        OpKind::Transpose,
        OpKind::Concat,
        OpKind::Slice,
        OpKind::Constant,
        OpKind::Placeholder,
        OpKind::Return,
        OpKind::Sqrt,
        OpKind::Exp,
        OpKind::Pow,
        OpKind::ReduceSum,
        OpKind::ReduceMean,
        OpKind::ReduceMax,
        OpKind::Rsqrt,
        OpKind::Reciprocal,
        OpKind::Abs,
        OpKind::Log,
        OpKind::Fused,
        OpKind::Custom,
    ]
}

fn all_archs() -> Vec<GpuArch> {
    vec![
        GpuArch::Ampere80,
        GpuArch::Hopper90,
        GpuArch::Blackwell100,
        GpuArch::Apple6,
        GpuArch::Apple7,
        GpuArch::Apple8,
        GpuArch::Ascend910B1,
        GpuArch::Ascend910B3,
        GpuArch::Ascend310P3,
    ]
}

#[test]
fn triton_test_emit_empty() {
    let out = run(|f| emit(&[], GpuArch::Hopper90, f)).expect("emit 不应失败");
    assert_eq!(out.lang, SourceLang::Triton);
    assert_eq!(out.arch, GpuArch::Hopper90);
    assert!(out.kernels.is_empty(), "空 kernel 列表应无 kernel_info");
    assert!(out.source.contains("import triton"));
    assert!(out.source.contains("import triton.language as tl"));
    assert!(out.source.contains("import torch"));
    assert!(out.source.contains("Hopper SM90"));
    assert!(out.source.contains("TMA"));
}

#[test]
fn triton_test_emit_elementwise() {
    let specs = vec![make_spec(OpKind::Add, 0)];
    let out = run(|f| emit(&specs, GpuArch::Hopper90, f)).expect("emit 失败");
    assert!(
        out.source.contains("@triton.jit"),
        "应包含 @triton.jit 装饰器"
    );
    assert!(out.source.contains("tl.load"), "应包含 tl.load");
    assert!(out.source.contains("tl.store"), "应包含 tl.store");
    assert!(out.source.contains("neutron_add_0"));
    assert!(out.source.contains("x + y"), "Add 应生成 x + y");
    assert_eq!(out.kernels.len(), 1);
    assert_eq!(out.kernels[0].name, "neutron_add_0");
    assert!(out.source.contains("def launch_neutron_add_0"));
    assert!(out.source.contains("triton.cdiv"));
    assert!(out.source.contains("BLOCK_SIZE=BLOCK_SIZE"));
}

#[test]
fn test_emit_matmul_ampere() {
    let specs = vec![make_spec(OpKind::MatMul, 4)];
    let out = run(|f| emit(&specs, GpuArch::Ampere80, f)).expect("emit 失败");
    assert!(out.source.contains("tl.dot"), "Ampere MatMul 必须用 tl.dot");
    assert!(out.source.contains("Ampere SM80"));
    assert!(out.source.contains("BLOCK_M: tl.constexpr"));
    assert!(out.source.contains("stride_am"));
}

#[test]
fn test_emit_matmul_hopper() {
    let specs = vec![make_spec(OpKind::MatMul, 4)];
    let out = run(|f| emit(&specs, GpuArch::Hopper90, f)).expect("emit 失败");
    let lower = out.source.to_lowercase();
    assert!(
        lower.contains("tma") || lower.contains("make_block_ptr"),
        "Hopper MatMul 必须用 TMA 或 make_block_ptr"
    );
    assert!(
        out.source.contains("boundary_check"),
        "Hopper TMA 应有 boundary_check"
    );
    assert!(
        out.source.contains("tl.advance"),
        "Hopper TMA 应有 tl.advance"
    );
    assert!(out.source.contains("SM90 TMA"));
}

#[test]
fn test_emit_matmul_blackwell() {
    let specs = vec![make_spec(OpKind::MatMul, 4)];
    let out = run(|f| emit(&specs, GpuArch::Blackwell100, f)).expect("emit 失败");
    assert!(out.source.contains("SM100"), "Blackwell 应有 SM100 注释");
    assert!(
        out.source.contains("FP4/FP6"),
        "Blackwell 应有 FP4/FP6 注释"
    );
    assert!(out.source.contains("make_block_ptr"));
}

#[test]
fn triton_test_emit_softmax() {
    let specs = vec![make_spec(OpKind::Softmax, 9)];
    let out = run(|f| emit(&specs, GpuArch::Hopper90, f)).expect("emit 失败");
    assert!(
        out.source.contains("tl.max"),
        "softmax 必须有 tl.max（数值稳定）"
    );
    assert!(out.source.contains("tl.exp"), "softmax 必须有 tl.exp");
    assert!(out.source.contains("tl.sum"), "softmax 必须有 tl.sum");
    assert!(out.source.contains("@triton.jit"));
    assert!(out.source.contains("program_id(0)"));
}

#[test]
fn triton_test_emit_layernorm() {
    let specs = vec![make_spec(OpKind::LayerNorm, 10)];
    let out = run(|f| emit(&specs, GpuArch::Hopper90, f)).expect("emit 失败");
    assert!(
        out.source.contains("EPS") || out.source.contains("mean"),
        "layernorm 应包含 EPS 或 mean"
    );
    assert!(out.source.contains("mean"), "layernorm 必须有 mean");
    assert!(out.source.contains("tl.sqrt"), "layernorm 必须有 tl.sqrt");
    assert!(out.source.contains("var"));
}

#[test]
fn triton_test_emit_reduce() {
    for (op, needle) in [
        (OpKind::ReduceSum, "tl.sum"),
        (OpKind::ReduceMean, "N"),
        (OpKind::ReduceMax, "tl.max"),
    ] {
        let specs = vec![make_spec(op, 22)];
        let out = run(|f| emit(&specs, GpuArch::Ampere80, f)).expect("emit 失败");
        assert!(out.source.contains("@triton.jit"));
        assert!(out.source.contains("tl.load"));
        assert!(out.source.contains(needle), "reduce 应包含 {needle:?}");
    }
}

#[test]
fn triton_test_emit_all_ops() {
    for arch in all_archs() {
        let specs: Vec<KernelSpec> = all_ops()
            .into_iter()
            .enumerate()
            .map(|(i, op)| make_spec(op, i as u32))
            .collect();
        let out = run(|f| emit(&specs, arch, f)).expect("emit 不应失败");
        assert!(!out.source.is_empty(), "source 不应为空 (arch={:?})", arch);
        assert!(
            out.source.contains("@triton.jit"),
            "source 应包含 @triton.jit (arch={:?})",
            arch
        );
        assert!(out.source.contains("import triton"));
        assert!(out.source.contains("import triton.language as tl"));
        assert_eq!(out.kernels.len(), specs.len());
        assert_eq!(out.arch, arch);
        for s in &specs {
            assert!(
                out.source.contains(&format!("def launch_{}", s.name)),
                "应有 launch_{} 函数",
                s.name
            );
        }
    }
}

#[test]
fn test_emit_launch_wrappers() {
    let specs = vec![
        make_spec(OpKind::Add, 0),
        make_spec(OpKind::MatMul, 4),
        make_spec(OpKind::Softmax, 9),
    ];
    let out = run(|f| emit(&specs, GpuArch::Ampere80, f)).expect("emit 失败");
    assert!(out
        .source
        .contains("def launch_neutron_add_0(x, y, out, n):"));
    assert!(out
        .source
        .contains("def launch_neutron_matmul_4(a, b, c, m, n, k):"));
    assert!(out
        .source
        .contains("def launch_neutron_softmax_9(x, out, n_cols, n_rows):"));
}

#[test]
fn test_emit_dtype_in_source() {
    let specs = vec![make_spec(OpKind::Relu, 5)];
    let out = run(|f| emit(&specs, GpuArch::Ampere80, f)).expect("emit 失败");
    assert!(
        out.source.contains("tl.float32"),
        "F32 dtype 应映射到 tl.float32"
    );
    assert!(out.source.contains("tl.where(x > 0, x, 0.0)"));
}

#[test]
fn test_emit_unary_ops() {
    for (op, needle) in [
        (OpKind::Relu, "tl.where"),
        (OpKind::Gelu, "tl.tanh"),
        (OpKind::Sigmoid, "tl.exp"),
        (OpKind::Sqrt, "tl.sqrt"),
        (OpKind::Exp, "tl.exp"),
        (OpKind::Abs, "tl.abs"),
        (OpKind::Rsqrt, "1.0 / tl.sqrt"),
        (OpKind::Reciprocal, "1.0 / x"),
        (OpKind::Log, "tl.log"),
        (OpKind::Tanh, "tl.tanh"),
    ] {
        let specs = vec![make_spec(op, 0)];
        let out = run(|f| emit(&specs, GpuArch::Ampere80, f)).expect("emit 失败");
        assert!(out.source.contains(needle), "{:?} 应包含 {:?}", op, needle);
    }
}
