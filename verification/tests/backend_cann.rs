use neutron::backend::cann::emit;
use neutron::backend::spec::{GpuArch, KernelAttrs, KernelSpec, SourceLang, TensorSpec};
use neutron::base::{DType, OpKind};
use neutron::lisp::{FloatAnswer, FloatRequest, Floats, Outcome};

fn answer(q: &FloatRequest) -> FloatAnswer {
    let f = f64::from_bits;
    match q {
        FloatRequest::Add(a, b) => FloatAnswer::Bits((f(*a) + f(*b)).to_bits()),
        FloatRequest::Sub(a, b) => FloatAnswer::Bits((f(*a) - f(*b)).to_bits()),
        FloatRequest::Mul(a, b) => FloatAnswer::Bits((f(*a) * f(*b)).to_bits()),
        FloatRequest::Div(a, b) => FloatAnswer::Bits((f(*a) / f(*b)).to_bits()),
        FloatRequest::Parse(s) => FloatAnswer::Bits(s.parse::<f64>().unwrap().to_bits()),
        FloatRequest::Show(a) => FloatAnswer::Text(f(*a).to_string()),
        FloatRequest::Debug(a) => FloatAnswer::Text(format!("{:?}", f(*a))),
        FloatRequest::Fixed(a, n) => FloatAnswer::Text(format!("{:.*}", *n as usize, f(*a))),
    }
}

fn run<T, E>(mut op: impl FnMut(&mut Floats) -> Outcome<T, E>) -> Result<T, E> {
    let mut floats = Floats::new();
    loop {
        floats.rewind();
        match op(&mut floats) {
            Outcome::Done(t) => return Ok(t),
            Outcome::Failed(e) => return Err(e),
            Outcome::Stuck => panic!("stuck"),
            Outcome::Needs(q) => floats.answer(answer(&q)),
        }
    }
}

fn op_short(op: OpKind) -> &'static str {
    match op {
        OpKind::Add => "add",
        OpKind::Sub => "sub",
        OpKind::Mul => "mul",
        OpKind::Div => "div",
        OpKind::MatMul => "matmul",
        OpKind::Relu => "relu",
        OpKind::Gelu => "gelu",
        OpKind::Sigmoid => "sigmoid",
        OpKind::Tanh => "tanh",
        OpKind::Softmax => "softmax",
        OpKind::LayerNorm => "layernorm",
        OpKind::Conv => "conv",
        OpKind::Pool => "pool",
        OpKind::Reshape => "reshape",
        OpKind::Transpose => "transpose",
        OpKind::Concat => "concat",
        OpKind::Slice => "slice",
        OpKind::Constant => "const",
        OpKind::Placeholder => "placeholder",
        OpKind::Return => "ret",
        OpKind::Sqrt => "sqrt",
        OpKind::Exp => "exp",
        OpKind::Pow => "pow",
        OpKind::ReduceSum => "reduce_sum",
        OpKind::ReduceMean => "reduce_mean",
        OpKind::ReduceMax => "reduce_max",
        OpKind::Rsqrt => "rsqrt",
        OpKind::Reciprocal => "reciprocal",
        OpKind::Abs => "abs",
        OpKind::Log => "log",
        OpKind::Fused => "fused",
        OpKind::Custom => "custom",
    }
}

fn make_spec(op: OpKind, idx: u32) -> KernelSpec {
    let name = format!("neutron_{}_{}", op_short(op), idx);
    let dtype = DType::F32;
    let tensor = TensorSpec {
        name: "t".to_string(),
        dims: vec![16, 16],
        dtype,
        is_input: true,
    };
    let out = TensorSpec {
        name: "o".to_string(),
        dims: vec![16, 16],
        dtype,
        is_input: false,
    };
    let mut attrs = KernelAttrs::default();
    match op {
        OpKind::LayerNorm => attrs.epsilon = Some(1e-5f64.to_bits()),
        OpKind::Constant => attrs.value = Some(1.5f64.to_bits()),
        OpKind::Fused => attrs.fused_ops = vec!["mul".to_string(), "add".to_string()],
        OpKind::Custom => attrs.custom_op_type = "MyOp".to_string(),
        _ => {}
    }
    let inputs = match op {
        OpKind::Add | OpKind::Sub | OpKind::Mul | OpKind::Div | OpKind::Pow | OpKind::Fused => {
            vec![tensor.clone(), tensor.clone()]
        }
        OpKind::Concat => vec![tensor.clone(), tensor.clone()],
        _ => vec![tensor],
    };
    KernelSpec {
        name,
        op,
        inputs,
        outputs: vec![out],
        attrs,
        dtype,
        node_idx: idx,
    }
}

fn all_ops() -> Vec<OpKind> {
    vec![
        OpKind::Add,
        OpKind::Sub,
        OpKind::Mul,
        OpKind::Div,
        OpKind::MatMul,
        OpKind::Relu,
        OpKind::Gelu,
        OpKind::Sigmoid,
        OpKind::Tanh,
        OpKind::Softmax,
        OpKind::LayerNorm,
        OpKind::Conv,
        OpKind::Pool,
        OpKind::Reshape,
        OpKind::Transpose,
        OpKind::Concat,
        OpKind::Slice,
        OpKind::Constant,
        OpKind::Placeholder,
        OpKind::Return,
        OpKind::Sqrt,
        OpKind::Exp,
        OpKind::Pow,
        OpKind::ReduceSum,
        OpKind::ReduceMean,
        OpKind::ReduceMax,
        OpKind::Rsqrt,
        OpKind::Reciprocal,
        OpKind::Abs,
        OpKind::Log,
        OpKind::Fused,
        OpKind::Custom,
    ]
}

fn all_archs() -> Vec<GpuArch> {
    vec![
        GpuArch::Ascend910B1,
        GpuArch::Ascend910B3,
        GpuArch::Ascend310P3,
    ]
}

#[test]
fn emit_test_emit_empty() {
    let out = run(|f| emit(&[], GpuArch::Ascend910B1, f)).expect("emit 不应失败");
    assert_eq!(out.lang, SourceLang::Cann);
    assert_eq!(out.arch, GpuArch::Ascend910B1);
    assert!(out.kernels.is_empty(), "空 kernel 列表应无 kernel_info");
    assert!(out.source.contains("kernel_tiling.h"));
    assert!(out.source.contains("kernel_operator.h"));
    assert!(out.source.contains("using namespace AscendC;"));
    assert!(out.source.contains("Ascend 910B1"));
}

#[test]
fn emit_test_emit_elementwise() {
    let specs = vec![make_spec(OpKind::Add, 0)];
    let out = run(|f| emit(&specs, GpuArch::Ascend910B1, f)).expect("emit 失败");
    assert!(
        out.source.contains("__aicore__"),
        "Add kernel 必须含 __aicore__"
    );
    assert!(
        out.source.contains("AscendC"),
        "Add kernel 必须含 AscendC 命名空间"
    );
    assert!(
        out.source.contains("neutron_add_0"),
        "Add kernel 必须含 neutron_add_0"
    );
    assert!(
        out.source.contains("AscendC::Add"),
        "Add kernel 必须调用 AscendC::Add"
    );
    assert!(out.source.contains("TILE_LENGTH"));
    assert!(out.source.contains("BUFFER_NUM"));
    assert_eq!(out.kernels.len(), 1);
    assert_eq!(out.kernels[0].name, "neutron_add_0");
}

#[test]
fn test_emit_matmul_910b1() {
    let specs = vec![make_spec(OpKind::MatMul, 4)];
    let out = run(|f| emit(&specs, GpuArch::Ascend910B1, f)).expect("emit 失败");
    assert!(
        out.source.contains("MatMul")
            || out.source.contains("mmad")
            || out.source.contains("Cube"),
        "910B1 MatMul 必须含 MatMul/mmad/Cube"
    );
    assert!(out.source.contains("Ascend 910B1"));
    assert!(out.source.contains("__aicore__"));
}

#[test]
fn test_emit_matmul_910b3() {
    let specs = vec![make_spec(OpKind::MatMul, 4)];
    let out = run(|f| emit(&specs, GpuArch::Ascend910B3, f)).expect("emit 失败");
    assert!(
        out.source.contains("MatMul") || out.source.contains("Cube"),
        "910B3 MatMul 必须含 MatMul/Cube"
    );
    assert!(out.source.contains("Ascend 910B3"));
    assert!(out.source.contains("__aicore__"));
}

#[test]
fn emit_test_emit_softmax() {
    let specs = vec![make_spec(OpKind::Softmax, 5)];
    let out = run(|f| emit(&specs, GpuArch::Ascend910B1, f)).expect("emit 失败");
    assert!(
        out.source.contains("ReduceMax"),
        "softmax 必须含 ReduceMax（数值稳定）"
    );
    assert!(out.source.contains("Exp"), "softmax 必须含 Exp");
    assert!(out.source.contains("ReduceSum"), "softmax 必须含 ReduceSum");
    assert!(out.source.contains("Div"), "softmax 必须含 Div");
    assert!(out.source.contains("__aicore__"));
}

#[test]
fn emit_test_emit_layernorm() {
    let specs = vec![make_spec(OpKind::LayerNorm, 6)];
    let out = run(|f| emit(&specs, GpuArch::Ascend910B1, f)).expect("emit 失败");
    assert!(
        out.source.contains("ReduceMean")
            || out.source.contains("ReduceSum")
            || out.source.contains("epsilon"),
        "layernorm 应含 ReduceMean/ReduceSum/epsilon"
    );
    assert!(out.source.contains("epsilon"));
    assert!(out.source.contains("__aicore__"));
}

#[test]
fn emit_test_emit_all_ops() {
    for arch in all_archs() {
        let specs: Vec<KernelSpec> = all_ops()
            .into_iter()
            .enumerate()
            .map(|(i, op)| make_spec(op, i as u32))
            .collect();
        let out = run(|f| emit(&specs, arch, f)).expect("emit 不应失败");
        assert!(!out.source.is_empty(), "source 不应为空 (arch={:?})", arch);
        assert!(
            out.source.contains("__aicore__"),
            "source 应含 __aicore__ (arch={:?})",
            arch
        );
        assert!(out.source.contains("kernel_tiling.h"));
        assert!(out.source.contains("kernel_operator.h"));
        assert!(out.source.contains("using namespace AscendC;"));
        assert_eq!(out.kernels.len(), specs.len());
        assert_eq!(out.arch, arch);
        for s in &specs {
            assert!(
                out.source.contains(&format!("// launch_{}:", s.name)),
                "应有 launch_{} 注释 (arch={:?})",
                s.name,
                arch
            );
        }
    }
}

#[test]
fn test_emit_dtype_diversity() {
    for (dt, needle) in [
        (DType::F32, "float"),
        (DType::F16, "__fp16"),
        (DType::BF16, "__bf16"),
        (DType::I32, "int32_t"),
        (DType::I64, "int64_t"),
    ] {
        let mut spec = make_spec(OpKind::Add, 0);
        spec.dtype = dt;
        let out = run(|f| emit(std::slice::from_ref(&spec), GpuArch::Ascend910B1, f)).expect("emit 失败");
        assert!(
            out.source.contains(needle),
            "dtype {:?} 应映射到 cann_type {}",
            dt,
            needle
        );
    }
}

#[test]
fn test_emit_microarch_notes() {
    let specs = vec![make_spec(OpKind::Relu, 0)];
    let out1 = run(|f| emit(&specs, GpuArch::Ascend910B1, f)).expect("emit 失败");
    assert!(
        out1.source.contains("Cube Core") || out1.source.contains("Vector Core"),
        "910B1 header 应含 Cube/Vector Core 注释"
    );
    let out3 = run(|f| emit(&specs, GpuArch::Ascend310P3, f)).expect("emit 失败");
    assert!(
        out3.source.contains("310P3") || out3.source.contains("Vector Core"),
        "310P3 header 应含 310P3 或 Vector Core 注释"
    );
}

#[test]
fn test_emit_no_unwrap_in_code() {
    let specs: Vec<KernelSpec> = all_ops()
        .into_iter()
        .enumerate()
        .map(|(i, op)| make_spec(op, i as u32))
        .collect();
    let out = run(|f| emit(&specs, GpuArch::Ascend910B1, f)).expect("emit 失败");
    assert!(
        !out.source.contains("unwrap"),
        "生成的 C++ 源码不应含 unwrap 字样"
    );
}
