use neutron::backend::cuda::generate;
use neutron::backend::spec::{GpuArch, KernelAttrs, KernelSpec, TensorSpec};
use neutron::base::{DType, OpKind};
use neutron::lisp::{FloatAnswer, FloatRequest, Floats, Outcome};

fn answer(q: &FloatRequest) -> FloatAnswer {
    let f = f64::from_bits;
    match q {
        FloatRequest::Add(a, b) => FloatAnswer::Bits((f(*a) + f(*b)).to_bits()),
        FloatRequest::Sub(a, b) => FloatAnswer::Bits((f(*a) - f(*b)).to_bits()),
        FloatRequest::Mul(a, b) => FloatAnswer::Bits((f(*a) * f(*b)).to_bits()),
        FloatRequest::Div(a, b) => FloatAnswer::Bits((f(*a) / f(*b)).to_bits()),
        FloatRequest::Parse(s) => FloatAnswer::Bits(s.parse::<f64>().unwrap().to_bits()),
        FloatRequest::Show(a) => FloatAnswer::Text(f(*a).to_string()),
        FloatRequest::Debug(a) => FloatAnswer::Text(format!("{:?}", f(*a))),
        FloatRequest::Fixed(a, n) => FloatAnswer::Text(format!("{:.*}", *n as usize, f(*a))),
    }
}

fn run<T, E>(mut op: impl FnMut(&mut Floats) -> Outcome<T, E>) -> Result<T, E> {
    let mut floats = Floats::new();
    loop {
        floats.rewind();
        match op(&mut floats) {
            Outcome::Done(t) => return Ok(t),
            Outcome::Failed(e) => return Err(e),
            Outcome::Stuck => panic!("stuck"),
            Outcome::Needs(q) => floats.answer(answer(&q)),
        }
    }
}

fn make_spec(name: &str, op: OpKind) -> KernelSpec {
    KernelSpec {
        name: name.to_string(),
        op,
        inputs: vec![TensorSpec {
            name: "x".to_string(),
            dims: vec![16, 16],
            dtype: DType::F32,
            is_input: true,
        }],
        outputs: vec![TensorSpec {
            name: "y".to_string(),
            dims: vec![16, 16],
            dtype: DType::F32,
            is_input: false,
        }],
        attrs: KernelAttrs::default(),
        dtype: DType::F32,
        node_idx: 0,
    }
}

#[test]
fn test_generate_empty() {
    let out = run(|f| generate(&[], GpuArch::Hopper90, f)).unwrap();
    assert!(out.source.contains("kernel 数量: 0"));
    assert!(out.kernels.is_empty());
    assert!(out.source.contains("CUDA C++ kernel"));
}

#[test]
fn test_generate_elementwise() {
    let kernels = vec![make_spec("neutron_add_0", OpKind::Add)];
    let out = run(|f| generate(&kernels, GpuArch::Ampere80, f)).unwrap();
    assert!(
        out.source.contains("__global__"),
        "source should contain __global__"
    );
    assert!(
        out.source.contains("neutron_add_0"),
        "source should contain kernel name"
    );
    assert!(out.source.contains("c[i] = a[i] + b[i];"));
    assert!(out.source.contains("launch_neutron_add_0"));
}

#[test]
fn test_generate_matmul_ampere() {
    let kernels = vec![make_spec("neutron_matmul_0", OpKind::MatMul)];
    let out = run(|f| generate(&kernels, GpuArch::Ampere80, f)).unwrap();
    assert!(
        out.source.contains("nvcuda::wmma") || out.source.contains("mma.sync"),
        "Ampere matmul should use nvcuda::wmma or mma.sync"
    );
    assert!(out.source.contains("wmma::fragment"));
}

#[test]
fn test_generate_matmul_hopper() {
    let kernels = vec![make_spec("neutron_matmul_0", OpKind::MatMul)];
    let out = run(|f| generate(&kernels, GpuArch::Hopper90, f)).unwrap();
    let lower = out.source.to_lowercase();
    assert!(
        lower.contains("wgmma") || lower.contains("tma"),
        "Hopper matmul should use wgmma or TMA"
    );
    assert!(out.source.contains("wgmma.mma_async"));
}

#[test]
fn test_generate_matmul_blackwell() {
    let kernels = vec![make_spec("neutron_matmul_0", OpKind::MatMul)];
    let out = run(|f| generate(&kernels, GpuArch::Blackwell100, f)).unwrap();
    let lower = out.source.to_lowercase();
    assert!(
        lower.contains("tensor memory") || lower.contains("tc"),
        "Blackwell matmul should mention tensor memory or tc"
    );
    assert!(out.source.contains("tensor memory accelerator"));
}

#[test]
fn test_generate_softmax() {
    let kernels = vec![make_spec("neutron_softmax_0", OpKind::Softmax)];
    let out = run(|f| generate(&kernels, GpuArch::Hopper90, f)).unwrap();
    assert!(
        out.source.contains("shared"),
        "softmax should use shared memory"
    );
    assert!(out.source.contains("max"), "softmax should compute max");
    assert!(out.source.contains("exp"), "softmax should compute exp");
    assert!(out.source.contains("__shfl_xor_sync"));
}

#[test]
fn test_generate_layernorm() {
    let kernels = vec![make_spec("neutron_layernorm_0", OpKind::LayerNorm)];
    let out = run(|f| generate(&kernels, GpuArch::Hopper90, f)).unwrap();
    let lower = out.source.to_lowercase();
    assert!(
        lower.contains("epsilon") || lower.contains("mean"),
        "layernorm should mention epsilon or mean"
    );
    assert!(out.source.contains("inv_std"));
    assert!(out.source.contains("gamma"));
    assert!(out.source.contains("beta"));
}

#[test]
fn test_generate_reduce() {
    let kernels = vec![
        make_spec("neutron_reduce_sum_0", OpKind::ReduceSum),
        make_spec("neutron_reduce_mean_0", OpKind::ReduceMean),
        make_spec("neutron_reduce_max_0", OpKind::ReduceMax),
    ];
    let out = run(|f| generate(&kernels, GpuArch::Ampere80, f)).unwrap();
    assert!(
        out.source.contains("__syncthreads"),
        "reduce should use __syncthreads"
    );
    assert!(
        out.source.contains("shared[256]"),
        "reduce should use shared memory"
    );
    assert!(out.source.contains("ReduceMean"));
    assert!(out.source.contains("/ (float)N"));
}

#[test]
fn test_generate_all_ops() {
    let all_ops = [
        OpKind::Add,
        OpKind::Sub,
        OpKind::Mul,
        OpKind::Div,
        OpKind::MatMul,
        OpKind::Relu,
        OpKind::Gelu,
        OpKind::Sigmoid,
        OpKind::Tanh,
        OpKind::Softmax,
        OpKind::LayerNorm,
        OpKind::Conv,
        OpKind::Pool,
        OpKind::Reshape,
        OpKind::Transpose,
        OpKind::Concat,
        OpKind::Slice,
        OpKind::Constant,
        OpKind::Placeholder,
        OpKind::Return,
        OpKind::Sqrt,
        OpKind::Exp,
        OpKind::Pow,
        OpKind::ReduceSum,
        OpKind::ReduceMean,
        OpKind::ReduceMax,
        OpKind::Rsqrt,
        OpKind::Fused,
        OpKind::Reciprocal,
        OpKind::Abs,
        OpKind::Log,
        OpKind::Custom,
    ];
    for arch in [GpuArch::Ampere80, GpuArch::Hopper90, GpuArch::Blackwell100] {
        let kernels: Vec<KernelSpec> = all_ops
            .iter()
            .enumerate()
            .map(|(i, op)| make_spec(&format!("neutron_op_{i}"), *op))
            .collect();
        let out = run(|f| generate(&kernels, arch, f)).unwrap();
        assert!(
            !out.source.is_empty(),
            "source should be non-empty for {:?}",
            arch
        );
        assert!(
            out.source.contains("__global__"),
            "source should contain __global__ for {:?}",
            arch
        );
        for k in &kernels {
            assert!(
                out.source.contains(&k.name),
                "source should contain kernel name {} for {:?}",
                k.name,
                arch
            );
        }
    }
}

#[test]
fn test_generate_constant_with_value() {
    let mut spec = make_spec("neutron_constant_0", OpKind::Constant);
    spec.attrs.value = Some(3.14f64.to_bits());
    let out = run(|f| generate(std::slice::from_ref(&spec), GpuArch::Hopper90, f)).unwrap();
    assert!(out.source.contains("__global__"));
    assert!(out.source.contains("3.14"));
    assert!(out.source.contains("launch_neutron_constant_0"));
}

#[test]
fn test_generate_custom_extern_c() {
    let mut spec = make_spec("neutron_custom_0", OpKind::Custom);
    spec.attrs.custom_op_type = "MyCustomOp".to_string();
    let out = run(|f| generate(std::slice::from_ref(&spec), GpuArch::Ampere80, f)).unwrap();
    assert!(out.source.contains("extern \"C\""));
    assert!(out.source.contains("MyCustomOp"));
    assert!(out.source.contains("__global__"));
}

#[test]
fn test_generate_fused_chain() {
    let mut spec = make_spec("neutron_fused_0", OpKind::Fused);
    spec.attrs.fused_ops = vec!["relu".to_string(), "exp".to_string()];
    let out = run(|f| generate(std::slice::from_ref(&spec), GpuArch::Hopper90, f)).unwrap();
    assert!(out.source.contains("fused_ops: relu, exp"));
    assert!(out.source.contains("x = fmaxf(x, 0.0f);"));
    assert!(out.source.contains("x = expf(x);"));
}

#[test]
fn test_generate_transpose_padding() {
    let kernels = vec![make_spec("neutron_transpose_0", OpKind::Transpose)];
    let out = run(|f| generate(&kernels, GpuArch::Hopper90, f)).unwrap();
    assert!(out.source.contains("32 + 1"));
    assert!(out.source.contains("__shared__"));
    assert!(out.source.contains("__syncthreads"));
}
