use neutron::backend::extract::op_short_name;
use neutron::backend::spec::{
    BackendOutput, GpuArch, KernelAttrs, KernelSpec, SourceLang, TensorSpec,
};
use neutron::backend::{cann, cuda, metal, triton};
use neutron::base::{DType, NeutronError, OpKind};
use neutron::lisp::{FloatAnswer, FloatRequest, Floats, Outcome};

fn answer(q: &FloatRequest) -> FloatAnswer {
    let f = f64::from_bits;
    match q {
        FloatRequest::Add(a, b) => FloatAnswer::Bits((f(*a) + f(*b)).to_bits()),
        FloatRequest::Sub(a, b) => FloatAnswer::Bits((f(*a) - f(*b)).to_bits()),
        FloatRequest::Mul(a, b) => FloatAnswer::Bits((f(*a) * f(*b)).to_bits()),
        FloatRequest::Div(a, b) => FloatAnswer::Bits((f(*a) / f(*b)).to_bits()),
        FloatRequest::Parse(s) => FloatAnswer::Bits(s.parse::<f64>().unwrap().to_bits()),
        FloatRequest::Show(a) => FloatAnswer::Text(f(*a).to_string()),
        FloatRequest::Debug(a) => FloatAnswer::Text(format!("{:?}", f(*a))),
        FloatRequest::Fixed(a, n) => FloatAnswer::Text(format!("{:.*}", *n as usize, f(*a))),
    }
}

fn run<T, E>(mut op: impl FnMut(&mut Floats) -> Outcome<T, E>) -> Result<T, E> {
    let mut floats = Floats::new();
    loop {
        floats.rewind();
        match op(&mut floats) {
            Outcome::Done(t) => return Ok(t),
            Outcome::Failed(e) => return Err(e),
            Outcome::Stuck => panic!("stuck"),
            Outcome::Needs(q) => floats.answer(answer(&q)),
        }
    }
}

fn all_ops() -> Vec<OpKind> {
    vec![
        OpKind::Add,
        OpKind::Sub,
        OpKind::Mul,
        OpKind::Div,
        OpKind::MatMul,
        OpKind::Relu,
        OpKind::Gelu,
        OpKind::Sigmoid,
        OpKind::Tanh,
        OpKind::Softmax,
        OpKind::LayerNorm,
        OpKind::Conv,
        OpKind::Pool,
        OpKind::Reshape,
        OpKind::Transpose,
        OpKind::Concat,
        OpKind::Slice,
        OpKind::Constant,
        OpKind::Placeholder,
        OpKind::Return,
        OpKind::Sqrt,
        OpKind::Exp,
        OpKind::Pow,
        OpKind::ReduceSum,
        OpKind::ReduceMean,
        OpKind::ReduceMax,
        OpKind::Rsqrt,
        OpKind::Reciprocal,
        OpKind::Abs,
        OpKind::Log,
        OpKind::Fused,
        OpKind::Custom,
    ]
}

fn tensor(is_input: bool) -> TensorSpec {
    TensorSpec {
        name: "t".to_string(),
        dims: vec![16, 16],
        dtype: DType::F32,
        is_input,
    }
}

fn kernel(op: OpKind, idx: usize) -> KernelSpec {
    let mut attrs = KernelAttrs::default();
    attrs.axis = Some(1);
    attrs.epsilon = Some(1e-5f64.to_bits());
    attrs.value = Some(1.5f64.to_bits());
    attrs.tensor_data = vec![0, 0, 0];
    attrs.conv_stride = vec![2, 3];
    attrs.conv_padding = vec![-1];
    attrs.conv_groups = Some(4);
    attrs.pool_kernel = vec![3];
    attrs.slice_starts = vec![1, 2];
    attrs.fused_ops = vec!["relu".to_string(), "foo".to_string()];
    attrs.custom_op_type = "MyOp".to_string();
    KernelSpec {
        name: format!("neutron_{}_{}", op_short_name(op), idx),
        op,
        inputs: vec![tensor(true)],
        outputs: vec![tensor(false)],
        attrs,
        dtype: DType::F32,
        node_idx: idx as u32,
    }
}

fn generate(lang: SourceLang, ks: &[KernelSpec], arch: GpuArch) -> Result<BackendOutput, NeutronError> {
    run(|f| match lang {
        SourceLang::Cuda => cuda::emit(ks, arch, f),
        SourceLang::Metal => metal::emit(ks, arch, f),
        SourceLang::Triton => triton::emit(ks, arch, f),
        _ => cann::emit(ks, arch, f),
    })
}

/// FNV-1a.
fn fingerprint(s: &str) -> u64 {
    let mut h: u64 = 0xcbf29ce484222325;
    for b in s.bytes() {
        h = (h ^ b as u64).wrapping_mul(0x100000001b3);
    }
    h
}

#[test]
fn source_of_all_operators_is_stable() {
    let ks: Vec<KernelSpec> = all_ops().into_iter().enumerate().map(|(i, op)| kernel(op, i)).collect();
    for (lang, arch, len, print) in [
        (SourceLang::Cuda, GpuArch::Ampere80, 32750, 0x632dfe1dc078d455),
        (SourceLang::Cuda, GpuArch::Hopper90, 33156, 0xa1888ece9e7d1709),
        (SourceLang::Cuda, GpuArch::Blackwell100, 33245, 0x7ea90fd51b052756),
        (SourceLang::Cuda, GpuArch::Apple6, 32747, 0xd019bf29848caea7),
        (SourceLang::Cuda, GpuArch::Apple7, 32747, 0x1e70027131b00b84),
        (SourceLang::Cuda, GpuArch::Apple8, 32747, 0x3c32ffebd1e3d889),
        (SourceLang::Cuda, GpuArch::Ascend910B1, 32751, 0x7787ea2f1de5c8a2),
        (SourceLang::Cuda, GpuArch::Ascend910B3, 32751, 0xa28ed9a26a6732f4),
        (SourceLang::Cuda, GpuArch::Ascend310P3, 32751, 0x5fa4414e6d1c0084),
        (SourceLang::Metal, GpuArch::Ampere80, 23664, 0xa3d3fa2383e11d36),
        (SourceLang::Metal, GpuArch::Hopper90, 23667, 0xfa96f3d53f9769e5),
        (SourceLang::Metal, GpuArch::Blackwell100, 23675, 0xc8b89e2dcfd74875),
        (SourceLang::Metal, GpuArch::Apple6, 23619, 0xdf5e25a4204bb075),
        (SourceLang::Metal, GpuArch::Apple7, 23619, 0x3d5308db29b2d8ad),
        (SourceLang::Metal, GpuArch::Apple8, 23619, 0x8e1e5ea0625faf65),
        (SourceLang::Metal, GpuArch::Ascend910B1, 23666, 0xf1676909b590c0c4),
        (SourceLang::Metal, GpuArch::Ascend910B3, 23666, 0xc32b21ffc99d347c),
        (SourceLang::Metal, GpuArch::Ascend310P3, 23666, 0x7a4d495f47981502),
        (SourceLang::Triton, GpuArch::Ampere80, 23472, 0x39a811911a8dcbde),
        (SourceLang::Triton, GpuArch::Hopper90, 23937, 0xe57c8b570716b58a),
        (SourceLang::Triton, GpuArch::Blackwell100, 23924, 0x42636a894a2b90e1),
        (SourceLang::Triton, GpuArch::Apple6, 23453, 0x00be53883ac75620),
        (SourceLang::Triton, GpuArch::Apple7, 23453, 0x5a4b965bfd33dbc2),
        (SourceLang::Triton, GpuArch::Apple8, 23453, 0x69add39ebc48d6b8),
        (SourceLang::Triton, GpuArch::Ascend910B1, 23461, 0xbc3bc6c7432a80d6),
        (SourceLang::Triton, GpuArch::Ascend910B3, 23461, 0x35896c5d2d3a9482),
        (SourceLang::Triton, GpuArch::Ascend310P3, 23461, 0xc95e63f3f8eb097a),
        (SourceLang::Cann, GpuArch::Ampere80, 80782, 0x85470fa786938479),
        (SourceLang::Cann, GpuArch::Hopper90, 80785, 0xa24bdfb089984b37),
        (SourceLang::Cann, GpuArch::Blackwell100, 80789, 0xe9d82dc64566298c),
        (SourceLang::Cann, GpuArch::Apple6, 80779, 0xdc41cc1464ada3f5),
        (SourceLang::Cann, GpuArch::Apple7, 80779, 0x5c103418459e750a),
        (SourceLang::Cann, GpuArch::Apple8, 80779, 0x1b027ac85d72ff3f),
        (SourceLang::Cann, GpuArch::Ascend910B1, 80983, 0x0d8a1e2346fac746),
        (SourceLang::Cann, GpuArch::Ascend910B3, 80971, 0xa3d54e464568ad40),
        (SourceLang::Cann, GpuArch::Ascend310P3, 80900, 0x67736ba73a12f7bb),
    ] {
        let out = generate(lang, &ks, arch).unwrap();
        assert_eq!(out.source.len(), len, "{:?} {:?}", lang, arch);
        assert_eq!(fingerprint(&out.source), print, "{:?} {:?}", lang, arch);
        assert_eq!(out.lang, lang);
        assert_eq!(out.arch, arch);
        assert_eq!(out.kernels.len(), ks.len());
    }
}
