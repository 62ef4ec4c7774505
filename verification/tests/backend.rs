use neutron::backend::spec::{GpuArch, SourceLang};
use neutron::backend::{emit, emit_for};
use neutron::base::{DType, OpKind, Type};
use neutron::common::Target;
use neutron::graph::Graph;
use neutron::lisp::{FloatAnswer, FloatRequest, Floats, Outcome};

fn answer(q: &FloatRequest) -> FloatAnswer {
    let f = f64::from_bits;
    match q {
        FloatRequest::Add(a, b) => FloatAnswer::Bits((f(*a) + f(*b)).to_bits()),
        FloatRequest::Sub(a, b) => FloatAnswer::Bits((f(*a) - f(*b)).to_bits()),
        FloatRequest::Mul(a, b) => FloatAnswer::Bits((f(*a) * f(*b)).to_bits()),
        FloatRequest::Div(a, b) => FloatAnswer::Bits((f(*a) / f(*b)).to_bits()),
        FloatRequest::Parse(s) => FloatAnswer::Bits(s.parse::<f64>().unwrap().to_bits()),
        FloatRequest::Show(a) => FloatAnswer::Text(f(*a).to_string()),
        FloatRequest::Debug(a) => FloatAnswer::Text(format!("{:?}", f(*a))),
        FloatRequest::Fixed(a, n) => FloatAnswer::Text(format!("{:.*}", *n as usize, f(*a))),
    }
}

fn run<T, E>(mut op: impl FnMut(&mut Floats) -> Outcome<T, E>) -> Result<T, E> {
    let mut floats = Floats::new();
    loop {
        floats.rewind();
        match op(&mut floats) {
            Outcome::Done(t) => return Ok(t),
            Outcome::Failed(e) => return Err(e),
            Outcome::Stuck => panic!("stuck"),
            Outcome::Needs(q) => floats.answer(answer(&q)),
        }
    }
}

fn mk_simple_graph() -> Graph {
    let mut g = Graph::new("test");
    let ty = Type::Tensor {
        dtype: DType::F32,
        dims: vec![2, 3],
    };
    let x = g.add_input(ty.clone(), Some("x"));
    let add = g.add_node(OpKind::Add);
    let out = g.add_value(ty, Some("out"), add);
    g.storage.set_node_inputs(add, &[x, x]);
    g.storage.set_node_outputs(add, &[out]);
    g.mark_output(out);
    g
}

#[test]
fn emit_routes_cuda_target() {
    let g = mk_simple_graph();
    let out = run(|f| emit(&g, Target::Cuda, GpuArch::Ampere80, f)).unwrap();
    assert!(!out.source.is_empty(), "CUDA 源码不应为空");
    assert_eq!(out.lang, SourceLang::Cuda);
    assert!(!out.kernels.is_empty(), "应至少生成一个 kernel");
}

#[test]
fn emit_routes_npu_target() {
    let g = mk_simple_graph();
    let out = run(|f| emit(&g, Target::Npu, GpuArch::Ascend910B1, f)).unwrap();
    assert!(!out.source.is_empty());
    assert_eq!(out.lang, SourceLang::Cann);
}

#[test]
fn emit_cpu_target_returns_placeholder() {
    let g = mk_simple_graph();
    let out = run(|f| emit(&g, Target::Cpu, GpuArch::Ampere80, f)).unwrap();
    assert!(out.source.contains("CPU backend not implemented"));
    assert_eq!(out.lang, SourceLang::Cpu);
    assert!(out.kernels.is_empty(), "CPU 占位不应有 kernel");
}

#[test]
fn emit_for_routes_all_langs() {
    let g = mk_simple_graph();
    let arch = GpuArch::Ampere80;

    let cuda = run(|f| emit_for(&g, SourceLang::Cuda, arch, f)).unwrap();
    assert_eq!(cuda.lang, SourceLang::Cuda);
    assert!(!cuda.source.is_empty());

    let triton = run(|f| emit_for(&g, SourceLang::Triton, arch, f)).unwrap();
    assert_eq!(triton.lang, SourceLang::Triton);
    assert!(!triton.source.is_empty());

    let metal = run(|f| emit_for(&g, SourceLang::Metal, arch, f)).unwrap();
    assert_eq!(metal.lang, SourceLang::Metal);
    assert!(!metal.source.is_empty());

    let cann = run(|f| emit_for(&g, SourceLang::Cann, arch, f)).unwrap();
    assert_eq!(cann.lang, SourceLang::Cann);
    assert!(!cann.source.is_empty());
}

#[test]
fn emit_for_cpu_returns_placeholder() {
    let g = mk_simple_graph();
    let out = run(|f| emit_for(&g, SourceLang::Cpu, GpuArch::Ampere80, f)).unwrap();
    assert!(out.source.contains("CPU backend not implemented"));
    assert_eq!(out.lang, SourceLang::Cpu);
}

#[test]
fn emit_empty_graph_does_not_panic() {
    let g = Graph::new("empty");
    let out = run(|f| emit(&g, Target::Cuda, GpuArch::Ampere80, f)).unwrap();
    assert!(out.kernels.is_empty());
}

#[test]
fn emit_preserves_arch_info() {
    let g = mk_simple_graph();
    for arch in [GpuArch::Ampere80, GpuArch::Hopper90, GpuArch::Blackwell100] {
        let out = run(|f| emit(&g, Target::Cuda, arch, f)).unwrap();
        assert_eq!(out.arch, arch, "arch 应透传到 BackendOutput");
    }
}
