use neutron::arch::lower;
use neutron::backend::spec::{GpuArch, SourceLang};
use neutron::base::{DType, NeutronError, OpKind, Type};
use neutron::common::{Config, Target};
use neutron::graph::Graph;
use neutron::interface::{arch_for, compile, is_compilable, Input};
use neutron::lisp::{FloatAnswer, FloatRequest, Floats, Outcome};
use neutron::validate::is_emittable;

fn answer(q: &FloatRequest) -> FloatAnswer {
    let f = f64::from_bits;
    match q {
        FloatRequest::Add(a, b) => FloatAnswer::Bits((f(*a) + f(*b)).to_bits()),
        FloatRequest::Sub(a, b) => FloatAnswer::Bits((f(*a) - f(*b)).to_bits()),
        FloatRequest::Mul(a, b) => FloatAnswer::Bits((f(*a) * f(*b)).to_bits()),
        FloatRequest::Div(a, b) => FloatAnswer::Bits((f(*a) / f(*b)).to_bits()),
        FloatRequest::Parse(s) => FloatAnswer::Bits(s.parse::<f64>().unwrap().to_bits()),
        FloatRequest::Show(a) => FloatAnswer::Text(f(*a).to_string()),
        FloatRequest::Debug(a) => FloatAnswer::Text(format!("{:?}", f(*a))),
        FloatRequest::Fixed(a, n) => FloatAnswer::Text(format!("{:.*}", *n as usize, f(*a))),
    }
}

fn run<T, E>(mut op: impl FnMut(&mut Floats) -> Outcome<T, E>) -> Result<T, E> {
    let mut floats = Floats::new();
    loop {
        floats.rewind();
        match op(&mut floats) {
            Outcome::Done(t) => return Ok(t),
            Outcome::Failed(e) => return Err(e),
            Outcome::Stuck => panic!("stuck"),
            Outcome::Needs(q) => floats.answer(answer(&q)),
        }
    }
}

const SRC: &str = "graph \"g\"\nin x: f32[2,3]\ny = add(x, x)\nout y";

#[test]
fn compiles_text_to_instructions() {
    let input = Input::Dsl(SRC.to_string());
    let g = input.read().unwrap();
    let cfg = Config::default();
    assert!(is_compilable(&g, &g, &cfg, None));
    let out = run(|f| compile(&g, &g, &cfg, None, f)).unwrap();
    assert_eq!(out.target, "cuda");
    assert_eq!(out.instructions.len(), 1);
    assert_eq!(out.instructions[0].op, "fadd");
    assert!(out.debug.is_none());
    assert!(out.backend_source.is_none());
}

#[test]
fn trace_shows_every_stage() {
    let g = Input::Dsl(SRC.to_string()).read().unwrap();
    let cfg = Config { dump_ir: true, target: Target::Npu, ..Config::default() };
    let out = run(|f| compile(&g, &g, &cfg, None, f)).unwrap();
    assert_eq!(out.target, "npu");
    let dump = "graph \"g\" {\n  // 1 nodes, 2 values, 1 inputs, 1 outputs\n    n0 = Add(%0, %0) -> [%1]\n}\n";
    assert_eq!(
        out.debug.unwrap(),
        format!(
            "// === 前端输出 ===\n{dump}\n// === 优化后 ===\n{dump}\n// === Lowering 后 (1 ops) ===\n  [0] KernelCall {{ name: \"add\", inputs: [0, 0], outputs: [1] }}\n\n// === 最终指令 (1 条) ===\n  [0] fadd %0 %0 %1\n"
        )
    );
}

#[test]
fn source_goes_with_the_target() {
    let g = Input::Dsl(SRC.to_string()).read().unwrap();
    for (target, arch, lang) in [
        (Target::Cuda, GpuArch::Hopper90, SourceLang::Cuda),
        (Target::Npu, GpuArch::Ascend910B1, SourceLang::Cann),
        (Target::Cpu, GpuArch::Ampere80, SourceLang::Cpu),
    ] {
        let cfg = Config { target, ..Config::default() };
        assert!(is_compilable(&g, &g, &cfg, Some(arch)));
        let out = run(|f| compile(&g, &g, &cfg, Some(arch), f)).unwrap();
        let direct = run(|f| neutron::backend::emit_for(&g, lang, arch, f)).unwrap();
        assert_eq!(out.backend_source.unwrap(), direct.source);
    }
}

#[test]
fn compiles_empty_onnx() {
    let g = Input::Onnx(vec![]).read().unwrap();
    let cfg = Config { dump_ir: true, ..Config::default() };
    let out = run(|f| compile(&g, &g, &cfg, None, f)).unwrap();
    assert_eq!(out.target, "cuda");
    assert!(out.instructions.is_empty());
    assert!(out.debug.is_some());
}

#[test]
fn errors_of_the_frontend_are_passed_on() {
    assert_eq!(
        Input::Pt(vec![1, 2]).read().unwrap_err().message(),
        "前端错误: .pt 前端尚未实现"
    );
    assert!(matches!(
        Input::Onnx(vec![0xff]).read().unwrap_err(),
        NeutronError::Frontend(_)
    ));
    assert!(Input::Dsl("out z".to_string()).read().is_err());
}

#[test]
fn unknown_operators_fail() {
    let mut g = Graph::new("bad");
    g.add_node(OpKind::Add);
    g.storage.node_hdr[0].op_tag = 50;
    let cfg = Config::default();
    assert!(is_compilable(&g, &g, &cfg, Some(GpuArch::Ampere80)));
    let e = run(|f| compile(&g, &g, &cfg, Some(GpuArch::Ampere80), f)).unwrap_err();
    assert_eq!(e.message(), "IR 错误: 未知 op tag: 50");
}

#[test]
fn graphs_that_refer_to_nothing_are_not_compilable() {
    let mut g = Graph::new("bad");
    let n = g.add_node(OpKind::Relu);
    g.storage.set_node_inputs(n, &[u32::MAX]);
    let cfg = Config::default();
    assert!(is_compilable(&g, &g, &cfg, None));
    assert!(!is_compilable(&g, &g, &cfg, Some(GpuArch::Ampere80)));
    g.storage.node_hdr[0].outputs_len = 3;
    assert!(!is_compilable(&g, &g, &cfg, None));
}

#[test]
fn counts_that_do_not_fit_are_not_emittable() {
    let mut g = Graph::new("huge");
    let n = g.add_node(OpKind::Relu);
    let ty = Type::Tensor { dtype: DType::F32, dims: vec![i64::MAX, i64::MAX] };
    let v = g.add_value(ty, None, n);
    g.storage.set_node_outputs(n, &[v]);
    assert!(!is_emittable(&g, SourceLang::Cuda));
    assert!(!is_emittable(&g, SourceLang::Metal));
    assert!(is_emittable(&g, SourceLang::Cpu));
    g.storage.node_hdr[0].op_tag = OpKind::Constant.code();
    assert!(!is_emittable(&g, SourceLang::Cuda));
    assert!(is_emittable(&g, SourceLang::Triton));
}

#[test]
fn targets_have_an_architecture() {
    assert_eq!(arch_for(Target::Cuda), GpuArch::Ampere80);
    assert_eq!(arch_for(Target::Cpu), GpuArch::Ampere80);
    assert_eq!(arch_for(Target::Npu), GpuArch::Ascend910B1);
}

#[test]
fn inputs_and_outputs_can_be_cloned() {
    for input in [Input::Dsl(SRC.to_string()), Input::Onnx(vec![1, 2]), Input::Pt(vec![3])] {
        assert_eq!(format!("{:?}", input.clone()), format!("{input:?}"));
    }
    let g = Input::Dsl(SRC.to_string()).clone().read().unwrap();
    let cfg = Config { dump_ir: true, ..Config::default() };
    let out = run(|f| compile(&g, &g, &cfg, Some(arch_for(cfg.target)), f)).unwrap();
    let copy = out.clone();
    assert_eq!(format!("{copy:?}"), format!("{out:?}"));
    assert_eq!(copy.instructions[0].op, "fadd");
    let ag = lower(&g, Target::Cuda).unwrap();
    assert_eq!(format!("{:?}", ag.ops[0].clone()), format!("{:?}", ag.ops[0]));
}

#[test]
fn only_what_is_read_has_to_be_there() {
    let mut g = Input::Dsl(SRC.to_string()).read().unwrap();
    let cfg = Config::default();
    assert!(is_compilable(&g, &g, &cfg, Some(GpuArch::Ampere80)));
    g.storage.node_hdr[0].attrs_len = 9;
    assert!(!g.is_well_formed() && !g.is_extractable());
    assert!(g.is_lowerable() && g.is_dumpable());
    assert!(is_compilable(&g, &g, &cfg, None));
    assert!(!is_compilable(&g, &g, &cfg, Some(GpuArch::Ampere80)));
    let out = run(|f| compile(&g, &g, &cfg, None, f)).unwrap();
    assert_eq!(out.instructions.len(), 1);
    g.storage.node_hdr[0].inputs_len = 9;
    assert!(!g.is_lowerable() && !is_compilable(&g, &g, &cfg, None));
    g.storage.node_hdr[0].op_tag = 200;
    assert!(g.is_lowerable() && g.is_dumpable() && g.is_extractable());
    assert!(is_compilable(&g, &g, &cfg, None));
    assert!(run(|f| compile(&g, &g, &cfg, None, f)).is_err());
}
