use neutron::arch::{ArchGraph, ArchOp};
use neutron::base::NeutronError;
use neutron::common::Target;
use neutron::isel::defaults::default_rules;
use neutron::isel::rules::{load_rules_from_src, parse_rule, Rule};
use neutron::isel::select::{select, select_with_rules, Operand, VReg};
use neutron::lisp::{FloatAnswer, FloatRequest, Floats, Outcome};

fn answer(q: &FloatRequest) -> FloatAnswer {
    let f = f64::from_bits;
    match q {
        FloatRequest::Add(a, b) => FloatAnswer::Bits((f(*a) + f(*b)).to_bits()),
        FloatRequest::Sub(a, b) => FloatAnswer::Bits((f(*a) - f(*b)).to_bits()),
        FloatRequest::Mul(a, b) => FloatAnswer::Bits((f(*a) * f(*b)).to_bits()),
        FloatRequest::Div(a, b) => FloatAnswer::Bits((f(*a) / f(*b)).to_bits()),
        FloatRequest::Parse(s) => FloatAnswer::Bits(s.parse::<f64>().unwrap().to_bits()),
        FloatRequest::Show(a) => FloatAnswer::Text(f(*a).to_string()),
        FloatRequest::Debug(a) => FloatAnswer::Text(format!("{:?}", f(*a))),
        FloatRequest::Fixed(a, n) => FloatAnswer::Text(format!("{:.*}", *n as usize, f(*a))),
    }
}

fn run<T, E>(mut op: impl FnMut(&mut Floats) -> Outcome<T, E>) -> Result<T, E> {
    let mut floats = Floats::new();
    loop {
        floats.rewind();
        match op(&mut floats) {
            Outcome::Done(t) => return Ok(t),
            Outcome::Failed(e) => return Err(e),
            Outcome::Stuck => panic!("stuck"),
            Outcome::Needs(q) => floats.answer(answer(&q)),
        }
    }
}

fn read_rule(src: &str) -> Result<Rule, NeutronError> {
    run(|f| parse_rule(src, f))
}

fn make_arch(target: Target, ops: Vec<ArchOp>) -> ArchGraph {
    let mut ag = ArchGraph::new(target);
    for o in ops {
        ag.add(o);
    }
    ag
}

#[test]
fn parses_rule() {
    let r = read_rule(r#"(rule (when (= op "add")) (emit "fadd" "r0" "r1"))"#).unwrap();
    assert!(r.cond.as_list().is_some());
    assert!(r.emit.as_list().is_some());
}

#[test]
fn default_rules_cover_add() {
    let rules = default_rules();
    assert!(!rules.is_empty());
    assert!(rules.iter().any(|r| r.src.contains("\"add\"")));
}

#[test]
fn selects_add_instruction() {
    let ag = make_arch(
        Target::Cuda,
        vec![ArchOp::KernelCall {
            name: "add".into(),
            inputs: vec![],
            outputs: vec![],
        }],
    );
    let instrs = select(&ag).unwrap();
    assert_eq!(instrs.len(), 1);
    assert_eq!(instrs[0].op, "fadd");
    assert!(instrs[0].inputs.is_empty());
    assert!(instrs[0].outputs.is_empty());
}

#[test]
fn selects_mma_for_cuda() {
    let ag = make_arch(
        Target::Cuda,
        vec![ArchOp::KernelCall {
            name: "mma".into(),
            inputs: vec![],
            outputs: vec![],
        }],
    );
    let instrs = select(&ag).unwrap();
    assert_eq!(instrs[0].op, "mma");
    assert!(instrs[0].inputs.is_empty());
    assert!(instrs[0].outputs.is_empty());
}

#[test]
fn vreg_mapping_tracks_def_use() {
    let ag = make_arch(
        Target::Cuda,
        vec![
            ArchOp::KernelCall {
                name: "add".into(),
                inputs: vec![10, 11],
                outputs: vec![12],
            },
            ArchOp::KernelCall {
                name: "add".into(),
                inputs: vec![12, 10],
                outputs: vec![13],
            },
        ],
    );
    let instrs = select(&ag).unwrap();
    assert_eq!(instrs.len(), 2);

    assert_eq!(instrs[0].inputs.len(), 2);
    assert_eq!(instrs[0].outputs.len(), 1);
    let out0 = instrs[0].outputs[0];
    assert_eq!(out0, VReg(2));
    match instrs[0].inputs[0] {
        Operand::VReg(v) => assert_eq!(v, VReg(0)),
        Operand::Imm(_) => panic!("input 应是 VReg"),
    }

    assert_eq!(instrs[1].inputs.len(), 2);
    assert_eq!(instrs[1].outputs.len(), 1);
    assert_eq!(instrs[1].outputs[0], VReg(3));
    match instrs[1].inputs[0] {
        Operand::VReg(v) => {
            assert_eq!(v, out0, "v12 应复用 op0 的输出 VReg（def-use chain 衔接）")
        }
        Operand::Imm(_) => panic!("input 应是 VReg"),
    }
    match instrs[1].inputs[1] {
        Operand::VReg(v) => assert_eq!(v, VReg(0), "v10 应复用 op0 的 input VReg"),
        Operand::Imm(_) => panic!("input 应是 VReg"),
    }
}

#[test]
fn load_store_vreg_operands() {
    let ag = make_arch(
        Target::Cpu,
        vec![
            ArchOp::Load { addr: 0, dst: 1 },
            ArchOp::Store { addr: 0, src: 1 },
        ],
    );
    let instrs = select(&ag).unwrap();
    assert_eq!(instrs[0].op, "load");
    assert_eq!(instrs[1].op, "store");
    assert_eq!(instrs[0].inputs.len(), 1);
    assert_eq!(instrs[0].outputs.len(), 1);
    assert_eq!(instrs[1].inputs.len(), 2);
    assert!(instrs[1].outputs.is_empty());
    match (instrs[0].inputs[0], instrs[1].inputs[0]) {
        (Operand::VReg(a), Operand::VReg(b)) => assert_eq!(a, b, "addr VReg 应复用"),
        _ => panic!("addr 应是 VReg"),
    }
    match (instrs[0].outputs[0], instrs[1].inputs[1]) {
        (load_dst, Operand::VReg(store_src)) => {
            assert_eq!(load_dst, store_src, "dst/src VReg 应复用（def-use）")
        }
        _ => panic!("dst/src 应是 VReg"),
    }
}

#[test]
fn custom_rule_target_guard() {
    let rule = read_rule(r#"(rule (when (and (= op "mma") (= target "cuda"))) (emit "wgmma" "a" "b"))"#,
    )
    .unwrap();
    let ag_cuda = make_arch(
        Target::Cuda,
        vec![ArchOp::KernelCall {
            name: "mma".into(),
            inputs: vec![],
            outputs: vec![],
        }],
    );
    let ins = run(|f| select_with_rules(&ag_cuda, std::slice::from_ref(&rule), f)).unwrap();
    assert_eq!(ins[0].op, "wgmma");
}

#[test]
fn no_match_returns_error() {
    let ag = make_arch(
        Target::Cuda,
        vec![ArchOp::KernelCall {
            name: "unknown_op".into(),
            inputs: vec![],
            outputs: vec![],
        }],
    );
    let err = select(&ag).unwrap_err();
    assert!(matches!(err, NeutronError::Isel(_)));
}

#[test]
fn load_store_selected() {
    let ag = make_arch(
        Target::Cpu,
        vec![
            ArchOp::Load { addr: 0, dst: 0 },
            ArchOp::Store { addr: 0, src: 0 },
        ],
    );
    let instrs = select(&ag).unwrap();
    assert_eq!(instrs[0].op, "load");
    assert_eq!(instrs[1].op, "store");
}

#[test]
fn idx_bound_in_rule() {
    let rule = read_rule(r#"(rule (when true) (emit (str "+" "load_" idx) "x"))"#).unwrap();
    let ag = make_arch(
        Target::Cuda,
        vec![ArchOp::KernelCall {
            name: "add".into(),
            inputs: vec![],
            outputs: vec![],
        }],
    );
    let ins = run(|f| select_with_rules(&ag, std::slice::from_ref(&rule), f)).unwrap();
    assert!(ins[0].op.contains("load_"));
}

#[test]
fn load_multiple_rules_from_src() {
    let src = r#"
        ; add 规则
        (rule (when (= op "add")) (emit "fadd" "r0" "r1"))
        ; mul 规则
        (rule (when (= op "mul")) (emit "fmul" "r0" "r1"))
    "#;
    let rules = run(|f| load_rules_from_src(src, f)).unwrap();
    assert_eq!(rules.len(), 2, "应加载 2 条规则");
    let ag = make_arch(
        Target::Cuda,
        vec![ArchOp::KernelCall {
            name: "add".into(),
            inputs: vec![],
            outputs: vec![],
        }],
    );
    let ins = run(|f| select_with_rules(&ag, &rules, f)).unwrap();
    assert_eq!(ins[0].op, "fadd");
}

#[test]
fn unbalanced_parens_error() {
    let src = r#"(rule (when (= op "add") (emit "fadd"))"#; // 少一个 )
    let err = run(|f| load_rules_from_src(src, f)).unwrap_err();
    assert!(matches!(err, NeutronError::Isel(_)));
}

#[test]
fn comments_stripped() {
    let src = "; 整行注释\n(rule (when true) (emit \"x\"))\n; 末尾注释";
    let rules = run(|f| load_rules_from_src(src, f)).unwrap();
    assert_eq!(rules.len(), 1);
}

#[test]
fn loaded_rule_selects_its_instruction() {
    let content = r#"
            (rule (when (= op "custom_op")) (emit "my_instr" "a"))
        "#;
    let rules = run(|f| load_rules_from_src(content, f)).unwrap();
    assert_eq!(rules.len(), 1);
    let ag = make_arch(
        Target::Cuda,
        vec![ArchOp::KernelCall {
            name: "custom_op".into(),
            inputs: vec![],
            outputs: vec![],
        }],
    );
    let ins = run(|f| select_with_rules(&ag, &rules, f)).unwrap();
    assert_eq!(ins[0].op, "my_instr");
}
