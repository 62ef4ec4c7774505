use neutron::arch::{lower, ArchGraph, ArchOp};
use neutron::base::{NeutronError, OpKind};
use neutron::common::Target;
use neutron::graph::Graph;
use neutron::isel::defaults::default_rules;
use neutron::isel::rules::{load_rules_from_src, parse_rule, Rule};
use neutron::isel::select::{select, select_with_rules};
use neutron::lisp::show::is_same;
use neutron::lisp::{FloatAnswer, FloatRequest, Floats, Outcome};
use neutron::validate::has_registers;

fn answer(q: &FloatRequest) -> FloatAnswer {
    let f = f64::from_bits;
    match q {
        FloatRequest::Add(a, b) => FloatAnswer::Bits((f(*a) + f(*b)).to_bits()),
        FloatRequest::Sub(a, b) => FloatAnswer::Bits((f(*a) - f(*b)).to_bits()),
        FloatRequest::Mul(a, b) => FloatAnswer::Bits((f(*a) * f(*b)).to_bits()),
        FloatRequest::Div(a, b) => FloatAnswer::Bits((f(*a) / f(*b)).to_bits()),
        FloatRequest::Parse(s) => FloatAnswer::Bits(s.parse::<f64>().unwrap().to_bits()),
        FloatRequest::Show(a) => FloatAnswer::Text(f(*a).to_string()),
        FloatRequest::Debug(a) => FloatAnswer::Text(format!("{:?}", f(*a))),
        FloatRequest::Fixed(a, n) => FloatAnswer::Text(format!("{:.*}", *n as usize, f(*a))),
    }
}

fn run<T, E>(mut op: impl FnMut(&mut Floats) -> Outcome<T, E>) -> Result<T, E> {
    let mut floats = Floats::new();
    loop {
        floats.rewind();
        match op(&mut floats) {
            Outcome::Done(t) => return Ok(t),
            Outcome::Failed(e) => return Err(e),
            Outcome::Stuck => panic!("stuck"),
            Outcome::Needs(q) => floats.answer(answer(&q)),
        }
    }
}

fn load(src: &str) -> Result<Vec<Rule>, NeutronError> {
    run(|f| load_rules_from_src(src, f))
}

fn call(name: &str) -> ArchGraph {
    let mut ag = ArchGraph::new(Target::Cuda);
    ag.add(ArchOp::KernelCall { name: name.to_string(), inputs: vec![3], outputs: vec![4] });
    ag
}

#[test]
fn default_rules_are_what_their_source_says() {
    let rules = default_rules();
    assert_eq!(rules.len(), 32);
    for r in &rules {
        let again = run(|f| parse_rule(&r.src, f)).unwrap();
        assert!(is_same(&r.cond, &again.cond), "{}", r.src);
        assert!(is_same(&r.emit, &again.emit), "{}", r.src);
        assert_eq!(r.src, again.src);
    }
    assert_eq!(rules[0].src, "(rule (when (= op \"add\"))    (emit \"fadd\"  \"r0\" \"r1\"))");
    assert_eq!(rules[31].src, "(rule (when (= op \"custom\")) (emit \"custom\" \"x\"))");
}

#[test]
fn default_rules_select_for_every_operator() {
    for (kind, op) in [
        (OpKind::Add, "fadd"),
        (OpKind::MatMul, "mma"),
        (OpKind::Sigmoid, "sigm"),
        (OpKind::ReduceMean, "rmean"),
        (OpKind::Softmax, "sm"),
        (OpKind::LayerNorm, "ln"),
        (OpKind::Placeholder, "load"),
        (OpKind::Return, "store"),
        (OpKind::Constant, "const"),
        (OpKind::Custom, "custom"),
    ] {
        let mut g = Graph::new("one");
        g.add_node(kind);
        let ins = select(&lower(&g, Target::Cpu).unwrap()).unwrap();
        assert_eq!(ins[0].op, op);
    }
}

#[test]
fn errors_of_rules() {
    let err = |s: &str| run(|f| parse_rule(s, f)).unwrap_err().message();
    assert_eq!(err("(rule"), "指令选择错误: 规则解析失败: 未闭合的 '('");
    assert_eq!(err("42"), "指令选择错误: 规则必须是 list");
    assert_eq!(err("(when true)"), "指令选择错误: 规则必须以 (rule ...) 开头");
    assert_eq!(err("(rule 1)"), "指令选择错误: rule 子句必须是 list");
    assert_eq!(err("(rule (when))"), "指令选择错误: when 缺少条件表达式");
    assert_eq!(err("(rule (\"if\" 1.5))"), "指令选择错误: 未知 rule 子句: Str(\"if\")");
    assert_eq!(err("(rule (2.0))"), "指令选择错误: 未知 rule 子句: Float(2.0)");
    assert!(run(|f| parse_rule("(rule ())", f)).is_ok());
}

#[test]
fn errors_of_rule_files() {
    assert_eq!(
        load("; c\n  rule").unwrap_err().message(),
        "指令选择错误: 规则源第 6 字节处期望 '('，得到 'r'"
    );
    assert_eq!(
        load("\n'").unwrap_err().message(),
        "指令选择错误: 规则源第 1 字节处期望 '('，得到 '\\''"
    );
    assert_eq!(load("(rule (when true)").unwrap_err().message(), "指令选择错误: 规则源括号不配平");
    assert!(load("").unwrap().is_empty());
    assert!(load(" ; only a comment").unwrap().is_empty());
    assert_eq!(load("(rule ; ) not closing\n (when true))(rule)").unwrap().len(), 2);
}

#[test]
fn errors_of_selection() {
    let sel = |src: &str| {
        let rules = load(src).unwrap();
        run(|f| select_with_rules(&call("add"), &rules, f)).unwrap_err().message()
    };
    assert_eq!(
        sel(""),
        "指令选择错误: 无规则匹配 op: KernelCall { name: \"add\", inputs: [3], outputs: [4] }（idx 0）"
    );
    assert_eq!(
        sel("(rule (when (f)) (emit \"x\"))"),
        "指令选择错误: 规则条件求值失败 [(rule (when (f)) (emit \"x\"))]: 未知函数: f"
    );
    assert_eq!(
        sel("(rule (when true) (emit y))"),
        "指令选择错误: emit 参数求值失败 [(rule (when true) (emit y))]: 未绑定符号: y"
    );
    assert_eq!(sel("(rule (when true))"), "指令选择错误: emit 必须是 list");
}

#[test]
fn a_rule_that_emits_nothing_gets_stuck() {
    let rules = load("(rule (when true) (emit))").unwrap();
    let mut floats = Floats::new();
    assert!(matches!(select_with_rules(&call("add"), &rules, &mut floats), Outcome::Stuck));
}

#[test]
fn the_first_rule_that_applies_decides() {
    let src = "(rule (when (= op \"mul\")) (emit \"a\")) (rule (when (= idx 0)) (emit (str target \"_\" op \"_\" 0.5))) (rule (when true) (emit \"c\"))";
    let rules = load(src).unwrap();
    let ins = run(|f| select_with_rules(&call("add"), &rules, f)).unwrap();
    assert_eq!(ins[0].op, "cuda_add_0.5");
}

#[test]
fn registers_are_counted() {
    assert!(has_registers(&call("add")));
}
