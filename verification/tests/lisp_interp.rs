use neutron::lisp::interp::Interp;
use neutron::lisp::parser::parse;
use neutron::lisp::{FloatAnswer, FloatRequest, Floats, Outcome, Val};

fn answer(q: &FloatRequest) -> FloatAnswer {
    let f = f64::from_bits;
    match q {
        FloatRequest::Add(a, b) => FloatAnswer::Bits((f(*a) + f(*b)).to_bits()),
        FloatRequest::Sub(a, b) => FloatAnswer::Bits((f(*a) - f(*b)).to_bits()),
        FloatRequest::Mul(a, b) => FloatAnswer::Bits((f(*a) * f(*b)).to_bits()),
        FloatRequest::Div(a, b) => FloatAnswer::Bits((f(*a) / f(*b)).to_bits()),
        FloatRequest::Parse(s) => FloatAnswer::Bits(s.parse::<f64>().unwrap().to_bits()),
        FloatRequest::Show(a) => FloatAnswer::Text(f(*a).to_string()),
        FloatRequest::Debug(a) => FloatAnswer::Text(format!("{:?}", f(*a))),
        FloatRequest::Fixed(a, n) => FloatAnswer::Text(format!("{:.*}", *n as usize, f(*a))),
    }
}

fn run<T, E>(mut op: impl FnMut(&mut Floats) -> Outcome<T, E>) -> Result<T, E> {
    let mut floats = Floats::new();
    loop {
        floats.rewind();
        match op(&mut floats) {
            Outcome::Done(t) => return Ok(t),
            Outcome::Failed(e) => return Err(e),
            Outcome::Stuck => panic!("stuck"),
            Outcome::Needs(q) => floats.answer(answer(&q)),
        }
    }
}

#[test]
fn evals_arithmetic() {
    assert!(matches!(eval_str("(+ 1 2 3)"), Val::Int(6)));
}

#[test]
fn evals_if() {
    assert!(matches!(eval_str("(if (< 1 2) 10 20)"), Val::Int(10)));
}

fn eval_str(src: &str) -> Val {
    let v = run(|f| parse(src, f)).unwrap();
    let interp = Interp::new();
    run(|f| interp.eval(&v, f)).unwrap()
}

fn eval_err(src: &str) -> String {
    let v = run(|f| parse(src, f)).unwrap();
    let interp = Interp::new();
    run(|f| interp.eval(&v, f)).unwrap_err()
}

#[test]
fn sub_and_mul_work() {
    assert!(matches!(eval_str("(- 10 3 2)"), Val::Int(5)));
    assert!(matches!(eval_str("(* 2 3 4)"), Val::Int(24)));
    assert!(matches!(eval_str("(- 5)"), Val::Int(5)));
    assert!(matches!(eval_str("(* 7)"), Val::Int(7)));
}

#[test]
fn mixed_int_float_promotes_to_float() {
    match eval_str("(+ 1 2.5)") {
        Val::Float(f) => assert!((f64::from_bits(f) - 3.5).abs() < 1e-12),
        other => panic!("期望 Float，得到 {:?}", other),
    }
    match eval_str("(- 10.0 3)") {
        Val::Float(f) => assert!((f64::from_bits(f) - 7.0).abs() < 1e-12),
        other => panic!("期望 Float，得到 {:?}", other),
    }
    match eval_str("(* 2.0 3)") {
        Val::Float(f) => assert!((f64::from_bits(f) - 6.0).abs() < 1e-12),
        _ => panic!("期望 Float"),
    }
}

#[test]
fn division_int_and_float() {
    assert!(matches!(eval_str("(/ 10 2)"), Val::Int(5)));
    match eval_str("(/ 10.0 3)") {
        Val::Float(f) => assert!((f64::from_bits(f) - 10.0 / 3.0).abs() < 1e-12),
        _ => panic!("期望 Float"),
    }
    assert!(matches!(eval_str("(/ -7 2)"), Val::Int(-3)));
}

#[test]
fn division_by_zero_errors() {
    assert!(eval_err("(/ 5 0)").contains("除零"));
    assert!(eval_err("(/ 5.0 0.0)").contains("除零"));
}

#[test]
fn short_circuit_and_or() {
    assert!(matches!(eval_str("(and true true)"), Val::Bool(true)));
    assert!(matches!(eval_str("(and true false)"), Val::Bool(false)));
    assert!(matches!(
        eval_str("(and false undefined-sym)"),
        Val::Bool(false)
    ));

    assert!(matches!(eval_str("(or false 42)"), Val::Int(42)));
    assert!(matches!(eval_str("(or false false)"), Val::Bool(false)));
    assert!(matches!(eval_str("(or 42 undefined-sym)"), Val::Int(42)));
}

#[test]
fn do_block_returns_last() {
    assert!(matches!(eval_str("(do 1 2 3)"), Val::Int(3)));
    assert!(matches!(eval_str("(do)"), Val::Nil));
}

#[test]
fn quote_returns_unevaled() {
    match eval_str("(quote sym)") {
        Val::Sym(s) => assert_eq!(s, "sym"),
        other => panic!("期望 Sym，得到 {:?}", other),
    }
    match eval_str("(quote (1 2 3))") {
        Val::List(items) => assert_eq!(items.len(), 3),
        _ => panic!("期望 List"),
    }
}

#[test]
fn if_without_else_returns_nil_when_false() {
    assert!(matches!(eval_str("(if false 42)"), Val::Nil));
}

#[test]
fn not_builtin() {
    assert!(matches!(eval_str("(not false)"), Val::Bool(true)));
    assert!(matches!(eval_str("(not nil)"), Val::Bool(true)));
    assert!(matches!(eval_str("(not 42)"), Val::Bool(false)));
}

#[test]
fn equality_and_inequality() {
    assert!(matches!(eval_str("(= 1 1)"), Val::Bool(true)));
    assert!(matches!(eval_str("(= 1 2)"), Val::Bool(false)));
    assert!(matches!(eval_str("(< 1 2)"), Val::Bool(true)));
    assert!(matches!(eval_str("(< 2 1)"), Val::Bool(false)));
    assert!(matches!(eval_str(r#"(str= "foo" "foo")"#), Val::Bool(true)));
    assert!(matches!(
        eval_str(r#"(str= "foo" "bar")"#),
        Val::Bool(false)
    ));
}

#[test]
fn str_concatenation() {
    match eval_str(r#"(str "hello" " " "world")"#) {
        Val::Str(s) => assert_eq!(s, "hello world"),
        _ => panic!("期望 Str"),
    }
}

#[test]
fn unbound_symbol_errors() {
    let err = eval_err("undefined_sym");
    assert!(err.contains("未绑定符号"));
}

#[test]
fn unknown_function_errors() {
    let err = eval_err("(unknown_fn 1 2)");
    assert!(err.contains("未知函数"));
}

#[test]
fn wrong_arity_errors() {
    assert!(eval_err("(/ 1 2 3)").contains("2 个参数"));
    assert!(eval_err("(< 1 2 3)").contains("2 个参数"));
    assert!(eval_err("(not true false)").contains("1 个参数"));
}

#[test]
fn nil_evaluates_to_nil() {
    assert!(matches!(eval_str("nil"), Val::Nil));
    assert!(matches!(eval_str("true"), Val::Bool(true)));
    assert!(matches!(eval_str("false"), Val::Bool(false)));
}

#[test]
fn empty_list_evaluates_to_empty_list() {
    assert!(matches!(eval_str("()"), Val::List(_)));
}
