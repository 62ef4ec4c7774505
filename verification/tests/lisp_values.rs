use neutron::lisp::interp::{call_builtin, is_truthy, Interp};
use neutron::lisp::parser::{atom_to_val, parse};
use neutron::lisp::show::{detail, is_same, show};
use neutron::lisp::{FloatAnswer, FloatRequest, Floats, Outcome, Val};

fn answer(q: &FloatRequest) -> FloatAnswer {
    let f = f64::from_bits;
    match q {
        FloatRequest::Add(a, b) => FloatAnswer::Bits((f(*a) + f(*b)).to_bits()),
        FloatRequest::Sub(a, b) => FloatAnswer::Bits((f(*a) - f(*b)).to_bits()),
        FloatRequest::Mul(a, b) => FloatAnswer::Bits((f(*a) * f(*b)).to_bits()),
        FloatRequest::Div(a, b) => FloatAnswer::Bits((f(*a) / f(*b)).to_bits()),
        FloatRequest::Parse(s) => FloatAnswer::Bits(s.parse::<f64>().unwrap().to_bits()),
        FloatRequest::Show(a) => FloatAnswer::Text(f(*a).to_string()),
        FloatRequest::Debug(a) => FloatAnswer::Text(format!("{:?}", f(*a))),
        FloatRequest::Fixed(a, n) => FloatAnswer::Text(format!("{:.*}", *n as usize, f(*a))),
    }
}

fn run<T, E>(mut op: impl FnMut(&mut Floats) -> Outcome<T, E>) -> Result<T, E> {
    let mut floats = Floats::new();
    loop {
        floats.rewind();
        match op(&mut floats) {
            Outcome::Done(t) => return Ok(t),
            Outcome::Failed(e) => return Err(e),
            Outcome::Stuck => panic!("stuck"),
            Outcome::Needs(q) => floats.answer(answer(&q)),
        }
    }
}

fn read(src: &str) -> Val {
    run(|f| parse(src, f)).unwrap()
}

fn eval(src: &str) -> Result<Val, String> {
    let v = read(src);
    let interp = Interp::new();
    run(|f| interp.eval(&v, f))
}

fn text(v: &Val) -> String {
    run(|f| show(v, f)).unwrap()
}

#[test]
fn atoms_are_told_apart() {
    let atom = |s: &str| run(|f| atom_to_val(s, f)).unwrap();
    assert!(matches!(atom("-9223372036854775808"), Val::Int(i64::MIN)));
    assert!(matches!(atom("+7"), Val::Int(7)));
    for s in ["9223372036854775808", "1e3", ".5", "5.", "-1.5E-3", "inf", "-Infinity", "NaN"] {
        match atom(s) {
            Val::Float(b) => {
                let x: f64 = s.parse().unwrap();
                assert!(b == x.to_bits() || x.is_nan(), "{s}");
            }
            other => panic!("{s}: {other:?}"),
        }
    }
    for s in ["e5", ".", "-", "+", "1e", "1.2.3", "infi", "0x10", "1_000", ""] {
        assert!(matches!(atom(s), Val::Sym(ref t) if t == s), "{s}");
    }
}

#[test]
fn parse_errors_say_what_is_missing() {
    let err = |s: &str| run(|f| parse(s, f)).unwrap_err();
    assert_eq!(err("(+ 1"), "未闭合的 '('");
    assert_eq!(err("\"abc"), "未闭合的字符串字面量");
    assert_eq!(err("\"abc\\"), "转义序列意外结束");
}

#[test]
fn a_closing_parenthesis_alone_is_an_empty_symbol() {
    assert!(matches!(read(")"), Val::Sym(ref s) if s.is_empty()));
}

#[test]
fn texts_of_expressions() {
    let v = read("(a \"b c\" 1 -2.50 true nil (x))");
    assert_eq!(text(&v), "(a b c 1 -2.5 true nil (x))");
    assert_eq!(
        run(|f| detail(&v, f)).unwrap(),
        "List([Sym(\"a\"), Str(\"b c\"), Int(1), Float(-2.5), Bool(true), Nil, List([Sym(\"x\")])])"
    );
    let l = Val::Lambda { params: vec!["p".to_string(), "q".to_string()], body: vec![Val::Int(1)] };
    assert_eq!(text(&l), "<lambda>");
    assert_eq!(
        run(|f| detail(&l, f)).unwrap(),
        "Lambda { params: [\"p\", \"q\"], body: [Int(1)] }"
    );
    let one = read("1.0");
    assert_eq!(text(&one), "1");
    assert_eq!(run(|f| detail(&one, f)).unwrap(), "Float(1.0)");
}

#[test]
fn equality_follows_floats() {
    let nan = Val::Float(f64::NAN.to_bits());
    assert!(!is_same(&nan, &nan));
    assert!(is_same(&Val::Float(0.0f64.to_bits()), &Val::Float((-0.0f64).to_bits())));
    assert!(!is_same(&Val::Int(1), &Val::Float(1.0f64.to_bits())));
    assert!(is_same(&read("(a (b) \"c\")"), &read("(a (b) \"c\")")));
    assert!(!is_same(&read("a"), &read("\"a\"")));
}

#[test]
fn complaints_of_the_evaluator() {
    for (src, complaint) in [
        ("(if)", "if 缺少条件"),
        ("(if true)", "if 缺少真分支"),
        ("(1 2)", "调用头部必须是符号"),
        ("x", "未绑定符号: x"),
        ("(f)", "未知函数: f"),
        ("(-)", "- 需要至少一个参数"),
        ("(+ 1 \"a\")", "+ 不支持类型: a"),
        ("(- \"a\")", "- 不支持类型: a"),
        ("(* (quote (1 2)) 3)", "* 不支持类型: (1 2)"),
        ("(/ 1)", "/ 需要恰好 2 个参数"),
        ("(/ 1 0)", "除零"),
        ("(/ 1.0 -0.0)", "除零"),
        ("(= 1)", "= 需要恰好 2 个参数"),
        ("(< 1)", "< 需要恰好 2 个参数"),
        ("(< 1 \"a\")", "期望数值: a"),
        ("(not)", "not 需要恰好 1 个参数"),
        ("(str= \"a\")", "str= 需要恰好 2 个参数"),
    ] {
        assert_eq!(eval(src).unwrap_err(), complaint, "{src}");
    }
}

#[test]
fn values_of_expressions() {
    for (src, value) in [
        ("(+)", "0"),
        ("(*)", "1"),
        ("(+ 1 2.5)", "3.5"),
        ("(- 1.5)", "1.5"),
        ("(- 1 0.25 0.25)", "0.5"),
        ("(/ 7 -2)", "-3"),
        ("(/ 1 4.0)", "0.25"),
        ("(< 9007199254740993 9007199254740992)", "false"),
        ("(< 1 1.5)", "true"),
        ("(= 2 2.0)", "false"),
        ("(str \"a\" 1 2.5 nil true (quote (b c)))", "a12.5niltrue(b c)"),
        ("(str= 1 \"1\")", "true"),
        ("(and)", "true"),
        ("(and 1 2)", "2"),
        ("(and 1 nil 2)", "nil"),
        ("(or)", "false"),
        ("(or nil false 3)", "3"),
        ("(do 1 (+ 1 1))", "2"),
        ("(quote)", "nil"),
        ("(if nil 1)", "nil"),
        ("(if 0 1 2)", "1"),
        ("()", "()"),
        ("\"s\"", "s"),
    ] {
        assert_eq!(text(&eval(src).unwrap()), value, "{src}");
    }
}

#[test]
fn operands_behind_the_deciding_one_are_not_looked_at() {
    assert_eq!(text(&eval("(and false (/ 1 0))").unwrap()), "false");
    assert_eq!(text(&eval("(or true (undefined))").unwrap()), "true");
    assert_eq!(text(&eval("(if true 1 (undefined))").unwrap()), "1");
    assert_eq!(text(&eval("(if false (undefined) 2)").unwrap()), "2");
}

#[test]
fn integer_overflow_gets_stuck() {
    for src in ["(+ 9223372036854775807 1)", "(- -9223372036854775808 1)", "(* 9223372036854775807 2)", "(/ -9223372036854775808 -1)"] {
        let v = read(src);
        let mut floats = Floats::new();
        assert!(matches!(Interp::new().eval(&v, &mut floats), Outcome::Stuck), "{src}");
    }
}

#[test]
fn requests_come_one_after_the_other() {
    let v = Val::List(vec![
        Val::Sym("+".to_string()),
        Val::Float(1.5f64.to_bits()),
        Val::Float(2.0f64.to_bits()),
    ]);
    let interp = Interp::new();
    let mut floats = Floats::new();
    let zero = 0.0f64.to_bits();
    match interp.eval(&v, &mut floats) {
        Outcome::Needs(FloatRequest::Add(a, b)) => assert_eq!((a, b), (zero, 1.5f64.to_bits())),
        other => panic!("{other:?}"),
    }
    floats.answer(FloatAnswer::Bits(1.5f64.to_bits()));
    floats.rewind();
    match interp.eval(&v, &mut floats) {
        Outcome::Needs(FloatRequest::Add(a, b)) => assert_eq!((a, b), (1.5f64.to_bits(), 2.0f64.to_bits())),
        other => panic!("{other:?}"),
    }
    floats.answer(FloatAnswer::Bits(3.5f64.to_bits()));
    floats.rewind();
    assert!(matches!(interp.eval(&v, &mut floats), Outcome::Done(Val::Float(b)) if b == 3.5f64.to_bits()));
}

#[test]
fn later_bindings_hide_earlier_ones() {
    let mut interp = Interp::new();
    interp.bind("x", Val::Int(1));
    interp.bind("x", Val::Int(2));
    assert!(matches!(interp.lookup("x"), Some(Val::Int(2))));
    assert!(interp.lookup("y").is_none());
    assert!(!is_truthy(&Val::Nil) && !is_truthy(&Val::Bool(false)) && is_truthy(&Val::Int(0)));
    let r = run(|f| call_builtin("not", &vec![Val::Nil], f)).unwrap();
    assert!(matches!(r, Val::Bool(true)));
}

#[test]
fn further_answers_change_nothing() {
    let v = read("(str (+ 1 0.5) \"|\" 2.25)");
    let interp = Interp::new();
    let mut floats = Floats::new();
    let (value, used) = {
        let mut used = 0;
        loop {
            floats.rewind();
            match interp.eval(&v, &mut floats) {
                Outcome::Done(v) => break (v, used),
                Outcome::Needs(q) => {
                    floats.answer(answer(&q));
                    used += 1;
                }
                other => panic!("{other:?}"),
            }
        }
    };
    assert!(matches!(&value, Val::Str(s) if s == "1.5|2.25"));
    assert_eq!(used, 4);
    floats.answer(FloatAnswer::Text("unused".to_string()));
    floats.answer(FloatAnswer::Bits(0));
    floats.rewind();
    match interp.eval(&v, &mut floats) {
        Outcome::Done(again) => assert!(is_same(&again, &value)),
        other => panic!("{other:?}"),
    }
}
