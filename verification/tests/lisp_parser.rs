use neutron::lisp::parser::parse;
use neutron::lisp::{FloatAnswer, FloatRequest, Floats, Outcome, Val};

fn answer(q: &FloatRequest) -> FloatAnswer {
    let f = f64::from_bits;
    match q {
        FloatRequest::Add(a, b) => FloatAnswer::Bits((f(*a) + f(*b)).to_bits()),
        FloatRequest::Sub(a, b) => FloatAnswer::Bits((f(*a) - f(*b)).to_bits()),
        FloatRequest::Mul(a, b) => FloatAnswer::Bits((f(*a) * f(*b)).to_bits()),
        FloatRequest::Div(a, b) => FloatAnswer::Bits((f(*a) / f(*b)).to_bits()),
        FloatRequest::Parse(s) => FloatAnswer::Bits(s.parse::<f64>().unwrap().to_bits()),
        FloatRequest::Show(a) => FloatAnswer::Text(f(*a).to_string()),
        FloatRequest::Debug(a) => FloatAnswer::Text(format!("{:?}", f(*a))),
        FloatRequest::Fixed(a, n) => FloatAnswer::Text(format!("{:.*}", *n as usize, f(*a))),
    }
}

fn run<T, E>(mut op: impl FnMut(&mut Floats) -> Outcome<T, E>) -> Result<T, E> {
    let mut floats = Floats::new();
    loop {
        floats.rewind();
        match op(&mut floats) {
            Outcome::Done(t) => return Ok(t),
            Outcome::Failed(e) => return Err(e),
            Outcome::Stuck => panic!("stuck"),
            Outcome::Needs(q) => floats.answer(answer(&q)),
        }
    }
}

fn read(src: &str) -> Result<Val, String> {
    run(|f| parse(src, f))
}

#[test]
fn parses_atoms() {
    assert!(matches!(read("42").unwrap(), Val::Int(42)));
    assert!(matches!(read("3.14").unwrap(), Val::Float(_)));
    assert!(matches!(read("foo").unwrap(), Val::Sym(_)));
}

#[test]
fn parses_list() {
    let v = read("(add 1 2)").unwrap();
    let items = v.as_list().unwrap();
    assert_eq!(items.len(), 3);
}

#[test]
fn parses_bool_literals() {
    assert!(matches!(read("nil").unwrap(), Val::Nil));
    assert!(matches!(read("true").unwrap(), Val::Bool(true)));
    assert!(matches!(read("false").unwrap(), Val::Bool(false)));
}

#[test]
fn parses_string_with_escapes() {
    let v = read(r#""hello\nworld""#).unwrap();
    match v {
        Val::Str(s) => assert_eq!(s, "hello\nworld"),
        other => panic!("期望 Str，得到 {:?}", other),
    }

    let v = read(r#""tab\there""#).unwrap();
    match v {
        Val::Str(s) => assert_eq!(s, "tab\there"),
        _ => panic!("期望 Str"),
    }

    let v = read(r#""quote \"inside\"""#).unwrap();
    match v {
        Val::Str(s) => assert_eq!(s, "quote \"inside\""),
        _ => panic!("期望 Str"),
    }
}

#[test]
fn parses_nested_lists() {
    let v = read("(+ 1 (+ 2 3) 4)").unwrap();
    let outer = v.as_list().unwrap();
    assert_eq!(outer.len(), 4);
    let inner = outer[2].as_list().unwrap();
    assert_eq!(inner.len(), 3);
}

#[test]
fn parses_empty_list() {
    let v = read("()").unwrap();
    let items = v.as_list().unwrap();
    assert!(items.is_empty());
}

#[test]
fn parses_with_comments() {
    let v = read("; 这是注释\n(+ 1 2) ; 行尾注释").unwrap();
    let items = v.as_list().unwrap();
    assert_eq!(items.len(), 3);
}

#[test]
fn parses_quote_shorthand() {
    let v = read("'foo").unwrap();
    match v {
        Val::Str(s) => assert_eq!(s, "quote"),
        _ => panic!("期望 Str(\"quote\")"),
    }
}

#[test]
fn parses_empty_input_as_nil() {
    let v = read("").unwrap();
    assert!(matches!(v, Val::Nil));

    let v = read("   ").unwrap();
    assert!(matches!(v, Val::Nil));

    let v = read("; just a comment").unwrap();
    assert!(matches!(v, Val::Nil));
}

#[test]
fn parse_unclosed_paren_errors() {
    assert!(read("(+ 1 2").is_err());
    assert!(read("((()").is_err());
}

#[test]
fn parse_unclosed_string_errors() {
    assert!(read(r#""unclosed"#).is_err());
}
