//! The evaluator.

use vstd::prelude::*;
use crate::float_bits::{ONE, ZERO, double_of, equal, float_eq, float_lt, int_to_double, less};
use crate::lisp::show::{is_same, same, show, shown};
use crate::lisp::{
    FloatRequest, Floats, FloatsModel, Outcome, OutcomeModel, RequestModel, Val, ValModel, models, pass_on,
};
use crate::text::str_eq;

verus! {

/// What names are bound to.
pub type Env = Map<Seq<char>, ValModel>;

/// An evaluator with its bindings; a later binding of a name hides an earlier one.
#[derive(Debug)]
pub struct Interp {
    pub vars: Vec<(String, Val)>,
}

/// The bindings that a sequence of pairs makes, one after the other.
pub open spec fn bindings(s: Seq<(String, Val)>) -> Env
    decreases s.len(),
{
    if s.len() == 0 {
        Map::empty()
    } else {
        bindings(s.drop_last()).insert(s.last().0@, s.last().1@)
    }
}

/// Whether a value counts as true: it is neither nil nor false.
pub open spec fn truthy(v: ValModel) -> bool {
    !(v is Nil) && v != ValModel::Bool(false)
}

pub fn is_truthy(v: &Val) -> (r: bool)
    ensures
        r == truthy(v@),
{
    match v {
        Val::Nil | Val::Bool(false) => false,
        _ => true,
    }
}

/// The value of an expression: atoms stand for themselves, symbols for what
/// they are bound to, and a list is a special form or a call.
pub open spec fn evaluated(env: Env, e: ValModel, f: FloatsModel) -> (
    OutcomeModel<ValModel>,
    FloatsModel,
)
    decreases e, 0nat,
{
    match e {
        ValModel::Sym(s) => if env.contains_key(s) {
            (OutcomeModel::Done(env[s]), f)
        } else {
            (OutcomeModel::Failed("未绑定符号: "@ + s), f)
        },
        ValModel::List(items) => if items.len() == 0 {
            (OutcomeModel::Done(ValModel::List(Seq::empty())), f)
        } else {
            match items[0] {
                ValModel::Sym(h) => form(env, h, items, f),
                _ => (OutcomeModel::Failed("调用头部必须是符号"@), f),
            }
        },
        _ => (OutcomeModel::Done(e), f),
    }
}

/// The value of the list `items` with the head `h`.
pub open spec fn form(env: Env, h: Seq<char>, items: Seq<ValModel>, f: FloatsModel) -> (
    OutcomeModel<ValModel>,
    FloatsModel,
)
    decreases items, items.len() + 2,
{
    if h == "quote"@ {
        (
            OutcomeModel::Done(
                if items.len() > 1 {
                    items[1]
                } else {
                    ValModel::Nil
                },
            ),
            f,
        )
    } else if h == "if"@ {
        if items.len() < 2 {
            (OutcomeModel::Failed("if 缺少条件"@), f)
        } else {
            match evaluated(env, items[1], f) {
                (OutcomeModel::Done(c), g) => if truthy(c) {
                    if items.len() < 3 {
                        (OutcomeModel::Failed("if 缺少真分支"@), g)
                    } else {
                        evaluated(env, items[2], g)
                    }
                } else if items.len() < 4 {
                    (OutcomeModel::Done(ValModel::Nil), g)
                } else {
                    evaluated(env, items[3], g)
                },
                (o, g) => (o, g),
            }
        }
    } else if h == "do"@ {
        do_from(env, items, 1, ValModel::Nil, f)
    } else if h == "and"@ {
        and_from(env, items, 1, ValModel::Bool(true), f)
    } else if h == "or"@ {
        or_from(env, items, 1, f)
    } else {
        match all_from(env, items, 1, Seq::empty(), f) {
            (OutcomeModel::Done(args), g) => called(h, args, g),
            (o, g) => (o.passed_on(), g),
        }
    }
}

/// The value of the last of the items from `k` on, or `last` if there is none.
pub open spec fn do_from(env: Env, items: Seq<ValModel>, k: nat, last: ValModel, f: FloatsModel) -> (
    OutcomeModel<ValModel>,
    FloatsModel,
)
    decreases items, items.len() + 1 - k,
{
    if k >= items.len() {
        (OutcomeModel::Done(last), f)
    } else {
        match evaluated(env, items[k as int], f) {
            (OutcomeModel::Done(v), g) => do_from(env, items, k + 1, v, g),
            (o, g) => (o, g),
        }
    }
}

/// The first value that does not count as true of the items from `k` on, or
/// the last value.
pub open spec fn and_from(env: Env, items: Seq<ValModel>, k: nat, last: ValModel, f: FloatsModel) -> (
    OutcomeModel<ValModel>,
    FloatsModel,
)
    decreases items, items.len() + 1 - k,
{
    if k >= items.len() {
        (OutcomeModel::Done(last), f)
    } else {
        match evaluated(env, items[k as int], f) {
            (OutcomeModel::Done(v), g) => if truthy(v) {
                and_from(env, items, k + 1, v, g)
            } else {
                (OutcomeModel::Done(v), g)
            },
            (o, g) => (o, g),
        }
    }
}

/// The first value that counts as true of the items from `k` on, or false.
pub open spec fn or_from(env: Env, items: Seq<ValModel>, k: nat, f: FloatsModel) -> (
    OutcomeModel<ValModel>,
    FloatsModel,
)
    decreases items, items.len() + 1 - k,
{
    if k >= items.len() {
        (OutcomeModel::Done(ValModel::Bool(false)), f)
    } else {
        match evaluated(env, items[k as int], f) {
            (OutcomeModel::Done(v), g) => if truthy(v) {
                (OutcomeModel::Done(v), g)
            } else {
                or_from(env, items, k + 1, g)
            },
            (o, g) => (o, g),
        }
    }
}

/// `acc`, then the values of the items from `k` on.
pub open spec fn all_from(
    env: Env,
    items: Seq<ValModel>,
    k: nat,
    acc: Seq<ValModel>,
    f: FloatsModel,
) -> (OutcomeModel<Seq<ValModel>>, FloatsModel)
    decreases items, items.len() + 1 - k,
{
    if k >= items.len() {
        (OutcomeModel::Done(acc), f)
    } else {
        match evaluated(env, items[k as int], f) {
            (OutcomeModel::Done(v), g) => all_from(env, items, k + 1, acc.push(v), g),
            (o, g) => (o.passed_on(), g),
        }
    }
}

/// The operators that fold a list of numbers.
#[derive(Debug, Clone, Copy, PartialEq, Eq, Structural)]
pub enum Fold {
    Plus,
    Minus,
    Times,
}

/// The exact result of an operator on integers.
pub open spec fn exact(op: Fold, a: int, b: int) -> int {
    match op {
        Fold::Plus => a + b,
        Fold::Minus => a - b,
        Fold::Times => a * b,
    }
}

/// What is asked for to apply an operator to floats.
pub open spec fn float_step(op: Fold, a: u64, b: u64) -> RequestModel {
    match op {
        Fold::Plus => RequestModel::Add(a, b),
        Fold::Minus => RequestModel::Sub(a, b),
        Fold::Times => RequestModel::Mul(a, b),
    }
}

/// Where folding integers starts.
pub open spec fn int_start(op: Fold) -> i64 {
    if op == Fold::Times {
        1
    } else {
        0
    }
}

/// Where folding floats starts.
pub open spec fn float_start(op: Fold) -> u64 {
    if op == Fold::Times {
        ONE
    } else {
        ZERO
    }
}

/// The complaint about an argument that is no number.
pub open spec fn not_a_number(op: Fold) -> Seq<char> {
    match op {
        Fold::Plus => "+ 不支持类型: "@,
        Fold::Minus => "- 不支持类型: "@,
        Fold::Times => "* 不支持类型: "@,
    }
}

/// Folds the integers among the arguments from `k` on; says also whether there
/// is a float among them. Subtraction starts with the first argument.
pub open spec fn int_pass(
    op: Fold,
    args: Seq<ValModel>,
    k: nat,
    acc: i64,
    float: bool,
    f: FloatsModel,
) -> (OutcomeModel<(i64, bool)>, FloatsModel)
    decreases args.len() - k,
{
    if k >= args.len() {
        (OutcomeModel::Done((acc, float)), f)
    } else {
        match args[k as int] {
            ValModel::Int(i) => {
                let next = if op == Fold::Minus && k == 0 {
                    i as int
                } else {
                    exact(op, acc as int, i as int)
                };
                if i64::MIN <= next <= i64::MAX {
                    int_pass(op, args, k + 1, next as i64, float, f)
                } else {
                    (OutcomeModel::Stuck, f)
                }
            },
            ValModel::Float(_) => int_pass(op, args, k + 1, acc, true, f),
            v => match shown(v, f) {
                (OutcomeModel::Done(t), g) => (OutcomeModel::Failed(not_a_number(op) + t), g),
                (o, g) => (o.passed_on(), g),
            },
        }
    }
}

/// A number as a float; zero for anything else.
pub open spec fn as_double(v: ValModel) -> u64 {
    match v {
        ValModel::Int(i) => double_of(i as int),
        ValModel::Float(x) => x,
        _ => ZERO,
    }
}

/// Folds the arguments from `k` on as floats.
pub open spec fn float_pass(op: Fold, args: Seq<ValModel>, k: nat, acc: u64, f: FloatsModel) -> (
    OutcomeModel<u64>,
    FloatsModel,
)
    decreases args.len() - k,
{
    if k >= args.len() {
        (OutcomeModel::Done(acc), f)
    } else if op == Fold::Minus && k == 0 {
        float_pass(op, args, k + 1, as_double(args[0]), f)
    } else {
        match f.bits_for(float_step(op, acc, as_double(args[k as int]))) {
            (OutcomeModel::Done(b), g) => float_pass(op, args, k + 1, b, g),
            (o, g) => (o, g),
        }
    }
}

/// A list of numbers folded: an integer if all of them are integers, else a float.
pub open spec fn folded(op: Fold, args: Seq<ValModel>, f: FloatsModel) -> (
    OutcomeModel<ValModel>,
    FloatsModel,
) {
    match int_pass(op, args, 0, int_start(op), false, f) {
        (OutcomeModel::Done((acc, float)), g) => if float {
            match float_pass(op, args, 0, float_start(op), g) {
                (OutcomeModel::Done(b), h) => (OutcomeModel::Done(ValModel::Float(b)), h),
                (o, h) => (o.passed_on(), h),
            }
        } else {
            (OutcomeModel::Done(ValModel::Int(acc)), g)
        },
        (o, g) => (o.passed_on(), g),
    }
}

/// A number as a float, or a complaint.
pub open spec fn number(v: ValModel, f: FloatsModel) -> (OutcomeModel<u64>, FloatsModel) {
    match v {
        ValModel::Int(i) => (OutcomeModel::Done(double_of(i as int)), f),
        ValModel::Float(x) => (OutcomeModel::Done(x), f),
        _ => match shown(v, f) {
            (OutcomeModel::Done(t), g) => (OutcomeModel::Failed("期望数值: "@ + t), g),
            (o, g) => (o.passed_on(), g),
        },
    }
}

/// Both arguments as floats, the first one first.
pub open spec fn numbers(a: ValModel, b: ValModel, f: FloatsModel) -> (
    OutcomeModel<(u64, u64)>,
    FloatsModel,
) {
    match number(a, f) {
        (OutcomeModel::Done(x), g) => match number(b, g) {
            (OutcomeModel::Done(y), h) => (OutcomeModel::Done((x, y)), h),
            (o, h) => (o.passed_on(), h),
        },
        (o, g) => (o.passed_on(), g),
    }
}

/// The quotient of two integers, rounded towards zero.
pub open spec fn quotient(a: int, b: int) -> int {
    let q = (if a < 0 {
        -a
    } else {
        a
    }) / (if b < 0 {
        -b
    } else {
        b
    });
    if (a < 0) == (b < 0) {
        q
    } else {
        -q
    }
}

/// The quotient of two numbers: an integer if both are integers, else a float.
pub open spec fn divided(a: ValModel, b: ValModel, f: FloatsModel) -> (
    OutcomeModel<ValModel>,
    FloatsModel,
) {
    if a is Int && b is Int {
        let x = a->Int_0 as int;
        let y = b->Int_0 as int;
        if y == 0 {
            (OutcomeModel::Failed("除零"@), f)
        } else if quotient(x, y) > i64::MAX {
            (OutcomeModel::Stuck, f)
        } else {
            (OutcomeModel::Done(ValModel::Int(quotient(x, y) as i64)), f)
        }
    } else {
        match numbers(a, b, f) {
            (OutcomeModel::Done((x, y)), g) => if float_eq(y, ZERO) {
                (OutcomeModel::Failed("除零"@), g)
            } else {
                match g.bits_for(RequestModel::Div(x, y)) {
                    (OutcomeModel::Done(q), h) => (OutcomeModel::Done(ValModel::Float(q)), h),
                    (o, h) => (o.passed_on(), h),
                }
            },
            (o, g) => (o.passed_on(), g),
        }
    }
}

/// `acc`, then the texts of the arguments from `k` on.
pub open spec fn concat_from(args: Seq<ValModel>, k: nat, acc: Seq<char>, f: FloatsModel) -> (
    OutcomeModel<Seq<char>>,
    FloatsModel,
)
    decreases args.len() - k,
{
    if k >= args.len() {
        (OutcomeModel::Done(acc), f)
    } else {
        match shown(args[k as int], f) {
            (OutcomeModel::Done(t), g) => concat_from(args, k + 1, acc + t, g),
            (o, g) => (o, g),
        }
    }
}

/// The result of a call of the built-in function `h`.
pub open spec fn called(h: Seq<char>, args: Seq<ValModel>, f: FloatsModel) -> (
    OutcomeModel<ValModel>,
    FloatsModel,
) {
    if h == "+"@ {
        folded(Fold::Plus, args, f)
    } else if h == "-"@ {
        if args.len() == 0 {
            (OutcomeModel::Failed("- 需要至少一个参数"@), f)
        } else {
            folded(Fold::Minus, args, f)
        }
    } else if h == "*"@ {
        folded(Fold::Times, args, f)
    } else if h == "/"@ {
        if args.len() != 2 {
            (OutcomeModel::Failed("/ 需要恰好 2 个参数"@), f)
        } else {
            divided(args[0], args[1], f)
        }
    } else if h == "="@ {
        if args.len() != 2 {
            (OutcomeModel::Failed("= 需要恰好 2 个参数"@), f)
        } else {
            (OutcomeModel::Done(ValModel::Bool(same(args[0], args[1]))), f)
        }
    } else if h == "<"@ {
        if args.len() != 2 {
            (OutcomeModel::Failed("< 需要恰好 2 个参数"@), f)
        } else {
            match numbers(args[0], args[1], f) {
                (OutcomeModel::Done((x, y)), g) => (
                    OutcomeModel::Done(ValModel::Bool(float_lt(x, y))),
                    g,
                ),
                (o, g) => (o.passed_on(), g),
            }
        }
    } else if h == "not"@ {
        if args.len() != 1 {
            (OutcomeModel::Failed("not 需要恰好 1 个参数"@), f)
        } else {
            (OutcomeModel::Done(ValModel::Bool(!truthy(args[0]))), f)
        }
    } else if h == "str"@ {
        match concat_from(args, 0, Seq::empty(), f) {
            (OutcomeModel::Done(t), g) => (OutcomeModel::Done(ValModel::Str(t)), g),
            (o, g) => (o.passed_on(), g),
        }
    } else if h == "str="@ {
        if args.len() != 2 {
            (OutcomeModel::Failed("str= 需要恰好 2 个参数"@), f)
        } else {
            match shown(args[0], f) {
                (OutcomeModel::Done(s), g) => match shown(args[1], g) {
                    (OutcomeModel::Done(t), j) => (
                        OutcomeModel::Done(ValModel::Bool(s == t)),
                        j,
                    ),
                    (o, j) => (o.passed_on(), j),
                },
                (o, g) => (o.passed_on(), g),
            }
        }
    } else {
        (OutcomeModel::Failed("未知函数: "@ + h), f)
    }
}

fn checked(op: Fold, a: i64, b: i64) -> (r: Option<i64>)
    ensures
        match r {
            Some(c) => c == exact(op, a as int, b as int),
            None => !(i64::MIN <= exact(op, a as int, b as int) <= i64::MAX),
        },
{
    match op {
        Fold::Plus => a.checked_add(b),
        Fold::Minus => a.checked_sub(b),
        Fold::Times => a.checked_mul(b),
    }
}

fn complaint(head: &str, v: &Val, floats: &mut Floats) -> (r: Outcome<u64>)
    ensures
        (r@, final(floats)@) == (match shown(v@, old(floats)@) {
            (OutcomeModel::Done(t), g) => (OutcomeModel::Failed(head@ + t), g),
            (o, g) => (o.passed_on::<u64>(), g),
        }),
        !(r is Done),
{
    match show(v, floats) {
        Outcome::Done(t) => {
            let mut s = head.to_owned();
            s.append(t.as_str());
            Outcome::Failed(s)
        },
        o => pass_on(o),
    }
}

fn fold_ints(op: Fold, args: &Vec<Val>, floats: &mut Floats) -> (r: Outcome<(i64, bool)>)
    ensures
        (r@, final(floats)@) == int_pass(
            op,
            models(args@),
            0,
            int_start(op),
            false,
            old(floats)@,
        ),
        r is Done ==> forall|i: int|
            0 <= i < args@.len() ==> models(args@)[i] is Int || models(args@)[i] is Float,
{
    let mut acc: i64 = if op == Fold::Times { 1 } else { 0 };
    let mut float: bool = false;
    let mut k: usize = 0;
    while k < args.len()
        invariant
            k <= args@.len(),
            int_pass(op, models(args@), 0, int_start(op), false, old(floats)@) == int_pass(
                op,
                models(args@),
                k as nat,
                acc,
                float,
                floats@,
            ),
            forall|i: int|
                0 <= i < k ==> models(args@)[i] is Int || models(args@)[i] is Float,
        decreases args@.len() - k,
    {
        assert(models(args@)[k as int] == args@[k as int]@);
        match &args[k] {
            Val::Int(i) => {
                if op == Fold::Minus && k == 0 {
                    acc = *i;
                } else {
                    match checked(op, acc, *i) {
                        Some(n) => {
                            acc = n;
                        },
                        None => {
                            return Outcome::Stuck;
                        },
                    }
                }
            },
            Val::Float(_) => {
                float = true;
            },
            v => {
                let head = match op {
                    Fold::Plus => "+ 不支持类型: ",
                    Fold::Minus => "- 不支持类型: ",
                    Fold::Times => "* 不支持类型: ",
                };
                return pass_on(complaint(head, v, floats));
            },
        }
        k += 1;
    }
    Outcome::Done((acc, float))
}

fn double_value(v: &Val) -> (r: u64)
    ensures
        r == as_double(v@),
{
    match v {
        Val::Int(i) => int_to_double(*i),
        Val::Float(x) => *x,
        _ => ZERO,
    }
}

fn fold_floats(op: Fold, args: &Vec<Val>, floats: &mut Floats) -> (r: Outcome<u64>)
    ensures
        (r@, final(floats)@) == float_pass(
            op,
            models(args@),
            0,
            float_start(op),
            old(floats)@,
        ),
{
    let mut acc: u64 = if op == Fold::Times { ONE } else { ZERO };
    let mut k: usize = 0;
    while k < args.len()
        invariant
            k <= args@.len(),
            float_pass(op, models(args@), 0, float_start(op), old(floats)@) == float_pass(
                op,
                models(args@),
                k as nat,
                acc,
                floats@,
            ),
        decreases args@.len() - k,
    {
        assert(models(args@)[k as int] == args@[k as int]@);
        let x = double_value(&args[k]);
        if op == Fold::Minus && k == 0 {
            acc = x;
        } else {
            let q = match op {
                Fold::Plus => FloatRequest::Add(acc, x),
                Fold::Minus => FloatRequest::Sub(acc, x),
                Fold::Times => FloatRequest::Mul(acc, x),
            };
            match floats.bits(q) {
                Outcome::Done(b) => {
                    acc = b;
                },
                o => {
                    return o;
                },
            }
        }
        k += 1;
    }
    Outcome::Done(acc)
}

fn fold(op: Fold, args: &Vec<Val>, floats: &mut Floats) -> (r: Outcome<Val>)
    ensures
        (r@, final(floats)@) == folded(op, models(args@), old(floats)@),
{
    match fold_ints(op, args, floats) {
        Outcome::Done((acc, float)) => {
            if float {
                match fold_floats(op, args, floats) {
                    Outcome::Done(b) => Outcome::Done(Val::Float(b)),
                    o => pass_on(o),
                }
            } else {
                Outcome::Done(Val::Int(acc))
            }
        },
        o => pass_on(o),
    }
}

fn to_float(v: &Val, floats: &mut Floats) -> (r: Outcome<u64>)
    ensures
        (r@, final(floats)@) == number(v@, old(floats)@),
{
    match v {
        Val::Int(i) => Outcome::Done(int_to_double(*i)),
        Val::Float(x) => Outcome::Done(*x),
        _ => complaint("期望数值: ", v, floats),
    }
}

fn both_floats(a: &Val, b: &Val, floats: &mut Floats) -> (r: Outcome<(u64, u64)>)
    ensures
        (r@, final(floats)@) == numbers(a@, b@, old(floats)@),
{
    match to_float(a, floats) {
        Outcome::Done(x) => match to_float(b, floats) {
            Outcome::Done(y) => Outcome::Done((x, y)),
            o => pass_on(o),
        },
        o => pass_on(o),
    }
}

fn size_of_int(a: i64) -> (r: u64)
    ensures
        r == (if a < 0 {
            -a
        } else {
            a as int
        }),
{
    if a == i64::MIN {
        0x8000_0000_0000_0000
    } else if a < 0 {
        (-a) as u64
    } else {
        a as u64
    }
}

fn divide(a: &Val, b: &Val, floats: &mut Floats) -> (r: Outcome<Val>)
    ensures
        (r@, final(floats)@) == divided(a@, b@, old(floats)@),
{
    match (a, b) {
        (Val::Int(x), Val::Int(y)) => {
            if *y == 0 {
                return Outcome::Failed("除零".to_owned());
            }
            let q: u64 = size_of_int(*x) / size_of_int(*y);
            if (*x < 0) == (*y < 0) {
                if q > 0x7FFF_FFFF_FFFF_FFFF {
                    Outcome::Stuck
                } else {
                    Outcome::Done(Val::Int(q as i64))
                }
            } else if q == 0x8000_0000_0000_0000 {
                Outcome::Done(Val::Int(i64::MIN))
            } else {
                Outcome::Done(Val::Int(-(q as i64)))
            }
        },
        _ => match both_floats(a, b, floats) {
            Outcome::Done((x, y)) => {
                if equal(y, ZERO) {
                    Outcome::Failed("除零".to_owned())
                } else {
                    match floats.bits(FloatRequest::Div(x, y)) {
                        Outcome::Done(q) => Outcome::Done(Val::Float(q)),
                        o => pass_on(o),
                    }
                }
            },
            o => pass_on(o),
        },
    }
}

fn concat(args: &Vec<Val>, floats: &mut Floats) -> (r: Outcome<String>)
    ensures
        (r@, final(floats)@) == concat_from(models(args@), 0, Seq::empty(), old(floats)@),
{
    let mut acc = String::new();
    let mut k: usize = 0;
    while k < args.len()
        invariant
            k <= args@.len(),
            concat_from(models(args@), 0, Seq::empty(), old(floats)@) == concat_from(
                models(args@),
                k as nat,
                acc@,
                floats@,
            ),
        decreases args@.len() - k,
    {
        match show(&args[k], floats) {
            Outcome::Done(t) => {
                acc.append(t.as_str());
            },
            o => {
                return o;
            },
        }
        k += 1;
    }
    Outcome::Done(acc)
}

/// Calls the built-in function `name`.
pub fn call_builtin(name: &str, args: &Vec<Val>, floats: &mut Floats) -> (r: Outcome<Val>)
    ensures
        (r@, final(floats)@) == called(name@, models(args@), old(floats)@),
{
    if str_eq(name, "+") {
        fold(Fold::Plus, args, floats)
    } else if str_eq(name, "-") {
        if args.len() == 0 {
            return Outcome::Failed("- 需要至少一个参数".to_owned());
        }
        fold(Fold::Minus, args, floats)
    } else if str_eq(name, "*") {
        fold(Fold::Times, args, floats)
    } else if str_eq(name, "/") {
        if args.len() != 2 {
            return Outcome::Failed("/ 需要恰好 2 个参数".to_owned());
        }
        divide(&args[0], &args[1], floats)
    } else if str_eq(name, "=") {
        if args.len() != 2 {
            return Outcome::Failed("= 需要恰好 2 个参数".to_owned());
        }
        Outcome::Done(Val::Bool(is_same(&args[0], &args[1])))
    } else if str_eq(name, "<") {
        if args.len() != 2 {
            return Outcome::Failed("< 需要恰好 2 个参数".to_owned());
        }
        match both_floats(&args[0], &args[1], floats) {
            Outcome::Done((x, y)) => Outcome::Done(Val::Bool(less(x, y))),
            o => pass_on(o),
        }
    } else if str_eq(name, "not") {
        if args.len() != 1 {
            return Outcome::Failed("not 需要恰好 1 个参数".to_owned());
        }
        Outcome::Done(Val::Bool(!is_truthy(&args[0])))
    } else if str_eq(name, "str") {
        match concat(args, floats) {
            Outcome::Done(s) => Outcome::Done(Val::Str(s)),
            o => pass_on(o),
        }
    } else if str_eq(name, "str=") {
        if args.len() != 2 {
            return Outcome::Failed("str= 需要恰好 2 个参数".to_owned());
        }
        match show(&args[0], floats) {
            Outcome::Done(s) => match show(&args[1], floats) {
                Outcome::Done(t) => Outcome::Done(Val::Bool(s == t)),
                o => pass_on(o),
            },
            o => pass_on(o),
        }
    } else {
        let mut s = "未知函数: ".to_owned();
        s.append(name);
        Outcome::Failed(s)
    }
}

impl View for Interp {
    type V = Env;

    open spec fn view(&self) -> Env {
        bindings(self.vars@)
    }
}

/// The bindings that every evaluator starts with.
pub open spec fn initial_env() -> Env {
    Map::empty().insert("nil"@, ValModel::Nil)
}

impl Default for Interp {
    fn default() -> (r: Self)
        ensures
            r@ == initial_env(),
    {
        Interp::new()
    }
}

impl Interp {
    pub fn new() -> (r: Self)
        ensures
            r@ == initial_env(),
    {
        let mut r = Interp { vars: Vec::new() };
        r.bind("nil", Val::Nil);
        r
    }

    /// Binds a name.
    pub fn bind(&mut self, name: &str, v: Val)
        ensures
            final(self)@ == old(self)@.insert(name@, v@),
    {
        self.vars.push((name.to_owned(), v));
        assert(self.vars@.drop_last() == old(self).vars@);
    }

    /// What a name is bound to.
    pub fn lookup(&self, name: &str) -> (r: Option<&Val>)
        ensures
            match r {
                Some(v) => self@.contains_key(name@) && self@[name@] == v@,
                None => !self@.contains_key(name@),
            },
    {
        let mut k: usize = self.vars.len();
        assert(self.vars@.take(k as int) == self.vars@);
        while k > 0
            invariant
                k <= self.vars@.len(),
                self@.contains_key(name@) <==> bindings(self.vars@.take(k as int)).contains_key(name@),
                self@.contains_key(name@) ==> self@[name@] == bindings(self.vars@.take(k as int))[name@],
            decreases k,
        {
            let ghost here = self.vars@.take(k as int);
            assert(here.drop_last() == self.vars@.take(k - 1));
            if str_eq(self.vars[k - 1].0.as_str(), name) {
                return Some(&self.vars[k - 1].1);
            }
            k -= 1;
        }
        None
    }

    /// The value of an expression.
    pub fn eval(&self, v: &Val, floats: &mut Floats) -> (r: Outcome<Val>)
        ensures
            (r@, final(floats)@) == evaluated(self@, v@, old(floats)@),
        decreases v, 0nat,
    {
        match v {
            Val::Sym(s) => match self.lookup(s.as_str()) {
                Some(x) => Outcome::Done(x.clone()),
                None => {
                    let mut m = "未绑定符号: ".to_owned();
                    m.append(s.as_str());
                    Outcome::Failed(m)
                },
            },
            Val::List(items) => {
                if items.len() == 0 {
                    assert(models(Seq::<Val>::empty()) == Seq::<ValModel>::empty());
                    return Outcome::Done(Val::List(Vec::new()));
                }
                assert(models(items@)[0] == items@[0]@);
                match &items[0] {
                    Val::Sym(h) => self.eval_form(h.as_str(), items, floats),
                    _ => Outcome::Failed("调用头部必须是符号".to_owned()),
                }
            },
            _ => Outcome::Done(v.clone()),
        }
    }

    fn eval_form(&self, head: &str, items: &Vec<Val>, floats: &mut Floats) -> (r: Outcome<Val>)
        requires
            items@.len() > 0,
        ensures
            (r@, final(floats)@) == form(self@, head@, models(items@), old(floats)@),
        decreases items, 2nat,
    {
        if str_eq(head, "quote") {
            if items.len() > 1 {
                Outcome::Done(items[1].clone())
            } else {
                Outcome::Done(Val::Nil)
            }
        } else if str_eq(head, "if") {
            if items.len() < 2 {
                return Outcome::Failed("if 缺少条件".to_owned());
            }
            match self.eval(&items[1], floats) {
                Outcome::Done(c) => {
                    if is_truthy(&c) {
                        if items.len() < 3 {
                            return Outcome::Failed("if 缺少真分支".to_owned());
                        }
                        self.eval(&items[2], floats)
                    } else if items.len() < 4 {
                        Outcome::Done(Val::Nil)
                    } else {
                        self.eval(&items[3], floats)
                    }
                },
                o => o,
            }
        } else if str_eq(head, "do") {
            self.eval_do(items, floats)
        } else if str_eq(head, "and") {
            self.eval_and(items, floats)
        } else if str_eq(head, "or") {
            self.eval_or(items, floats)
        } else {
            let mut args: Vec<Val> = Vec::new();
            let mut k: usize = 1;
            let ghost whole = all_from(self@, models(items@), 1, Seq::empty(), floats@);
            assert(models(args@) == Seq::<ValModel>::empty());
            while k < items.len()
                invariant
                    1 <= k <= items@.len(),
                    whole == all_from(self@, models(items@), k as nat, models(args@), floats@),
                    form(self@, head@, models(items@), old(floats)@) == (match whole {
                        (OutcomeModel::Done(args), g) => called(head@, args, g),
                        (o, g) => (o.passed_on(), g),
                    }),
                decreases items@.len() - k,
            {
                let ghost done = models(args@);
                match self.eval(&items[k], floats) {
                    Outcome::Done(x) => {
                        args.push(x);
                        assert(models(args@) == done.push(x@));
                    },
                    o => {
                        return pass_on(o);
                    },
                }
                k += 1;
            }
            call_builtin(head, &args, floats)
        }
    }

    fn eval_do(&self, items: &Vec<Val>, floats: &mut Floats) -> (r: Outcome<Val>)
        requires
            items@.len() > 0,
        ensures
            (r@, final(floats)@) == do_from(
                self@,
                models(items@),
                1,
                ValModel::Nil,
                old(floats)@,
            ),
        decreases items, 1nat,
    {
        let mut last = Val::Nil;
        let mut k: usize = 1;
        while k < items.len()
            invariant
                1 <= k <= items@.len(),
                do_from(self@, models(items@), 1, ValModel::Nil, old(floats)@) == do_from(
                    self@,
                    models(items@),
                    k as nat,
                    last@,
                    floats@,
                ),
            decreases items@.len() - k,
        {
            match self.eval(&items[k], floats) {
                Outcome::Done(x) => {
                    last = x;
                },
                o => {
                    return o;
                },
            }
            k += 1;
        }
        Outcome::Done(last)
    }

    fn eval_and(&self, items: &Vec<Val>, floats: &mut Floats) -> (r: Outcome<Val>)
        requires
            items@.len() > 0,
        ensures
            (r@, final(floats)@) == and_from(
                self@,
                models(items@),
                1,
                ValModel::Bool(true),
                old(floats)@,
            ),
        decreases items, 1nat,
    {
        let mut last = Val::Bool(true);
        let mut k: usize = 1;
        while k < items.len()
            invariant
                1 <= k <= items@.len(),
                and_from(self@, models(items@), 1, ValModel::Bool(true), old(floats)@) == and_from(
                    self@,
                    models(items@),
                    k as nat,
                    last@,
                    floats@,
                ),
            decreases items@.len() - k,
        {
            match self.eval(&items[k], floats) {
                Outcome::Done(x) => {
                    if !is_truthy(&x) {
                        return Outcome::Done(x);
                    }
                    last = x;
                },
                o => {
                    return o;
                },
            }
            k += 1;
        }
        Outcome::Done(last)
    }

    fn eval_or(&self, items: &Vec<Val>, floats: &mut Floats) -> (r: Outcome<Val>)
        requires
            items@.len() > 0,
        ensures
            (r@, final(floats)@) == or_from(self@, models(items@), 1, old(floats)@),
        decreases items, 1nat,
    {
        let mut k: usize = 1;
        while k < items.len()
            invariant
                1 <= k <= items@.len(),
                or_from(self@, models(items@), 1, old(floats)@) == or_from(
                    self@,
                    models(items@),
                    k as nat,
                    floats@,
                ),
            decreases items@.len() - k,
        {
            match self.eval(&items[k], floats) {
                Outcome::Done(x) => {
                    if is_truthy(&x) {
                        return Outcome::Done(x);
                    }
                },
                o => {
                    return o;
                },
            }
            k += 1;
        }
        Outcome::Done(Val::Bool(false))
    }
}

} // verus!
