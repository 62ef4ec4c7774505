//! The text of S-expressions, and when two of them are equal.

use vstd::prelude::*;
use crate::float_bits::{equal, float_eq};
use crate::lisp::{FloatRequest, Floats, FloatsModel, Outcome, OutcomeModel, RequestModel, Val, ValModel, models};
use crate::text::{dec_int, dec_int_string, quote, quoted, texts};

verus! {

/// The text of a truth value.
pub open spec fn bool_text(b: bool) -> Seq<char> {
    if b {
        "true"@
    } else {
        "false"@
    }
}

pub(crate) fn bool_str(b: bool) -> (r: &'static str)
    ensures
        r@ == bool_text(b),
{
    if b {
        "true"
    } else {
        "false"
    }
}

/// The text of an expression: atoms as they are written, strings without
/// quotes, and lists in parentheses.
pub open spec fn shown(v: ValModel, f: FloatsModel) -> (OutcomeModel<Seq<char>>, FloatsModel)
    decreases v, 0nat,
{
    match v {
        ValModel::Nil => (OutcomeModel::Done("nil"@), f),
        ValModel::Bool(b) => (OutcomeModel::Done(bool_text(b)), f),
        ValModel::Int(i) => (OutcomeModel::Done(dec_int(i as int)), f),
        ValModel::Float(x) => f.text_for(RequestModel::Show(x)),
        ValModel::Sym(s) => (OutcomeModel::Done(s), f),
        ValModel::Str(s) => (OutcomeModel::Done(s), f),
        ValModel::List(items) => shown_from(items, 0, "("@, f),
        ValModel::Lambda { .. } => (OutcomeModel::Done("<lambda>"@), f),
    }
}

/// `acc`, then the texts of the items from `k` on, separated by spaces, then `)`.
pub open spec fn shown_from(items: Seq<ValModel>, k: nat, acc: Seq<char>, f: FloatsModel) -> (
    OutcomeModel<Seq<char>>,
    FloatsModel,
)
    decreases items, items.len() - k,
{
    if k >= items.len() {
        (OutcomeModel::Done(acc.push(')')), f)
    } else {
        let sep = if k > 0 {
            acc.push(' ')
        } else {
            acc
        };
        match shown(items[k as int], f) {
            (OutcomeModel::Done(t), g) => shown_from(items, k + 1, sep + t, g),
            (o, g) => (o, g),
        }
    }
}

/// The text of an expression.
pub fn show(v: &Val, floats: &mut Floats) -> (r: Outcome<String>)
    ensures
        (r@, final(floats)@) == shown(v@, old(floats)@),
    decreases v,
{
    match v {
        Val::Nil => Outcome::Done("nil".to_owned()),
        Val::Bool(b) => Outcome::Done(bool_str(*b).to_owned()),
        Val::Int(i) => Outcome::Done(dec_int_string(*i)),
        Val::Float(x) => floats.text(FloatRequest::Show(*x)),
        Val::Sym(s) => Outcome::Done(s.clone()),
        Val::Str(s) => Outcome::Done(s.clone()),
        Val::List(items) => {
            let mut acc = "(".to_owned();
            let mut k: usize = 0;
            while k < items.len()
                invariant
                    k <= items@.len(),
                    *v is List,
                    v->List_0 == *items,
                    shown(v@, old(floats)@) == shown_from(models(items@), k as nat, acc@, floats@),
                decreases items@.len() - k,
            {
                if k > 0 {
                    acc.push(' ');
                }
                match show(&items[k], floats) {
                    Outcome::Done(t) => {
                        acc.append(t.as_str());
                    },
                    o => {
                        return o;
                    },
                }
                k += 1;
            }
            acc.push(')');
            Outcome::Done(acc)
        },
        Val::Lambda { .. } => Outcome::Done("<lambda>".to_owned()),
    }
}

/// The text that shows how an expression is made up, strings quoted.
pub open spec fn detailed(v: ValModel, f: FloatsModel) -> (OutcomeModel<Seq<char>>, FloatsModel)
    decreases v, 0nat,
{
    match v {
        ValModel::Nil => (OutcomeModel::Done("Nil"@), f),
        ValModel::Bool(b) => (OutcomeModel::Done("Bool("@ + bool_text(b) + ")"@), f),
        ValModel::Int(i) => (OutcomeModel::Done("Int("@ + dec_int(i as int) + ")"@), f),
        ValModel::Float(x) => match f.text_for(RequestModel::Debug(x)) {
            (OutcomeModel::Done(t), g) => (OutcomeModel::Done("Float("@ + t + ")"@), g),
            (o, g) => (o, g),
        },
        ValModel::Sym(s) => (OutcomeModel::Done("Sym("@ + quoted(s) + ")"@), f),
        ValModel::Str(s) => (OutcomeModel::Done("Str("@ + quoted(s) + ")"@), f),
        ValModel::List(items) => match detailed_from(items, 0, "List(["@, f) {
            (OutcomeModel::Done(t), g) => (OutcomeModel::Done(t + ")"@), g),
            (o, g) => (o, g),
        },
        ValModel::Lambda { params, body } => match detailed_from(
            body,
            0,
            "Lambda { params: ["@ + quoted_list(params) + "], body: ["@,
            f,
        ) {
            (OutcomeModel::Done(t), g) => (OutcomeModel::Done(t + " }"@), g),
            (o, g) => (o, g),
        },
    }
}

/// Quoted strings, separated by commas.
pub open spec fn quoted_list(s: Seq<Seq<char>>) -> Seq<char>
    decreases s.len(),
{
    if s.len() == 0 {
        Seq::empty()
    } else if s.len() == 1 {
        quoted(s[0])
    } else {
        quoted_list(s.drop_last()) + ", "@ + quoted(s.last())
    }
}

/// `acc`, then the detailed texts of the items from `k` on, separated by
/// commas, then `]`.
pub open spec fn detailed_from(
    items: Seq<ValModel>,
    k: nat,
    acc: Seq<char>,
    f: FloatsModel,
) -> (OutcomeModel<Seq<char>>, FloatsModel)
    decreases items, items.len() - k,
{
    if k >= items.len() {
        (OutcomeModel::Done(acc.push(']')), f)
    } else {
        let sep = if k > 0 {
            acc + ", "@
        } else {
            acc
        };
        match detailed(items[k as int], f) {
            (OutcomeModel::Done(t), g) => detailed_from(items, k + 1, sep + t, g),
            (o, g) => (o, g),
        }
    }
}

/// `head`, `body` and `tail`, one after the other.
pub(crate) fn wrapped(head: &str, body: &str, tail: &str) -> (r: String)
    ensures
        r@ == head@ + body@ + tail@,
{
    let mut s = head.to_owned();
    s.append(body);
    s.append(tail);
    s
}

fn detail_items(items: &Vec<Val>, start: String, floats: &mut Floats) -> (r: Outcome<String>)
    ensures
        (r@, final(floats)@) == detailed_from(models(items@), 0, start@, old(floats)@),
    decreases items, 1nat,
{
    let mut acc = start;
    let mut k: usize = 0;
    while k < items.len()
        invariant
            k <= items@.len(),
            detailed_from(models(items@), 0, start@, old(floats)@) == detailed_from(
                models(items@),
                k as nat,
                acc@,
                floats@,
            ),
        decreases items@.len() - k,
    {
        if k > 0 {
            acc.append(", ");
        }
        match detail(&items[k], floats) {
            Outcome::Done(t) => {
                acc.append(t.as_str());
            },
            o => {
                return o;
            },
        }
        k += 1;
    }
    acc.push(']');
    Outcome::Done(acc)
}

/// The text that shows how an expression is made up.
pub fn detail(v: &Val, floats: &mut Floats) -> (r: Outcome<String>)
    ensures
        (r@, final(floats)@) == detailed(v@, old(floats)@),
    decreases v, 0nat,
{
    match v {
        Val::Nil => Outcome::Done("Nil".to_owned()),
        Val::Bool(b) => Outcome::Done(wrapped("Bool(", bool_str(*b), ")")),
        Val::Int(i) => Outcome::Done(wrapped("Int(", dec_int_string(*i).as_str(), ")")),
        Val::Float(x) => match floats.text(FloatRequest::Debug(*x)) {
            Outcome::Done(t) => Outcome::Done(wrapped("Float(", t.as_str(), ")")),
            o => o,
        },
        Val::Sym(s) => Outcome::Done(wrapped("Sym(", quote(s.as_str()).as_str(), ")")),
        Val::Str(s) => Outcome::Done(wrapped("Str(", quote(s.as_str()).as_str(), ")")),
        Val::List(items) => match detail_items(items, "List([".to_owned(), floats) {
            Outcome::Done(t) => {
                let mut t = t;
                t.append(")");
                Outcome::Done(t)
            },
            o => o,
        },
        Val::Lambda { params, body } => {
            let mut names = String::new();
            let mut k: usize = 0;
            while k < params.len()
                invariant
                    k <= params@.len(),
                    names@ == quoted_list(texts(params@).take(k as int)),
                decreases params@.len() - k,
            {
                let ghost before = names@;
                assert(texts(params@).take(k + 1).drop_last() == texts(params@).take(k as int));
                if k > 0 {
                    names.append(", ");
                }
                names.append(quote(params[k].as_str()).as_str());
                k += 1;
                assert(names@ == quoted_list(texts(params@).take(k as int)));
            }
            assert(texts(params@).take(k as int) == texts(params@));
            let start = wrapped("Lambda { params: [", names.as_str(), "], body: [");
            match detail_items(body, start, floats) {
                Outcome::Done(t) => {
                    let mut t = t;
                    t.append(" }");
                    Outcome::Done(t)
                },
                o => o,
            }
        },
    }
}

/// Whether two expressions are equal: of the same kind, with equal contents.
/// Floats are compared as numbers.
pub open spec fn same(a: ValModel, b: ValModel) -> bool
    decreases a,
{
    match (a, b) {
        (ValModel::Nil, ValModel::Nil) => true,
        (ValModel::Bool(x), ValModel::Bool(y)) => x == y,
        (ValModel::Int(x), ValModel::Int(y)) => x == y,
        (ValModel::Float(x), ValModel::Float(y)) => float_eq(x, y),
        (ValModel::Sym(x), ValModel::Sym(y)) => x == y,
        (ValModel::Str(x), ValModel::Str(y)) => x == y,
        (ValModel::List(x), ValModel::List(y)) => x.len() == y.len() && forall|i: int|
            0 <= i < x.len() ==> same(#[trigger] x[i], y[i]),
        (
            ValModel::Lambda { params: p, body: x },
            ValModel::Lambda { params: q, body: y },
        ) => p == q && x.len() == y.len() && forall|i: int|
            0 <= i < x.len() ==> same(#[trigger] x[i], y[i]),
        _ => false,
    }
}

fn same_items(x: &Vec<Val>, y: &Vec<Val>) -> (r: bool)
    ensures
        r == (x@.len() == y@.len() && forall|i: int|
            0 <= i < x@.len() ==> same(#[trigger] models(x@)[i], models(y@)[i])),
    decreases x, 1nat,
{
    if x.len() != y.len() {
        return false;
    }
    let mut k: usize = 0;
    while k < x.len()
        invariant
            k <= x@.len(),
            x@.len() == y@.len(),
            forall|i: int| 0 <= i < k ==> same(#[trigger] models(x@)[i], models(y@)[i]),
        decreases x@.len() - k,
    {
        if !is_same(&x[k], &y[k]) {
            assert(!same(models(x@)[k as int], models(y@)[k as int]));
            return false;
        }
        k += 1;
    }
    true
}

/// Whether two expressions are equal.
pub fn is_same(a: &Val, b: &Val) -> (r: bool)
    ensures
        r == same(a@, b@),
    decreases a, 0nat,
{
    match (a, b) {
        (Val::Nil, Val::Nil) => true,
        (Val::Bool(x), Val::Bool(y)) => *x == *y,
        (Val::Int(x), Val::Int(y)) => *x == *y,
        (Val::Float(x), Val::Float(y)) => equal(*x, *y),
        (Val::Sym(x), Val::Sym(y)) => *x == *y,
        (Val::Str(x), Val::Str(y)) => *x == *y,
        (Val::List(x), Val::List(y)) => {
            let r = same_items(x, y);
            assert(r == same(ValModel::List(models(x@)), ValModel::List(models(y@))));
            r
        },
        (Val::Lambda { params: p, body: x }, Val::Lambda { params: q, body: y }) => {
            if p.len() != q.len() {
                assert(texts(p@).len() != texts(q@).len());
                return false;
            }
            let mut k: usize = 0;
            while k < p.len()
                invariant
                    k <= p@.len(),
                    p@.len() == q@.len(),
                    forall|i: int| 0 <= i < k ==> texts(p@)[i] == texts(q@)[i],
                    a@ is Lambda && b@ is Lambda,
                    a@->params == texts(p@),
                    b@->params == texts(q@),
                decreases p@.len() - k,
            {
                if p[k] != q[k] {
                    assert(texts(p@)[k as int] != texts(q@)[k as int]);
                    return false;
                }
                k += 1;
            }
            assert(texts(p@) == texts(q@));
            let r = same_items(x, y);
            assert(r == same(
                ValModel::Lambda { params: texts(p@), body: models(x@) },
                ValModel::Lambda { params: texts(q@), body: models(y@) },
            ));
            r
        },
        _ => false,
    }
}

} // verus!
