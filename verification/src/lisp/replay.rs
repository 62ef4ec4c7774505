//! Running again with more answers: what an operation came to without asking
//! for anything, it comes to again, and it uses the same answers.

use vstd::prelude::*;
use crate::lisp::interp::{
    Env, Fold, all_from, and_from, as_double, called, concat_from, divided, do_from, evaluated, exact,
    float_pass, float_start, float_step, folded, form, int_pass, int_start, number, numbers, or_from,
    truthy,
};
use crate::lisp::parser::{atom_end, expr_at, items_from, parsed, skip_blank, skip_blank_bounds};
use crate::lisp::show::{detailed, detailed_from, quoted_list, shown, shown_from};
use crate::lisp::{AnswerModel, FloatsModel, OutcomeModel, RequestModel, ValModel};

verus! {

impl FloatsModel {
    /// With further answers behind those that are there.
    pub open spec fn followed_by(self, more: Seq<AnswerModel>) -> FloatsModel {
        FloatsModel { answers: self.answers + more, ..self }
    }
}

/// Whether the second run, with the answers `more` behind those of the first,
/// comes to the same as the first, unless that asked for an answer.
pub open spec fn repeats<T, E>(
    first: (OutcomeModel<T, E>, FloatsModel),
    second: (OutcomeModel<T, E>, FloatsModel),
    more: Seq<AnswerModel>,
) -> bool {
    !(first.0 is Needs) ==> second == (first.0, first.1.followed_by(more))
}

/// A request that has its answer has the same answer when more answers follow.
pub proof fn requests_repeat(q: RequestModel, f: FloatsModel, more: Seq<AnswerModel>)
    ensures
        repeats(f.bits_for(q), f.followed_by(more).bits_for(q), more),
        repeats(f.text_for(q), f.followed_by(more).text_for(q), more),
{
    if f.next < f.answers.len() {
        assert((f.answers + more)[f.next as int] == f.answers[f.next as int]);
    }
}

/// The text of an expression stays as it is when more answers follow.
pub proof fn showing_repeats(v: ValModel, f: FloatsModel, more: Seq<AnswerModel>)
    ensures
        repeats(shown(v, f), shown(v, f.followed_by(more)), more),
    decreases v, 0nat,
{
    match v {
        ValModel::Float(x) => requests_repeat(RequestModel::Show(x), f, more),
        ValModel::List(items) => showing_items_repeats(items, 0, "("@, f, more),
        _ => {},
    }
}

proof fn showing_items_repeats(
    items: Seq<ValModel>,
    k: nat,
    acc: Seq<char>,
    f: FloatsModel,
    more: Seq<AnswerModel>,
)
    ensures
        repeats(shown_from(items, k, acc, f), shown_from(items, k, acc, f.followed_by(more)), more),
    decreases items, items.len() - k,
{
    if k < items.len() {
        let sep = if k > 0 {
            acc.push(' ')
        } else {
            acc
        };
        showing_repeats(items[k as int], f, more);
        if let (OutcomeModel::Done(t), g) = shown(items[k as int], f) {
            showing_items_repeats(items, k + 1, sep + t, g, more);
        }
    }
}

/// The detailed text of an expression stays as it is when more answers follow.
pub proof fn detailing_repeats(v: ValModel, f: FloatsModel, more: Seq<AnswerModel>)
    ensures
        repeats(detailed(v, f), detailed(v, f.followed_by(more)), more),
    decreases v, 0nat,
{
    match v {
        ValModel::Float(x) => requests_repeat(RequestModel::Debug(x), f, more),
        ValModel::List(items) => detailing_items_repeats(items, 0, "List(["@, f, more),
        ValModel::Lambda { params, body } => detailing_items_repeats(
            body,
            0,
            "Lambda { params: ["@ + quoted_list(params) + "], body: ["@,
            f,
            more,
        ),
        _ => {},
    }
}

proof fn detailing_items_repeats(
    items: Seq<ValModel>,
    k: nat,
    acc: Seq<char>,
    f: FloatsModel,
    more: Seq<AnswerModel>,
)
    ensures
        repeats(
            detailed_from(items, k, acc, f),
            detailed_from(items, k, acc, f.followed_by(more)),
            more,
        ),
    decreases items, items.len() - k,
{
    if k < items.len() {
        let sep = if k > 0 {
            acc + ", "@
        } else {
            acc
        };
        detailing_repeats(items[k as int], f, more);
        if let (OutcomeModel::Done(t), g) = detailed(items[k as int], f) {
            detailing_items_repeats(items, k + 1, sep + t, g, more);
        }
    }
}

proof fn int_pass_repeats(
    op: Fold,
    args: Seq<ValModel>,
    k: nat,
    acc: i64,
    float: bool,
    f: FloatsModel,
    more: Seq<AnswerModel>,
)
    ensures
        repeats(
            int_pass(op, args, k, acc, float, f),
            int_pass(op, args, k, acc, float, f.followed_by(more)),
            more,
        ),
    decreases args.len() - k,
{
    if k < args.len() {
        match args[k as int] {
            ValModel::Int(i) => {
                let next = if op == Fold::Minus && k == 0 {
                    i as int
                } else {
                    exact(op, acc as int, i as int)
                };
                if i64::MIN <= next <= i64::MAX {
                    int_pass_repeats(op, args, k + 1, next as i64, float, f, more);
                }
            },
            ValModel::Float(_) => int_pass_repeats(op, args, k + 1, acc, true, f, more),
            v => showing_repeats(v, f, more),
        }
    }
}

proof fn float_pass_repeats(
    op: Fold,
    args: Seq<ValModel>,
    k: nat,
    acc: u64,
    f: FloatsModel,
    more: Seq<AnswerModel>,
)
    ensures
        repeats(
            float_pass(op, args, k, acc, f),
            float_pass(op, args, k, acc, f.followed_by(more)),
            more,
        ),
    decreases args.len() - k,
{
    if k < args.len() {
        if op == Fold::Minus && k == 0 {
            float_pass_repeats(op, args, k + 1, as_double(args[0]), f, more);
        } else {
            let q = float_step(op, acc, as_double(args[k as int]));
            requests_repeat(q, f, more);
            if let (OutcomeModel::Done(b), g) = f.bits_for(q) {
                float_pass_repeats(op, args, k + 1, b, g, more);
            }
        }
    }
}

proof fn folding_repeats(op: Fold, args: Seq<ValModel>, f: FloatsModel, more: Seq<AnswerModel>)
    ensures
        repeats(folded(op, args, f), folded(op, args, f.followed_by(more)), more),
{
    int_pass_repeats(op, args, 0, int_start(op), false, f, more);
    if let (OutcomeModel::Done((acc, true)), g) = int_pass(op, args, 0, int_start(op), false, f) {
        float_pass_repeats(op, args, 0, float_start(op), g, more);
    }
}

proof fn numbers_repeat(a: ValModel, b: ValModel, f: FloatsModel, more: Seq<AnswerModel>)
    ensures
        repeats(numbers(a, b, f), numbers(a, b, f.followed_by(more)), more),
{
    showing_repeats(a, f, more);
    if let (OutcomeModel::Done(x), g) = number(a, f) {
        showing_repeats(b, g, more);
    }
}

proof fn division_repeats(a: ValModel, b: ValModel, f: FloatsModel, more: Seq<AnswerModel>)
    ensures
        repeats(divided(a, b, f), divided(a, b, f.followed_by(more)), more),
{
    numbers_repeat(a, b, f, more);
    if let (OutcomeModel::Done((x, y)), g) = numbers(a, b, f) {
        requests_repeat(RequestModel::Div(x, y), g, more);
    }
}

proof fn concat_repeats(
    args: Seq<ValModel>,
    k: nat,
    acc: Seq<char>,
    f: FloatsModel,
    more: Seq<AnswerModel>,
)
    ensures
        repeats(concat_from(args, k, acc, f), concat_from(args, k, acc, f.followed_by(more)), more),
    decreases args.len() - k,
{
    if k < args.len() {
        showing_repeats(args[k as int], f, more);
        if let (OutcomeModel::Done(t), g) = shown(args[k as int], f) {
            concat_repeats(args, k + 1, acc + t, g, more);
        }
    }
}

proof fn call_repeats(h: Seq<char>, args: Seq<ValModel>, f: FloatsModel, more: Seq<AnswerModel>)
    ensures
        repeats(called(h, args, f), called(h, args, f.followed_by(more)), more),
{
    if h == "+"@ {
        folding_repeats(Fold::Plus, args, f, more);
    } else if h == "-"@ {
        folding_repeats(Fold::Minus, args, f, more);
    } else if h == "*"@ {
        folding_repeats(Fold::Times, args, f, more);
    } else if h == "/"@ {
        if args.len() == 2 {
            division_repeats(args[0], args[1], f, more);
        }
    } else if h == "<"@ {
        if args.len() == 2 {
            numbers_repeat(args[0], args[1], f, more);
        }
    } else if h == "str"@ {
        concat_repeats(args, 0, Seq::empty(), f, more);
    } else if h == "str="@ {
        if args.len() == 2 {
            showing_repeats(args[0], f, more);
            if let (OutcomeModel::Done(s), g) = shown(args[0], f) {
                showing_repeats(args[1], g, more);
            }
        }
    }
}

/// The value of an expression stays as it is when more answers follow.
pub proof fn evaluation_repeats(env: Env, e: ValModel, f: FloatsModel, more: Seq<AnswerModel>)
    ensures
        repeats(evaluated(env, e, f), evaluated(env, e, f.followed_by(more)), more),
    decreases e, 0nat,
{
    if let ValModel::List(items) = e {
        if items.len() > 0 {
            if let ValModel::Sym(h) = items[0] {
                form_repeats(env, h, items, f, more);
            }
        }
    }
}

proof fn form_repeats(
    env: Env,
    h: Seq<char>,
    items: Seq<ValModel>,
    f: FloatsModel,
    more: Seq<AnswerModel>,
)
    ensures
        repeats(form(env, h, items, f), form(env, h, items, f.followed_by(more)), more),
    decreases items, items.len() + 2,
{
    if h == "quote"@ {
    } else if h == "if"@ {
        if items.len() >= 2 {
            evaluation_repeats(env, items[1], f, more);
            if let (OutcomeModel::Done(c), g) = evaluated(env, items[1], f) {
                if truthy(c) {
                    if items.len() >= 3 {
                        evaluation_repeats(env, items[2], g, more);
                    }
                } else if items.len() >= 4 {
                    evaluation_repeats(env, items[3], g, more);
                }
            }
        }
    } else if h == "do"@ {
        do_repeats(env, items, 1, ValModel::Nil, f, more);
    } else if h == "and"@ {
        and_repeats(env, items, 1, ValModel::Bool(true), f, more);
    } else if h == "or"@ {
        or_repeats(env, items, 1, f, more);
    } else {
        all_repeats(env, items, 1, Seq::empty(), f, more);
        if let (OutcomeModel::Done(args), g) = all_from(env, items, 1, Seq::empty(), f) {
            call_repeats(h, args, g, more);
        }
    }
}

proof fn do_repeats(
    env: Env,
    items: Seq<ValModel>,
    k: nat,
    last: ValModel,
    f: FloatsModel,
    more: Seq<AnswerModel>,
)
    ensures
        repeats(do_from(env, items, k, last, f), do_from(env, items, k, last, f.followed_by(more)), more),
    decreases items, items.len() + 1 - k,
{
    if k < items.len() {
        evaluation_repeats(env, items[k as int], f, more);
        if let (OutcomeModel::Done(v), g) = evaluated(env, items[k as int], f) {
            do_repeats(env, items, k + 1, v, g, more);
        }
    }
}

proof fn and_repeats(
    env: Env,
    items: Seq<ValModel>,
    k: nat,
    last: ValModel,
    f: FloatsModel,
    more: Seq<AnswerModel>,
)
    ensures
        repeats(
            and_from(env, items, k, last, f),
            and_from(env, items, k, last, f.followed_by(more)),
            more,
        ),
    decreases items, items.len() + 1 - k,
{
    if k < items.len() {
        evaluation_repeats(env, items[k as int], f, more);
        if let (OutcomeModel::Done(v), g) = evaluated(env, items[k as int], f) {
            if truthy(v) {
                and_repeats(env, items, k + 1, v, g, more);
            }
        }
    }
}

proof fn or_repeats(env: Env, items: Seq<ValModel>, k: nat, f: FloatsModel, more: Seq<AnswerModel>)
    ensures
        repeats(or_from(env, items, k, f), or_from(env, items, k, f.followed_by(more)), more),
    decreases items, items.len() + 1 - k,
{
    if k < items.len() {
        evaluation_repeats(env, items[k as int], f, more);
        if let (OutcomeModel::Done(v), g) = evaluated(env, items[k as int], f) {
            if !truthy(v) {
                or_repeats(env, items, k + 1, g, more);
            }
        }
    }
}

proof fn all_repeats(
    env: Env,
    items: Seq<ValModel>,
    k: nat,
    acc: Seq<ValModel>,
    f: FloatsModel,
    more: Seq<AnswerModel>,
)
    ensures
        repeats(all_from(env, items, k, acc, f), all_from(env, items, k, acc, f.followed_by(more)), more),
    decreases items, items.len() + 1 - k,
{
    if k < items.len() {
        evaluation_repeats(env, items[k as int], f, more);
        if let (OutcomeModel::Done(v), g) = evaluated(env, items[k as int], f) {
            all_repeats(env, items, k + 1, acc.push(v), g, more);
        }
    }
}

/// The expression that a text stands for stays as it is when more answers follow.
pub proof fn parsing_repeats(cs: Seq<char>, f: FloatsModel, more: Seq<AnswerModel>)
    ensures
        repeats(parsed(cs, f), parsed(cs, f.followed_by(more)), more),
{
    expr_repeats(cs, skip_blank(cs, 0), f, more);
}

proof fn expr_repeats(cs: Seq<char>, i: nat, f: FloatsModel, more: Seq<AnswerModel>)
    ensures
        repeats(expr_at(cs, i, f), expr_at(cs, i, f.followed_by(more)), more),
    decreases cs.len() - i, 1nat,
{
    skip_blank_bounds(cs, i);
    let j = skip_blank(cs, i);
    if j < cs.len() {
        if cs[j as int] == '(' {
            items_repeat(cs, j + 1, Seq::empty(), f, more);
        } else {
            requests_repeat(
                RequestModel::Parse(cs.subrange(j as int, atom_end(cs, j) as int)),
                f,
                more,
            );
        }
    }
}

proof fn items_repeat(
    cs: Seq<char>,
    i: nat,
    acc: Seq<ValModel>,
    f: FloatsModel,
    more: Seq<AnswerModel>,
)
    ensures
        repeats(items_from(cs, i, acc, f), items_from(cs, i, acc, f.followed_by(more)), more),
    decreases cs.len() - i, 2nat,
{
    skip_blank_bounds(cs, i);
    let j = skip_blank(cs, i);
    if j < cs.len() && cs[j as int] != ')' {
        expr_repeats(cs, j, f, more);
        if let (OutcomeModel::Done((v, k)), g) = expr_at(cs, j, f) {
            if i < k <= cs.len() {
                items_repeat(cs, k, acc.push(v), g, more);
            }
        }
    }
}

} // verus!
