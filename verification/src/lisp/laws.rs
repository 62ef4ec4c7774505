//! What holds of evaluation and of the texts of expressions.

use vstd::prelude::*;
use crate::lisp::interp::{Env, and_from, evaluated, form, or_from, truthy};
use crate::lisp::show::{detailed, detailed_from, shown, shown_from};
use crate::lisp::{FloatsModel, OutcomeModel, ValModel};

verus! {

/// `and` does not look at what stands behind an operand that does not count as
/// true, or whose evaluation has no value.
pub proof fn and_stops_at_false(
    env: Env,
    items: Seq<ValModel>,
    more: Seq<ValModel>,
    f: FloatsModel,
)
    requires
        !(form(env, "and"@, items, f).0 matches OutcomeModel::Done(v) && truthy(v)),
    ensures
        form(env, "and"@, items + more, f) == form(env, "and"@, items, f),
{
    and_is_not_another_form();
    and_stops_from(env, items, more, 1, ValModel::Bool(true), f);
}

proof fn and_stops_from(
    env: Env,
    items: Seq<ValModel>,
    more: Seq<ValModel>,
    k: nat,
    last: ValModel,
    f: FloatsModel,
)
    requires
        truthy(last),
        !(and_from(env, items, k, last, f).0 matches OutcomeModel::Done(v) && truthy(v)),
    ensures
        and_from(env, items + more, k, last, f) == and_from(env, items, k, last, f),
    decreases items.len() - k,
{
    if k < items.len() {
        assert((items + more)[k as int] == items[k as int]);
        match evaluated(env, items[k as int], f) {
            (OutcomeModel::Done(v), g) => if truthy(v) {
                and_stops_from(env, items, more, k + 1, v, g);
            },
            _ => {},
        }
    }
}

/// `or` does not look at what stands behind an operand that counts as true, or
/// whose evaluation has no value.
pub proof fn or_stops_at_true(
    env: Env,
    items: Seq<ValModel>,
    more: Seq<ValModel>,
    f: FloatsModel,
)
    requires
        !(form(env, "or"@, items, f).0 matches OutcomeModel::Done(v) && !truthy(v)),
    ensures
        form(env, "or"@, items + more, f) == form(env, "or"@, items, f),
{
    or_is_not_another_form();
    or_stops_from(env, items, more, 1, f);
}

proof fn or_stops_from(
    env: Env,
    items: Seq<ValModel>,
    more: Seq<ValModel>,
    k: nat,
    f: FloatsModel,
)
    requires
        !(or_from(env, items, k, f).0 matches OutcomeModel::Done(v) && !truthy(v)),
    ensures
        or_from(env, items + more, k, f) == or_from(env, items, k, f),
    decreases items.len() - k,
{
    if k < items.len() {
        assert((items + more)[k as int] == items[k as int]);
        match evaluated(env, items[k as int], f) {
            (OutcomeModel::Done(v), g) => if !truthy(v) {
                or_stops_from(env, items, more, k + 1, g);
            },
            _ => {},
        }
    }
}

proof fn and_is_not_another_form()
    ensures
        "and"@ != "quote"@,
        "and"@ != "if"@,
        "and"@ != "do"@,
{
    reveal_strlit("and");
    reveal_strlit("quote");
    reveal_strlit("if");
    reveal_strlit("do");
    assert("and"@.len() == 3);
    assert("quote"@.len() == 5);
    assert("if"@.len() == 2);
    assert("do"@.len() == 2);
}

proof fn or_is_not_another_form()
    ensures
        "or"@ != "quote"@,
        "or"@ != "if"@,
        "or"@ != "do"@,
        "or"@ != "and"@,
{
    reveal_strlit("or");
    reveal_strlit("quote");
    reveal_strlit("if");
    reveal_strlit("do");
    reveal_strlit("and");
    assert("or"@.len() == 2);
    assert("quote"@.len() == 5);
    assert("and"@.len() == 3);
    assert("or"@[0] == 'o');
    assert("if"@[0] == 'i');
    assert("do"@[0] == 'd');
}

/// Only one branch of `if` is evaluated: the other may be anything.
pub proof fn if_takes_one_branch(
    env: Env,
    c: ValModel,
    a: ValModel,
    b: ValModel,
    other: ValModel,
    f: FloatsModel,
)
    requires
        evaluated(env, c, f).0 is Done,
    ensures
        ({
            let head = ValModel::Sym("if"@);
            if truthy(evaluated(env, c, f).0->Done_0) {
                form(env, "if"@, seq![head, c, a, b], f) == form(env, "if"@, seq![head, c, a, other], f)
            } else {
                form(env, "if"@, seq![head, c, a, b], f) == form(env, "if"@, seq![head, c, other, b], f)
            }
        }),
{
    reveal_strlit("if");
    reveal_strlit("quote");
    assert("if"@.len() == 2);
    assert("quote"@.len() == 5);
}

/// The text of an expression needs the texts of floats and nothing else.
pub proof fn showing_never_fails(v: ValModel, f: FloatsModel)
    ensures
        shown(v, f).0 is Done || shown(v, f).0 is Needs,
    decreases v, 0nat,
{
    if let ValModel::List(items) = v {
        showing_items_never_fails(items, 0, "("@, f);
    }
}

proof fn showing_items_never_fails(items: Seq<ValModel>, k: nat, acc: Seq<char>, f: FloatsModel)
    ensures
        shown_from(items, k, acc, f).0 is Done || shown_from(items, k, acc, f).0 is Needs,
    decreases items, items.len() - k,
{
    if k < items.len() {
        let sep = if k > 0 {
            acc.push(' ')
        } else {
            acc
        };
        showing_never_fails(items[k as int], f);
        if let (OutcomeModel::Done(t), g) = shown(items[k as int], f) {
            showing_items_never_fails(items, k + 1, sep + t, g);
        }
    }
}

/// So does its detailed text.
pub proof fn detailing_never_fails(v: ValModel, f: FloatsModel)
    ensures
        detailed(v, f).0 is Done || detailed(v, f).0 is Needs,
    decreases v, 0nat,
{
    match v {
        ValModel::List(items) => {
            detailing_items_never_fails(items, 0, "List(["@, f);
        },
        ValModel::Lambda { params, body } => {
            detailing_items_never_fails(
                body,
                0,
                "Lambda { params: ["@ + crate::lisp::show::quoted_list(params) + "], body: ["@,
                f,
            );
        },
        _ => {},
    }
}

proof fn detailing_items_never_fails(items: Seq<ValModel>, k: nat, acc: Seq<char>, f: FloatsModel)
    ensures
        detailed_from(items, k, acc, f).0 is Done || detailed_from(items, k, acc, f).0 is Needs,
    decreases items, items.len() - k,
{
    if k < items.len() {
        let sep = if k > 0 {
            acc + ", "@
        } else {
            acc
        };
        detailing_never_fails(items[k as int], f);
        if let (OutcomeModel::Done(t), g) = detailed(items[k as int], f) {
            detailing_items_never_fails(items, k + 1, sep + t, g);
        }
    }
}

} // verus!
