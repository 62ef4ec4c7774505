//! What the built-in functions compute.

use vstd::prelude::*;
use crate::backend::dialect::joined;
use crate::float_bits::{ZERO, float_eq, float_lt};
use crate::lisp::interp::{
    Env, Fold, all_from, called, concat_from, divided, do_from, evaluated, exact, float_pass, form,
    int_pass, quotient, truthy,
};
use crate::lisp::show::{same, shown, shown_from};
use crate::lisp::{FloatsModel, OutcomeModel, RequestModel, ValModel};

verus! {

/// Integers as arguments.
pub open spec fn ints(xs: Seq<i64>) -> Seq<ValModel> {
    Seq::new(xs.len(), |i: int| ValModel::Int(xs[i]))
}

/// The sum of numbers.
pub open spec fn sum(xs: Seq<i64>) -> int
    decreases xs.len(),
{
    if xs.len() == 0 {
        0
    } else {
        sum(xs.drop_last()) + xs.last()
    }
}

/// The product of numbers.
pub open spec fn product(xs: Seq<i64>) -> int
    decreases xs.len(),
{
    if xs.len() == 0 {
        1
    } else {
        product(xs.drop_last()) * xs.last()
    }
}

/// Whether a number fits 64 bits.
pub open spec fn fits(n: int) -> bool {
    i64::MIN <= n <= i64::MAX
}

/// What folding the first `k` numbers gives: their sum, their product, or the
/// first of them without the others.
spec fn so_far(op: Fold, xs: Seq<i64>, k: nat) -> int {
    let ys = xs.take(k as int);
    match op {
        Fold::Plus => sum(ys),
        Fold::Times => product(ys),
        Fold::Minus => if k == 0 {
            0
        } else {
            ys[0] - sum(ys.skip(1))
        },
    }
}

proof fn one_more(op: Fold, xs: Seq<i64>, k: nat)
    requires
        k < xs.len(),
    ensures
        so_far(op, xs, k + 1) == if op == Fold::Minus && k == 0 {
            xs[0] as int
        } else {
            exact(op, so_far(op, xs, k), xs[k as int] as int)
        },
{
    let ys = xs.take(k as int);
    let zs = xs.take(k as int + 1);
    assert(zs.drop_last() == ys);
    assert(zs.last() == xs[k as int]);
    if op == Fold::Minus {
        if k == 0 {
            assert(zs.skip(1) == Seq::<i64>::empty());
            assert(sum(Seq::<i64>::empty()) == 0);
        } else {
            assert(zs.skip(1).drop_last() == ys.skip(1));
            assert(zs.skip(1).last() == xs[k as int]);
        }
    }
}

proof fn ints_are_folded(op: Fold, xs: Seq<i64>, k: nat, f: FloatsModel)
    requires
        k <= xs.len(),
        forall|j: nat| j <= xs.len() ==> fits(#[trigger] so_far(op, xs, j)),
    ensures
        int_pass(op, ints(xs), k, so_far(op, xs, k) as i64, false, f) == (
            OutcomeModel::<(i64, bool)>::Done((so_far(op, xs, xs.len()) as i64, false)),
            f,
        ),
    decreases xs.len() - k,
{
    assert(fits(so_far(op, xs, k)));
    if k < xs.len() {
        one_more(op, xs, k);
        assert(fits(so_far(op, xs, k + 1)));
        assert(ints(xs)[k as int] == ValModel::Int(xs[k as int]));
        ints_are_folded(op, xs, k + 1, f);
    }
}

/// `+` adds its arguments up, whatever their number, as long as the sums from the
/// left fit 64 bits.
pub proof fn plus_adds(xs: Seq<i64>, f: FloatsModel)
    requires
        forall|j: int| 0 <= j <= xs.len() ==> fits(sum(#[trigger] xs.take(j))),
    ensures
        called("+"@, ints(xs), f) == (
            OutcomeModel::<ValModel>::Done(ValModel::Int(sum(xs) as i64)),
            f,
        ),
{
    assert forall|j: nat| j <= xs.len() implies fits(#[trigger] so_far(Fold::Plus, xs, j)) by {
        assert(fits(sum(xs.take(j as int))));
    }
    assert(xs.take(xs.len() as int) == xs);
    assert(xs.take(0) == Seq::<i64>::empty());
    assert(so_far(Fold::Plus, xs, 0) == 0);
    ints_are_folded(Fold::Plus, xs, 0, f);
}

/// `*` multiplies its arguments, whatever their number, as long as the products from
/// the left fit 64 bits.
pub proof fn times_multiplies(xs: Seq<i64>, f: FloatsModel)
    requires
        forall|j: int| 0 <= j <= xs.len() ==> fits(product(#[trigger] xs.take(j))),
    ensures
        called("*"@, ints(xs), f) == (
            OutcomeModel::<ValModel>::Done(ValModel::Int(product(xs) as i64)),
            f,
        ),
{
    names_differ();
    assert forall|j: nat| j <= xs.len() implies fits(#[trigger] so_far(Fold::Times, xs, j)) by {
        assert(fits(product(xs.take(j as int))));
    }
    assert(xs.take(xs.len() as int) == xs);
    assert(xs.take(0) == Seq::<i64>::empty());
    assert(so_far(Fold::Times, xs, 0) == 1);
    ints_are_folded(Fold::Times, xs, 0, f);
}

/// `-` takes all its other arguments from the first, as long as the differences
/// from the left fit 64 bits.
pub proof fn minus_subtracts(xs: Seq<i64>, f: FloatsModel)
    requires
        xs.len() > 0,
        forall|j: int|
            0 < j <= xs.len() ==> fits(xs[0] - sum((#[trigger] xs.take(j)).skip(1))),
    ensures
        called("-"@, ints(xs), f) == (
            OutcomeModel::<ValModel>::Done(ValModel::Int((xs[0] - sum(xs.skip(1))) as i64)),
            f,
        ),
{
    names_differ();
    assert forall|j: nat| j <= xs.len() implies fits(#[trigger] so_far(Fold::Minus, xs, j)) by {
        if j > 0 {
            assert(fits(xs[0] - sum(xs.take(j as int).skip(1))));
        }
    }
    assert(xs.take(xs.len() as int) == xs);
    assert(so_far(Fold::Minus, xs, 0) == 0);
    ints_are_folded(Fold::Minus, xs, 0, f);
}

/// The names of the built-in functions differ.
proof fn names_differ()
    ensures
        "+"@[0] == '+' && "+"@.len() == 1,
        "-"@[0] == '-' && "-"@.len() == 1,
        "*"@[0] == '*' && "*"@.len() == 1,
        "/"@[0] == '/' && "/"@.len() == 1,
        "="@[0] == '=' && "="@.len() == 1,
        "<"@[0] == '<' && "<"@.len() == 1,
        "not"@[0] == 'n' && "not"@.len() == 3,
        "str"@[0] == 's' && "str"@.len() == 3,
        "str="@[0] == 's' && "str="@.len() == 4,
{
    reveal_strlit("+");
    reveal_strlit("-");
    reveal_strlit("*");
    reveal_strlit("/");
    reveal_strlit("=");
    reveal_strlit("<");
    reveal_strlit("not");
    reveal_strlit("str");
    reveal_strlit("str=");
}

/// The quotient of two integers with the rest: the rest is smaller than the divisor
/// and has the sign of the dividend, so the quotient is rounded towards zero.
pub proof fn quotient_and_rest(a: int, b: int)
    requires
        b != 0,
    ensures
        ({
            let r = a - quotient(a, b) * b;
            let size = if b < 0 {
                -b
            } else {
                b
            };
            &&& -size < r < size
            &&& a >= 0 ==> r >= 0
            &&& a <= 0 ==> r <= 0
        }),
{
    let x = if a < 0 {
        -a
    } else {
        a
    };
    let y = if b < 0 {
        -b
    } else {
        b
    };
    let q = x / y;
    vstd::arithmetic::div_mod::lemma_fundamental_div_mod(x, y);
    vstd::arithmetic::div_mod::lemma_mod_bound(x, y);
    assert(y * q == q * y) by (nonlinear_arith);
    assert((-q) * b == -(q * b)) by (nonlinear_arith);
    assert(q * (-b) == -(q * b)) by (nonlinear_arith);
}

/// `/` gives the quotient of two integers, and fails if the divisor is zero.
pub proof fn division_divides(a: i64, b: i64, f: FloatsModel)
    ensures
        b == 0 ==> called("/"@, seq![ValModel::Int(a), ValModel::Int(b)], f).0 is Failed,
        b != 0 && fits(quotient(a as int, b as int)) ==> called(
            "/"@,
            seq![ValModel::Int(a), ValModel::Int(b)],
            f,
        ) == (
            OutcomeModel::<ValModel>::Done(ValModel::Int(quotient(a as int, b as int) as i64)),
            f,
        ),
{
    names_differ();
    let args = seq![ValModel::Int(a), ValModel::Int(b)];
    assert(called("/"@, args, f) == divided(args[0], args[1], f));
}

/// `-` and `/` ask for the first float without the second, and over the second;
/// `<` compares the first with the second.
pub proof fn floats_keep_their_places(a: u64, b: u64, f: FloatsModel)
    ensures
        called("-"@, seq![ValModel::Float(a), ValModel::Float(b)], f) == (match f.bits_for(
            RequestModel::Sub(a, b),
        ) {
            (OutcomeModel::Done(c), g) => (OutcomeModel::Done(ValModel::Float(c)), g),
            (o, g) => (o.passed_on::<ValModel>(), g),
        }),
        !float_eq(b, ZERO) ==> called("/"@, seq![ValModel::Float(a), ValModel::Float(b)], f) == (
        match f.bits_for(RequestModel::Div(a, b)) {
            (OutcomeModel::Done(c), g) => (OutcomeModel::Done(ValModel::Float(c)), g),
            (o, g) => (o.passed_on::<ValModel>(), g),
        }),
        float_eq(b, ZERO) ==> called(
            "/"@,
            seq![ValModel::Float(a), ValModel::Float(b)],
            f,
        ).0 is Failed,
        called("<"@, seq![ValModel::Float(a), ValModel::Float(b)], f) == (
            OutcomeModel::<ValModel>::Done(ValModel::Bool(float_lt(a, b))),
            f,
        ),
{
    names_differ();
    let args = seq![ValModel::Float(a), ValModel::Float(b)];
    reveal_with_fuel(int_pass, 3);
    reveal_with_fuel(float_pass, 3);
    assert(int_pass(Fold::Minus, args, 0, 0, false, f) == (
        OutcomeModel::<(i64, bool)>::Done((0i64, true)),
        f,
    ));
}

/// Whether a value holds no floats.
pub open spec fn without_floats(v: ValModel) -> bool
    decreases v,
{
    match v {
        ValModel::Float(_) => false,
        ValModel::List(items) => forall|i: int|
            0 <= i < items.len() ==> without_floats(#[trigger] items[i]),
        ValModel::Lambda { body, .. } => forall|i: int|
            0 <= i < body.len() ==> without_floats(#[trigger] body[i]),
        _ => true,
    }
}

/// `=` holds of two values without floats exactly if they are the same value.
pub proof fn same_values_are_equal(a: ValModel, b: ValModel)
    requires
        without_floats(a),
    ensures
        same(a, b) <==> a == b,
    decreases a,
{
    match (a, b) {
        (ValModel::List(x), ValModel::List(y)) => {
            items_are_equal(x, y);
        },
        (ValModel::Lambda { params: p, body: x }, ValModel::Lambda { params: q, body: y }) => {
            items_are_equal(x, y);
        },
        _ => {},
    }
}

proof fn items_are_equal(x: Seq<ValModel>, y: Seq<ValModel>)
    requires
        forall|i: int| 0 <= i < x.len() ==> without_floats(#[trigger] x[i]),
    ensures
        (x.len() == y.len() && forall|i: int| 0 <= i < x.len() ==> same(#[trigger] x[i], y[i])) <==> x
            == y,
    decreases x,
{
    if x.len() == y.len() {
        assert forall|i: int| 0 <= i < x.len() implies (same(#[trigger] x[i], y[i]) <==> x[i]
            == y[i]) by {
            assert(decreases_to!(x => x[i]));
            same_values_are_equal(x[i], y[i]);
        }
        if forall|i: int| 0 <= i < x.len() ==> same(#[trigger] x[i], y[i]) {
            assert(x =~= y);
        }
    }
}

/// `=` compares, and `not` negates what counts as true.
pub proof fn comparing_and_negating(a: ValModel, b: ValModel, f: FloatsModel)
    requires
        without_floats(a),
    ensures
        called("="@, seq![a, b], f) == (OutcomeModel::<ValModel>::Done(ValModel::Bool(a == b)), f),
        called("not"@, seq![a], f) == (
            OutcomeModel::<ValModel>::Done(
                ValModel::Bool(a == ValModel::Nil || a == ValModel::Bool(false)),
            ),
            f,
        ),
{
    names_differ();
    same_values_are_equal(a, b);
}

/// Texts as arguments.
pub open spec fn strings_of(ts: Seq<Seq<char>>) -> Seq<ValModel> {
    Seq::new(ts.len(), |i: int| ValModel::Str(ts[i]))
}

proof fn texts_are_added(ts: Seq<Seq<char>>, k: nat, f: FloatsModel)
    requires
        k <= ts.len(),
    ensures
        concat_from(strings_of(ts), k, joined(ts.take(k as int), Seq::empty()), f) == (
            OutcomeModel::<Seq<char>>::Done(joined(ts, Seq::empty())),
            f,
        ),
    decreases ts.len() - k,
{
    let none = Seq::<char>::empty();
    if k < ts.len() {
        let a = ts.take(k as int);
        let b = ts.take(k as int + 1);
        assert(b.drop_last() == a);
        assert(b.last() == ts[k as int]);
        assert(joined(b, none) == joined(a, none) + ts[k as int]) by {
            if k == 0 {
                assert(joined(a, none) == none);
                assert(none + ts[0] == ts[0]);
            } else {
                assert(joined(a, none) + none + ts[k as int] == joined(a, none) + ts[k as int]);
            }
        }
        assert(strings_of(ts)[k as int] == ValModel::Str(ts[k as int]));
        texts_are_added(ts, k + 1, f);
    } else {
        assert(ts.take(k as int) == ts);
    }
}

/// `str` puts its arguments one behind the other, all of them and in order.
pub proof fn str_puts_together(ts: Seq<Seq<char>>, f: FloatsModel)
    ensures
        called("str"@, strings_of(ts), f) == (
            OutcomeModel::<ValModel>::Done(ValModel::Str(joined(ts, Seq::empty()))),
            f,
        ),
{
    names_differ();
    assert(joined(ts.take(0), Seq::empty()) == Seq::<char>::empty());
    texts_are_added(ts, 0, f);
}

proof fn items_are_shown(items: Seq<ValModel>, ts: Seq<Seq<char>>, k: nat, f: FloatsModel)
    requires
        k <= items.len(),
        items.len() == ts.len(),
        forall|i: int|
            0 <= i < items.len() ==> shown(#[trigger] items[i], f) == (
                OutcomeModel::<Seq<char>>::Done(ts[i]),
                f,
            ),
    ensures
        shown_from(items, k, "("@ + joined(ts.take(k as int), seq![' ']), f) == (
            OutcomeModel::<Seq<char>>::Done(("("@ + joined(ts, seq![' '])).push(')')),
            f,
        ),
    decreases items.len() - k,
{
    let sp = seq![' '];
    if k < items.len() {
        let a = ts.take(k as int);
        let b = ts.take(k as int + 1);
        assert(b.drop_last() == a);
        assert(b.last() == ts[k as int]);
        let acc = "("@ + joined(a, sp);
        let sep = if k > 0 {
            acc.push(' ')
        } else {
            acc
        };
        assert("("@ + joined(b, sp) == sep + ts[k as int]) by {
            if k == 0 {
                assert(joined(a, sp) == Seq::<char>::empty());
                assert(joined(b, sp) == ts[0]);
                assert("("@ + ts[0] == ("("@ + joined(a, sp)) + ts[0]);
            } else {
                assert(joined(b, sp) == joined(a, sp) + sp + ts[k as int]);
                assert("("@ + (joined(a, sp) + sp + ts[k as int]) == acc.push(' ') + ts[k as int]);
            }
        }
        assert(shown(items[k as int], f).0 == OutcomeModel::<Seq<char>>::Done(ts[k as int]));
        items_are_shown(items, ts, k + 1, f);
    } else {
        assert(ts.take(k as int) == ts);
    }
}

/// A list is shown as the texts of all its items, in order, with spaces between
/// them, in parentheses.
pub proof fn lists_show_every_item(items: Seq<ValModel>, ts: Seq<Seq<char>>, f: FloatsModel)
    requires
        items.len() == ts.len(),
        forall|i: int|
            0 <= i < items.len() ==> shown(#[trigger] items[i], f) == (
                OutcomeModel::<Seq<char>>::Done(ts[i]),
                f,
            ),
    ensures
        shown(ValModel::List(items), f) == (
            OutcomeModel::<Seq<char>>::Done(("("@ + joined(ts, seq![' '])).push(')')),
            f,
        ),
{
    assert(joined(ts.take(0), seq![' ']) == Seq::<char>::empty());
    assert("("@ + Seq::<char>::empty() == "("@);
    items_are_shown(items, ts, 0, f);
}

/// Whether expressions have the given values, and ask for no floats.
pub open spec fn have_values(env: Env, xs: Seq<ValModel>, vs: Seq<ValModel>, f: FloatsModel) -> bool {
    xs.len() == vs.len() && forall|i: int|
        0 <= i < xs.len() ==> evaluated(env, #[trigger] xs[i], f) == (
            OutcomeModel::<ValModel>::Done(vs[i]),
            f,
        )
}

proof fn arguments_have_values(
    env: Env,
    items: Seq<ValModel>,
    vs: Seq<ValModel>,
    k: nat,
    f: FloatsModel,
)
    requires
        items.len() > 0,
        have_values(env, items.skip(1), vs, f),
        k <= vs.len(),
    ensures
        all_from(env, items, k + 1, vs.take(k as int), f) == (
            OutcomeModel::<Seq<ValModel>>::Done(vs),
            f,
        ),
    decreases vs.len() - k,
{
    if k < vs.len() {
        assert(items.skip(1)[k as int] == items[k as int + 1]);
        assert(vs.take(k as int).push(vs[k as int]) == vs.take(k as int + 1));
        arguments_have_values(env, items, vs, k + 1, f);
    } else {
        assert(vs.take(k as int) == vs);
    }
}

/// A call hands over the values of all its arguments, in order.
pub proof fn calls_take_every_argument(
    env: Env,
    h: Seq<char>,
    xs: Seq<ValModel>,
    vs: Seq<ValModel>,
    f: FloatsModel,
)
    requires
        h != "quote"@ && h != "if"@ && h != "do"@ && h != "and"@ && h != "or"@,
        have_values(env, xs, vs, f),
    ensures
        evaluated(env, ValModel::List(seq![ValModel::Sym(h)] + xs), f) == called(h, vs, f),
{
    let items = seq![ValModel::Sym(h)] + xs;
    assert(items.skip(1) == xs);
    assert(vs.take(0) == Seq::<ValModel>::empty());
    arguments_have_values(env, items, vs, 0, f);
    assert(evaluated(env, ValModel::List(items), f) == form(env, h, items, f));
}

proof fn last_is_kept(env: Env, items: Seq<ValModel>, vs: Seq<ValModel>, k: nat, last: ValModel, f: FloatsModel)
    requires
        items.len() > 0,
        have_values(env, items.skip(1), vs, f),
        k <= vs.len(),
        k > 0 ==> last == vs[k - 1],
        k == 0 ==> last == ValModel::Nil,
    ensures
        do_from(env, items, k + 1, last, f) == (
            OutcomeModel::<ValModel>::Done(
                if vs.len() > 0 {
                    vs.last()
                } else {
                    ValModel::Nil
                },
            ),
            f,
        ),
    decreases vs.len() - k,
{
    if k < vs.len() {
        assert(items.skip(1)[k as int] == items[k as int + 1]);
        last_is_kept(env, items, vs, k + 1, vs[k as int], f);
    }
}

/// `do` gives the value of its last expression, and nil if it has none; `quote` gives
/// its expression as it stands.
pub proof fn do_and_quote(env: Env, xs: Seq<ValModel>, vs: Seq<ValModel>, f: FloatsModel)
    requires
        have_values(env, xs, vs, f),
    ensures
        evaluated(env, ValModel::List(seq![ValModel::Sym("do"@)] + xs), f) == (
            OutcomeModel::<ValModel>::Done(
                if vs.len() > 0 {
                    vs.last()
                } else {
                    ValModel::Nil
                },
            ),
            f,
        ),
        xs.len() > 0 ==> evaluated(env, ValModel::List(seq![ValModel::Sym("quote"@)] + xs), f) == (
            OutcomeModel::<ValModel>::Done(xs[0]),
            f,
        ),
{
    reveal_strlit("quote");
    reveal_strlit("if");
    reveal_strlit("do");
    assert("quote"@.len() == 5);
    assert("if"@[0] == 'i' && "do"@[0] == 'd' && "do"@.len() == 2);
    let items = seq![ValModel::Sym("do"@)] + xs;
    assert(items.skip(1) == xs);
    last_is_kept(env, items, vs, 0, ValModel::Nil, f);
    assert(evaluated(env, ValModel::List(items), f) == form(env, "do"@, items, f));
    let quoted = seq![ValModel::Sym("quote"@)] + xs;
    assert(evaluated(env, ValModel::List(quoted), f) == form(env, "quote"@, quoted, f));
}

/// Only nil and false do not count as true.
pub proof fn what_counts_as_true(v: ValModel)
    ensures
        truthy(v) <==> v != ValModel::Nil && v != ValModel::Bool(false),
{
}

} // verus!
