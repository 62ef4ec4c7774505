//! The default rules are what their texts say.

use vstd::prelude::*;
use crate::base::ErrorModel;
use crate::isel::defaults::{
    Entry, activations_entries, arithmetic_entries, compound_entries, default_entries,
    elementary_entries, emitting, entry_rule, memory_entries, movement_entries, op_is,
    reductions_entries, strings,
};
use crate::isel::rules::{RuleModel, clauses_from, parsed_rule};
use crate::lisp::parser::{expr_at, items_from, parsed};
use crate::lisp::reading::{
    both_occur, char_occurs, gap_is_skipped, item_is_added, list_ends, list_starts, plain, spaces,
    string_is_read, symbol_is_read,
};
use crate::lisp::{FloatsModel, OutcomeModel, ValModel};
use crate::text::occurs_at;

verus! {

/// A text in quotes.
pub open spec fn in_quotes(s: Seq<char>) -> Seq<char> {
    seq!['"'] + s + seq!['"']
}

/// Arguments in quotes, the first one behind `gap` spaces, the others behind one.
pub open spec fn argument_text(args: Seq<Seq<char>>, gap: nat) -> Seq<char>
    decreases args.len(),
{
    if args.len() == 0 {
        Seq::empty()
    } else {
        spaces(gap) + in_quotes(args[0]) + argument_text(args.skip(1), 1)
    }
}

/// The condition of a rule as text.
pub open spec fn condition_text(op: Seq<char>) -> Seq<char> {
    "(when (= op "@ + in_quotes(op) + "))"@
}

/// What a rule emits as text.
pub open spec fn emission_text(instr: Seq<char>, args: Seq<Seq<char>>, gap: nat) -> Seq<char> {
    "(emit "@ + in_quotes(instr) + argument_text(args, gap) + ")"@
}

/// A rule of the simplest form as text, with `wide` spaces between its clauses.
pub open spec fn rule_text(
    op: Seq<char>,
    wide: nat,
    instr: Seq<char>,
    args: Seq<Seq<char>>,
    gap: nat,
) -> Seq<char> {
    "(rule "@ + condition_text(op) + spaces(wide) + emission_text(instr, args, gap) + ")"@
}

proof fn arguments_are_read(
    cs: Seq<char>,
    i: nat,
    args: Seq<Seq<char>>,
    gap: nat,
    acc: Seq<ValModel>,
    f: FloatsModel,
)
    requires
        occurs_at(cs, argument_text(args, gap), i as int),
        forall|k: int| 0 <= k < args.len() ==> plain(#[trigger] args[k]),
    ensures
        items_from(cs, i, acc, f) == items_from(
            cs,
            i + argument_text(args, gap).len(),
            acc + strings(args),
            f,
        ),
    decreases args.len(),
{
    if args.len() == 0 {
        assert(acc + strings(args) == acc);
    } else {
        let rest = argument_text(args.skip(1), 1);
        let here = (i + gap) as nat;
        both_occur(cs, spaces(gap) + in_quotes(args[0]), rest, i as int);
        both_occur(cs, spaces(gap), in_quotes(args[0]), i as int);
        assert forall|k: int| i <= k < i + gap implies #[trigger] cs[k] == ' ' by {
            char_occurs(cs, spaces(gap), i as int, k - i);
        }
        string_is_read(cs, here, args[0], f);
        let end = here + args[0].len() + 2;
        item_is_added(cs, i, gap, acc, ValModel::Str(args[0]), end, f);
        assert forall|k: int| 0 <= k < args.skip(1).len() implies plain(#[trigger] args.skip(1)[k]) by {
            assert(plain(args[k + 1]));
        }
        arguments_are_read(cs, end, args.skip(1), 1, acc.push(ValModel::Str(args[0])), f);
        assert(acc.push(ValModel::Str(args[0])) + strings(args.skip(1)) == acc + strings(args));
    }
}

proof fn condition_is_read(cs: Seq<char>, i: nat, op: Seq<char>, f: FloatsModel)
    requires
        occurs_at(cs, condition_text(op), i as int),
        plain(op),
    ensures
        expr_at(cs, i, f) == (
            OutcomeModel::<(ValModel, nat)>::Done(
                (
                    ValModel::List(seq![ValModel::Sym("when"@), op_is(op)]),
                    i + condition_text(op).len(),
                ),
            ),
            f,
        ),
        cs[i as int] == '(',
{
    reveal_strlit("(when (= op ");
    reveal_strlit("when");
    reveal_strlit("=");
    reveal_strlit("op");
    reveal_strlit("))");
    let head = "(when (= op "@;
    both_occur(cs, head + in_quotes(op), "))"@, i as int);
    both_occur(cs, head, in_quotes(op), i as int);
    assert(head == seq!['('] + "when"@ + seq![' ', '('] + "="@ + seq![' '] + "op"@ + seq![' ']);
    both_occur(cs, seq!['('] + "when"@ + seq![' ', '('] + "="@ + seq![' '] + "op"@, seq![' '], i as int);
    both_occur(cs, seq!['('] + "when"@ + seq![' ', '('] + "="@ + seq![' '], "op"@, i as int);
    both_occur(cs, seq!['('] + "when"@ + seq![' ', '('] + "="@, seq![' '], i as int);
    both_occur(cs, seq!['('] + "when"@ + seq![' ', '('], "="@, i as int);
    both_occur(cs, seq!['('] + "when"@, seq![' ', '('], i as int);
    both_occur(cs, seq!['('], "when"@, i as int);
    char_occurs(cs, head, i as int, 0);
    char_occurs(cs, head, i as int, 5);
    char_occurs(cs, head, i as int, 6);
    char_occurs(cs, head, i as int, 8);
    char_occurs(cs, head, i as int, 11);
    let close = i + 12 + op.len() + 2;
    char_occurs(cs, "))"@, close as int, 0);
    char_occurs(cs, "))"@, close as int, 1);
    // the comparison
    let none = Seq::<ValModel>::empty();
    symbol_is_read(cs, i + 7, "="@, f);
    item_is_added(cs, i + 7, 0, none, ValModel::Sym("="@), i + 8, f);
    symbol_is_read(cs, i + 9, "op"@, f);
    item_is_added(cs, i + 8, 1, none.push(ValModel::Sym("="@)), ValModel::Sym("op"@), i + 11, f);
    string_is_read(cs, i + 12, op, f);
    let two = none.push(ValModel::Sym("="@)).push(ValModel::Sym("op"@));
    item_is_added(cs, i + 11, 1, two, ValModel::Str(op), close, f);
    list_ends(cs, close, two.push(ValModel::Str(op)), f);
    list_starts(cs, i + 6, f);
    assert(two.push(ValModel::Str(op)) == seq![ValModel::Sym("="@), ValModel::Sym("op"@), ValModel::Str(op)]);
    // the clause
    symbol_is_read(cs, i + 1, "when"@, f);
    item_is_added(cs, i + 1, 0, none, ValModel::Sym("when"@), i + 5, f);
    item_is_added(cs, i + 5, 1, none.push(ValModel::Sym("when"@)), op_is(op), close + 1, f);
    list_ends(cs, close + 1, none.push(ValModel::Sym("when"@)).push(op_is(op)), f);
    list_starts(cs, i, f);
    assert(none.push(ValModel::Sym("when"@)).push(op_is(op)) == seq![ValModel::Sym("when"@), op_is(op)]);
}

proof fn emission_is_read(
    cs: Seq<char>,
    i: nat,
    instr: Seq<char>,
    args: Seq<Seq<char>>,
    gap: nat,
    f: FloatsModel,
)
    requires
        occurs_at(cs, emission_text(instr, args, gap), i as int),
        plain(instr),
        forall|k: int| 0 <= k < args.len() ==> plain(#[trigger] args[k]),
    ensures
        expr_at(cs, i, f) == (
            OutcomeModel::<(ValModel, nat)>::Done(
                (emitting(instr, args), i + emission_text(instr, args, gap).len()),
            ),
            f,
        ),
        cs[i as int] == '(',
{
    reveal_strlit("(emit ");
    reveal_strlit("emit");
    reveal_strlit(")");
    let head = "(emit "@;
    let more = argument_text(args, gap);
    both_occur(cs, head + in_quotes(instr) + more, ")"@, i as int);
    both_occur(cs, head + in_quotes(instr), more, i as int);
    both_occur(cs, head, in_quotes(instr), i as int);
    assert(head == seq!['('] + "emit"@ + seq![' ']);
    both_occur(cs, seq!['('] + "emit"@, seq![' '], i as int);
    both_occur(cs, seq!['('], "emit"@, i as int);
    char_occurs(cs, head, i as int, 0);
    char_occurs(cs, head, i as int, 5);
    let behind = i + 6 + instr.len() + 2;
    let close = behind + more.len();
    char_occurs(cs, ")"@, close as int, 0);
    let none = Seq::<ValModel>::empty();
    let one = none.push(ValModel::Sym("emit"@));
    symbol_is_read(cs, i + 1, "emit"@, f);
    item_is_added(cs, i + 1, 0, none, ValModel::Sym("emit"@), i + 5, f);
    string_is_read(cs, i + 6, instr, f);
    item_is_added(cs, i + 5, 1, one, ValModel::Str(instr), behind, f);
    let two = one.push(ValModel::Str(instr));
    arguments_are_read(cs, behind, args, gap, two, f);
    list_ends(cs, close, two + strings(args), f);
    list_starts(cs, i, f);
    assert(two == seq![ValModel::Sym("emit"@), ValModel::Str(instr)]);
}

/// The expression that stands for a rule of the simplest form.
pub open spec fn rule_items(op: Seq<char>, instr: Seq<char>, args: Seq<Seq<char>>) -> Seq<ValModel> {
    seq![
        ValModel::Sym("rule"@),
        ValModel::List(seq![ValModel::Sym("when"@), op_is(op)]),
        emitting(instr, args),
    ]
}

proof fn items_are_read(
    op: Seq<char>,
    wide: nat,
    instr: Seq<char>,
    args: Seq<Seq<char>>,
    gap: nat,
    f: FloatsModel,
)
    requires
        plain(op),
        plain(instr),
        forall|k: int| 0 <= k < args.len() ==> plain(#[trigger] args[k]),
    ensures
        parsed(rule_text(op, wide, instr, args, gap), f) == (
            OutcomeModel::<ValModel>::Done(ValModel::List(rule_items(op, instr, args))),
            f,
        ),
{
    reveal_strlit("(rule ");
    reveal_strlit("rule");
    reveal_strlit(")");
    let cs = rule_text(op, wide, instr, args, gap);
    let head = "(rule "@;
    let cond = condition_text(op);
    let emit = emission_text(instr, args, gap);
    assert(cs.subrange(0, cs.len() as int) == cs);
    both_occur(cs, head + cond + spaces(wide) + emit, ")"@, 0);
    both_occur(cs, head + cond + spaces(wide), emit, 0);
    both_occur(cs, head + cond, spaces(wide), 0);
    both_occur(cs, head, cond, 0);
    assert(head == seq!['('] + "rule"@ + seq![' ']);
    both_occur(cs, seq!['('] + "rule"@, seq![' '], 0);
    both_occur(cs, seq!['('], "rule"@, 0);
    char_occurs(cs, head, 0, 0);
    char_occurs(cs, head, 0, 5);
    let second: nat = 6 + cond.len() + wide;
    let close: nat = second + emit.len();
    char_occurs(cs, ")"@, close as int, 0);
    assert forall|k: int| 6 + cond.len() <= k < 6 + cond.len() + wide implies #[trigger] cs[k] == ' ' by {
        char_occurs(cs, spaces(wide), (6 + cond.len()) as int, k - (6 + cond.len()));
    }
    let none = Seq::<ValModel>::empty();
    let one = none.push(ValModel::Sym("rule"@));
    let when = ValModel::List(seq![ValModel::Sym("when"@), op_is(op)]);
    symbol_is_read(cs, 1, "rule"@, f);
    item_is_added(cs, 1, 0, none, ValModel::Sym("rule"@), 5, f);
    condition_is_read(cs, 6, op, f);
    item_is_added(cs, 5, 1, one, when, 6 + cond.len(), f);
    emission_is_read(cs, second, instr, args, gap, f);
    item_is_added(cs, 6 + cond.len(), wide, one.push(when), emitting(instr, args), close, f);
    let all = one.push(when).push(emitting(instr, args));
    assert(all == rule_items(op, instr, args));
    list_ends(cs, close, all, f);
    list_starts(cs, 0, f);
    gap_is_skipped(cs, 0, 0);
}

proof fn clauses_are_read(
    op: Seq<char>,
    instr: Seq<char>,
    args: Seq<Seq<char>>,
    src: Seq<char>,
    f: FloatsModel,
)
    ensures
        clauses_from(rule_items(op, instr, args), 1, ValModel::Nil, ValModel::Nil, src, f) == (
            OutcomeModel::<RuleModel, ErrorModel>::Done(entry_rule((Entry { op, instr, args, src }))),
            f,
        ),
{
    reveal_strlit("when");
    reveal_strlit("emit");
    assert("emit"@[0] != "when"@[0]);
    let items = rule_items(op, instr, args);
    assert(items[2]->List_0[0] == ValModel::Sym("emit"@));
    reveal_with_fuel(clauses_from, 3);
}

/// A rule of the simplest form is what its text says, whatever the spaces.
pub proof fn rule_is_read(
    op: Seq<char>,
    wide: nat,
    instr: Seq<char>,
    args: Seq<Seq<char>>,
    gap: nat,
    f: FloatsModel,
)
    requires
        plain(op),
        plain(instr),
        forall|k: int| 0 <= k < args.len() ==> plain(#[trigger] args[k]),
    ensures
        parsed_rule(rule_text(op, wide, instr, args, gap), f) == (
            OutcomeModel::<RuleModel, ErrorModel>::Done(
                entry_rule((Entry { op, instr, args, src: rule_text(op, wide, instr, args, gap) })),
            ),
            f,
        ),
{
    items_are_read(op, wide, instr, args, gap, f);
    clauses_are_read(op, instr, args, rule_text(op, wide, instr, args, gap), f);
}

/// Whether the text of an entry says what the entry does.
pub open spec fn says_so(e: Entry) -> bool {
    forall|f: FloatsModel| #[trigger]
        parsed_rule(e.src, f) == (
            OutcomeModel::<RuleModel, ErrorModel>::Done(entry_rule(e)),
            f,
        )
}

proof fn entry_is_read(e: Entry, wide: nat, gap: nat)
    requires
        plain(e.op),
        plain(e.instr),
        forall|k: int| 0 <= k < e.args.len() ==> plain(#[trigger] e.args[k]),
        e.src == rule_text(e.op, wide, e.instr, e.args, gap),
    ensures
        says_so(e),
{
    assert forall|f: FloatsModel| #[trigger]
        parsed_rule(e.src, f) == (
            OutcomeModel::<RuleModel, ErrorModel>::Done(entry_rule(e)),
            f,
        ) by {
        rule_is_read(e.op, wide, e.instr, e.args, gap, f);
    }
}

/// The characters of the parts that all rules share.
proof fn shared_parts()
    ensures
        "(rule "@ == seq!['(', 'r', 'u', 'l', 'e', ' '],
        "(when (= op "@ == seq!['(', 'w', 'h', 'e', 'n', ' ', '(', '=', ' ', 'o', 'p', ' '],
        "))"@ == seq![')', ')'],
        "(emit "@ == seq!['(', 'e', 'm', 'i', 't', ' '],
        ")"@ == seq![')'],
{
    reveal_strlit("(rule ");
    reveal_strlit("(when (= op ");
    reveal_strlit("))");
    reveal_strlit("(emit ");
    reveal_strlit(")");
}

/// Up to three arguments as text.
proof fn few_arguments(args: Seq<Seq<char>>, gap: nat)
    requires
        args.len() <= 3,
    ensures
        args.len() == 1 ==> argument_text(args, gap) == spaces(gap) + in_quotes(args[0]),
        args.len() == 2 ==> argument_text(args, gap) == spaces(gap) + in_quotes(args[0]) + spaces(1)
            + in_quotes(args[1]),
        args.len() == 3 ==> argument_text(args, gap) == spaces(gap) + in_quotes(args[0]) + spaces(1)
            + in_quotes(args[1]) + spaces(1) + in_quotes(args[2]),
{
    reveal_with_fuel(argument_text, 4);
}

proof fn add_rule_says_so()
    ensures
        says_so(arithmetic_entries()[0]),
{
    let e = arithmetic_entries()[0];
    reveal_strlit("(rule (when (= op \"add\"))    (emit \"fadd\"  \"r0\" \"r1\"))");
    reveal_strlit("add");
    reveal_strlit("fadd");
    reveal_strlit("r0");
    reveal_strlit("r1");
    shared_parts();
    few_arguments(e.args, 2);
    assert(e.src == rule_text(e.op, 4, e.instr, e.args, 2));
    entry_is_read(e, 4, 2);
}

proof fn sub_rule_says_so()
    ensures
        says_so(arithmetic_entries()[1]),
{
    let e = arithmetic_entries()[1];
    reveal_strlit("(rule (when (= op \"sub\"))    (emit \"fsub\"  \"r0\" \"r1\"))");
    reveal_strlit("sub");
    reveal_strlit("fsub");
    reveal_strlit("r0");
    reveal_strlit("r1");
    shared_parts();
    few_arguments(e.args, 2);
    assert(e.src == rule_text(e.op, 4, e.instr, e.args, 2));
    entry_is_read(e, 4, 2);
}

proof fn mul_rule_says_so()
    ensures
        says_so(arithmetic_entries()[2]),
{
    let e = arithmetic_entries()[2];
    reveal_strlit("(rule (when (= op \"mul\"))    (emit \"fmul\"  \"r0\" \"r1\"))");
    reveal_strlit("mul");
    reveal_strlit("fmul");
    reveal_strlit("r0");
    reveal_strlit("r1");
    shared_parts();
    few_arguments(e.args, 2);
    assert(e.src == rule_text(e.op, 4, e.instr, e.args, 2));
    entry_is_read(e, 4, 2);
}

proof fn div_rule_says_so()
    ensures
        says_so(arithmetic_entries()[3]),
{
    let e = arithmetic_entries()[3];
    reveal_strlit("(rule (when (= op \"div\"))    (emit \"fdiv\"  \"r0\" \"r1\"))");
    reveal_strlit("div");
    reveal_strlit("fdiv");
    reveal_strlit("r0");
    reveal_strlit("r1");
    shared_parts();
    few_arguments(e.args, 2);
    assert(e.src == rule_text(e.op, 4, e.instr, e.args, 2));
    entry_is_read(e, 4, 2);
}

proof fn mma_rule_says_so()
    ensures
        says_so(arithmetic_entries()[4]),
{
    let e = arithmetic_entries()[4];
    reveal_strlit("(rule (when (= op \"mma\"))    (emit \"mma\"   \"a\" \"b\" \"c\"))");
    reveal_strlit("mma");
    reveal_strlit("a");
    reveal_strlit("b");
    reveal_strlit("c");
    shared_parts();
    few_arguments(e.args, 3);
    assert(e.src == rule_text(e.op, 4, e.instr, e.args, 3));
    entry_is_read(e, 4, 3);
}

proof fn arithmetic_say_so(i: int)
    requires
        0 <= i < arithmetic_entries().len(),
    ensures
        says_so(arithmetic_entries()[i]),
{
    add_rule_says_so();
    sub_rule_says_so();
    mul_rule_says_so();
    div_rule_says_so();
    mma_rule_says_so();
}

proof fn relu_rule_says_so()
    ensures
        says_so(activations_entries()[0]),
{
    let e = activations_entries()[0];
    reveal_strlit("(rule (when (= op \"relu\"))   (emit \"relu\"  \"x\"))");
    reveal_strlit("relu");
    reveal_strlit("x");
    shared_parts();
    few_arguments(e.args, 2);
    assert(e.src == rule_text(e.op, 3, e.instr, e.args, 2));
    entry_is_read(e, 3, 2);
}

proof fn gelu_rule_says_so()
    ensures
        says_so(activations_entries()[1]),
{
    let e = activations_entries()[1];
    reveal_strlit("(rule (when (= op \"gelu\"))   (emit \"gelu\"  \"x\"))");
    reveal_strlit("gelu");
    reveal_strlit("x");
    shared_parts();
    few_arguments(e.args, 2);
    assert(e.src == rule_text(e.op, 3, e.instr, e.args, 2));
    entry_is_read(e, 3, 2);
}

proof fn sigmoid_rule_says_so()
    ensures
        says_so(activations_entries()[2]),
{
    let e = activations_entries()[2];
    reveal_strlit("(rule (when (= op \"sigmoid\"))(emit \"sigm\"  \"x\"))");
    reveal_strlit("sigmoid");
    reveal_strlit("sigm");
    reveal_strlit("x");
    shared_parts();
    few_arguments(e.args, 2);
    assert(e.src == rule_text(e.op, 0, e.instr, e.args, 2));
    entry_is_read(e, 0, 2);
}

proof fn tanh_rule_says_so()
    ensures
        says_so(activations_entries()[3]),
{
    let e = activations_entries()[3];
    reveal_strlit("(rule (when (= op \"tanh\"))   (emit \"tanh\"  \"x\"))");
    reveal_strlit("tanh");
    reveal_strlit("x");
    shared_parts();
    few_arguments(e.args, 2);
    assert(e.src == rule_text(e.op, 3, e.instr, e.args, 2));
    entry_is_read(e, 3, 2);
}

proof fn activations_say_so(i: int)
    requires
        0 <= i < activations_entries().len(),
    ensures
        says_so(activations_entries()[i]),
{
    relu_rule_says_so();
    gelu_rule_says_so();
    sigmoid_rule_says_so();
    tanh_rule_says_so();
}

proof fn sqrt_rule_says_so()
    ensures
        says_so(elementary_entries()[0]),
{
    let e = elementary_entries()[0];
    reveal_strlit("(rule (when (= op \"sqrt\"))   (emit \"sqrt\"  \"x\"))");
    reveal_strlit("sqrt");
    reveal_strlit("x");
    shared_parts();
    few_arguments(e.args, 2);
    assert(e.src == rule_text(e.op, 3, e.instr, e.args, 2));
    entry_is_read(e, 3, 2);
}

proof fn rsqrt_rule_says_so()
    ensures
        says_so(elementary_entries()[1]),
{
    let e = elementary_entries()[1];
    reveal_strlit("(rule (when (= op \"rsqrt\"))  (emit \"rsqrt\" \"x\"))");
    reveal_strlit("rsqrt");
    reveal_strlit("x");
    shared_parts();
    few_arguments(e.args, 1);
    assert(e.src == rule_text(e.op, 2, e.instr, e.args, 1));
    entry_is_read(e, 2, 1);
}

proof fn reciprocal_rule_says_so()
    ensures
        says_so(elementary_entries()[2]),
{
    let e = elementary_entries()[2];
    reveal_strlit("(rule (when (= op \"reciprocal\")) (emit \"reciprocal\" \"x\"))");
    reveal_strlit("reciprocal");
    reveal_strlit("x");
    shared_parts();
    few_arguments(e.args, 1);
    assert(e.src == rule_text(e.op, 1, e.instr, e.args, 1));
    entry_is_read(e, 1, 1);
}

proof fn abs_rule_says_so()
    ensures
        says_so(elementary_entries()[3]),
{
    let e = elementary_entries()[3];
    reveal_strlit("(rule (when (= op \"abs\"))    (emit \"abs\"   \"x\"))");
    reveal_strlit("abs");
    reveal_strlit("x");
    shared_parts();
    few_arguments(e.args, 3);
    assert(e.src == rule_text(e.op, 4, e.instr, e.args, 3));
    entry_is_read(e, 4, 3);
}

proof fn log_rule_says_so()
    ensures
        says_so(elementary_entries()[4]),
{
    let e = elementary_entries()[4];
    reveal_strlit("(rule (when (= op \"log\"))    (emit \"log\"   \"x\"))");
    reveal_strlit("log");
    reveal_strlit("x");
    shared_parts();
    few_arguments(e.args, 3);
    assert(e.src == rule_text(e.op, 4, e.instr, e.args, 3));
    entry_is_read(e, 4, 3);
}

proof fn exp_rule_says_so()
    ensures
        says_so(elementary_entries()[5]),
{
    let e = elementary_entries()[5];
    reveal_strlit("(rule (when (= op \"exp\"))    (emit \"exp\"   \"x\"))");
    reveal_strlit("exp");
    reveal_strlit("x");
    shared_parts();
    few_arguments(e.args, 3);
    assert(e.src == rule_text(e.op, 4, e.instr, e.args, 3));
    entry_is_read(e, 4, 3);
}

proof fn pow_rule_says_so()
    ensures
        says_so(elementary_entries()[6]),
{
    let e = elementary_entries()[6];
    reveal_strlit("(rule (when (= op \"pow\"))    (emit \"pow\"   \"x\" \"y\"))");
    reveal_strlit("pow");
    reveal_strlit("x");
    reveal_strlit("y");
    shared_parts();
    few_arguments(e.args, 3);
    assert(e.src == rule_text(e.op, 4, e.instr, e.args, 3));
    entry_is_read(e, 4, 3);
}

proof fn elementary_say_so(i: int)
    requires
        0 <= i < elementary_entries().len(),
    ensures
        says_so(elementary_entries()[i]),
{
    sqrt_rule_says_so();
    rsqrt_rule_says_so();
    reciprocal_rule_says_so();
    abs_rule_says_so();
    log_rule_says_so();
    exp_rule_says_so();
    pow_rule_says_so();
}

proof fn reduce_sum_rule_says_so()
    ensures
        says_so(reductions_entries()[0]),
{
    let e = reductions_entries()[0];
    reveal_strlit("(rule (when (= op \"reduce_sum\"))  (emit \"rsum\"  \"x\" \"axis\"))");
    reveal_strlit("reduce_sum");
    reveal_strlit("rsum");
    reveal_strlit("x");
    reveal_strlit("axis");
    shared_parts();
    few_arguments(e.args, 2);
    assert(e.src == rule_text(e.op, 2, e.instr, e.args, 2));
    entry_is_read(e, 2, 2);
}

proof fn reduce_mean_rule_says_so()
    ensures
        says_so(reductions_entries()[1]),
{
    let e = reductions_entries()[1];
    reveal_strlit("(rule (when (= op \"reduce_mean\")) (emit \"rmean\" \"x\" \"axis\"))");
    reveal_strlit("reduce_mean");
    reveal_strlit("rmean");
    reveal_strlit("x");
    reveal_strlit("axis");
    shared_parts();
    few_arguments(e.args, 1);
    assert(e.src == rule_text(e.op, 1, e.instr, e.args, 1));
    entry_is_read(e, 1, 1);
}

proof fn reduce_max_rule_says_so()
    ensures
        says_so(reductions_entries()[2]),
{
    let e = reductions_entries()[2];
    reveal_strlit("(rule (when (= op \"reduce_max\"))  (emit \"rmax\"  \"x\" \"axis\"))");
    reveal_strlit("reduce_max");
    reveal_strlit("rmax");
    reveal_strlit("x");
    reveal_strlit("axis");
    shared_parts();
    few_arguments(e.args, 2);
    assert(e.src == rule_text(e.op, 2, e.instr, e.args, 2));
    entry_is_read(e, 2, 2);
}

proof fn reductions_say_so(i: int)
    requires
        0 <= i < reductions_entries().len(),
    ensures
        says_so(reductions_entries()[i]),
{
    reduce_sum_rule_says_so();
    reduce_mean_rule_says_so();
    reduce_max_rule_says_so();
}

proof fn reshape_rule_says_so()
    ensures
        says_so(movement_entries()[0]),
{
    let e = movement_entries()[0];
    reveal_strlit("(rule (when (= op \"reshape\"))   (emit \"reshape\" \"x\"))");
    reveal_strlit("reshape");
    reveal_strlit("x");
    shared_parts();
    few_arguments(e.args, 1);
    assert(e.src == rule_text(e.op, 3, e.instr, e.args, 1));
    entry_is_read(e, 3, 1);
}

proof fn transpose_rule_says_so()
    ensures
        says_so(movement_entries()[1]),
{
    let e = movement_entries()[1];
    reveal_strlit("(rule (when (= op \"transpose\")) (emit \"transpose\" \"x\"))");
    reveal_strlit("transpose");
    reveal_strlit("x");
    shared_parts();
    few_arguments(e.args, 1);
    assert(e.src == rule_text(e.op, 1, e.instr, e.args, 1));
    entry_is_read(e, 1, 1);
}

proof fn concat_rule_says_so()
    ensures
        says_so(movement_entries()[2]),
{
    let e = movement_entries()[2];
    reveal_strlit("(rule (when (= op \"concat\"))    (emit \"concat\" \"x\"))");
    reveal_strlit("concat");
    reveal_strlit("x");
    shared_parts();
    few_arguments(e.args, 1);
    assert(e.src == rule_text(e.op, 4, e.instr, e.args, 1));
    entry_is_read(e, 4, 1);
}

proof fn slice_rule_says_so()
    ensures
        says_so(movement_entries()[3]),
{
    let e = movement_entries()[3];
    reveal_strlit("(rule (when (= op \"slice\"))     (emit \"slice\" \"x\"))");
    reveal_strlit("slice");
    reveal_strlit("x");
    shared_parts();
    few_arguments(e.args, 1);
    assert(e.src == rule_text(e.op, 5, e.instr, e.args, 1));
    entry_is_read(e, 5, 1);
}

proof fn pool_rule_says_so()
    ensures
        says_so(movement_entries()[4]),
{
    let e = movement_entries()[4];
    reveal_strlit("(rule (when (= op \"pool\"))      (emit \"pool\" \"x\"))");
    reveal_strlit("pool");
    reveal_strlit("x");
    shared_parts();
    few_arguments(e.args, 1);
    assert(e.src == rule_text(e.op, 6, e.instr, e.args, 1));
    entry_is_read(e, 6, 1);
}

proof fn movement_say_so(i: int)
    requires
        0 <= i < movement_entries().len(),
    ensures
        says_so(movement_entries()[i]),
{
    reshape_rule_says_so();
    transpose_rule_says_so();
    concat_rule_says_so();
    slice_rule_says_so();
    pool_rule_says_so();
}

proof fn softmax_rule_says_so()
    ensures
        says_so(compound_entries()[0]),
{
    let e = compound_entries()[0];
    reveal_strlit("(rule (when (= op \"softmax\"))    (emit \"sm\"    \"x\"))");
    reveal_strlit("softmax");
    reveal_strlit("sm");
    reveal_strlit("x");
    shared_parts();
    few_arguments(e.args, 4);
    assert(e.src == rule_text(e.op, 4, e.instr, e.args, 4));
    entry_is_read(e, 4, 4);
}

proof fn layer_norm_rule_says_so()
    ensures
        says_so(compound_entries()[1]),
{
    let e = compound_entries()[1];
    reveal_strlit("(rule (when (= op \"layer_norm\")) (emit \"ln\"    \"x\" \"g\" \"b\"))");
    reveal_strlit("layer_norm");
    reveal_strlit("ln");
    reveal_strlit("x");
    reveal_strlit("g");
    reveal_strlit("b");
    shared_parts();
    few_arguments(e.args, 4);
    assert(e.src == rule_text(e.op, 1, e.instr, e.args, 4));
    entry_is_read(e, 1, 4);
}

proof fn conv_rule_says_so()
    ensures
        says_so(compound_entries()[2]),
{
    let e = compound_entries()[2];
    reveal_strlit("(rule (when (= op \"conv\"))       (emit \"conv\"  \"x\" \"w\"))");
    reveal_strlit("conv");
    reveal_strlit("x");
    reveal_strlit("w");
    shared_parts();
    few_arguments(e.args, 2);
    assert(e.src == rule_text(e.op, 7, e.instr, e.args, 2));
    entry_is_read(e, 7, 2);
}

proof fn compound_say_so(i: int)
    requires
        0 <= i < compound_entries().len(),
    ensures
        says_so(compound_entries()[i]),
{
    softmax_rule_says_so();
    layer_norm_rule_says_so();
    conv_rule_says_so();
}

proof fn load_rule_says_so()
    ensures
        says_so(memory_entries()[0]),
{
    let e = memory_entries()[0];
    reveal_strlit("(rule (when (= op \"load\"))   (emit \"load\"  \"addr\"))");
    reveal_strlit("load");
    reveal_strlit("addr");
    shared_parts();
    few_arguments(e.args, 2);
    assert(e.src == rule_text(e.op, 3, e.instr, e.args, 2));
    entry_is_read(e, 3, 2);
}

proof fn store_rule_says_so()
    ensures
        says_so(memory_entries()[1]),
{
    let e = memory_entries()[1];
    reveal_strlit("(rule (when (= op \"store\"))  (emit \"store\" \"addr\" \"v\"))");
    reveal_strlit("store");
    reveal_strlit("addr");
    reveal_strlit("v");
    shared_parts();
    few_arguments(e.args, 1);
    assert(e.src == rule_text(e.op, 2, e.instr, e.args, 1));
    entry_is_read(e, 2, 1);
}

proof fn const_rule_says_so()
    ensures
        says_so(memory_entries()[2]),
{
    let e = memory_entries()[2];
    reveal_strlit("(rule (when (= op \"const\"))  (emit \"const\" \"imm\"))");
    reveal_strlit("const");
    reveal_strlit("imm");
    shared_parts();
    few_arguments(e.args, 1);
    assert(e.src == rule_text(e.op, 2, e.instr, e.args, 1));
    entry_is_read(e, 2, 1);
}

proof fn fused_rule_says_so()
    ensures
        says_so(memory_entries()[3]),
{
    let e = memory_entries()[3];
    reveal_strlit("(rule (when (= op \"fused\"))  (emit \"fused\" \"x\"))");
    reveal_strlit("fused");
    reveal_strlit("x");
    shared_parts();
    few_arguments(e.args, 1);
    assert(e.src == rule_text(e.op, 2, e.instr, e.args, 1));
    entry_is_read(e, 2, 1);
}

proof fn custom_rule_says_so()
    ensures
        says_so(memory_entries()[4]),
{
    let e = memory_entries()[4];
    reveal_strlit("(rule (when (= op \"custom\")) (emit \"custom\" \"x\"))");
    reveal_strlit("custom");
    reveal_strlit("x");
    shared_parts();
    few_arguments(e.args, 1);
    assert(e.src == rule_text(e.op, 1, e.instr, e.args, 1));
    entry_is_read(e, 1, 1);
}

proof fn memory_say_so(i: int)
    requires
        0 <= i < memory_entries().len(),
    ensures
        says_so(memory_entries()[i]),
{
    load_rule_says_so();
    store_rule_says_so();
    const_rule_says_so();
    fused_rule_says_so();
    custom_rule_says_so();
}

/// The text of every default rule says what the rule does.
pub proof fn default_rules_say_so(i: int)
    requires
        0 <= i < default_entries().len(),
    ensures
        says_so(default_entries()[i]),
{
    let a = arithmetic_entries();
    let b = activations_entries();
    let c = elementary_entries();
    let d = reductions_entries();
    let e = movement_entries();
    let f = compound_entries();
    let g = memory_entries();
    if i < a.len() {
        arithmetic_say_so(i);
    } else if i < a.len() + b.len() {
        activations_say_so(i - a.len());
    } else if i < a.len() + b.len() + c.len() {
        elementary_say_so(i - a.len() - b.len());
    } else if i < a.len() + b.len() + c.len() + d.len() {
        reductions_say_so(i - a.len() - b.len() - c.len());
    } else if i < a.len() + b.len() + c.len() + d.len() + e.len() {
        movement_say_so(i - a.len() - b.len() - c.len() - d.len());
    } else if i < a.len() + b.len() + c.len() + d.len() + e.len() + f.len() {
        compound_say_so(i - a.len() - b.len() - c.len() - d.len() - e.len());
    } else {
        memory_say_so(i - a.len() - b.len() - c.len() - d.len() - e.len() - f.len());
    }
}

} // verus!
