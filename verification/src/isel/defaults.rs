//! The rules that are used unless others are given: one for each native
//! operation that lowering yields.

use vstd::prelude::*;
use crate::isel::rules::{Rule, RuleModel, rule_models};
use crate::lisp::{Val, ValModel, models};

verus! {

/// A rule of the simplest form: for the operation `op`, emit the instruction
/// `instr` with arguments that are strings.
pub struct Entry {
    pub op: Seq<char>,
    pub instr: Seq<char>,
    pub args: Seq<Seq<char>>,
    pub src: Seq<char>,
}

/// String expressions with the given texts.
pub open spec fn strings(s: Seq<Seq<char>>) -> Seq<ValModel> {
    Seq::new(s.len(), |i: int| ValModel::Str(s[i]))
}

/// `(= op "<op>")`
pub open spec fn op_is(op: Seq<char>) -> ValModel {
    ValModel::List(seq![ValModel::Sym("="@), ValModel::Sym("op"@), ValModel::Str(op)])
}

/// `(emit "<instr>" "<arg>" ...)`
pub open spec fn emitting(instr: Seq<char>, args: Seq<Seq<char>>) -> ValModel {
    ValModel::List(seq![ValModel::Sym("emit"@), ValModel::Str(instr)] + strings(args))
}

/// The rule of an entry.
pub open spec fn entry_rule(e: Entry) -> RuleModel {
    RuleModel { cond: op_is(e.op), emit: emitting(e.instr, e.args), src: e.src }
}

/// The rules of entries.
pub open spec fn entry_rules(s: Seq<Entry>) -> Seq<RuleModel> {
    Seq::new(s.len(), |i: int| entry_rule(s[i]))
}

fn add_entry(rules: &mut Vec<Rule>, op: &str, instr: &str, args: Vec<&str>, src: &str)
    ensures
        rule_models(final(rules)@) == rule_models(old(rules)@).push(
            entry_rule(
                (Entry { op: op@, instr: instr@, args: arg_texts(args@), src: src@ }),
            ),
        ),
{
    let mut cond: Vec<Val> = Vec::new();
    cond.push(Val::Sym("=".to_owned()));
    cond.push(Val::Sym("op".to_owned()));
    cond.push(Val::Str(op.to_owned()));
    assert(models(cond@) == seq![
        ValModel::Sym("="@),
        ValModel::Sym("op"@),
        ValModel::Str(op@),
    ]);
    let mut emit: Vec<Val> = Vec::new();
    emit.push(Val::Sym("emit".to_owned()));
    emit.push(Val::Str(instr.to_owned()));
    let ghost head = seq![ValModel::Sym("emit"@), ValModel::Str(instr@)];
    assert(models(emit@) == head + strings(arg_texts(args@).take(0)));
    let mut k: usize = 0;
    while k < args.len()
        invariant
            k <= args@.len(),
            models(emit@) == head + strings(arg_texts(args@).take(k as int)),
        decreases args@.len() - k,
    {
        let ghost before = models(emit@);
        emit.push(Val::Str(args[k].to_owned()));
        k += 1;
        assert(models(emit@) == before.push(ValModel::Str(args@[k - 1]@)));
        assert(models(emit@) == head + strings(arg_texts(args@).take(k as int)));
    }
    assert(arg_texts(args@).take(k as int) == arg_texts(args@));
    let rule = Rule { cond: Val::List(cond), emit: Val::List(emit), src: src.to_owned() };
    rules.push(rule);
    assert(rule_models(rules@) == rule_models(old(rules)@).push(rule@));
}

/// The texts of arguments.
pub open spec fn arg_texts(s: Seq<&str>) -> Seq<Seq<char>> {
    Seq::new(s.len(), |i: int| s[i]@)
}

fn args1<'a>(a: &'a str) -> (r: Vec<&'a str>)
    ensures
        arg_texts(r@) == seq![a@],
{
    let mut v: Vec<&'a str> = Vec::new();
    v.push(a);
    assert(arg_texts(v@) == seq![a@]);
    v
}

fn args2<'a>(a: &'a str, b: &'a str) -> (r: Vec<&'a str>)
    ensures
        arg_texts(r@) == seq![a@, b@],
{
    let mut v: Vec<&'a str> = Vec::new();
    v.push(a);
    v.push(b);
    assert(arg_texts(v@) == seq![a@, b@]);
    v
}

fn args3<'a>(a: &'a str, b: &'a str, c: &'a str) -> (r: Vec<&'a str>)
    ensures
        arg_texts(r@) == seq![a@, b@, c@],
{
    let mut v: Vec<&'a str> = Vec::new();
    v.push(a);
    v.push(b);
    v.push(c);
    assert(arg_texts(v@) == seq![a@, b@, c@]);
    v
}

/// Arithmetic and matrix products.
pub open spec fn arithmetic_entries() -> Seq<Entry> {
    seq![
        Entry {
            op: "add"@,
            instr: "fadd"@,
            args: seq!["r0"@, "r1"@],
            src: "(rule (when (= op \"add\"))    (emit \"fadd\"  \"r0\" \"r1\"))"@,
        },
        Entry {
            op: "sub"@,
            instr: "fsub"@,
            args: seq!["r0"@, "r1"@],
            src: "(rule (when (= op \"sub\"))    (emit \"fsub\"  \"r0\" \"r1\"))"@,
        },
        Entry {
            op: "mul"@,
            instr: "fmul"@,
            args: seq!["r0"@, "r1"@],
            src: "(rule (when (= op \"mul\"))    (emit \"fmul\"  \"r0\" \"r1\"))"@,
        },
        Entry {
            op: "div"@,
            instr: "fdiv"@,
            args: seq!["r0"@, "r1"@],
            src: "(rule (when (= op \"div\"))    (emit \"fdiv\"  \"r0\" \"r1\"))"@,
        },
        Entry {
            op: "mma"@,
            instr: "mma"@,
            args: seq!["a"@, "b"@, "c"@],
            src: "(rule (when (= op \"mma\"))    (emit \"mma\"   \"a\" \"b\" \"c\"))"@,
        },
    ]
}

fn add_arithmetic(rules: &mut Vec<Rule>)
    ensures
        rule_models(final(rules)@) == rule_models(old(rules)@) + entry_rules(arithmetic_entries()),
{
    add_entry(
        rules,
        "add",
        "fadd",
        args2("r0", "r1"),
        "(rule (when (= op \"add\"))    (emit \"fadd\"  \"r0\" \"r1\"))",
    );
    add_entry(
        rules,
        "sub",
        "fsub",
        args2("r0", "r1"),
        "(rule (when (= op \"sub\"))    (emit \"fsub\"  \"r0\" \"r1\"))",
    );
    add_entry(
        rules,
        "mul",
        "fmul",
        args2("r0", "r1"),
        "(rule (when (= op \"mul\"))    (emit \"fmul\"  \"r0\" \"r1\"))",
    );
    add_entry(
        rules,
        "div",
        "fdiv",
        args2("r0", "r1"),
        "(rule (when (= op \"div\"))    (emit \"fdiv\"  \"r0\" \"r1\"))",
    );
    add_entry(
        rules,
        "mma",
        "mma",
        args3("a", "b", "c"),
        "(rule (when (= op \"mma\"))    (emit \"mma\"   \"a\" \"b\" \"c\"))",
    );
    assert(rule_models(rules@) == rule_models(old(rules)@) + entry_rules(arithmetic_entries()));
}

/// Activations.
pub open spec fn activations_entries() -> Seq<Entry> {
    seq![
        Entry {
            op: "relu"@,
            instr: "relu"@,
            args: seq!["x"@],
            src: "(rule (when (= op \"relu\"))   (emit \"relu\"  \"x\"))"@,
        },
        Entry {
            op: "gelu"@,
            instr: "gelu"@,
            args: seq!["x"@],
            src: "(rule (when (= op \"gelu\"))   (emit \"gelu\"  \"x\"))"@,
        },
        Entry {
            op: "sigmoid"@,
            instr: "sigm"@,
            args: seq!["x"@],
            src: "(rule (when (= op \"sigmoid\"))(emit \"sigm\"  \"x\"))"@,
        },
        Entry {
            op: "tanh"@,
            instr: "tanh"@,
            args: seq!["x"@],
            src: "(rule (when (= op \"tanh\"))   (emit \"tanh\"  \"x\"))"@,
        },
    ]
}

fn add_activations(rules: &mut Vec<Rule>)
    ensures
        rule_models(final(rules)@) == rule_models(old(rules)@) + entry_rules(activations_entries()),
{
    add_entry(
        rules,
        "relu",
        "relu",
        args1("x"),
        "(rule (when (= op \"relu\"))   (emit \"relu\"  \"x\"))",
    );
    add_entry(
        rules,
        "gelu",
        "gelu",
        args1("x"),
        "(rule (when (= op \"gelu\"))   (emit \"gelu\"  \"x\"))",
    );
    add_entry(
        rules,
        "sigmoid",
        "sigm",
        args1("x"),
        "(rule (when (= op \"sigmoid\"))(emit \"sigm\"  \"x\"))",
    );
    add_entry(
        rules,
        "tanh",
        "tanh",
        args1("x"),
        "(rule (when (= op \"tanh\"))   (emit \"tanh\"  \"x\"))",
    );
    assert(rule_models(rules@) == rule_models(old(rules)@) + entry_rules(activations_entries()));
}

/// Elementary functions.
pub open spec fn elementary_entries() -> Seq<Entry> {
    seq![
        Entry {
            op: "sqrt"@,
            instr: "sqrt"@,
            args: seq!["x"@],
            src: "(rule (when (= op \"sqrt\"))   (emit \"sqrt\"  \"x\"))"@,
        },
        Entry {
            op: "rsqrt"@,
            instr: "rsqrt"@,
            args: seq!["x"@],
            src: "(rule (when (= op \"rsqrt\"))  (emit \"rsqrt\" \"x\"))"@,
        },
        Entry {
            op: "reciprocal"@,
            instr: "reciprocal"@,
            args: seq!["x"@],
            src: "(rule (when (= op \"reciprocal\")) (emit \"reciprocal\" \"x\"))"@,
        },
        Entry {
            op: "abs"@,
            instr: "abs"@,
            args: seq!["x"@],
            src: "(rule (when (= op \"abs\"))    (emit \"abs\"   \"x\"))"@,
        },
        Entry {
            op: "log"@,
            instr: "log"@,
            args: seq!["x"@],
            src: "(rule (when (= op \"log\"))    (emit \"log\"   \"x\"))"@,
        },
        Entry {
            op: "exp"@,
            instr: "exp"@,
            args: seq!["x"@],
            src: "(rule (when (= op \"exp\"))    (emit \"exp\"   \"x\"))"@,
        },
        Entry {
            op: "pow"@,
            instr: "pow"@,
            args: seq!["x"@, "y"@],
            src: "(rule (when (= op \"pow\"))    (emit \"pow\"   \"x\" \"y\"))"@,
        },
    ]
}

fn add_elementary(rules: &mut Vec<Rule>)
    ensures
        rule_models(final(rules)@) == rule_models(old(rules)@) + entry_rules(elementary_entries()),
{
    add_entry(
        rules,
        "sqrt",
        "sqrt",
        args1("x"),
        "(rule (when (= op \"sqrt\"))   (emit \"sqrt\"  \"x\"))",
    );
    add_entry(
        rules,
        "rsqrt",
        "rsqrt",
        args1("x"),
        "(rule (when (= op \"rsqrt\"))  (emit \"rsqrt\" \"x\"))",
    );
    add_entry(
        rules,
        "reciprocal",
        "reciprocal",
        args1("x"),
        "(rule (when (= op \"reciprocal\")) (emit \"reciprocal\" \"x\"))",
    );
    add_entry(
        rules,
        "abs",
        "abs",
        args1("x"),
        "(rule (when (= op \"abs\"))    (emit \"abs\"   \"x\"))",
    );
    add_entry(
        rules,
        "log",
        "log",
        args1("x"),
        "(rule (when (= op \"log\"))    (emit \"log\"   \"x\"))",
    );
    add_entry(
        rules,
        "exp",
        "exp",
        args1("x"),
        "(rule (when (= op \"exp\"))    (emit \"exp\"   \"x\"))",
    );
    add_entry(
        rules,
        "pow",
        "pow",
        args2("x", "y"),
        "(rule (when (= op \"pow\"))    (emit \"pow\"   \"x\" \"y\"))",
    );
    assert(rule_models(rules@) == rule_models(old(rules)@) + entry_rules(elementary_entries()));
}

/// Reductions.
pub open spec fn reductions_entries() -> Seq<Entry> {
    seq![
        Entry {
            op: "reduce_sum"@,
            instr: "rsum"@,
            args: seq!["x"@, "axis"@],
            src: "(rule (when (= op \"reduce_sum\"))  (emit \"rsum\"  \"x\" \"axis\"))"@,
        },
        Entry {
            op: "reduce_mean"@,
            instr: "rmean"@,
            args: seq!["x"@, "axis"@],
            src: "(rule (when (= op \"reduce_mean\")) (emit \"rmean\" \"x\" \"axis\"))"@,
        },
        Entry {
            op: "reduce_max"@,
            instr: "rmax"@,
            args: seq!["x"@, "axis"@],
            src: "(rule (when (= op \"reduce_max\"))  (emit \"rmax\"  \"x\" \"axis\"))"@,
        },
    ]
}

fn add_reductions(rules: &mut Vec<Rule>)
    ensures
        rule_models(final(rules)@) == rule_models(old(rules)@) + entry_rules(reductions_entries()),
{
    add_entry(
        rules,
        "reduce_sum",
        "rsum",
        args2("x", "axis"),
        "(rule (when (= op \"reduce_sum\"))  (emit \"rsum\"  \"x\" \"axis\"))",
    );
    add_entry(
        rules,
        "reduce_mean",
        "rmean",
        args2("x", "axis"),
        "(rule (when (= op \"reduce_mean\")) (emit \"rmean\" \"x\" \"axis\"))",
    );
    add_entry(
        rules,
        "reduce_max",
        "rmax",
        args2("x", "axis"),
        "(rule (when (= op \"reduce_max\"))  (emit \"rmax\"  \"x\" \"axis\"))",
    );
    assert(rule_models(rules@) == rule_models(old(rules)@) + entry_rules(reductions_entries()));
}

/// Data movement.
pub open spec fn movement_entries() -> Seq<Entry> {
    seq![
        Entry {
            op: "reshape"@,
            instr: "reshape"@,
            args: seq!["x"@],
            src: "(rule (when (= op \"reshape\"))   (emit \"reshape\" \"x\"))"@,
        },
        Entry {
            op: "transpose"@,
            instr: "transpose"@,
            args: seq!["x"@],
            src: "(rule (when (= op \"transpose\")) (emit \"transpose\" \"x\"))"@,
        },
        Entry {
            op: "concat"@,
            instr: "concat"@,
            args: seq!["x"@],
            src: "(rule (when (= op \"concat\"))    (emit \"concat\" \"x\"))"@,
        },
        Entry {
            op: "slice"@,
            instr: "slice"@,
            args: seq!["x"@],
            src: "(rule (when (= op \"slice\"))     (emit \"slice\" \"x\"))"@,
        },
        Entry {
            op: "pool"@,
            instr: "pool"@,
            args: seq!["x"@],
            src: "(rule (when (= op \"pool\"))      (emit \"pool\" \"x\"))"@,
        },
    ]
}

fn add_movement(rules: &mut Vec<Rule>)
    ensures
        rule_models(final(rules)@) == rule_models(old(rules)@) + entry_rules(movement_entries()),
{
    add_entry(
        rules,
        "reshape",
        "reshape",
        args1("x"),
        "(rule (when (= op \"reshape\"))   (emit \"reshape\" \"x\"))",
    );
    add_entry(
        rules,
        "transpose",
        "transpose",
        args1("x"),
        "(rule (when (= op \"transpose\")) (emit \"transpose\" \"x\"))",
    );
    add_entry(
        rules,
        "concat",
        "concat",
        args1("x"),
        "(rule (when (= op \"concat\"))    (emit \"concat\" \"x\"))",
    );
    add_entry(
        rules,
        "slice",
        "slice",
        args1("x"),
        "(rule (when (= op \"slice\"))     (emit \"slice\" \"x\"))",
    );
    add_entry(
        rules,
        "pool",
        "pool",
        args1("x"),
        "(rule (when (= op \"pool\"))      (emit \"pool\" \"x\"))",
    );
    assert(rule_models(rules@) == rule_models(old(rules)@) + entry_rules(movement_entries()));
}

/// Compound operations.
pub open spec fn compound_entries() -> Seq<Entry> {
    seq![
        Entry {
            op: "softmax"@,
            instr: "sm"@,
            args: seq!["x"@],
            src: "(rule (when (= op \"softmax\"))    (emit \"sm\"    \"x\"))"@,
        },
        Entry {
            op: "layer_norm"@,
            instr: "ln"@,
            args: seq!["x"@, "g"@, "b"@],
            src: "(rule (when (= op \"layer_norm\")) (emit \"ln\"    \"x\" \"g\" \"b\"))"@,
        },
        Entry {
            op: "conv"@,
            instr: "conv"@,
            args: seq!["x"@, "w"@],
            src: "(rule (when (= op \"conv\"))       (emit \"conv\"  \"x\" \"w\"))"@,
        },
    ]
}

fn add_compound(rules: &mut Vec<Rule>)
    ensures
        rule_models(final(rules)@) == rule_models(old(rules)@) + entry_rules(compound_entries()),
{
    add_entry(
        rules,
        "softmax",
        "sm",
        args1("x"),
        "(rule (when (= op \"softmax\"))    (emit \"sm\"    \"x\"))",
    );
    add_entry(
        rules,
        "layer_norm",
        "ln",
        args3("x", "g", "b"),
        "(rule (when (= op \"layer_norm\")) (emit \"ln\"    \"x\" \"g\" \"b\"))",
    );
    add_entry(
        rules,
        "conv",
        "conv",
        args2("x", "w"),
        "(rule (when (= op \"conv\"))       (emit \"conv\"  \"x\" \"w\"))",
    );
    assert(rule_models(rules@) == rule_models(old(rules)@) + entry_rules(compound_entries()));
}

/// Memory, constants, fused and unknown operations.
pub open spec fn memory_entries() -> Seq<Entry> {
    seq![
        Entry {
            op: "load"@,
            instr: "load"@,
            args: seq!["addr"@],
            src: "(rule (when (= op \"load\"))   (emit \"load\"  \"addr\"))"@,
        },
        Entry {
            op: "store"@,
            instr: "store"@,
            args: seq!["addr"@, "v"@],
            src: "(rule (when (= op \"store\"))  (emit \"store\" \"addr\" \"v\"))"@,
        },
        Entry {
            op: "const"@,
            instr: "const"@,
            args: seq!["imm"@],
            src: "(rule (when (= op \"const\"))  (emit \"const\" \"imm\"))"@,
        },
        Entry {
            op: "fused"@,
            instr: "fused"@,
            args: seq!["x"@],
            src: "(rule (when (= op \"fused\"))  (emit \"fused\" \"x\"))"@,
        },
        Entry {
            op: "custom"@,
            instr: "custom"@,
            args: seq!["x"@],
            src: "(rule (when (= op \"custom\")) (emit \"custom\" \"x\"))"@,
        },
    ]
}

fn add_memory(rules: &mut Vec<Rule>)
    ensures
        rule_models(final(rules)@) == rule_models(old(rules)@) + entry_rules(memory_entries()),
{
    add_entry(
        rules,
        "load",
        "load",
        args1("addr"),
        "(rule (when (= op \"load\"))   (emit \"load\"  \"addr\"))",
    );
    add_entry(
        rules,
        "store",
        "store",
        args2("addr", "v"),
        "(rule (when (= op \"store\"))  (emit \"store\" \"addr\" \"v\"))",
    );
    add_entry(
        rules,
        "const",
        "const",
        args1("imm"),
        "(rule (when (= op \"const\"))  (emit \"const\" \"imm\"))",
    );
    add_entry(
        rules,
        "fused",
        "fused",
        args1("x"),
        "(rule (when (= op \"fused\"))  (emit \"fused\" \"x\"))",
    );
    add_entry(
        rules,
        "custom",
        "custom",
        args1("x"),
        "(rule (when (= op \"custom\")) (emit \"custom\" \"x\"))",
    );
    assert(rule_models(rules@) == rule_models(old(rules)@) + entry_rules(memory_entries()));
}

/// All entries.
pub open spec fn default_entries() -> Seq<Entry> {
    arithmetic_entries() + activations_entries() + elementary_entries() + reductions_entries()
        + movement_entries() + compound_entries() + memory_entries()
}

/// The default rules.
pub fn default_rules() -> (r: Vec<Rule>)
    ensures
        rule_models(r@) == entry_rules(default_entries()),
{
    let mut rules: Vec<Rule> = Vec::new();
    add_arithmetic(&mut rules);
    add_activations(&mut rules);
    add_elementary(&mut rules);
    add_reductions(&mut rules);
    add_movement(&mut rules);
    add_compound(&mut rules);
    add_memory(&mut rules);
    assert(rule_models(rules@) == entry_rules(default_entries()));
    rules
}

} // verus!
