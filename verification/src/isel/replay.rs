//! Reading rules and selecting instructions again with more answers.

use vstd::prelude::*;
use vstd::utf8::decode_utf8;
use crate::arch::ArchOpModel;
use crate::common::Target;
use crate::lisp::interp::{Env, evaluated, truthy};
use crate::lisp::parser::parsed;
use crate::lisp::replay::{
    detailing_repeats, evaluation_repeats, parsing_repeats, repeats, showing_repeats,
};
use crate::lisp::show::shown;
use crate::lisp::{AnswerModel, FloatsModel, OutcomeModel, ValModel};
use crate::isel::rules::{
    RuleModel, ascii_blank, clauses_from, closing, line_end, line_end_bounds, parsed_rule, rules_from,
};
use crate::isel::select::{
    InstructionModel, RegsModel, emitted, first_match, instruction, op_name, parts_from, regs_after,
    rule_env, selected, selected_from, target_text,
};

verus! {

proof fn clauses_repeat(
    items: Seq<ValModel>,
    k: nat,
    cond: ValModel,
    emit: ValModel,
    src: Seq<char>,
    f: FloatsModel,
    more: Seq<AnswerModel>,
)
    ensures
        repeats(
            clauses_from(items, k, cond, emit, src, f),
            clauses_from(items, k, cond, emit, src, f.followed_by(more)),
            more,
        ),
    decreases items.len() - k,
{
    if k < items.len() {
        if let ValModel::List(sub) = items[k as int] {
            if sub.len() == 0 {
                clauses_repeat(items, k + 1, cond, emit, src, f, more);
            } else if sub[0] == ValModel::Sym("when"@) {
                if sub.len() >= 2 {
                    clauses_repeat(items, k + 1, sub[1], emit, src, f, more);
                }
            } else if sub[0] == ValModel::Sym("emit"@) {
                clauses_repeat(items, k + 1, cond, items[k as int], src, f, more);
            } else {
                detailing_repeats(sub[0], f, more);
            }
        }
    }
}

/// The rule that a text stands for stays as it is when more answers follow.
pub proof fn reading_a_rule_repeats(src: Seq<char>, f: FloatsModel, more: Seq<AnswerModel>)
    ensures
        repeats(parsed_rule(src, f), parsed_rule(src, f.followed_by(more)), more),
{
    parsing_repeats(src, f, more);
    if let (OutcomeModel::Done(ValModel::List(items)), g) = parsed(src, f) {
        clauses_repeat(items, 1, ValModel::Nil, ValModel::Nil, src, g, more);
    }
}

/// The rules in the bytes of a text stay as they are when more answers follow.
pub proof fn loading_repeats(
    b: Seq<u8>,
    i: nat,
    acc: Seq<RuleModel>,
    f: FloatsModel,
    more: Seq<AnswerModel>,
)
    ensures
        repeats(rules_from(b, i, acc, f), rules_from(b, i, acc, f.followed_by(more)), more),
    decreases b.len() - i,
{
    if i < b.len() {
        if b[i as int] == 59 {
            line_end_bounds(b, i + 1);
            loading_repeats(b, line_end(b, i + 1), acc, f, more);
        } else if ascii_blank(b[i as int]) {
            loading_repeats(b, i + 1, acc, f, more);
        } else if b[i as int] == 40 {
            if let Some(j) = closing(b, i, 0) {
                if i <= j < b.len() {
                    let src = decode_utf8(b.subrange(i as int, j as int + 1));
                    reading_a_rule_repeats(src, f, more);
                    if let (OutcomeModel::Done(r), g) = parsed_rule(src, f) {
                        loading_repeats(b, j + 1, acc.push(r), g, more);
                    }
                }
            }
        }
    }
}

proof fn parts_repeat(
    env: Env,
    items: Seq<ValModel>,
    k: nat,
    acc: Seq<Seq<char>>,
    src: Seq<char>,
    f: FloatsModel,
    more: Seq<AnswerModel>,
)
    ensures
        repeats(
            parts_from(env, items, k, acc, src, f),
            parts_from(env, items, k, acc, src, f.followed_by(more)),
            more,
        ),
    decreases items.len() - k,
{
    if k < items.len() {
        evaluation_repeats(env, items[k as int], f, more);
        if let (OutcomeModel::Done(v), g) = evaluated(env, items[k as int], f) {
            showing_repeats(v, g, more);
            if let (OutcomeModel::Done(t), h) = shown(v, g) {
                parts_repeat(env, items, k + 1, acc.push(t), src, h, more);
            }
        }
    }
}

proof fn emission_repeats(env: Env, r: RuleModel, f: FloatsModel, more: Seq<AnswerModel>)
    ensures
        repeats(emitted(env, r, f), emitted(env, r, f.followed_by(more)), more),
{
    if let ValModel::List(items) = r.emit {
        parts_repeat(env, items, 1, Seq::empty(), r.src, f, more);
    }
}

/// The rule that is the first to apply stays so when more answers follow, and
/// emits the same.
pub proof fn matching_repeats(
    env: Env,
    rules: Seq<RuleModel>,
    k: nat,
    f: FloatsModel,
    more: Seq<AnswerModel>,
)
    ensures
        repeats(first_match(env, rules, k, f), first_match(env, rules, k, f.followed_by(more)), more),
    decreases rules.len() - k,
{
    if k < rules.len() {
        let r = rules[k as int];
        evaluation_repeats(env, r.cond, f, more);
        if let (OutcomeModel::Done(c), g) = evaluated(env, r.cond, f) {
            if truthy(c) {
                emission_repeats(env, r, g, more);
            } else {
                matching_repeats(env, rules, k + 1, g, more);
            }
        }
    }
}

proof fn selecting_repeats(
    ops: Seq<ArchOpModel>,
    k: nat,
    target: Seq<char>,
    rules: Seq<RuleModel>,
    acc: Seq<InstructionModel>,
    m: RegsModel,
    f: FloatsModel,
    more: Seq<AnswerModel>,
)
    ensures
        repeats(
            selected_from(ops, k, target, rules, acc, m, f),
            selected_from(ops, k, target, rules, acc, m, f.followed_by(more)),
            more,
        ),
    decreases ops.len() - k,
{
    if k < ops.len() {
        let op = ops[k as int];
        let env = rule_env(op_name(op), k as i64, target);
        matching_repeats(env, rules, 0, f, more);
        if let (OutcomeModel::Done(Some(name)), g) = first_match(env, rules, 0, f) {
            selecting_repeats(
                ops,
                k + 1,
                target,
                rules,
                acc.push(instruction(name, op, m)),
                regs_after(op, m),
                g,
                more,
            );
        }
    }
}

/// The instructions for the operations of a graph stay as they are when more
/// answers follow.
pub proof fn selection_repeats(
    ops: Seq<ArchOpModel>,
    target: Target,
    rules: Seq<RuleModel>,
    f: FloatsModel,
    more: Seq<AnswerModel>,
)
    ensures
        repeats(selected(ops, target, rules, f), selected(ops, target, rules, f.followed_by(more)), more),
{
    selecting_repeats(ops, 0, target_text(target), rules, Seq::empty(), RegsModel::none(), f, more);
}

} // verus!
