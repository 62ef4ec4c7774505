//! In what order rules apply and instructions stand.

use vstd::prelude::*;
use vstd::utf8::decode_utf8;
use crate::arch::ArchOpModel;
use crate::base::ErrorModel;
use crate::common::Target;
use crate::isel::rules::{
    RuleModel, ascii_blank, closing, line_end, line_end_bounds, parsed_rule, rules_from,
};
use crate::isel::select::{
    InstructionModel, Operand, RegsModel, emitted, first_match, instruction,
    operand_total, operands_keep_their_places, regs_before, rule_env, selected, selected_from,
    target_text,
};
use crate::lisp::interp::{Env, evaluated, truthy};
use crate::lisp::{FloatsModel, OutcomeModel, ValModel};

verus! {

/// Whether a rule does not apply, and asks for no floats to tell.
pub open spec fn passes_by(env: Env, r: RuleModel, f: FloatsModel) -> bool {
    evaluated(env, r.cond, f).1 == f && (evaluated(env, r.cond, f).0 matches OutcomeModel::Done(c)
        && !truthy(c))
}

/// Whether a rule applies, and asks for no floats to tell.
pub open spec fn applies(env: Env, r: RuleModel, f: FloatsModel) -> bool {
    evaluated(env, r.cond, f).1 == f && (evaluated(env, r.cond, f).0 matches OutcomeModel::Done(c)
        && truthy(c))
}

proof fn first_from(env: Env, rules: Seq<RuleModel>, k: nat, j: int, f: FloatsModel)
    requires
        k <= j < rules.len(),
        forall|i: int| k <= i < j ==> passes_by(env, #[trigger] rules[i], f),
        applies(env, rules[j], f),
    ensures
        first_match(env, rules, k, f) == (match emitted(env, rules[j], f) {
            (OutcomeModel::Done(t), h) => (
                OutcomeModel::<Option<Seq<char>>, ErrorModel>::Done(Some(t)),
                h,
            ),
            (o, h) => (o.passed_on(), h),
        }),
    decreases j - k,
{
    if k < j {
        assert(passes_by(env, rules[k as int], f));
        first_from(env, rules, k + 1, j, f);
    }
}

/// The first rule that applies decides: those before it that do not apply and those
/// behind it, whatever they are, make no difference.
pub proof fn first_rule_decides(env: Env, rules: Seq<RuleModel>, j: int, f: FloatsModel)
    requires
        0 <= j < rules.len(),
        forall|i: int| 0 <= i < j ==> passes_by(env, #[trigger] rules[i], f),
        applies(env, rules[j], f),
    ensures
        first_match(env, rules, 0, f) == first_match(env, seq![rules[j]], 0, f),
{
    first_from(env, rules, 0, j, f);
    first_from(env, seq![rules[j]], 0, 0, f);
}

proof fn none_from(env: Env, rules: Seq<RuleModel>, k: nat, f: FloatsModel)
    requires
        k <= rules.len(),
        forall|i: int| k <= i < rules.len() ==> passes_by(env, #[trigger] rules[i], f),
    ensures
        first_match(env, rules, k, f) == (
            OutcomeModel::<Option<Seq<char>>, ErrorModel>::Done(None),
            f,
        ),
    decreases rules.len() - k,
{
    if k < rules.len() {
        assert(passes_by(env, rules[k as int], f));
        none_from(env, rules, k + 1, f);
    }
}

/// If no rule applies there is no instruction.
pub proof fn no_rule_no_instruction(env: Env, rules: Seq<RuleModel>, f: FloatsModel)
    requires
        forall|i: int| 0 <= i < rules.len() ==> passes_by(env, #[trigger] rules[i], f),
    ensures
        first_match(env, rules, 0, f) == (
            OutcomeModel::<Option<Seq<char>>, ErrorModel>::Done(None),
            f,
        ),
{
    none_from(env, rules, 0, f);
}

/// What rules see: the name of the operation, its place, and the target.
pub proof fn rules_see_operation(op: Seq<char>, idx: i64, target: Seq<char>)
    ensures
        rule_env(op, idx, target).contains_key("op"@),
        rule_env(op, idx, target)["op"@] == ValModel::Str(op),
        rule_env(op, idx, target).contains_key("idx"@),
        rule_env(op, idx, target)["idx"@] == ValModel::Int(idx),
        rule_env(op, idx, target).contains_key("target"@),
        rule_env(op, idx, target)["target"@] == ValModel::Str(target),
{
    reveal_strlit("op");
    reveal_strlit("idx");
    reveal_strlit("target");
    assert("op"@.len() == 2 && "idx"@.len() == 3 && "target"@.len() == 6);
}

proof fn selected_in_order(
    ops: Seq<ArchOpModel>,
    k: nat,
    target: Seq<char>,
    rules: Seq<RuleModel>,
    acc: Seq<InstructionModel>,
    f: FloatsModel,
)
    requires
        k <= ops.len(),
        acc.len() == k,
        forall|i: int|
            0 <= i < k ==> #[trigger] acc[i] == instruction(
                acc[i].op,
                ops[i],
                regs_before(ops, i as nat),
            ),
    ensures
        selected_from(ops, k, target, rules, acc, regs_before(ops, k), f).0 matches OutcomeModel::Done(
            v,
        ) ==> v.len() == ops.len() && forall|i: int|
            0 <= i < ops.len() ==> #[trigger] v[i] == instruction(
                v[i].op,
                ops[i],
                regs_before(ops, i as nat),
            ),
    decreases ops.len() - k,
{
    if k < ops.len() {
        let op = ops[k as int];
        let m = regs_before(ops, k);
        let env = rule_env(crate::isel::select::op_name(op), k as i64, target);
        if let (OutcomeModel::Done(Some(name)), g) = first_match(env, rules, 0, f) {
            let next = acc.push(instruction(name, op, m));
            assert(next[k as int].op == name);
            assert forall|i: int| 0 <= i < k + 1 implies #[trigger] next[i] == instruction(
                next[i].op,
                ops[i],
                regs_before(ops, i as nat),
            ) by {
                if i < k {
                    assert(next[i] == acc[i]);
                }
            }
            assert(regs_before(ops, k + 1) == crate::isel::select::regs_after(op, m));
            selected_in_order(ops, k + 1, target, rules, next, g);
        }
    }
}

/// Whatever the rules, the instructions stand in the order of the operations, one for
/// each, and the operand of an instruction at each place is the register of the
/// operand of its operation at that place.
pub proof fn instructions_follow_operations(
    ops: Seq<ArchOpModel>,
    target: Target,
    rules: Seq<RuleModel>,
    f: FloatsModel,
    i: int,
)
    requires
        operand_total(ops) <= u32::MAX,
        0 <= i < ops.len(),
    ensures
        selected(ops, target, rules, f).0 matches OutcomeModel::Done(v) ==> {
            let all = regs_before(ops, ops.len()).map;
            &&& v.len() == ops.len()
            &&& ops[i] matches ArchOpModel::KernelCall { inputs, outputs, .. } ==> {
                &&& v[i].inputs.len() == inputs.len()
                &&& v[i].outputs.len() == outputs.len()
                &&& forall|k: int|
                    0 <= k < inputs.len() ==> #[trigger] v[i].inputs[k] == Operand::VReg(all[inputs[k]])
                &&& forall|k: int|
                    0 <= k < outputs.len() ==> #[trigger] v[i].outputs[k] == all[outputs[k]]
            }
        },
{
    assert(regs_before(ops, 0) == RegsModel::none());
    selected_in_order(ops, 0, target_text(target), rules, Seq::empty(), f);
    if let OutcomeModel::Done(v) = selected(ops, target, rules, f).0 {
        assert(v[i] == instruction(v[i].op, ops[i], regs_before(ops, i as nat)));
        operands_keep_their_places(ops, i as nat, v[i].op);
    }
}

/// Rules are read in order, each behind those before: what was read before makes no
/// difference to what is read, and stands in front of it.
pub proof fn rules_are_read_in_order(b: Seq<u8>, i: nat, acc: Seq<RuleModel>, f: FloatsModel)
    ensures
        rules_from(b, i, acc, f).1 == rules_from(b, i, Seq::empty(), f).1,
        rules_from(b, i, acc, f).0 == (match rules_from(b, i, Seq::empty(), f).0 {
            OutcomeModel::Done(v) => OutcomeModel::<Seq<RuleModel>, ErrorModel>::Done(acc + v),
            o => o,
        }),
    decreases b.len() - i,
{
    let none = Seq::<RuleModel>::empty();
    if i >= b.len() {
        assert(acc + none == acc);
    } else if b[i as int] == 59 {
        line_end_bounds(b, i + 1);
        rules_are_read_in_order(b, line_end(b, i + 1), acc, f);
    } else if ascii_blank(b[i as int]) {
        rules_are_read_in_order(b, i + 1, acc, f);
    } else if b[i as int] == 40 && closing(b, i, 0) is Some {
        let j = closing(b, i, 0)->0;
        if i <= j < b.len() {
            let text = decode_utf8(b.subrange(i as int, j as int + 1));
            if let (OutcomeModel::Done(r), g) = parsed_rule(text, f) {
                rules_are_read_in_order(b, j + 1, acc.push(r), g);
                rules_are_read_in_order(b, j + 1, none.push(r), g);
                if let OutcomeModel::Done(v) = rules_from(b, j + 1, none, g).0 {
                    assert(acc.push(r) + v == acc + (none.push(r) + v));
                }
            }
        }
    }
}

/// A rule that stands first in a text is the first that is read from it.
pub proof fn first_rule_is_read_first(b: Seq<u8>, f: FloatsModel)
    requires
        b.len() > 0,
        b[0] == 40,
        closing(b, 0, 0) matches Some(j) && j < b.len(),
    ensures
        ({
            let j = closing(b, 0, 0)->0;
            match parsed_rule(decode_utf8(b.take(j as int + 1)), f) {
                (OutcomeModel::Done(r), g) => rules_from(b, 0, Seq::empty(), f).0 == (
                match rules_from(b, j + 1, Seq::empty(), g).0 {
                    OutcomeModel::Done(v) => OutcomeModel::<Seq<RuleModel>, ErrorModel>::Done(
                        seq![r] + v,
                    ),
                    o => o,
                }),
                _ => !(rules_from(b, 0, Seq::empty(), f).0 is Done),
            }
        }),
{
    let j = closing(b, 0, 0)->0;
    assert(b.subrange(0, j as int + 1) == b.take(j as int + 1));
    if let (OutcomeModel::Done(r), g) = parsed_rule(decode_utf8(b.take(j as int + 1)), f) {
        rules_are_read_in_order(b, j + 1, Seq::empty().push(r), g);
        assert(Seq::empty().push(r) == seq![r]);
    }
}

} // verus!
