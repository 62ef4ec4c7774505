//! Selecting instructions for native operations.

use vstd::prelude::*;
use std::collections::HashMap;
use crate::arch::{ArchGraph, ArchOp, ArchOpModel, op_models};
use crate::base::{ErrorModel, NeutronError, Result, ValueId};
use crate::common::Target;
use crate::isel::defaults::{
    Entry, default_entries, default_rules, emitting, entry_rule, entry_rules, op_is, strings,
};
use crate::isel::rules::{Rule, RuleModel, is_symbol, isel_error, isel_failure, rule_models};
use crate::lisp::interp::{
    Env, Interp, all_from, called, evaluated, form, initial_env, is_truthy, truthy,
};
use crate::lisp::show::{show, shown};
use crate::lisp::{Floats, FloatsModel, Outcome, OutcomeModel, Val, ValModel, models};
use crate::text::{dec, push_dec, quote, quoted};

verus! {

/// A virtual register.
#[derive(Debug, Clone, Copy, PartialEq, Eq, Hash, Structural)]
pub struct VReg(pub u32);

/// An operand: a virtual register, or a constant given by its bits.
#[derive(Debug, Clone, Copy, PartialEq, Eq, Structural)]
pub enum Operand {
    VReg(VReg),
    Imm(u64),
}

/// An instruction with virtual registers.
#[derive(Debug)]
pub struct Instruction {
    pub op: String,
    pub inputs: Vec<Operand>,
    pub outputs: Vec<VReg>,
}

/// What an instruction says.
#[verifier::ext_equal]
pub struct InstructionModel {
    pub op: Seq<char>,
    pub inputs: Seq<Operand>,
    pub outputs: Seq<VReg>,
}

impl View for Instruction {
    type V = InstructionModel;

    open spec fn view(&self) -> InstructionModel {
        InstructionModel { op: self.op@, inputs: self.inputs@, outputs: self.outputs@ }
    }
}

impl Clone for Instruction {
    fn clone(&self) -> (r: Self)
        ensures
            r@ == self@,
    {
        let inputs: Vec<Operand> = self.inputs.clone();
        let outputs: Vec<VReg> = self.outputs.clone();
        assert(inputs@ == self.inputs@ && outputs@ == self.outputs@);
        Instruction { op: self.op.clone(), inputs, outputs }
    }
}

/// What the instructions of a sequence say.
pub open spec fn instruction_models(s: Seq<Instruction>) -> Seq<InstructionModel> {
    Seq::new(s.len(), |i: int| s[i]@)
}

/// `head`, the text of a rule in brackets, and the reason of a failure.
pub open spec fn rule_failure(head: Seq<char>, src: Seq<char>, e: Seq<char>) -> ErrorModel {
    isel_error(head + src + "]: "@ + e)
}

/// `acc`, then the texts of the values of the arguments from `k` on.
pub open spec fn parts_from(
    env: Env,
    items: Seq<ValModel>,
    k: nat,
    acc: Seq<Seq<char>>,
    src: Seq<char>,
    f: FloatsModel,
) -> (OutcomeModel<Seq<Seq<char>>, ErrorModel>, FloatsModel)
    decreases items.len() - k,
{
    if k >= items.len() {
        (OutcomeModel::Done(acc), f)
    } else {
        match evaluated(env, items[k as int], f) {
            (OutcomeModel::Done(v), g) => match shown(v, g) {
                (OutcomeModel::Done(t), h) => parts_from(env, items, k + 1, acc.push(t), src, h),
                (OutcomeModel::Failed(e), h) => (OutcomeModel::Failed(isel_error(e)), h),
                (OutcomeModel::Stuck, h) => (OutcomeModel::Stuck, h),
                (OutcomeModel::Needs(q), h) => (OutcomeModel::Needs(q), h),
            },
            (OutcomeModel::Failed(e), g) => (
                OutcomeModel::Failed(rule_failure("emit 参数求值失败 ["@, src, e)),
                g,
            ),
            (OutcomeModel::Stuck, g) => (OutcomeModel::Stuck, g),
            (OutcomeModel::Needs(q), g) => (OutcomeModel::Needs(q), g),
        }
    }
}

/// The name of the instruction that a rule that applies emits: the first of
/// the values of its arguments.
pub open spec fn emitted(env: Env, r: RuleModel, f: FloatsModel) -> (
    OutcomeModel<Seq<char>, ErrorModel>,
    FloatsModel,
) {
    match r.emit {
        ValModel::List(items) => if items.len() == 0 || items[0] != ValModel::Sym("emit"@) {
            (OutcomeModel::Failed(isel_error("emit 子句格式错误"@)), f)
        } else {
            match parts_from(env, items, 1, Seq::empty(), r.src, f) {
                (OutcomeModel::Done(parts), g) => if parts.len() == 0 {
                    (OutcomeModel::Stuck, g)
                } else {
                    (OutcomeModel::Done(parts[0]), g)
                },
                (o, g) => (o.passed_on(), g),
            }
        },
        _ => (OutcomeModel::Failed(isel_error("emit 必须是 list"@)), f),
    }
}

/// The name of the instruction emitted by the first of the rules from `k` on
/// that applies, if any does.
pub open spec fn first_match(env: Env, rules: Seq<RuleModel>, k: nat, f: FloatsModel) -> (
    OutcomeModel<Option<Seq<char>>, ErrorModel>,
    FloatsModel,
)
    decreases rules.len() - k,
{
    if k >= rules.len() {
        (OutcomeModel::Done(None), f)
    } else {
        let r = rules[k as int];
        match evaluated(env, r.cond, f) {
            (OutcomeModel::Done(c), g) => if truthy(c) {
                match emitted(env, r, g) {
                    (OutcomeModel::Done(t), h) => (OutcomeModel::Done(Some(t)), h),
                    (o, h) => (o.passed_on(), h),
                }
            } else {
                first_match(env, rules, k + 1, g)
            },
            (OutcomeModel::Failed(e), g) => (
                OutcomeModel::Failed(rule_failure("规则条件求值失败 ["@, r.src, e)),
                g,
            ),
            (OutcomeModel::Stuck, g) => (OutcomeModel::Stuck, g),
            (OutcomeModel::Needs(q), g) => (OutcomeModel::Needs(q), g),
        }
    }
}

/// What rules are evaluated with for the operation `op` at position `idx`.
pub open spec fn rule_env(op: Seq<char>, idx: i64, target: Seq<char>) -> Env {
    initial_env().insert("op"@, ValModel::Str(op)).insert("idx"@, ValModel::Int(idx)).insert(
        "target"@,
        ValModel::Str(target),
    )
}

/// The name under which rules know a target.
pub open spec fn target_text(t: Target) -> Seq<char> {
    match t {
        Target::Cuda => "cuda"@,
        Target::Npu => "npu"@,
        Target::Cpu => "cpu"@,
    }
}

pub(crate) fn target_str(t: Target) -> (r: &'static str)
    ensures
        r@ == target_text(t),
{
    match t {
        Target::Cuda => "cuda",
        Target::Npu => "npu",
        Target::Cpu => "cpu",
    }
}

/// The virtual registers that stand for values, and how many there are.
#[verifier::ext_equal]
pub struct RegsModel {
    pub map: Map<u32, VReg>,
    pub next: nat,
}

impl RegsModel {
    /// No registers.
    pub open spec fn none() -> RegsModel {
        RegsModel { map: Map::empty(), next: 0 }
    }

    /// With a register for `v`: the one it has, or the next one.
    pub open spec fn covering(self, v: u32) -> RegsModel {
        if self.map.contains_key(v) {
            self
        } else {
            RegsModel { map: self.map.insert(v, VReg(self.next as u32)), next: self.next + 1 }
        }
    }

    /// With registers for several values, in order.
    pub open spec fn covering_all(self, vs: Seq<u32>) -> RegsModel
        decreases vs.len(),
    {
        if vs.len() == 0 {
            self
        } else {
            self.covering_all(vs.drop_last()).covering(vs.last())
        }
    }

    /// The registers of values that have some.
    pub open spec fn regs(self, vs: Seq<u32>) -> Seq<VReg> {
        Seq::new(vs.len(), |i: int| self.map[vs[i]])
    }

    /// Different values have different registers, numbered from zero without gaps.
    pub open spec fn wf(self) -> bool {
        &&& forall|v: u32| #[trigger] self.map.contains_key(v) ==> self.map[v].0 < self.next
        &&& forall|v: u32, w: u32|
            #![trigger self.map[v], self.map[w]]
            self.map.contains_key(v) && self.map.contains_key(w) && v != w ==> self.map[v]
                != self.map[w]
        &&& forall|n: nat| n < self.next ==> #[trigger] self.in_use(n)
    }

    /// Some value has the register `n`.
    pub open spec fn in_use(self, n: nat) -> bool {
        exists|v: u32| #[trigger] self.map.contains_key(v) && self.map[v].0 == n
    }
}

/// The name of a native operation.
pub open spec fn op_name(op: ArchOpModel) -> Seq<char> {
    match op {
        ArchOpModel::KernelCall { name, .. } => name,
        ArchOpModel::Load { .. } => "load"@,
        ArchOpModel::Store { .. } => "store"@,
    }
}

/// The values that a native operation reads.
pub open spec fn op_inputs(op: ArchOpModel) -> Seq<u32> {
    match op {
        ArchOpModel::KernelCall { inputs, .. } => inputs,
        ArchOpModel::Load { addr, .. } => seq![addr],
        ArchOpModel::Store { addr, src } => seq![addr, src],
    }
}

/// The values that a native operation defines.
pub open spec fn op_outputs(op: ArchOpModel) -> Seq<u32> {
    match op {
        ArchOpModel::KernelCall { outputs, .. } => outputs,
        ArchOpModel::Load { dst, .. } => seq![dst],
        ArchOpModel::Store { .. } => Seq::empty(),
    }
}

/// How many operands the operations have together.
pub open spec fn operand_total(ops: Seq<ArchOpModel>) -> nat
    decreases ops.len(),
{
    if ops.len() == 0 {
        0
    } else {
        operand_total(ops.drop_last()) + op_inputs(ops.last()).len() + op_outputs(ops.last()).len()
    }
}

/// Registers as operands.
pub open spec fn operands(rs: Seq<VReg>) -> Seq<Operand> {
    Seq::new(rs.len(), |i: int| Operand::VReg(rs[i]))
}

/// The registers after an operation: its inputs get theirs first.
pub open spec fn regs_after(op: ArchOpModel, m: RegsModel) -> RegsModel {
    m.covering_all(op_inputs(op)).covering_all(op_outputs(op))
}

/// The instruction `name` with the operands of an operation.
pub open spec fn instruction(name: Seq<char>, op: ArchOpModel, m: RegsModel) -> InstructionModel {
    InstructionModel {
        op: name,
        inputs: operands(m.covering_all(op_inputs(op)).regs(op_inputs(op))),
        outputs: regs_after(op, m).regs(op_outputs(op)),
    }
}

/// Identifiers in brackets, separated by commas.
pub open spec fn id_list(vs: Seq<u32>) -> Seq<char> {
    "["@ + ids_text(vs) + "]"@
}

pub open spec fn ids_text(vs: Seq<u32>) -> Seq<char>
    decreases vs.len(),
{
    if vs.len() == 0 {
        Seq::empty()
    } else if vs.len() == 1 {
        dec(vs[0] as nat)
    } else {
        ids_text(vs.drop_last()) + ", "@ + dec(vs.last() as nat)
    }
}

/// The text that shows an operation with its operands.
pub open spec fn op_text(op: ArchOpModel) -> Seq<char> {
    match op {
        ArchOpModel::KernelCall { name, inputs, outputs } => "KernelCall { name: "@ + quoted(name)
            + ", inputs: "@ + id_list(inputs) + ", outputs: "@ + id_list(outputs) + " }"@,
        ArchOpModel::Load { addr, dst } => "Load { addr: "@ + dec(addr as nat) + ", dst: "@ + dec(
            dst as nat,
        ) + " }"@,
        ArchOpModel::Store { addr, src } => "Store { addr: "@ + dec(addr as nat) + ", src: "@ + dec(
            src as nat,
        ) + " }"@,
    }
}

/// The error for an operation that no rule applies to.
pub open spec fn no_rule(op: ArchOpModel, idx: nat) -> ErrorModel {
    isel_error("无规则匹配 op: "@ + op_text(op) + "（idx "@ + dec(idx) + "）"@)
}

/// `acc`, then the instructions for the operations from `k` on.
pub open spec fn selected_from(
    ops: Seq<ArchOpModel>,
    k: nat,
    target: Seq<char>,
    rules: Seq<RuleModel>,
    acc: Seq<InstructionModel>,
    m: RegsModel,
    f: FloatsModel,
) -> (OutcomeModel<Seq<InstructionModel>, ErrorModel>, FloatsModel)
    decreases ops.len() - k,
{
    if k >= ops.len() {
        (OutcomeModel::Done(acc), f)
    } else {
        let op = ops[k as int];
        match first_match(rule_env(op_name(op), k as i64, target), rules, 0, f) {
            (OutcomeModel::Done(Some(name)), g) => selected_from(
                ops,
                k + 1,
                target,
                rules,
                acc.push(instruction(name, op, m)),
                regs_after(op, m),
                g,
            ),
            (OutcomeModel::Done(None), g) => (OutcomeModel::Failed(no_rule(op, k)), g),
            (o, g) => (o.passed_on(), g),
        }
    }
}

/// The instructions for the operations of a graph.
pub open spec fn selected(ops: Seq<ArchOpModel>, target: Target, rules: Seq<RuleModel>, f: FloatsModel) -> (
    OutcomeModel<Seq<InstructionModel>, ErrorModel>,
    FloatsModel,
) {
    selected_from(ops, 0, target_text(target), rules, Seq::empty(), RegsModel::none(), f)
}

fn failure_with_rule(head: &str, src: &str, e: &str) -> (r: NeutronError)
    ensures
        r@ == rule_failure(head@, src@, e@),
{
    let mut s = head.to_owned();
    s.append(src);
    s.append("]: ");
    s.append(e);
    NeutronError::Isel(s)
}

fn emit_name(interp: &Interp, rule: &Rule, floats: &mut Floats) -> (r: Outcome<String, NeutronError>)
    ensures
        (r@, final(floats)@) == emitted(interp@, rule@, old(floats)@),
{
    match &rule.emit {
        Val::List(items) => {
            if items.len() == 0 {
                return Outcome::Failed(isel_failure("emit 子句格式错误"));
            }
            assert(models(items@)[0] == items@[0]@);
            if !is_symbol(&items[0], "emit") {
                return Outcome::Failed(isel_failure("emit 子句格式错误"));
            }
            let mut first: Option<String> = None;
            let mut k: usize = 1;
            let ghost mut acc: Seq<Seq<char>> = Seq::empty();
            let ghost whole = parts_from(interp@, models(items@), 1, acc, rule.src@, floats@);
            while k < items.len()
                invariant
                    1 <= k <= items@.len(),
                    whole == parts_from(
                        interp@,
                        models(items@),
                        k as nat,
                        acc,
                        rule.src@,
                        floats@,
                    ),
                    acc.len() == k - 1,
                    match first {
                        Some(s) => acc.len() > 0 && acc[0] == s@,
                        None => acc.len() == 0,
                    },
                    emitted(interp@, rule@, old(floats)@) == (match whole {
                        (OutcomeModel::Done(parts), g) => if parts.len() == 0 {
                            (OutcomeModel::Stuck, g)
                        } else {
                            (OutcomeModel::Done(parts[0]), g)
                        },
                        (o, g) => (o.passed_on(), g),
                    }),
                decreases items@.len() - k,
            {
                match interp.eval(&items[k], floats) {
                    Outcome::Done(v) => match show(&v, floats) {
                        Outcome::Done(t) => {
                            proof {
                                acc = acc.push(t@);
                            }
                            if first.is_none() {
                                first = Some(t);
                            }
                        },
                        Outcome::Failed(e) => {
                            return Outcome::Failed(NeutronError::Isel(e));
                        },
                        Outcome::Stuck => {
                            return Outcome::Stuck;
                        },
                        Outcome::Needs(q) => {
                            return Outcome::Needs(q);
                        },
                    },
                    Outcome::Failed(e) => {
                        return Outcome::Failed(
                            failure_with_rule(
                                "emit 参数求值失败 [",
                                rule.src.as_str(),
                                e.as_str(),
                            ),
                        );
                    },
                    Outcome::Stuck => {
                        return Outcome::Stuck;
                    },
                    Outcome::Needs(q) => {
                        return Outcome::Needs(q);
                    },
                }
                k += 1;
            }
            match first {
                Some(s) => Outcome::Done(s),
                None => Outcome::Stuck,
            }
        },
        _ => Outcome::Failed(isel_failure("emit 必须是 list")),
    }
}

/// What the outcome of looking for a rule says.
spec fn matched(o: Outcome<Option<String>, NeutronError>) -> OutcomeModel<Option<Seq<char>>, ErrorModel> {
    match o {
        Outcome::Done(None) => OutcomeModel::Done(None),
        Outcome::Done(Some(s)) => OutcomeModel::Done(Some(s@)),
        Outcome::Failed(e) => OutcomeModel::Failed(e@),
        Outcome::Stuck => OutcomeModel::Stuck,
        Outcome::Needs(q) => OutcomeModel::Needs(q@),
    }
}

fn select_one(
    op_name: &str,
    idx: usize,
    target: &str,
    rules: &[Rule],
    floats: &mut Floats,
) -> (r: Outcome<Option<String>, NeutronError>)
    ensures
        (matched(r), final(floats)@) == first_match(
            rule_env(op_name@, idx as i64, target@),
            rule_models(rules@),
            0,
            old(floats)@,
        ),
{
    let mut interp = Interp::new();
    interp.bind("op", Val::Str(op_name.to_owned()));
    interp.bind("idx", Val::Int(idx as i64));
    interp.bind("target", Val::Str(target.to_owned()));
    let mut k: usize = 0;
    while k < rules.len()
        invariant
            k <= rules@.len(),
            interp@ == rule_env(op_name@, idx as i64, target@),
            first_match(interp@, rule_models(rules@), 0, old(floats)@) == first_match(
                interp@,
                rule_models(rules@),
                k as nat,
                floats@,
            ),
        decreases rules@.len() - k,
    {
        let rule = &rules[k];
        assert(rule_models(rules@)[k as int] == rule@);
        match interp.eval(&rule.cond, floats) {
            Outcome::Done(c) => {
                if is_truthy(&c) {
                    return match emit_name(&interp, rule, floats) {
                        Outcome::Done(s) => Outcome::Done(Some(s)),
                        Outcome::Failed(e) => Outcome::Failed(e),
                        Outcome::Stuck => Outcome::Stuck,
                        Outcome::Needs(q) => Outcome::Needs(q),
                    };
                }
            },
            Outcome::Failed(e) => {
                return Outcome::Failed(
                    failure_with_rule("规则条件求值失败 [", rule.src.as_str(), e.as_str()),
                );
            },
            Outcome::Stuck => {
                return Outcome::Stuck;
            },
            Outcome::Needs(q) => {
                return Outcome::Needs(q);
            },
        }
        k += 1;
    }
    Outcome::Done(None)
}

/// The register of a value: the one it has, or the next one.
fn alloc_vreg(vid: ValueId, map: &mut HashMap<ValueId, VReg>, next: &mut u32) -> (r: VReg)
    requires
        old(map)@.contains_key(vid) || *old(next) < u32::MAX,
    ensures
        (RegsModel { map: final(map)@, next: *final(next) as nat }) == (RegsModel {
            map: old(map)@,
            next: *old(next) as nat,
        }).covering(vid),
        final(map)@.contains_key(vid) && r == final(map)@[vid],
{
    broadcast use vstd::std_specs::hash::group_hash_axioms;

    if let Some(v) = map.get(&vid) {
        return *v;
    }
    let v = VReg(*next);
    *next = *next + 1;
    map.insert(vid, v);
    v
}

/// The registers of values; those that have none get one.
fn alloc_vregs(vids: &[ValueId], map: &mut HashMap<ValueId, VReg>, next: &mut u32) -> (r: Vec<VReg>)
    requires
        *old(next) + vids@.len() <= u32::MAX,
    ensures
        ({
            let before = RegsModel { map: old(map)@, next: *old(next) as nat };
            let after = RegsModel { map: final(map)@, next: *final(next) as nat };
            &&& after == before.covering_all(vids@)
            &&& after.next <= before.next + vids@.len()
            &&& r@ == after.regs(vids@)
        }),
{
    let ghost before = RegsModel { map: map@, next: *next as nat };
    let mut out: Vec<VReg> = Vec::new();
    let mut k: usize = 0;
    while k < vids.len()
        invariant
            k <= vids@.len(),
            before.next + vids@.len() <= u32::MAX,
            (RegsModel { map: map@, next: *next as nat }) == before.covering_all(
                vids@.take(k as int),
            ),
            *next <= before.next + k,
            out@.len() == k,
            forall|i: int|
                0 <= i < k ==> map@.contains_key(#[trigger] vids@[i]) && out@[i] == map@[vids@[i]],
        decreases vids@.len() - k,
    {
        assert(vids@.take(k + 1).drop_last() == vids@.take(k as int));
        let v = alloc_vreg(vids[k], map, next);
        out.push(v);
        k += 1;
    }
    assert(vids@.take(k as int) == vids@);
    out
}

fn push_ids(s: &mut String, vs: &[ValueId])
    ensures
        final(s)@ == old(s)@ + id_list(vs@),
{
    s.append("[");
    let ghost start = s@;
    let mut k: usize = 0;
    assert(start + ids_text(vs@.take(0)) == start);
    while k < vs.len()
        invariant
            k <= vs@.len(),
            s@ == start + ids_text(vs@.take(k as int)),
        decreases vs@.len() - k,
    {
        assert(vs@.take(k + 1).drop_last() == vs@.take(k as int));
        if k > 0 {
            s.append(", ");
        }
        push_dec(s, vs[k] as u64);
        k += 1;
        assert(s@ == start + ids_text(vs@.take(k as int)));
    }
    assert(vs@.take(k as int) == vs@);
    s.append("]");
    assert(s@ == old(s)@ + id_list(vs@));
}

pub(crate) fn push_op(s: &mut String, op: &ArchOp)
    ensures
        final(s)@ == old(s)@ + op_text(op@),
{
    match op {
        ArchOp::KernelCall { name, inputs, outputs } => {
            s.append("KernelCall { name: ");
            s.append(quote(name.as_str()).as_str());
            s.append(", inputs: ");
            push_ids(s, inputs.as_slice());
            s.append(", outputs: ");
            push_ids(s, outputs.as_slice());
        },
        ArchOp::Load { addr, dst } => {
            s.append("Load { addr: ");
            push_dec(s, *addr as u64);
            s.append(", dst: ");
            push_dec(s, *dst as u64);
        },
        ArchOp::Store { addr, src } => {
            s.append("Store { addr: ");
            push_dec(s, *addr as u64);
            s.append(", src: ");
            push_dec(s, *src as u64);
        },
    }
    s.append(" }");
    assert(s@ == old(s)@ + op_text(op@));
}

fn no_rule_error(op: &ArchOp, idx: usize) -> (r: NeutronError)
    ensures
        r@ == no_rule(op@, idx as nat),
{
    let mut s = "无规则匹配 op: ".to_owned();
    push_op(&mut s, op);
    s.append("（idx ");
    push_dec(&mut s, idx as u64);
    s.append("）");
    NeutronError::Isel(s)
}

/// The part of a sequence of operations has no more operands than all of it.
proof fn operand_total_grows(ops: Seq<ArchOpModel>, k: int)
    requires
        0 <= k <= ops.len(),
    ensures
        operand_total(ops.take(k)) <= operand_total(ops),
        k < ops.len() ==> operand_total(ops.take(k)) + op_inputs(ops[k]).len() + op_outputs(
            ops[k],
        ).len() == operand_total(ops.take(k + 1)) <= operand_total(ops),
    decreases ops.len(),
{
    if k < ops.len() {
        assert(ops.take(k + 1).drop_last() == ops.take(k));
        if k + 1 < ops.len() {
            operand_total_grows(ops.drop_last(), k);
            assert(ops.drop_last().take(k) == ops.take(k));
            assert(ops.drop_last().take(k + 1) == ops.take(k + 1));
        } else {
            assert(ops.take(k + 1) == ops);
        }
    } else {
        assert(ops.take(k) == ops);
    }
}

/// The operands of an operation.
fn operand_ids(op: &ArchOp) -> (r: (Vec<ValueId>, Vec<ValueId>))
    ensures
        r.0@ == op_inputs(op@),
        r.1@ == op_outputs(op@),
{
    let mut ins: Vec<ValueId> = Vec::new();
    let mut outs: Vec<ValueId> = Vec::new();
    match op {
        ArchOp::KernelCall { name: _, inputs, outputs } => {
            ins.extend_from_slice(inputs.as_slice());
            outs.extend_from_slice(outputs.as_slice());
        },
        ArchOp::Load { addr, dst } => {
            ins.push(*addr);
            outs.push(*dst);
        },
        ArchOp::Store { addr, src } => {
            ins.push(*addr);
            ins.push(*src);
        },
    }
    assert(ins@ == op_inputs(op@));
    assert(outs@ == op_outputs(op@));
    (ins, outs)
}

fn as_operands(rs: &Vec<VReg>) -> (r: Vec<Operand>)
    ensures
        r@ == operands(rs@),
{
    let mut out: Vec<Operand> = Vec::new();
    let mut k: usize = 0;
    while k < rs.len()
        invariant
            k <= rs@.len(),
            out@ == operands(rs@.take(k as int)),
        decreases rs@.len() - k,
    {
        out.push(Operand::VReg(rs[k]));
        k += 1;
        assert(operands(rs@.take(k as int)) == operands(rs@.take(k - 1)).push(
            Operand::VReg(rs@[k - 1]),
        ));
    }
    assert(rs@.take(k as int) == rs@);
    out
}

/// What an outcome with instructions says.
pub open spec fn instructions(o: Outcome<Vec<Instruction>, NeutronError>) -> OutcomeModel<
    Seq<InstructionModel>,
    ErrorModel,
> {
    match o {
        Outcome::Done(v) => OutcomeModel::Done(instruction_models(v@)),
        Outcome::Failed(e) => OutcomeModel::Failed(e@),
        Outcome::Stuck => OutcomeModel::Stuck,
        Outcome::Needs(q) => OutcomeModel::Needs(q@),
    }
}

/// Selects an instruction for each native operation: the one that the first
/// rule that applies emits. There are at most as many registers as numbers for
/// them.
pub fn select_with_rules(
    arch_graph: &ArchGraph,
    rules: &[Rule],
    floats: &mut Floats,
) -> (r: Outcome<Vec<Instruction>, NeutronError>)
    requires
        operand_total(arch_graph@) <= u32::MAX,
    ensures
        (instructions(r), final(floats)@) == selected(
            arch_graph@,
            arch_graph.target,
            rule_models(rules@),
            old(floats)@,
        ),
{
    let target = target_str(arch_graph.target);
    let mut instrs: Vec<Instruction> = Vec::new();
    let mut vreg_map: HashMap<ValueId, VReg> = HashMap::new();
    let mut next_vreg: u32 = 0;
    let ghost ops = arch_graph@;
    let ghost rs = rule_models(rules@);
    let ghost whole = selected(ops, arch_graph.target, rs, floats@);
    let mut k: usize = 0;
    proof {
        assert(instruction_models(instrs@) == Seq::<InstructionModel>::empty());
        assert((RegsModel { map: vreg_map@, next: next_vreg as nat }) == RegsModel::none());
    }
    while k < arch_graph.ops.len()
        invariant
            k <= arch_graph.ops@.len(),
            ops == op_models(arch_graph.ops@),
            rs == rule_models(rules@),
            operand_total(ops) <= u32::MAX,
            next_vreg <= operand_total(ops.take(k as int)),
            target@ == target_text(arch_graph.target),
            whole == selected(ops, arch_graph.target, rs, old(floats)@),
            whole == selected_from(
                ops,
                k as nat,
                target@,
                rs,
                instruction_models(instrs@),
                (RegsModel { map: vreg_map@, next: next_vreg as nat }),
                floats@,
            ),
        decreases arch_graph.ops@.len() - k,
    {
        let op = &arch_graph.ops[k];
        assert(ops[k as int] == op@);
        proof {
            operand_total_grows(ops, k as int);
        }
        let ghost m = RegsModel { map: vreg_map@, next: next_vreg as nat };
        let name: &str = match op {
            ArchOp::KernelCall { name, inputs: _, outputs: _ } => name.as_str(),
            ArchOp::Load { addr: _, dst: _ } => "load",
            ArchOp::Store { addr: _, src: _ } => "store",
        };
        match select_one(name, k, target, rules, floats) {
            Outcome::Done(Some(instr_op)) => {
                let (ins, outs) = operand_ids(op);
                let in_regs = alloc_vregs(ins.as_slice(), &mut vreg_map, &mut next_vreg);
                let outputs = alloc_vregs(outs.as_slice(), &mut vreg_map, &mut next_vreg);
                let instr = Instruction { op: instr_op, inputs: as_operands(&in_regs), outputs };
                let ghost acc = instruction_models(instrs@);
                assert(instr@ == instruction(instr.op@, op@, m));
                instrs.push(instr);
                assert(instruction_models(instrs@) == acc.push(instr@));
            },
            Outcome::Done(None) => {
                return Outcome::Failed(no_rule_error(op, k));
            },
            Outcome::Failed(e) => {
                return Outcome::Failed(e);
            },
            Outcome::Stuck => {
                return Outcome::Stuck;
            },
            Outcome::Needs(q) => {
                return Outcome::Needs(q);
            },
        }
        k += 1;
    }
    Outcome::Done(instrs)
}

/// The instruction of the first of the entries from `k` on that is for `op`.
pub open spec fn first_entry(es: Seq<Entry>, k: nat, op: Seq<char>) -> Option<Seq<char>>
    decreases es.len() - k,
{
    if k >= es.len() {
        None
    } else if es[k as int].op == op {
        Some(es[k as int].instr)
    } else {
        first_entry(es, k + 1, op)
    }
}

/// The instruction that the default rules emit for the native operation `op`.
pub open spec fn default_instruction(op: Seq<char>) -> Option<Seq<char>> {
    first_entry(default_entries(), 0, op)
}

/// The condition of a default rule holds exactly for its operation.
proof fn op_is_compares(n: Seq<char>, idx: i64, t: Seq<char>, op: Seq<char>, f: FloatsModel)
    ensures
        evaluated(rule_env(n, idx, t), op_is(op), f) == (
            OutcomeModel::<ValModel>::Done(ValModel::Bool(n == op)),
            f,
        ),
{
    let env = rule_env(n, idx, t);
    let items = seq![ValModel::Sym("="@), ValModel::Sym("op"@), ValModel::Str(op)];
    reveal_strlit("=");
    reveal_strlit("+");
    reveal_strlit("-");
    reveal_strlit("*");
    reveal_strlit("/");
    reveal_strlit("quote");
    reveal_strlit("if");
    reveal_strlit("do");
    reveal_strlit("and");
    reveal_strlit("or");
    reveal_strlit("op");
    reveal_strlit("idx");
    reveal_strlit("target");
    assert("="@[0] != "+"@[0] && "="@[0] != "-"@[0] && "="@[0] != "*"@[0] && "="@[0] != "/"@[0]);
    assert("op"@.len() != "idx"@.len() && "op"@.len() != "target"@.len());
    assert(env.contains_key("op"@) && env["op"@] == ValModel::Str(n));
    let a1 = Seq::<ValModel>::empty().push(ValModel::Str(n));
    let a2 = a1.push(ValModel::Str(op));
    assert(all_from(env, items, 3, a2, f) == (OutcomeModel::<Seq<ValModel>>::Done(a2), f));
    assert(evaluated(env, items[2], f) == (
        OutcomeModel::<ValModel>::Done(ValModel::Str(op)),
        f,
    ));
    assert(all_from(env, items, 2, a1, f) == (OutcomeModel::<Seq<ValModel>>::Done(a2), f));
    assert(evaluated(env, items[1], f) == (
        OutcomeModel::<ValModel>::Done(ValModel::Str(n)),
        f,
    ));
    assert(all_from(env, items, 1, Seq::empty(), f) == (
        OutcomeModel::<Seq<ValModel>>::Done(a2),
        f,
    ));
    assert(called("="@, a2, f) == (OutcomeModel::<ValModel>::Done(ValModel::Bool(n == op)), f));
    assert(form(env, "="@, items, f) == (
        OutcomeModel::<ValModel>::Done(ValModel::Bool(n == op)),
        f,
    ));
}

/// The values of string arguments are their texts.
proof fn string_parts(
    env: Env,
    items: Seq<ValModel>,
    k: nat,
    acc: Seq<Seq<char>>,
    src: Seq<char>,
    f: FloatsModel,
)
    requires
        forall|i: int| k <= i < items.len() ==> #[trigger] items[i] is Str,
    ensures
        parts_from(env, items, k, acc, src, f).0 is Done,
        parts_from(env, items, k, acc, src, f).1 == f,
        k < items.len() || acc.len() > 0 ==> parts_from(
            env,
            items,
            k,
            acc,
            src,
            f,
        ).0->Done_0.len() > 0,
        acc.len() > 0 ==> parts_from(env, items, k, acc, src, f).0->Done_0[0] == acc[0],
        acc.len() == 0 && k < items.len() ==> parts_from(
            env,
            items,
            k,
            acc,
            src,
            f,
        ).0->Done_0[0] == items[k as int]->Str_0,
    decreases items.len() - k,
{
    if k < items.len() {
        let t = items[k as int]->Str_0;
        assert(evaluated(env, items[k as int], f) == (
            OutcomeModel::<ValModel>::Done(items[k as int]),
            f,
        ));
        assert(shown(items[k as int], f) == (OutcomeModel::<Seq<char>>::Done(t), f));
        string_parts(env, items, k + 1, acc.push(t), src, f);
    }
}

/// A default rule that applies emits its instruction.
proof fn entry_emits(env: Env, e: Entry, f: FloatsModel)
    ensures
        emitted(env, entry_rule(e), f) == (
            OutcomeModel::<Seq<char>, ErrorModel>::Done(e.instr),
            f,
        ),
{
    let items = seq![ValModel::Sym("emit"@), ValModel::Str(e.instr)] + strings(e.args);
    assert(emitting(e.instr, e.args) == ValModel::List(items));
    assert(items[0] == ValModel::Sym("emit"@));
    assert(items[1] == ValModel::Str(e.instr));
    assert forall|i: int| 1 <= i < items.len() implies #[trigger] items[i] is Str by {
        if i >= 2 {
            assert(items[i] == strings(e.args)[i - 2]);
        }
    }
    string_parts(env, items, 1, Seq::empty(), e.src, f);
}

/// Looking for a rule among entries finds the first one for the operation.
proof fn entries_match(
    n: Seq<char>,
    idx: i64,
    t: Seq<char>,
    es: Seq<Entry>,
    k: nat,
    f: FloatsModel,
)
    ensures
        first_match(rule_env(n, idx, t), entry_rules(es), k, f) == (
            OutcomeModel::<Option<Seq<char>>, ErrorModel>::Done(first_entry(es, k, n)),
            f,
        ),
    decreases es.len() - k,
{
    if k < es.len() {
        let e = es[k as int];
        assert(entry_rules(es)[k as int] == entry_rule(e));
        op_is_compares(n, idx, t, e.op, f);
        entry_emits(rule_env(n, idx, t), e, f);
        entries_match(n, idx, t, es, k + 1, f);
    }
}

/// The registers before the operation at `k`.
pub open spec fn regs_before(ops: Seq<ArchOpModel>, k: nat) -> RegsModel
    decreases k,
{
    if k == 0 {
        RegsModel::none()
    } else {
        regs_after(ops[k - 1], regs_before(ops, (k - 1) as nat))
    }
}

/// The instruction that the default rules select for the operation at `k`.
pub open spec fn default_selection(ops: Seq<ArchOpModel>, k: int) -> InstructionModel {
    instruction(default_instruction(op_name(ops[k]))->0, ops[k], regs_before(ops, k as nat))
}

/// Whether the default rules know the first `n` operations.
pub open spec fn ops_known(ops: Seq<ArchOpModel>, n: nat) -> bool {
    forall|i: int| 0 <= i < n ==> default_instruction(op_name(#[trigger] ops[i])) is Some
}

/// The instructions that the default rules select for the first `n` operations.
pub open spec fn default_selections(ops: Seq<ArchOpModel>, n: nat) -> Seq<InstructionModel> {
    Seq::new(n, |i: int| default_selection(ops, i))
}

/// Selecting by the default rules goes by their table alone.
proof fn default_selected(ops: Seq<ArchOpModel>, k: nat, t: Seq<char>, f: FloatsModel)
    requires
        k <= ops.len(),
        ops_known(ops, k),
    ensures
        ({
            let (o, g) = selected_from(
                ops,
                k,
                t,
                entry_rules(default_entries()),
                default_selections(ops, k),
                regs_before(ops, k),
                f,
            );
            match o {
                OutcomeModel::Done(v) => ops_known(ops, ops.len()) && v == default_selections(
                    ops,
                    ops.len(),
                ),
                OutcomeModel::Failed(e) => exists|i: int|
                    {
                        &&& 0 <= i < ops.len()
                        &&& default_instruction(op_name(#[trigger] ops[i])) is None
                        &&& ops_known(ops, i as nat)
                        &&& e == no_rule(ops[i], i as nat)
                    },
                _ => false,
            }
        }),
    decreases ops.len() - k,
{
    if k < ops.len() {
        let op = ops[k as int];
        entries_match(op_name(op), k as i64, t, default_entries(), 0, f);
        if default_instruction(op_name(op)) is Some {
            assert(default_selections(ops, k + 1) == default_selections(ops, k).push(
                default_selection(ops, k as int),
            ));
            default_selected(ops, k + 1, t, f);
        } else {
            assert(default_instruction(op_name(ops[k as int])) is None);
        }
    }
}

/// Selects an instruction for each native operation by the default rules.
pub fn select(arch_graph: &ArchGraph) -> (r: Result<Vec<Instruction>>)
    requires
        operand_total(arch_graph@) <= u32::MAX,
    ensures
        match r {
            Ok(v) => ops_known(arch_graph@, arch_graph@.len()) && instruction_models(v@)
                == default_selections(arch_graph@, arch_graph@.len()),
            Err(e) => exists|i: int|
                {
                    &&& 0 <= i < arch_graph@.len()
                    &&& default_instruction(op_name(#[trigger] arch_graph@[i])) is None
                    &&& ops_known(arch_graph@, i as nat)
                    &&& e@ == no_rule(arch_graph@[i], i as nat)
                },
        },
{
    let rules = default_rules();
    let mut floats = Floats::new();
    proof {
        assert(default_selections(arch_graph@, 0) == Seq::<InstructionModel>::empty());
        default_selected(arch_graph@, 0, target_text(arch_graph.target), floats@);
    }
    match select_with_rules(arch_graph, rules.as_slice(), &mut floats) {
        Outcome::Done(v) => Ok(v),
        Outcome::Failed(e) => Err(e),
        Outcome::Stuck => Err(isel_failure("")),
        Outcome::Needs(_) => Err(isel_failure("")),
    }
}

/// Giving a value a register keeps the registers of the others, and keeps
/// them distinct and without gaps.
proof fn covering_keeps(m: RegsModel, v: u32)
    requires
        m.wf(),
        m.next <= u32::MAX,
    ensures
        m.covering(v).wf(),
        m.covering(v).map.contains_key(v),
        m.next <= m.covering(v).next <= m.next + 1,
        forall|w: u32| #[trigger]
            m.map.contains_key(w) ==> m.covering(v).map.contains_key(w) && m.covering(v).map[w]
                == m.map[w],
{
    let n = m.covering(v);
    if !m.map.contains_key(v) {
        assert forall|k: nat| k < n.next implies #[trigger] n.in_use(k) by {
            if k < m.next {
                assert(m.in_use(k));
                let w = choose|w: u32| #[trigger] m.map.contains_key(w) && m.map[w].0 == k;
                assert(n.map.contains_key(w) && n.map[w].0 == k);
            } else {
                assert(n.map.contains_key(v) && n.map[v].0 == k);
            }
        }
        assert forall|a: u32, b: u32|
            #![trigger n.map[a], n.map[b]]
            n.map.contains_key(a) && n.map.contains_key(b) && a != b implies n.map[a] != n.map[b] by {
            if a == v {
                assert(m.map.contains_key(b));
                assert(m.map[b].0 < m.next);
            } else if b == v {
                assert(m.map.contains_key(a));
                assert(m.map[a].0 < m.next);
            }
        }
    }
}

proof fn covering_all_keeps(m: RegsModel, vs: Seq<u32>)
    requires
        m.wf(),
        m.next + vs.len() <= u32::MAX,
    ensures
        m.covering_all(vs).wf(),
        m.next <= m.covering_all(vs).next <= m.next + vs.len(),
        forall|i: int| 0 <= i < vs.len() ==> m.covering_all(vs).map.contains_key(#[trigger] vs[i]),
        forall|w: u32| #[trigger]
            m.map.contains_key(w) ==> m.covering_all(vs).map.contains_key(w) && m.covering_all(
                vs,
            ).map[w] == m.map[w],
    decreases vs.len(),
{
    if vs.len() > 0 {
        let b = m.covering_all(vs.drop_last());
        covering_all_keeps(m, vs.drop_last());
        covering_keeps(b, vs.last());
        assert forall|i: int| 0 <= i < vs.len() implies m.covering_all(vs).map.contains_key(
            #[trigger] vs[i],
        ) by {
            if i < vs.len() - 1 {
                assert(vs.drop_last()[i] == vs[i]);
                assert(b.map.contains_key(vs[i]));
            }
        }
    }
}

proof fn regs_before_grow(ops: Seq<ArchOpModel>, i: nat, k: nat)
    requires
        i <= k <= ops.len(),
        operand_total(ops) <= u32::MAX,
    ensures
        regs_before(ops, k).wf(),
        regs_before(ops, k).next <= operand_total(ops.take(k as int)),
        forall|w: u32| #[trigger]
            regs_before(ops, i).map.contains_key(w) ==> regs_before(ops, k).map.contains_key(w)
                && regs_before(ops, k).map[w] == regs_before(ops, i).map[w],
    decreases k,
{
    if k > 0 {
        let j = (k - 1) as nat;
        operand_total_grows(ops, j as int);
        if i < k {
            regs_before_grow(ops, i, j);
        } else {
            regs_before_grow(ops, j, j);
        }
        let m = regs_before(ops, j);
        let a = m.covering_all(op_inputs(ops[j as int]));
        covering_all_keeps(m, op_inputs(ops[j as int]));
        covering_all_keeps(a, op_outputs(ops[j as int]));
    } else {
        assert(ops.take(0).len() == 0);
    }
}

/// Registers follow values. There is one assignment of registers to values for
/// the whole program, under which different values have different registers
/// numbered from zero without gaps, and every operand of every instruction is
/// the register of the operand of the operation that it was selected for.
pub proof fn registers_follow_values(ops: Seq<ArchOpModel>, k: nat, name: Seq<char>)
    requires
        operand_total(ops) <= u32::MAX,
        k < ops.len(),
    ensures
        ({
            let all = regs_before(ops, ops.len());
            let m = regs_before(ops, k);
            let ins = instruction(name, ops[k as int], m);
            &&& all.wf()
            &&& ins.inputs == operands(all.regs(op_inputs(ops[k as int])))
            &&& ins.outputs == all.regs(op_outputs(ops[k as int]))
            &&& forall|i: int|
                0 <= i < op_inputs(ops[k as int]).len() ==> all.map.contains_key(
                    #[trigger] op_inputs(ops[k as int])[i],
                )
        }),
{
    let op = ops[k as int];
    let all = regs_before(ops, ops.len());
    let m = regs_before(ops, k);
    regs_before_grow(ops, k, k);
    regs_before_grow(ops, k + 1, ops.len());
    operand_total_grows(ops, k as int);
    let a = m.covering_all(op_inputs(op));
    let b = a.covering_all(op_outputs(op));
    covering_all_keeps(m, op_inputs(op));
    covering_all_keeps(a, op_outputs(op));
    assert(regs_before(ops, k + 1) == b);
    assert forall|i: int| 0 <= i < op_inputs(op).len() implies a.map[#[trigger] op_inputs(op)[i]]
        == all.map[op_inputs(op)[i]] && all.map.contains_key(op_inputs(op)[i]) by {
        assert(a.map.contains_key(op_inputs(op)[i]));
        assert(b.map.contains_key(op_inputs(op)[i]));
    }
    assert forall|i: int| 0 <= i < op_outputs(op).len() implies b.map[#[trigger] op_outputs(op)[i]]
        == all.map[op_outputs(op)[i]] by {
        assert(b.map.contains_key(op_outputs(op)[i]));
    }
    assert(a.regs(op_inputs(op)) == all.regs(op_inputs(op)));
    assert(b.regs(op_outputs(op)) == all.regs(op_outputs(op)));
}

/// Operands keep their places. For every operation, the instruction that is
/// selected for it reads as many operands as the operation, and the operand at
/// each place is the register of the value at that place; and so for what it
/// writes. A load reads the address and writes the destination; a store reads the
/// address, then the value, and writes nothing.
pub proof fn operands_keep_their_places(ops: Seq<ArchOpModel>, k: nat, name: Seq<char>)
    requires
        operand_total(ops) <= u32::MAX,
        k < ops.len(),
    ensures
        ({
            let all = regs_before(ops, ops.len()).map;
            let ins = instruction(name, ops[k as int], regs_before(ops, k));
            &&& ins.op == name
            &&& match ops[k as int] {
                ArchOpModel::KernelCall { inputs, outputs, .. } => {
                    &&& ins.inputs.len() == inputs.len()
                    &&& ins.outputs.len() == outputs.len()
                    &&& forall|i: int|
                        0 <= i < inputs.len() ==> #[trigger] ins.inputs[i] == Operand::VReg(
                            all[inputs[i]],
                        )
                    &&& forall|i: int|
                        0 <= i < outputs.len() ==> #[trigger] ins.outputs[i] == all[outputs[i]]
                },
                ArchOpModel::Load { addr, dst } => {
                    &&& ins.inputs == seq![Operand::VReg(all[addr])]
                    &&& ins.outputs == seq![all[dst]]
                },
                ArchOpModel::Store { addr, src } => {
                    &&& ins.inputs == seq![Operand::VReg(all[addr]), Operand::VReg(all[src])]
                    &&& ins.outputs.len() == 0
                },
            }
        }),
{
    registers_follow_values(ops, k, name);
}

/// Whether the value at `i` occurs there for the first time and has no register
/// in `m`.
pub open spec fn is_fresh(m: RegsModel, vs: Seq<u32>, i: int) -> bool {
    &&& 0 <= i < vs.len()
    &&& !m.map.contains_key(vs[i])
    &&& forall|j: int| 0 <= j < i ==> #[trigger] vs[j] != vs[i]
}

/// Values that have no register yet get theirs in order.
proof fn fresh_values_in_order(m: RegsModel, vs: Seq<u32>)
    requires
        m.wf(),
        m.next + vs.len() <= u32::MAX,
    ensures
        forall|v: u32| #[trigger]
            m.covering_all(vs).map.contains_key(v) ==> m.map.contains_key(v) || vs.contains(v),
        forall|i: int| #[trigger]
            is_fresh(m, vs, i) ==> m.covering_all(vs).map[vs[i]].0 >= m.next,
        forall|i: int, j: int|
            #![trigger is_fresh(m, vs, i), is_fresh(m, vs, j)]
            is_fresh(m, vs, i) && is_fresh(m, vs, j) && i < j ==> m.covering_all(vs).map[vs[i]].0
                < m.covering_all(vs).map[vs[j]].0,
    decreases vs.len(),
{
    covering_all_keeps(m, vs);
    if vs.len() > 0 {
        let ws = vs.drop_last();
        let b = m.covering_all(ws);
        let c = m.covering_all(vs);
        covering_all_keeps(m, ws);
        fresh_values_in_order(m, ws);
        assert forall|v: u32| #[trigger] c.map.contains_key(v) implies m.map.contains_key(v)
            || vs.contains(v) by {
            if v != vs.last() {
                assert(b.map.contains_key(v));
                if ws.contains(v) {
                    let j = choose|j: int| 0 <= j < ws.len() && ws[j] == v;
                    assert(vs[j] == v);
                }
            } else {
                assert(vs[vs.len() - 1] == v);
            }
        }
        assert forall|i: int| #[trigger] is_fresh(m, vs, i) implies {
            &&& i < ws.len() ==> is_fresh(m, ws, i) && c.map[vs[i]] == b.map[ws[i]]
                && b.map[ws[i]].0 < b.next
            &&& i == ws.len() ==> c.map[vs[i]].0 == b.next
        } by {
            if i < ws.len() {
                assert(ws[i] == vs[i]);
                assert(is_fresh(m, ws, i)) by {
                    assert forall|j: int| 0 <= j < i implies #[trigger] ws[j] != ws[i] by {
                        assert(vs[j] != vs[i]);
                    }
                }
                assert(b.map.contains_key(ws[i]));
            } else {
                assert(!b.map.contains_key(vs[i])) by {
                    if b.map.contains_key(vs[i]) {
                        assert(ws.contains(vs[i]));
                        let j = choose|j: int| 0 <= j < ws.len() && ws[j] == vs[i];
                        assert(vs[j] != vs[i]);
                    }
                }
            }
        }
    }
}

/// Registers are handed out in the order in which values first occur: those that
/// an operation is the first to read come after all before, in order, and those
/// that it is the first to write come after those, in order.
pub proof fn registers_in_order_of_occurrence(ops: Seq<ArchOpModel>, k: nat)
    requires
        operand_total(ops) <= u32::MAX,
        k < ops.len(),
    ensures
        ({
            let m = regs_before(ops, k);
            let after = regs_before(ops, k + 1);
            let ins = op_inputs(ops[k as int]);
            let outs = op_outputs(ops[k as int]);
            let a = m.covering_all(ins);
            &&& forall|v: u32| #[trigger] m.map.contains_key(v) ==> after.map[v] == m.map[v]
                && m.map[v].0 < m.next
            &&& forall|i: int| #[trigger] is_fresh(m, ins, i) ==> m.next <= after.map[ins[i]].0
                < a.next
            &&& forall|i: int, j: int|
                #![trigger is_fresh(m, ins, i), is_fresh(m, ins, j)]
                is_fresh(m, ins, i) && is_fresh(m, ins, j) && i < j ==> after.map[ins[i]].0
                    < after.map[ins[j]].0
            &&& forall|i: int| #[trigger] is_fresh(a, outs, i) ==> a.next <= after.map[outs[i]].0
            &&& forall|i: int, j: int|
                #![trigger is_fresh(a, outs, i), is_fresh(a, outs, j)]
                is_fresh(a, outs, i) && is_fresh(a, outs, j) && i < j ==> after.map[outs[i]].0
                    < after.map[outs[j]].0
        }),
{
    let m = regs_before(ops, k);
    let ins = op_inputs(ops[k as int]);
    let outs = op_outputs(ops[k as int]);
    let a = m.covering_all(ins);
    let b = a.covering_all(outs);
    regs_before_grow(ops, k, k);
    operand_total_grows(ops, k as int);
    covering_all_keeps(m, ins);
    covering_all_keeps(a, outs);
    fresh_values_in_order(m, ins);
    fresh_values_in_order(a, outs);
    assert(regs_before(ops, k + 1) == b);
    assert forall|v: u32| #[trigger] m.map.contains_key(v) implies b.map[v] == m.map[v]
        && m.map[v].0 < m.next by {
        assert(a.map.contains_key(v));
    }
    assert forall|i: int| #[trigger] is_fresh(m, ins, i) implies b.map[ins[i]] == a.map[ins[i]]
        && a.map[ins[i]].0 < a.next by {
        assert(a.map.contains_key(ins[i]));
    }
}

} // verus!
