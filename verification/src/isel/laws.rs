//! What holds of lowering and instruction selection together.

use vstd::prelude::*;
use crate::arch::{ArchOpModel, kinds_known, lowered, lowered_node, native};
use crate::base::OpKind;
use crate::graph::GraphModel;
use crate::lisp::laws::detailing_never_fails;
use crate::lisp::parser::parsing_is_never_stuck;
use crate::lisp::{FloatsModel, OutcomeModel, ValModel};
use crate::isel::defaults::{
    Entry, activations_entries, arithmetic_entries, compound_entries, default_entries,
    elementary_entries, memory_entries, movement_entries, reductions_entries,
};
use crate::isel::rules::{
    RuleModel, closing, closing_is_closing, clauses_from, line_end, line_end_bounds, parsed_rule, rules_from,
};
use crate::isel::select::{
    Operand, default_instruction, default_selection, default_selections, first_entry, op_name,
    operand_total, operands_keep_their_places, ops_known, regs_before,
};

verus! {

/// An entry for an operation is enough for an instruction to be found.
proof fn entry_is_found(es: Seq<Entry>, k: nat, j: int, op: Seq<char>)
    requires
        k <= j < es.len(),
        es[j].op == op,
    ensures
        first_entry(es, k, op) is Some,
    decreases es.len() - k,
{
    if es[k as int].op != op {
        entry_is_found(es, k + 1, j, op);
    }
}

/// An entry of a part of the default table is enough.
proof fn part_is_found(before: Seq<Entry>, part: Seq<Entry>, after: Seq<Entry>, j: int, op: Seq<char>)
    requires
        default_entries() == before + part + after,
        0 <= j < part.len(),
        part[j].op == op,
    ensures
        default_instruction(op) is Some,
{
    entry_is_found(default_entries(), 0, before.len() + j, op);
}

/// The default rules have an instruction for the native operation of every
/// operator.
pub proof fn native_has_instruction(kind: OpKind)
    ensures
        default_instruction(native(kind)) is Some,
{
    let a = arithmetic_entries();
    let b = activations_entries();
    let c = elementary_entries();
    let d = reductions_entries();
    let e = movement_entries();
    let f = compound_entries();
    let g = memory_entries();
    let all = default_entries();
    let none = Seq::<Entry>::empty();
    let op = native(kind);
    assert(all == none + a + (b + c + d + e + f + g));
    assert(all == a + b + (c + d + e + f + g));
    assert(all == (a + b) + c + (d + e + f + g));
    assert(all == (a + b + c) + d + (e + f + g));
    assert(all == (a + b + c + d) + e + (f + g));
    assert(all == (a + b + c + d + e) + f + g);
    assert(all == (a + b + c + d + e + f) + g + none);
    match kind {
        OpKind::Add => part_is_found(none, a, b + c + d + e + f + g, 0, op),
        OpKind::Sub => part_is_found(none, a, b + c + d + e + f + g, 1, op),
        OpKind::Mul => part_is_found(none, a, b + c + d + e + f + g, 2, op),
        OpKind::Div => part_is_found(none, a, b + c + d + e + f + g, 3, op),
        OpKind::MatMul => part_is_found(none, a, b + c + d + e + f + g, 4, op),
        OpKind::Relu => part_is_found(a, b, c + d + e + f + g, 0, op),
        OpKind::Gelu => part_is_found(a, b, c + d + e + f + g, 1, op),
        OpKind::Sigmoid => part_is_found(a, b, c + d + e + f + g, 2, op),
        OpKind::Tanh => part_is_found(a, b, c + d + e + f + g, 3, op),
        OpKind::Sqrt => part_is_found(a + b, c, d + e + f + g, 0, op),
        OpKind::Rsqrt => part_is_found(a + b, c, d + e + f + g, 1, op),
        OpKind::Reciprocal => part_is_found(a + b, c, d + e + f + g, 2, op),
        OpKind::Abs => part_is_found(a + b, c, d + e + f + g, 3, op),
        OpKind::Log => part_is_found(a + b, c, d + e + f + g, 4, op),
        OpKind::Exp => part_is_found(a + b, c, d + e + f + g, 5, op),
        OpKind::Pow => part_is_found(a + b, c, d + e + f + g, 6, op),
        OpKind::ReduceSum => part_is_found(a + b + c, d, e + f + g, 0, op),
        OpKind::ReduceMean => part_is_found(a + b + c, d, e + f + g, 1, op),
        OpKind::ReduceMax => part_is_found(a + b + c, d, e + f + g, 2, op),
        OpKind::Reshape => part_is_found(a + b + c + d, e, f + g, 0, op),
        OpKind::Transpose => part_is_found(a + b + c + d, e, f + g, 1, op),
        OpKind::Concat => part_is_found(a + b + c + d, e, f + g, 2, op),
        OpKind::Slice => part_is_found(a + b + c + d, e, f + g, 3, op),
        OpKind::Pool => part_is_found(a + b + c + d, e, f + g, 4, op),
        OpKind::Softmax => part_is_found(a + b + c + d + e, f, g, 0, op),
        OpKind::LayerNorm => part_is_found(a + b + c + d + e, f, g, 1, op),
        OpKind::Conv => part_is_found(a + b + c + d + e, f, g, 2, op),
        OpKind::Placeholder => part_is_found(a + b + c + d + e + f, g, none, 0, op),
        OpKind::Return => part_is_found(a + b + c + d + e + f, g, none, 1, op),
        OpKind::Constant => part_is_found(a + b + c + d + e + f, g, none, 2, op),
        OpKind::Fused => part_is_found(a + b + c + d + e + f, g, none, 3, op),
        OpKind::Custom => part_is_found(a + b + c + d + e + f, g, none, 4, op),
    }
}

/// The default rules know every operation of a lowered graph: selection does
/// not fail on what lowering yields.
pub proof fn lowered_graph_is_selected(g: GraphModel)
    requires
        kinds_known(g, g.storage.nodes.len()),
    ensures
        ops_known(lowered(g, g.storage.nodes.len()), g.storage.nodes.len()),
{
    let ops = lowered(g, g.storage.nodes.len());
    assert forall|i: int| 0 <= i < g.storage.nodes.len() implies default_instruction(
        op_name(#[trigger] ops[i]),
    ) is Some by {
        assert(g.kind(i) is Some);
        assert(ops[i] == lowered_node(g, i));
        native_has_instruction(g.kind(i)->0);
    }
}

/// Lowering keeps every operand of every node in its place: the operation of the
/// node `i` is a call of the kernel for its operator, whose k-th input is the
/// k-th input of the node and whose k-th output is its k-th output, as they
/// stand in the table of operands, with as many inputs and outputs as the node
/// has.
pub proof fn lowering_keeps_operands(g: GraphModel, n: nat, i: int)
    requires
        0 <= i < n <= g.storage.nodes.len(),
        g.operands_readable(i),
    ensures
        lowered(g, n).len() == n,
        lowered(g, n)[i] matches ArchOpModel::KernelCall { name, inputs, outputs } && {
            let h = g.storage.nodes[i];
            &&& name == native(g.kind(i)->0)
            &&& inputs.len() == h.inputs_len
            &&& outputs.len() == h.outputs_len
            &&& forall|k: int|
                0 <= k < h.inputs_len ==> #[trigger] inputs[k] == g.storage.edges[h.inputs_off + k]
            &&& forall|k: int|
                0 <= k < h.outputs_len ==> #[trigger] outputs[k] == g.storage.edges[h.outputs_off
                    + k]
        },
{
}

/// From a graph to its program: with the default rules, the instruction of the
/// node `i` is the one for its operator, and its k-th operands are the registers
/// of the k-th operands of the node. One assignment of registers serves the
/// whole program.
pub proof fn program_follows_graph(g: GraphModel, i: int)
    requires
        0 <= i < g.storage.nodes.len(),
        g.kind(i) is Some,
        g.operands_readable(i),
        operand_total(lowered(g, g.storage.nodes.len())) <= u32::MAX,
    ensures
        ({
            let n = g.storage.nodes.len();
            let ops = lowered(g, n);
            let regs = regs_before(ops, n).map;
            let p = default_selections(ops, n);
            let h = g.storage.nodes[i];
            &&& p.len() == n
            &&& default_instruction(native(g.kind(i)->0)) == Some(p[i].op)
            &&& p[i].inputs.len() == h.inputs_len
            &&& p[i].outputs.len() == h.outputs_len
            &&& forall|k: int|
                0 <= k < h.inputs_len ==> #[trigger] p[i].inputs[k] == Operand::VReg(
                    regs[g.storage.edges[h.inputs_off + k]],
                )
            &&& forall|k: int|
                0 <= k < h.outputs_len ==> #[trigger] p[i].outputs[k]
                    == regs[g.storage.edges[h.outputs_off + k]]
        }),
{
    let n = g.storage.nodes.len();
    let ops = lowered(g, n);
    lowering_keeps_operands(g, n, i);
    native_has_instruction(g.kind(i)->0);
    operands_keep_their_places(ops, i as nat, default_instruction(native(g.kind(i)->0))->0);
    assert(default_selections(ops, n)[i] == default_selection(ops, i));
}

/// Loads and stores are found under their own names, and a kernel under its.
pub proof fn operations_have_their_names(name: Seq<char>, a: u32, b: u32, ins: Seq<u32>, outs: Seq<u32>)
    ensures
        op_name((ArchOpModel::Load { addr: a, dst: b })) == native(OpKind::Placeholder),
        op_name((ArchOpModel::Store { addr: a, src: b })) == native(OpKind::Return),
        op_name((ArchOpModel::KernelCall { name, inputs: ins, outputs: outs })) == name,
{
}

proof fn clauses_are_never_stuck(
    items: Seq<ValModel>,
    k: nat,
    cond: ValModel,
    emit: ValModel,
    src: Seq<char>,
    f: FloatsModel,
)
    ensures
        !(clauses_from(items, k, cond, emit, src, f).0 is Stuck),
    decreases items.len() - k,
{
    if k < items.len() {
        if let ValModel::List(sub) = items[k as int] {
            if sub.len() == 0 {
                clauses_are_never_stuck(items, k + 1, cond, emit, src, f);
            } else if sub[0] == ValModel::Sym("when"@) {
                if sub.len() >= 2 {
                    clauses_are_never_stuck(items, k + 1, sub[1], emit, src, f);
                }
            } else if sub[0] == ValModel::Sym("emit"@) {
                clauses_are_never_stuck(items, k + 1, cond, items[k as int], src, f);
            } else {
                detailing_never_fails(sub[0], f);
            }
        }
    }
}

/// Reading a rule yields the rule or an error, once the floats in it are known.
pub proof fn reading_a_rule_is_never_stuck(src: Seq<char>, f: FloatsModel)
    ensures
        !(parsed_rule(src, f).0 is Stuck),
{
    parsing_is_never_stuck(src, f);
    if let (OutcomeModel::Done(ValModel::List(items)), g) = crate::lisp::parser::parsed(src, f) {
        clauses_are_never_stuck(items, 1, ValModel::Nil, ValModel::Nil, src, g);
    }
}

/// Loading rules yields the rules or an error, once the floats in them are
/// known, whatever the text.
pub proof fn loading_is_never_stuck(b: Seq<u8>, i: nat, acc: Seq<RuleModel>, f: FloatsModel)
    ensures
        !(rules_from(b, i, acc, f).0 is Stuck),
    decreases b.len() - i,
{
    if i < b.len() {
        if b[i as int] == 59 {
            line_end_bounds(b, i + 1);
            loading_is_never_stuck(b, line_end(b, i + 1), acc, f);
        } else if crate::isel::rules::ascii_blank(b[i as int]) {
            loading_is_never_stuck(b, i + 1, acc, f);
        } else if b[i as int] == 40 && closing(b, i, 0) is Some {
            closing_is_closing(b, i, 0);
            let j = closing(b, i, 0)->0;
            let text = vstd::utf8::decode_utf8(b.subrange(i as int, j as int + 1));
            reading_a_rule_is_never_stuck(text, f);
            if let (OutcomeModel::Done(r), g) = parsed_rule(text, f) {
                loading_is_never_stuck(b, j + 1, acc.push(r), g);
            }
        }
    }
}

} // verus!
