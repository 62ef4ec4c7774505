//! What texts that show graphs and programs hold.

use vstd::prelude::*;
use crate::arch::ArchOpModel;
use crate::backend::dialect::{contains, joined};
use crate::backend::filling::{end_is_part, part_stays, whole_is_part};
use crate::base::heading;
use crate::common::{dumped, indentation, node_line, node_lines, size_line, text_line, value_list};
use crate::graph::GraphModel;
use crate::interface::{
    all_operands, instruction_lines, op_lines, operand_text, operands_text, operations, program, trace,
};
use crate::isel::select::{InstructionModel, Operand, id_list, ids_text, op_text};
use crate::text::{dec, occurs_at};

verus! {

/// A part of a text behind another is a part of both together.
pub proof fn part_behind(a: Seq<char>, b: Seq<char>, p: Seq<char>)
    requires
        contains(b, p),
    ensures
        contains(a + b, p),
{
    let i = choose|i: int| #[trigger] occurs_at(b, p, i);
    let k = a.len() + i;
    assert((a + b).subrange(k, k + p.len()) == b.subrange(i, i + p.len()));
    assert(occurs_at(a + b, p, k));
}

/// A part of a part is a part.
pub proof fn part_of_part(s: Seq<char>, t: Seq<char>, p: Seq<char>)
    requires
        contains(s, t),
        contains(t, p),
    ensures
        contains(s, p),
{
    let i = choose|i: int| #[trigger] occurs_at(s, t, i);
    let j = choose|j: int| #[trigger] occurs_at(t, p, j);
    let a = s.take(i);
    let b = s.skip(i + t.len());
    assert(s == a + t + b);
    part_behind(a, t, p);
    part_stays(a + t, b, p);
}

/// A list of values holds every one of them, in order, with commas between them.
pub proof fn values_are_listed(vs: Seq<u32>)
    ensures
        value_list(vs) == joined(Seq::new(vs.len(), |i: int| "%"@ + dec(vs[i] as nat)), ", "@),
    decreases vs.len(),
{
    let each = Seq::new(vs.len(), |i: int| "%"@ + dec(vs[i] as nat));
    if vs.len() > 1 {
        let front = vs.drop_last();
        values_are_listed(front);
        assert(each.drop_last() == Seq::new(front.len(), |i: int| "%"@ + dec(front[i] as nat)));
    }
}

/// A list of operands holds every one of them, in order, with spaces between them.
pub proof fn operands_are_listed(os: Seq<Operand>)
    ensures
        operands_text(os) == joined(Seq::new(os.len(), |i: int| operand_text(os[i])), " "@),
    decreases os.len(),
{
    let each = Seq::new(os.len(), |i: int| operand_text(os[i]));
    if os.len() > 1 {
        let front = os.drop_last();
        operands_are_listed(front);
        assert(each.drop_last() == Seq::new(front.len(), |i: int| operand_text(front[i])));
    }
}

/// A list of identifiers holds every one of them, in order, with commas between them.
pub proof fn identifiers_are_listed(vs: Seq<u32>)
    ensures
        id_list(vs) == "["@ + joined(Seq::new(vs.len(), |i: int| dec(vs[i] as nat)), ", "@) + "]"@,
{
    ids_are_joined(vs);
}

proof fn ids_are_joined(vs: Seq<u32>)
    ensures
        ids_text(vs) == joined(Seq::new(vs.len(), |i: int| dec(vs[i] as nat)), ", "@),
    decreases vs.len(),
{
    let each = Seq::new(vs.len(), |i: int| dec(vs[i] as nat));
    if vs.len() > 1 {
        let front = vs.drop_last();
        ids_are_joined(front);
        assert(each.drop_last() == Seq::new(front.len(), |i: int| dec(front[i] as nat)));
    }
}

/// Texts joined one by one: each stands behind the separator and those before.
pub proof fn joining_adds(v: Seq<Seq<char>>, x: Seq<char>, sep: Seq<char>)
    ensures
        joined(Seq::<Seq<char>>::empty(), sep) == Seq::<char>::empty(),
        joined(seq![x], sep) == x,
        v.len() > 0 ==> joined(v.push(x), sep) == joined(v, sep) + sep + x,
{
    assert(v.push(x).drop_last() == v);
}

proof fn line_stands(g: GraphModel, n: nat, i: u32)
    requires
        i < n <= u32::MAX,
    ensures
        contains(node_lines(g, n), text_line(1, node_line(g, i))),
    decreases n,
{
    let before = node_lines(g, (n - 1) as nat);
    let last = text_line(1, node_line(g, (n - 1) as u32));
    if i == n - 1 {
        end_is_part(before, last);
    } else {
        line_stands(g, (n - 1) as nat, i);
        part_stays(before, last, text_line(1, node_line(g, i)));
    }
}

/// A graph as text shows its name and its sizes, and has a line for every node:
/// its number, its operator, what it reads and what it writes, or why it cannot be
/// shown.
pub proof fn dump_shows_every_node(g: GraphModel, i: u32)
    requires
        g.storage.nodes.len() <= u32::MAX,
        i < g.storage.nodes.len(),
    ensures
        contains(dumped(g), ("graph \""@ + g.name + "\" {"@).push('\n')),
        contains(dumped(g), dec(g.storage.nodes.len()) + " nodes, "@),
        contains(dumped(g), dec(g.storage.values.len()) + " values, "@),
        contains(dumped(g), dec(g.storage.inputs.len()) + " inputs, "@),
        contains(dumped(g), dec(g.storage.outputs.len()) + " outputs"@),
        g.kind(i as int) is Some ==> contains(
            dumped(g),
            ("  n"@ + dec(i as nat) + " = "@ + g.kind(i as int)->0.spelling() + "("@ + value_list(
                g.storage.node_inputs(i as int),
            ) + ") -> ["@ + value_list(g.storage.node_outputs(i as int)) + "]"@).push('\n'),
        ),
        g.kind(i as int) is None ==> contains(
            dumped(g),
            "  n"@ + dec(i as nat) + " = <err: "@,
        ),
{
    let n = g.storage.nodes.len();
    let top = text_line(0, "graph \""@ + g.name + "\" {"@);
    let size = text_line(1, size_line(g));
    let lines = node_lines(g, n);
    let end = text_line(0, "}"@);
    let all = dumped(g);
    four_parts(top, size, lines, end);
    line_at_left(g.name);
    sizes_are_shown(g);
    line_holds_text(1, size_line(g));
    part_of_part(all, size, size_line(g));
    part_of_part(all, size_line(g), dec(n) + " nodes, "@);
    part_of_part(all, size_line(g), dec(g.storage.values.len()) + " values, "@);
    part_of_part(all, size_line(g), dec(g.storage.inputs.len()) + " inputs, "@);
    part_of_part(all, size_line(g), dec(g.storage.outputs.len()) + " outputs"@);
    line_stands(g, n, i);
    let line = text_line(1, node_line(g, i));
    part_of_part(all, lines, line);
    line_holds_text(1, node_line(g, i));
    part_of_part(all, line, node_line(g, i).push('\n'));
    if g.kind(i as int) is None {
        let e = g.node_error(i)->0;
        error_is_shown("  n"@ + dec(i as nat) + " = <err: "@, heading(e.0) + e.1);
        part_of_part(all, node_line(g, i).push('\n'), node_line(g, i));
        part_of_part(all, node_line(g, i), "  n"@ + dec(i as nat) + " = <err: "@);
    }
}

/// Four texts, one behind the other, are parts of the whole.
proof fn four_parts(a: Seq<char>, b: Seq<char>, c: Seq<char>, d: Seq<char>)
    ensures
        contains(a + b + c + d, a),
        contains(a + b + c + d, b),
        contains(a + b + c + d, c),
        contains(a + b + c + d, d),
{
    whole_is_part(a);
    part_stays(a, b, a);
    part_stays(a + b, c, a);
    part_stays(a + b + c, d, a);
    end_is_part(a, b);
    part_stays(a + b, c, b);
    part_stays(a + b + c, d, b);
    end_is_part(a + b, c);
    part_stays(a + b + c, d, c);
    end_is_part(a + b + c, d);
}

/// A line without indentation.
proof fn line_at_left(name: Seq<char>)
    ensures
        text_line(0, "graph \""@ + name + "\" {"@) == ("graph \""@ + name + "\" {"@).push('\n'),
{
    assert(indentation(0) + ("graph \""@ + name + "\" {"@) == "graph \""@ + name + "\" {"@);
}

/// A line holds its text and the end of the line behind it.
proof fn line_holds_text(level: nat, s: Seq<char>)
    ensures
        contains(text_line(level, s), s.push('\n')),
        contains(text_line(level, s), s),
        contains(s.push('\n'), s),
{
    assert(text_line(level, s) == indentation(level) + s.push('\n'));
    end_is_part(indentation(level), s.push('\n'));
    whole_is_part(s);
    assert(s.push('\n') == s + seq!['\n']);
    part_stays(s, seq!['\n'], s);
    part_of_part(text_line(level, s), s.push('\n'), s);
}

/// The numbers of the line with the sizes.
proof fn sizes_are_shown(g: GraphModel)
    ensures
        contains(size_line(g), dec(g.storage.nodes.len()) + " nodes, "@),
        contains(size_line(g), dec(g.storage.values.len()) + " values, "@),
        contains(size_line(g), dec(g.storage.inputs.len()) + " inputs, "@),
        contains(size_line(g), dec(g.storage.outputs.len()) + " outputs"@),
{
    numbers_in_line(
        "// "@,
        dec(g.storage.nodes.len()),
        " nodes, "@,
        dec(g.storage.values.len()),
        " values, "@,
        dec(g.storage.inputs.len()),
        " inputs, "@,
        dec(g.storage.outputs.len()),
        " outputs"@,
    );
}

proof fn numbers_in_line(
    z: Seq<char>,
    a: Seq<char>,
    b: Seq<char>,
    c: Seq<char>,
    d: Seq<char>,
    e: Seq<char>,
    f: Seq<char>,
    g: Seq<char>,
    h: Seq<char>,
)
    ensures
        contains(z + a + b + c + d + e + f + g + h, a + b),
        contains(z + a + b + c + d + e + f + g + h, c + d),
        contains(z + a + b + c + d + e + f + g + h, e + f),
        contains(z + a + b + c + d + e + f + g + h, g + h),
{
    assert(z + a + b == z + (a + b));
    let u = z + (a + b);
    assert(u + c + d == u + (c + d));
    let v = u + (c + d);
    assert(v + e + f == v + (e + f));
    let w = v + (e + f);
    assert(w + g + h == w + (g + h));
    end_is_part(z, a + b);
    end_is_part(u, c + d);
    end_is_part(v, e + f);
    end_is_part(w, g + h);
    part_stays(u, c + d, a + b);
    part_stays(v, e + f, a + b);
    part_stays(w, g + h, a + b);
    part_stays(v, e + f, c + d);
    part_stays(w, g + h, c + d);
    part_stays(w, g + h, e + f);
}

proof fn error_is_shown(head: Seq<char>, e: Seq<char>)
    ensures
        contains(head + e + ">"@, head),
{
    whole_is_part(head);
    part_stays(head, e, head);
    part_stays(head + e, ">"@, head);
}

/// Every operation has a line with its number.
pub proof fn every_operation_is_shown(ops: Seq<ArchOpModel>, n: nat, i: nat)
    requires
        i < n <= ops.len(),
    ensures
        contains(op_lines(ops, n), "  ["@ + dec(i) + "] "@ + op_text(ops[i as int]) + "\n"@),
    decreases n,
{
    let before = op_lines(ops, (n - 1) as nat);
    let last = "  ["@ + dec((n - 1) as nat) + "] "@ + op_text(ops[n - 1]) + "\n"@;
    assert(op_lines(ops, n) == before + last);
    if i == n - 1 {
        end_is_part(before, last);
    } else {
        every_operation_is_shown(ops, (n - 1) as nat, i);
        part_stays(before, last, "  ["@ + dec(i) + "] "@ + op_text(ops[i as int]) + "\n"@);
    }
}

/// The line of an instruction: its number, its name, what it reads and then what it
/// writes, each as text.
pub open spec fn instruction_line(is: Seq<InstructionModel>, i: int) -> Seq<char> {
    let ins = is[i];
    let operands = Seq::new(
        ins.inputs.len() + ins.outputs.len(),
        |k: int|
            if k < ins.inputs.len() {
                operand_text(ins.inputs[k])
            } else {
                "%"@ + dec(ins.outputs[k - ins.inputs.len()].0 as nat)
            },
    );
    "  ["@ + dec(i as nat) + "] "@ + ins.op + " "@ + joined(operands, " "@) + "\n"@
}

/// Every instruction has a line with its number and its operands.
pub proof fn every_instruction_is_shown(is: Seq<InstructionModel>, n: nat, i: nat)
    requires
        i < n <= is.len(),
    ensures
        contains(instruction_lines(is, n), instruction_line(is, i as int)),
    decreases n,
{
    let j = (n - 1) as int;
    let before = instruction_lines(is, (n - 1) as nat);
    let last = instruction_line(is, j);
    let os = all_operands(is[j]);
    operands_are_listed(os);
    let ins = is[j];
    assert(Seq::new(os.len(), |k: int| operand_text(os[k])) == Seq::new(
        ins.inputs.len() + ins.outputs.len(),
        |k: int|
            if k < ins.inputs.len() {
                operand_text(ins.inputs[k])
            } else {
                "%"@ + dec(ins.outputs[k - ins.inputs.len()].0 as nat)
            },
    ));
    assert(instruction_lines(is, n) == before + last);
    if i == n - 1 {
        end_is_part(before, last);
    } else {
        every_instruction_is_shown(is, (n - 1) as nat, i);
        part_stays(before, last, instruction_line(is, i as int));
    }
}

/// The trace of a compilation shows the graph as it was read and as it is after
/// optimization, the operations and the instructions.
pub proof fn trace_shows_all(read: GraphModel, optimized: GraphModel)
    ensures
        contains(trace(read, optimized), dumped(read)),
        contains(trace(read, optimized), dumped(optimized)),
        contains(
            trace(read, optimized),
            op_lines(operations(optimized), operations(optimized).len()),
        ),
        contains(
            trace(read, optimized),
            instruction_lines(program(optimized), program(optimized).len()),
        ),
{
    let ops = operations(optimized);
    let is = program(optimized);
    let a = dumped(read);
    let b = dumped(optimized);
    let c = op_lines(ops, ops.len());
    let d = instruction_lines(is, is.len());
    let t1 = "// === 前端输出 ===\n"@ + a;
    let t2 = t1 + "\n// === 优化后 ===\n"@;
    let t3 = t2 + b;
    let t4 = t3 + "\n// === Lowering 后 ("@;
    let t5 = t4 + dec(ops.len());
    let t6 = t5 + " ops) ===\n"@;
    let t7 = t6 + c;
    let t8 = t7 + "\n// === 最终指令 ("@;
    let t9 = t8 + dec(is.len());
    let t10 = t9 + " 条) ===\n"@;
    end_is_part("// === 前端输出 ===\n"@, a);
    part_stays(t1, "\n// === 优化后 ===\n"@, a);
    part_stays(t2, b, a);
    part_stays(t3, "\n// === Lowering 后 ("@, a);
    part_stays(t4, dec(ops.len()), a);
    part_stays(t5, " ops) ===\n"@, a);
    part_stays(t6, c, a);
    part_stays(t7, "\n// === 最终指令 ("@, a);
    part_stays(t8, dec(is.len()), a);
    part_stays(t9, " 条) ===\n"@, a);
    part_stays(t10, d, a);
    end_is_part(t2, b);
    part_stays(t3, "\n// === Lowering 后 ("@, b);
    part_stays(t4, dec(ops.len()), b);
    part_stays(t5, " ops) ===\n"@, b);
    part_stays(t6, c, b);
    part_stays(t7, "\n// === 最终指令 ("@, b);
    part_stays(t8, dec(is.len()), b);
    part_stays(t9, " 条) ===\n"@, b);
    part_stays(t10, d, b);
    end_is_part(t6, c);
    part_stays(t7, "\n// === 最终指令 ("@, c);
    part_stays(t8, dec(is.len()), c);
    part_stays(t9, " 条) ===\n"@, c);
    part_stays(t10, d, c);
    end_is_part(t10, d);
}

} // verus!
