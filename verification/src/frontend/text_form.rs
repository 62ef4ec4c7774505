//! What the text form of graphs says is read as it is written.

use vstd::prelude::*;
use crate::backend::dialect::joined;
use crate::base::{DType, ErrorModel, TypeModel};
use crate::frontend::dsl::{
    args_from, args_of, blank, dims_of, dsl_graph, dsl_op, dtype_for, input_statement, lines_from,
    node_statement, output_statement, statement, type_of, without_comment,
};
use crate::frontend::onnx::{Build, unknown_dims};
use crate::frontend::messages::Parsed;
use crate::text::{dec_int, dec_is_digits, parts, starts_with, trimmed, white};
use crate::text_laws::{
    all_white, closing_goes, is_tight, numbers_are_read_back, occurs_in, one_part,
    parts_of_both, separator_is_found, tight_stays, trimming_takes_white_space,
};

verus! {

/// Whether a text is a name as statements hold it: not empty, without white space
/// and without the characters that statements are made of.
pub open spec fn is_name(s: Seq<char>) -> bool {
    &&& s.len() > 0
    &&& forall|i: int| 0 <= i < s.len() ==> name_char(#[trigger] s[i])
}

pub open spec fn name_char(c: char) -> bool {
    &&& !white(c)
    &&& c != ',' && c != '=' && c != '(' && c != ')' && c != ':' && c != '[' && c != ']'
}

/// A name is tight, and none of the characters of statements is in it.
proof fn name_is_tight(s: Seq<char>)
    requires
        is_name(s),
    ensures
        is_tight(s),
        trimmed(s) == s,
        !occurs_in(s, ','),
        !occurs_in(s, '='),
        !occurs_in(s, '('),
        !occurs_in(s, ')'),
        !occurs_in(s, ':'),
        !occurs_in(s, '['),
        !occurs_in(s, ']'),
        s[s.len() - 1] != ')',
{
    assert(name_char(s[0]) && name_char(s[s.len() - 1]));
    tight_stays(s);
}

/// A space before a text goes.
proof fn space_goes(s: Seq<char>)
    requires
        is_tight(s),
    ensures
        trimmed(seq![' '] + s) == s,
        trimmed(s + seq![' ']) == s,
{
    let sp = seq![' '];
    let none = Seq::<char>::empty();
    assert(all_white(sp));
    trimming_takes_white_space(sp, s, none);
    trimming_takes_white_space(none, s, sp);
    assert(sp + s + none == sp + s);
    assert(none + s + sp == s + sp);
}

/// The arguments of a list, as they stand between the commas.
spec fn spaced(v: Seq<Seq<char>>) -> Seq<Seq<char>> {
    Seq::new(
        v.len(),
        |i: int|
            if i == 0 {
                v[0]
            } else {
                seq![' '] + v[i]
            },
    )
}

/// A list with commas and spaces is taken apart at its commas.
proof fn list_is_taken_apart(v: Seq<Seq<char>>)
    requires
        v.len() > 0,
        forall|i: int| 0 <= i < v.len() ==> is_name(#[trigger] v[i]),
    ensures
        parts(joined(v, ", "@), ',') == spaced(v),
        joined(v, ", "@).len() > 0,
        joined(v, ", "@)[0] == v[0][0],
        joined(v, ", "@)[joined(v, ", "@).len() - 1] == v.last()[v.last().len() - 1],
    decreases v.len(),
{
    reveal_strlit(", ");
    assert(", "@ == seq![',', ' ']);
    let x = v.last();
    assert(is_name(v[v.len() - 1]));
    name_is_tight(x);
    if v.len() == 1 {
        one_part(x, ',');
        assert(spaced(v) == seq![x]);
    } else {
        let front = v.drop_last();
        assert forall|i: int| 0 <= i < front.len() implies is_name(#[trigger] front[i]) by {
            assert(is_name(v[i]));
        }
        list_is_taken_apart(front);
        let sx = seq![' '] + x;
        assert(!occurs_in(sx, ',')) by {
            if occurs_in(sx, ',') {
                let i = choose|i: int| 0 <= i < sx.len() && #[trigger] sx[i] == ',';
                assert(x[i - 1] == ',');
            }
        }
        one_part(sx, ',');
        assert(joined(v, ", "@) == joined(front, ", "@) + seq![','] + sx);
        parts_of_both(joined(front, ", "@), ',', sx);
        assert(spaced(v) == spaced(front) + seq![sx]);
    }
}

/// Arguments that are all known are read in order.
proof fn args_are_read(b: Build, v: Seq<Seq<char>>, k: nat, acc: Seq<u32>, n: nat)
    requires
        k <= v.len(),
        forall|i: int| 0 <= i < v.len() ==> is_name(#[trigger] v[i]) && b.names.contains_key(v[i]),
        acc == Seq::new(k, |i: int| b.names[v[i]]),
    ensures
        args_from(b, spaced(v), k, acc, n) == Ok::<Seq<u32>, ErrorModel>(
            Seq::new(v.len(), |i: int| b.names[v[i]]),
        ),
    decreases v.len() - k,
{
    if k < v.len() {
        let a = v[k as int];
        name_is_tight(a);
        space_goes(a);
        assert(trimmed(spaced(v)[k as int]) == a);
        let next = acc.push(b.names[a]);
        assert(next == Seq::new(k + 1, |i: int| b.names[v[i]]));
        args_are_read(b, v, k + 1, next, n);
    } else {
        assert(acc == Seq::new(v.len(), |i: int| b.names[v[i]]));
    }
}

/// A node as it is written: `out = op(a, b)`.
pub open spec fn written_node(out: Seq<char>, op: Seq<char>, args: Seq<Seq<char>>) -> Seq<char> {
    out + " = "@ + op + "("@ + joined(args, ", "@) + ")"@
}

/// A node is read as it is written: it gets the operator that is named, one value
/// under the name of its output, and as inputs what its arguments stand for, each
/// at its place; the output may be among them.
pub proof fn node_is_read(b: Build, out: Seq<char>, op: Seq<char>, args: Seq<Seq<char>>, n: nat)
    requires
        is_name(out),
        is_name(op),
        forall|i: int|
            0 <= i < args.len() ==> is_name(#[trigger] args[i]) && (b.names.contains_key(args[i])
                || args[i] == out),
        !starts_with(written_node(out, op, args), "graph "@),
        !starts_with(written_node(out, op, args), "in "@),
        !starts_with(written_node(out, op, args), "out "@),
        b.graph.storage.edges.len() + args.len() + 1 <= u32::MAX,
        b.graph.storage.nodes.len() < u32::MAX,
    ensures
        statement(b, written_node(out, op, args), n) matches Ok(c) && {
            let id = b.graph.storage.nodes.len() as int;
            let m = c.graph.storage;
            &&& m.nodes.len() == id + 1
            &&& m.nodes[id].op_tag == dsl_op(op).tag()
            &&& c.names == b.names.insert(out, b.next_value())
            &&& m.values.len() == b.graph.storage.values.len() + 1
            &&& m.values.last().def_node == id
            &&& m.node_outputs(id).len() == 1
            &&& m.node_outputs(id)[0] == b.next_value()
            &&& m.node_inputs(id).len() == args.len()
            &&& forall|i: int|
                0 <= i < args.len() ==> #[trigger] m.node_inputs(id)[i] == c.names[args[i]]
            &&& m.inputs == b.graph.storage.inputs
            &&& m.outputs == b.graph.storage.outputs
        },
{
    let line = written_node(out, op, args);
    let list = joined(args, ", "@);
    reveal_strlit(" = ");
    reveal_strlit("(");
    reveal_strlit(")");
    assert(" = "@ == seq![' ', '=', ' ']);
    assert("("@ == seq!['(']);
    assert(")"@ == seq![')']);
    name_is_tight(out);
    name_is_tight(op);
    let lhs = out + seq![' '];
    let rhs = op + seq!['('] + (list + seq![')']);
    let right = seq![' '] + rhs;
    assert(line == lhs + seq!['='] + right);
    assert(!occurs_in(lhs, '=')) by {
        if occurs_in(lhs, '=') {
            let i = choose|i: int| 0 <= i < lhs.len() && #[trigger] lhs[i] == '=';
            assert(i < out.len());
            assert(out[i] == '=');
        }
    }
    separator_is_found(lhs, '=', right);
    assert(line.take(lhs.len() as int) == lhs);
    assert(line.skip(lhs.len() as int + 1) == right);
    space_goes(out);
    assert(is_tight(rhs)) by {
        assert(rhs[0] == op[0]);
        assert(rhs[rhs.len() - 1] == ')');
    }
    space_goes(rhs);
    separator_is_found(op, '(', list + seq![')']);
    assert(rhs.take(op.len() as int) == op);
    assert(rhs.skip(op.len() as int + 1) == list + seq![')']);
    let rest = list + seq![')'];
    let node = b.next_node();
    let c = Build {
        graph: b.graph.with_node(dsl_op(op)).with_typed(unknown_dims(2), Some(out), node).with_outputs(
            node as int,
            seq![b.next_value()],
        ),
        names: b.names.insert(out, b.next_value()),
    };
    let ins = Seq::new(args.len(), |i: int| c.names[args[i]]);
    assert forall|i: int| 0 <= i < args.len() implies is_name(#[trigger] args[i])
        && c.names.contains_key(args[i]) by {}
    if args.len() > 0 {
        list_is_taken_apart(args);
        assert(is_name(args[0]) && is_name(args[args.len() - 1]));
        name_is_tight(args[0]);
        name_is_tight(args.last());
        assert(is_tight(rest)) by {
            assert(rest[0] == list[0]);
            assert(rest[rest.len() - 1] == ')');
        }
        tight_stays(rest);
        closing_goes(list, ')');
        assert(is_tight(list));
        tight_stays(list);
        assert(Seq::new(0, |i: int| c.names[args[i]]) == Seq::<u32>::empty());
        args_are_read(c, args, 0, Seq::empty(), n);
    } else {
        assert(list == Seq::<char>::empty());
        assert(is_tight(rest));
        tight_stays(rest);
        closing_goes(list, ')');
        tight_stays(list);
        assert(ins == Seq::<u32>::empty());
    }
    assert(args_of(c, list, n) == Ok::<Seq<u32>, ErrorModel>(ins));
    let d = Build { graph: c.graph.with_inputs(node as int, ins), ..c };
    assert(node_statement(b, out, rhs, n) == Ok::<Build, ErrorModel>(d));
    assert(statement(b, line, n) == Ok::<Build, ErrorModel>(d));
    let id = node as int;
    assert(d.graph.storage.node_inputs(id) == ins);
    assert(d.graph.storage.node_outputs(id) == seq![b.next_value()]);
}

/// An output as it is written is read as one more output of the graph: what its
/// name stands for, behind the outputs before. Nothing else changes.
pub proof fn output_is_read(b: Build, name: Seq<char>, n: nat)
    requires
        is_name(name),
        b.names.contains_key(name),
    ensures
        statement(b, "out "@ + name, n) matches Ok(c) && {
            let k = b.graph.storage;
            let m = c.graph.storage;
            &&& m.outputs == k.outputs.push(b.names[name])
            &&& m.inputs == k.inputs && m.nodes == k.nodes && m.values == k.values && m.edges
                == k.edges
            &&& c.names == b.names
        },
{
    let line = "out "@ + name;
    name_is_tight(name);
    reveal_strlit("graph ");
    reveal_strlit("in ");
    reveal_strlit("out ");
    assert(line[0] == 'o');
    assert(line.subrange(0, 4) == "out "@);
    assert(starts_with(line, "out "@));
    assert(!starts_with(line, "graph "@)) by {
        if starts_with(line, "graph "@) {
            assert(line.subrange(0, 6)[0] == 'o');
        }
    }
    assert(!starts_with(line, "in "@)) by {
        if starts_with(line, "in "@) {
            assert(line.subrange(0, 3)[0] == 'o');
        }
    }
    assert(line.skip(4) == name);
    assert(statement(b, line, n) == output_statement(b, name, n));
}

/// An output that stands for nothing is refused.
pub proof fn unknown_output_is_refused(b: Build, name: Seq<char>, n: nat)
    requires
        is_name(name),
        !b.names.contains_key(name),
    ensures
        statement(b, "out "@ + name, n) is Err,
{
    let line = "out "@ + name;
    name_is_tight(name);
    reveal_strlit("graph ");
    reveal_strlit("in ");
    reveal_strlit("out ");
    assert(line.subrange(0, 4) == "out "@);
    assert(!starts_with(line, "graph "@)) by {
        if starts_with(line, "graph "@) {
            assert(line.subrange(0, 6)[0] == 'o');
        }
    }
    assert(!starts_with(line, "in "@)) by {
        if starts_with(line, "in "@) {
            assert(line.subrange(0, 3)[0] == 'o');
        }
    }
    assert(line.skip(4) == name);
}

/// The decimals of dimensions.
pub open spec fn dims_texts(dims: Seq<i64>) -> Seq<Seq<char>> {
    Seq::new(dims.len(), |i: int| dec_int(dims[i] as int))
}

/// A decimal is a name.
proof fn number_is_name(n: int)
    ensures
        is_name(dec_int(n)),
{
    let s = dec_int(n);
    let m = if n < 0 {
        -n
    } else {
        n
    };
    dec_is_digits(m as nat);
    assert forall|i: int| 0 <= i < s.len() implies name_char(#[trigger] s[i]) by {
        if n < 0 && i > 0 {
            assert(s[i] == crate::text::dec(m as nat)[i - 1]);
        }
    }
}

/// Dimensions that are written with commas and spaces between them are read in
/// order, each as the number that it is.
pub proof fn dims_are_read(dims: Seq<i64>)
    requires
        dims.len() > 0,
    ensures
        dims_of(joined(dims_texts(dims), ", "@)) == dims,
{
    let v = dims_texts(dims);
    assert forall|i: int| 0 <= i < v.len() implies is_name(#[trigger] v[i]) by {
        number_is_name(dims[i] as int);
    }
    list_is_taken_apart(v);
    let ps = parts(joined(v, ", "@), ',');
    let r = dims_of(joined(v, ", "@));
    assert forall|i: int| 0 <= i < dims.len() implies #[trigger] r[i] == dims[i] by {
        name_is_tight(v[i]);
        space_goes(v[i]);
        assert(trimmed(ps[i]) == v[i]);
        numbers_are_read_back(dims[i]);
    }
    assert(r =~= dims);
}

/// An input as it is written: `in x: f32[2, 3]`.
pub open spec fn written_input(name: Seq<char>, elem: Seq<char>, dims: Seq<i64>) -> Seq<char> {
    "in "@ + name + ": "@ + elem + "["@ + joined(dims_texts(dims), ", "@) + "]"@
}

/// Characters of a list of names are those of names, commas and spaces.
proof fn list_has_no_bracket(v: Seq<Seq<char>>)
    requires
        forall|i: int| 0 <= i < v.len() ==> is_name(#[trigger] v[i]),
    ensures
        !occurs_in(joined(v, ", "@), ']'),
        !occurs_in(joined(v, ", "@), '['),
        !occurs_in(joined(v, ", "@), ':'),
    decreases v.len(),
{
    reveal_strlit(", ");
    let s = joined(v, ", "@);
    if v.len() == 1 {
        assert(is_name(v[0]));
        name_is_tight(v[0]);
    } else if v.len() > 1 {
        let front = v.drop_last();
        let x = v.last();
        assert(is_name(v[v.len() - 1]));
        assert forall|i: int| 0 <= i < front.len() implies is_name(#[trigger] front[i]) by {
            assert(is_name(v[i]));
        }
        list_has_no_bracket(front);
        name_is_tight(x);
        let a = joined(front, ", "@);
        assert forall|i: int| 0 <= i < s.len() implies #[trigger] s[i] != ']' && s[i] != '[' && s[i]
            != ':' by {
            if i < a.len() {
                assert(s[i] == a[i]);
            } else if i < a.len() + 2 {
                assert(s[i] == ", "@[i - a.len()]);
            } else {
                assert(s[i] == x[i - a.len() - 2]);
                assert(name_char(x[i - a.len() - 2]));
            }
        }
    }
}

/// The type of a tensor is read as it is written.
proof fn type_is_read(elem: Seq<char>, dims: Seq<i64>, n: nat)
    requires
        is_name(elem),
        dtype_for(elem) is Some,
        dims.len() > 0,
    ensures
        type_of(elem + "["@ + joined(dims_texts(dims), ", "@) + "]"@, n) == Ok::<TypeModel, ErrorModel>(
            TypeModel { elem: dtype_for(elem)->0, dims: Some(dims) },
        ),
        is_tight(elem + "["@ + joined(dims_texts(dims), ", "@) + "]"@),
{
    let v = dims_texts(dims);
    let list = joined(v, ", "@);
    reveal_strlit("[");
    reveal_strlit("]");
    assert("["@ == seq!['[']);
    assert("]"@ == seq![']']);
    assert forall|i: int| 0 <= i < v.len() implies is_name(#[trigger] v[i]) by {
        number_is_name(dims[i] as int);
    }
    list_has_no_bracket(v);
    name_is_tight(elem);
    dims_are_read(dims);
    let t = elem + seq!['['] + list + seq![']'];
    assert(is_tight(t)) by {
        assert(t[0] == elem[0]);
        assert(t[t.len() - 1] == ']');
    }
    tight_stays(t);
    assert(t == elem + seq!['['] + (list + seq![']']));
    separator_is_found(elem, '[', list + seq![']']);
    let front = elem + seq!['['] + list;
    assert(t == front + seq![']'] + Seq::<char>::empty());
    assert(!occurs_in(front, ']')) by {
        if occurs_in(front, ']') {
            let i = choose|i: int| 0 <= i < front.len() && #[trigger] front[i] == ']';
            if i < elem.len() {
                assert(elem[i] == ']');
            } else if i > elem.len() {
                assert(list[i - elem.len() - 1] == ']');
            }
        }
    }
    separator_is_found(front, ']', Seq::empty());
    assert(t.take(elem.len() as int) == elem);
    assert(t.subrange(elem.len() as int + 1, front.len() as int) == list);
}

/// An input is read as it is written: it becomes a value under its name, with its
/// element type and its dimensions in order, that no node defines, and the last
/// input of the graph.
pub proof fn input_is_read(b: Build, name: Seq<char>, elem: Seq<char>, dims: Seq<i64>, n: nat)
    requires
        is_name(name),
        is_name(elem),
        dtype_for(elem) is Some,
        dims.len() > 0,
    ensures
        statement(b, written_input(name, elem, dims), n) matches Ok(c) && {
            let k = b.graph.storage;
            let ty = TypeModel { elem: dtype_for(elem)->0, dims: Some(dims) };
            &&& c.graph.storage.inputs == k.inputs.push(b.next_value())
            &&& c.graph.storage.values == k.with_typed(ty, Some(name), u32::MAX).values
            &&& c.graph.storage.shape_data == k.shape_data + dims
            &&& c.graph.storage.outputs == k.outputs && c.graph.storage.nodes == k.nodes
            &&& c.names == b.names.insert(name, b.next_value())
        },
{
    let line = written_input(name, elem, dims);
    let tail = elem + "["@ + joined(dims_texts(dims), ", "@) + "]"@;
    reveal_strlit("graph ");
    reveal_strlit("in ");
    reveal_strlit(": ");
    assert(": "@ == seq![':', ' ']);
    name_is_tight(name);
    type_is_read(elem, dims, n);
    let st = seq![' '] + tail;
    let rest = name + seq![':'] + st;
    assert(line == "in "@ + rest);
    assert(line.subrange(0, 3) == "in "@);
    assert(starts_with(line, "in "@));
    assert(!starts_with(line, "graph "@)) by {
        if starts_with(line, "graph "@) {
            assert(line.subrange(0, 6)[0] == 'i');
        }
    }
    assert(line.skip(3) == rest);
    assert(is_tight(rest)) by {
        assert(rest[0] == name[0]);
        assert(rest[rest.len() - 1] == tail[tail.len() - 1]);
    }
    tight_stays(rest);
    separator_is_found(name, ':', st);
    assert(rest.take(name.len() as int) == name);
    assert(rest.skip(name.len() as int + 1) == st);
    space_goes(tail);
    assert(statement(b, line, n) == input_statement(b, rest, n));
}

/// The element types have their names.
pub proof fn element_types_are_named()
    ensures
        dtype_for("f32"@) == Some(DType::F32),
        dtype_for("f16"@) == Some(DType::F16),
        dtype_for("bf16"@) == Some(DType::BF16),
        dtype_for("i64"@) == Some(DType::I64),
        dtype_for("i32"@) == Some(DType::I32),
        dtype_for("bool"@) == Some(DType::Bool),
{
    reveal_strlit("f32");
    reveal_strlit("f16");
    reveal_strlit("bf16");
    reveal_strlit("i64");
    reveal_strlit("i32");
    reveal_strlit("bool");
    assert("f32"@[1] == '3' && "f16"@[1] == '1' && "i64"@[1] == '6' && "i32"@[1] == '3');
    assert("f32"@[0] == 'f' && "f16"@[0] == 'f' && "i64"@[0] == 'i' && "i32"@[0] == 'i');
    assert("bf16"@[1] == 'f' && "bool"@[1] == 'o');
    assert("f32"@.len() == 3 && "bf16"@.len() == 4 && "bool"@.len() == 4);
}

/// What a line does to a graph under construction.
pub open spec fn line_is_read(b: Parsed<Build>, line: Seq<char>, n: nat) -> Parsed<Build> {
    match b {
        Err(e) => Err(e),
        Ok(c) => {
            let t = trimmed(without_comment(line));
            if t.len() == 0 {
                Ok(c)
            } else {
                statement(c, t, n)
            }
        },
    }
}

proof fn last_line_is_read(b: Build, lines: Seq<Seq<char>>, line: Seq<char>, k: nat)
    requires
        k <= lines.len(),
    ensures
        lines_from(b, lines.push(line), k) == line_is_read(
            lines_from(b, lines, k),
            line,
            lines.len() + 1,
        ),
    decreases lines.len() - k,
{
    let all = lines.push(line);
    if k < lines.len() {
        assert(all[k as int] == lines[k as int]);
        let t = trimmed(without_comment(lines[k as int]));
        if t.len() == 0 {
            last_line_is_read(b, lines, line, k + 1);
        } else {
            match statement(b, t, k + 1) {
                Ok(c) => last_line_is_read(c, lines, line, k + 1),
                Err(_) => {},
            }
        }
    } else {
        assert(all[k as int] == line);
        let t = trimmed(without_comment(line));
        if t.len() > 0 {
            match statement(b, t, k + 1) {
                Ok(c) => {
                    assert(lines_from(c, all, k + 1) == Ok::<Build, ErrorModel>(c));
                },
                Err(_) => {},
            }
        } else {
            assert(lines_from(b, all, k + 1) == Ok::<Build, ErrorModel>(b));
        }
    }
}

/// A text is read line by line: one more line does what its statement does to the
/// graph of the lines before it, under its number; a blank line, or one with only
/// a comment, does nothing; and behind an error nothing is read.
pub proof fn text_is_read_by_line(src: Seq<char>, line: Seq<char>)
    requires
        !occurs_in(line, '\n'),
    ensures
        dsl_graph(src + seq!['\n'] + line) == line_is_read(
            dsl_graph(src),
            line,
            parts(src, '\n').len() + 1,
        ),
{
    parts_of_both(src, '\n', line);
    one_part(line, '\n');
    assert(parts(src, '\n') + seq![line] == parts(src, '\n').push(line));
    last_line_is_read(blank(), parts(src, '\n'), line, 0);
}

} // verus!
