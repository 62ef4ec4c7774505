//! Graphs in a small text format, one statement a line:
//!
//! ```text
//! graph "name"
//! in x: f32[2,3]
//! y = relu(x)
//! out y
//! ```
//!
//! Comments start with `//`. The case of letters in the names of operators does
//! not matter; operators that are not known are custom ones.

use vstd::prelude::*;
use crate::base::{DType, ErrorModel, NeutronError, OpKind, Result, Type, TypeModel, ValueId};
use crate::frontend::messages::Parsed;
use crate::frontend::names::Names;
use crate::frontend::onnx::{Build, unknown_dims, unknown_type};
use crate::frontend::proto::frontend_error;
use crate::graph::{Graph, GraphModel};
use crate::lisp::parser::{int_literal, lower, lower_of, parse_int};
use crate::text::{
    char_views, chars_of, dec, drop_leading, drop_trailing, find_char, find_from, has_prefix, parts,
    push_dec, split_chars, starts_with, str_eq, string_of, sub_chars, trim_chars, trim_end_char,
    trim_start_char, trimmed,
};

verus! {

/// An error on line `n`.
pub open spec fn line_error(n: nat, what: Seq<char>, text: Seq<char>) -> ErrorModel {
    frontend_error("第 "@ + dec(n) + what + text)
}

fn line_failure(n: usize, what: &str, v: &Vec<char>) -> (r: NeutronError)
    ensures
        r@ == line_error(n as nat, what@, v@),
{
    let mut s = "第 ".to_owned();
    push_dec(&mut s, n as u64);
    s.append(what);
    let t = string_of(v, 0, v.len());
    assert(t@ == v@);
    s.append(t.as_str());
    NeutronError::Frontend(s)
}

/// Where a comment starts from `i` on, or the end.
pub open spec fn comment_from(s: Seq<char>, i: nat) -> nat
    decreases s.len() - i,
{
    if i + 1 >= s.len() {
        s.len()
    } else if s[i as int] == '/' && s[i as int + 1] == '/' {
        i
    } else {
        comment_from(s, i + 1)
    }
}

/// A line without its comment.
pub open spec fn without_comment(s: Seq<char>) -> Seq<char> {
    s.take(comment_from(s, 0) as int)
}

fn strip_comment(v: &Vec<char>) -> (r: Vec<char>)
    ensures
        r@ == without_comment(v@),
{
    let n: usize = v.len();
    let mut i: usize = 0;
    while i < n
        invariant
            i <= n,
            n == v@.len(),
            comment_from(v@, 0) == comment_from(v@, i as nat),
        decreases n - i,
    {
        if i + 1 < n && v[i] == '/' && v[i + 1] == '/' {
            let r = sub_chars(v, 0, i);
            assert(r@ == v@.take(i as int));
            return r;
        }
        i += 1;
    }
    let r = sub_chars(v, 0, n);
    assert(r@ == v@.take(n as int));
    r
}

/// The element type with a name.
pub open spec fn dtype_for(s: Seq<char>) -> Option<DType> {
    if s == "f32"@ {
        Some(DType::F32)
    } else if s == "f16"@ {
        Some(DType::F16)
    } else if s == "bf16"@ {
        Some(DType::BF16)
    } else if s == "i64"@ {
        Some(DType::I64)
    } else if s == "i32"@ {
        Some(DType::I32)
    } else if s == "bool"@ {
        Some(DType::Bool)
    } else {
        None
    }
}

fn dtype_of(s: &str) -> (r: Option<DType>)
    ensures
        r == dtype_for(s@),
{
    if str_eq(s, "f32") {
        Some(DType::F32)
    } else if str_eq(s, "f16") {
        Some(DType::F16)
    } else if str_eq(s, "bf16") {
        Some(DType::BF16)
    } else if str_eq(s, "i64") {
        Some(DType::I64)
    } else if str_eq(s, "i32") {
        Some(DType::I32)
    } else if str_eq(s, "bool") {
        Some(DType::Bool)
    } else {
        None
    }
}

/// The dimension that a text stands for; what is no number is not known.
pub open spec fn dim_of(s: Seq<char>) -> i64 {
    match int_literal(trimmed(s)) {
        Some(n) => n,
        None => -1i64,
    }
}

/// The dimensions in a list, separated by commas.
pub open spec fn dims_of(s: Seq<char>) -> Seq<i64> {
    let ps = parts(s, ',');
    Seq::new(ps.len(), |i: int| dim_of(ps[i]))
}

fn read_dims(v: &Vec<char>) -> (r: Vec<i64>)
    ensures
        r@ == dims_of(v@),
{
    let ps = split_chars(v, ',');
    let mut out: Vec<i64> = Vec::new();
    let mut k: usize = 0;
    while k < ps.len()
        invariant
            k <= ps@.len(),
            char_views(ps@) == parts(v@, ','),
            out@ == dims_of(v@).take(k as int),
        decreases ps@.len() - k,
    {
        assert(char_views(ps@)[k as int] == ps@[k as int]@);
        let d = match parse_int(&trim_chars(&ps[k])) {
            Some(n) => n,
            None => -1,
        };
        out.push(d);
        k += 1;
        assert(dims_of(v@).take(k as int) == dims_of(v@).take(k - 1).push(dims_of(v@)[k - 1]));
    }
    assert(char_views(ps@).len() == ps@.len());
    assert(dims_of(v@).take(k as int) == dims_of(v@));
    out
}

/// The type with an element type and dimensions.
pub open spec fn type_with(dt: Seq<char>, dims: Option<Seq<i64>>, n: nat) -> Parsed<TypeModel> {
    match dtype_for(trimmed(dt)) {
        Some(elem) => Ok(TypeModel { elem, dims }),
        None => Err(line_error(n, " 行未知 dtype: "@, trimmed(dt))),
    }
}

/// The type that a text stands for: an element type, and for a tensor its
/// dimensions in brackets.
pub open spec fn type_of(s: Seq<char>, n: nat) -> Parsed<TypeModel> {
    let t = trimmed(s);
    match find_from(t, '[', 0) {
        Some(i) => match find_from(t, ']', 0) {
            Some(c) => if c <= i {
                Err(line_error(n, " 行类型缺 ']': "@, t))
            } else {
                type_with(
                    t.take(i as int),
                    Some(dims_of(t.subrange(i as int + 1, c as int))),
                    n,
                )
            },
            None => Err(line_error(n, " 行类型缺 ']': "@, t)),
        },
        None => type_with(t, None, n),
    }
}

fn parse_type(v: &Vec<char>, lineno: usize) -> (r: Result<Type>)
    ensures
        match r {
            Ok(t) => type_of(v@, lineno as nat) == Ok::<TypeModel, ErrorModel>(t@),
            Err(e) => type_of(v@, lineno as nat) == Err::<TypeModel, ErrorModel>(e@),
        },
{
    let t = trim_chars(v);
    let (dt, dims): (Vec<char>, Option<Vec<i64>>) = match find_char(&t, '[', 0) {
        Some(i) => match find_char(&t, ']', 0) {
            Some(c) => {
                if c <= i {
                    return Err(line_failure(lineno, " 行类型缺 ']': ", &t));
                }
                let head = sub_chars(&t, 0, i);
                assert(head@ == t@.take(i as int));
                (head, Some(read_dims(&sub_chars(&t, i + 1, c))))
            },
            None => {
                return Err(line_failure(lineno, " 行类型缺 ']': ", &t));
            },
        },
        None => {
            let whole = sub_chars(&t, 0, t.len());
            assert(whole@ == t@);
            (whole, None)
        },
    };
    let name = trim_chars(&dt);
    let text = string_of(&name, 0, name.len());
    assert(text@ == name@);
    match dtype_of(text.as_str()) {
        Some(dtype) => match dims {
            Some(dims) => Ok(Type::Tensor { dtype, dims }),
            None => Ok(Type::Scalar(dtype)),
        },
        None => Err(line_failure(lineno, " 行未知 dtype: ", &name)),
    }
}

/// A text with its letters in lower case.
pub open spec fn lower_case(s: Seq<char>) -> Seq<char> {
    Seq::new(s.len(), |i: int| lower(s[i]))
}

fn to_lower_case(s: &str) -> (r: String)
    ensures
        r@ == lower_case(s@),
{
    let v = chars_of(s);
    let mut out = String::new();
    let mut i: usize = 0;
    while i < v.len()
        invariant
            i <= v@.len(),
            v@ == s@,
            out@ == lower_case(s@).take(i as int),
        decreases v@.len() - i,
    {
        out.push(lower_of(v[i]));
        i += 1;
        assert(lower_case(s@).take(i as int) == lower_case(s@).take(i - 1).push(lower(s@[i - 1])));
    }
    assert(lower_case(s@).take(i as int) == lower_case(s@));
    out
}

/// The operator with a name in lower case; names that are not known stand for a
/// custom operator.
pub open spec fn lower_op(s: Seq<char>) -> OpKind {
    if s == "add"@ {
        OpKind::Add
    } else if s == "sub"@ {
        OpKind::Sub
    } else if s == "mul"@ {
        OpKind::Mul
    } else if s == "div"@ {
        OpKind::Div
    } else if s == "matmul"@ || s == "gemm"@ {
        OpKind::MatMul
    } else if s == "relu"@ {
        OpKind::Relu
    } else if s == "gelu"@ {
        OpKind::Gelu
    } else if s == "sigmoid"@ {
        OpKind::Sigmoid
    } else if s == "tanh"@ {
        OpKind::Tanh
    } else if s == "softmax"@ {
        OpKind::Softmax
    } else if s == "layernorm"@ {
        OpKind::LayerNorm
    } else if s == "conv"@ {
        OpKind::Conv
    } else if s == "pool"@ {
        OpKind::Pool
    } else if s == "reshape"@ {
        OpKind::Reshape
    } else if s == "transpose"@ {
        OpKind::Transpose
    } else if s == "concat"@ {
        OpKind::Concat
    } else if s == "slice"@ {
        OpKind::Slice
    } else if s == "sqrt"@ {
        OpKind::Sqrt
    } else if s == "exp"@ {
        OpKind::Exp
    } else if s == "pow"@ {
        OpKind::Pow
    } else if s == "reducesum"@ {
        OpKind::ReduceSum
    } else if s == "reducemean"@ {
        OpKind::ReduceMean
    } else if s == "reducemax"@ {
        OpKind::ReduceMax
    } else {
        OpKind::Custom
    }
}

/// The operator with a name; upper and lower case letters are taken as the same.
pub open spec fn dsl_op(s: Seq<char>) -> OpKind {
    lower_op(lower_case(s))
}

/// Names that differ only in the case of their letters stand for the same
/// operator.
pub proof fn case_of_operators_is_ignored(a: Seq<char>, b: Seq<char>)
    requires
        a.len() == b.len(),
        forall|i: int| 0 <= i < a.len() ==> lower(#[trigger] a[i]) == lower(b[i]),
    ensures
        dsl_op(a) == dsl_op(b),
{
    assert(lower_case(a) == lower_case(b));
}

/// The operator with a name.
pub fn map_dsl_op(s: &str) -> (r: OpKind)
    ensures
        r == dsl_op(s@),
{
    let low = to_lower_case(s);
    let t = low.as_str();
    if str_eq(t, "add") {
        OpKind::Add
    } else if str_eq(t, "sub") {
        OpKind::Sub
    } else if str_eq(t, "mul") {
        OpKind::Mul
    } else if str_eq(t, "div") {
        OpKind::Div
    } else if str_eq(t, "matmul") || str_eq(t, "gemm") {
        OpKind::MatMul
    } else if str_eq(t, "relu") {
        OpKind::Relu
    } else if str_eq(t, "gelu") {
        OpKind::Gelu
    } else if str_eq(t, "sigmoid") {
        OpKind::Sigmoid
    } else if str_eq(t, "tanh") {
        OpKind::Tanh
    } else if str_eq(t, "softmax") {
        OpKind::Softmax
    } else if str_eq(t, "layernorm") {
        OpKind::LayerNorm
    } else if str_eq(t, "conv") {
        OpKind::Conv
    } else if str_eq(t, "pool") {
        OpKind::Pool
    } else if str_eq(t, "reshape") {
        OpKind::Reshape
    } else if str_eq(t, "transpose") {
        OpKind::Transpose
    } else if str_eq(t, "concat") {
        OpKind::Concat
    } else if str_eq(t, "slice") {
        OpKind::Slice
    } else if str_eq(t, "sqrt") {
        OpKind::Sqrt
    } else if str_eq(t, "exp") {
        OpKind::Exp
    } else if str_eq(t, "pow") {
        OpKind::Pow
    } else if str_eq(t, "reducesum") {
        OpKind::ReduceSum
    } else if str_eq(t, "reducemean") {
        OpKind::ReduceMean
    } else if str_eq(t, "reducemax") {
        OpKind::ReduceMax
    } else {
        OpKind::Custom
    }
}

/// `x: f32[2,3]`: an input of the graph.
pub open spec fn input_statement(b: Build, rest: Seq<char>, n: nat) -> Parsed<Build> {
    match find_from(rest, ':', 0) {
        None => Err(line_error(n, " 行输入缺 ':' : "@, rest)),
        Some(c) => {
            let name = trimmed(rest.take(c as int));
            match type_of(trimmed(rest.skip(c as int + 1)), n) {
                Err(e) => Err(e),
                Ok(ty) => Ok(
                    Build {
                        graph: b.graph.with_typed(ty, Some(name), u32::MAX).marking_input(
                            b.next_value(),
                        ),
                        names: b.names.insert(name, b.next_value()),
                    },
                ),
            }
        },
    }
}

/// `z`: an output of the graph.
pub open spec fn output_statement(b: Build, rest: Seq<char>, n: nat) -> Parsed<Build> {
    if b.names.contains_key(rest) {
        Ok(Build { graph: b.graph.marking_output(b.names[rest]), ..b })
    } else {
        Err(line_error(n, " 行输出未定义: "@, rest))
    }
}

/// `acc`, then the values of the arguments from `k` on.
pub open spec fn args_from(
    b: Build,
    args: Seq<Seq<char>>,
    k: nat,
    acc: Seq<u32>,
    n: nat,
) -> Parsed<Seq<u32>>
    decreases args.len() - k,
{
    if k >= args.len() {
        Ok(acc)
    } else {
        let a = trimmed(args[k as int]);
        if b.names.contains_key(a) {
            args_from(b, args, k + 1, acc.push(b.names[a]), n)
        } else {
            Err(line_error(n, " 行参数未定义: "@, a))
        }
    }
}

/// The values of an argument list; a blank one is empty.
pub open spec fn args_of(b: Build, args: Seq<char>, n: nat) -> Parsed<Seq<u32>> {
    if trimmed(args).len() == 0 {
        Ok(Seq::empty())
    } else {
        args_from(b, parts(args, ','), 0, Seq::empty(), n)
    }
}

/// `y = op(a, b)`: a node. Its output can be used in its own arguments.
pub open spec fn node_statement(b: Build, out: Seq<char>, rhs: Seq<char>, n: nat) -> Parsed<Build> {
    match find_from(rhs, '(', 0) {
        None => Err(line_error(n, " 行节点缺 '(': "@, rhs)),
        Some(p) => {
            let kind = dsl_op(trimmed(rhs.take(p as int)));
            let args = trim_end_char(trimmed(rhs.skip(p as int + 1)), ')');
            let node = b.next_node();
            let c = Build {
                graph: b.graph.with_node(kind).with_typed(
                    unknown_dims(2),
                    Some(out),
                    node,
                ).with_outputs(node as int, seq![b.next_value()]),
                names: b.names.insert(out, b.next_value()),
            };
            match args_of(c, args, n) {
                Ok(ins) => Ok(Build { graph: c.graph.with_inputs(node as int, ins), ..c }),
                Err(e) => Err(e),
            }
        },
    }
}

/// A statement.
pub open spec fn statement(b: Build, line: Seq<char>, n: nat) -> Parsed<Build> {
    if starts_with(line, "graph "@) {
        Ok(
            Build {
                graph: GraphModel {
                    name: trim_end_char(
                        trim_start_char(trimmed(line.skip("graph "@.len() as int)), '"'),
                        '"',
                    ),
                    ..b.graph
                },
                ..b
            },
        )
    } else if starts_with(line, "in "@) {
        input_statement(b, trimmed(line.skip("in "@.len() as int)), n)
    } else if starts_with(line, "out "@) {
        output_statement(b, trimmed(line.skip("out "@.len() as int)), n)
    } else {
        match find_from(line, '=', 0) {
            Some(i) => node_statement(
                b,
                trimmed(line.take(i as int)),
                trimmed(line.skip(i as int + 1)),
                n,
            ),
            None => Err(line_error(n, " 行无法解析: "@, line)),
        }
    }
}

/// The graph under construction after the lines from `k` on; blank lines
/// say nothing.
pub open spec fn lines_from(b: Build, lines: Seq<Seq<char>>, k: nat) -> Parsed<Build>
    decreases lines.len() - k,
{
    if k >= lines.len() {
        Ok(b)
    } else {
        let line = trimmed(without_comment(lines[k as int]));
        if line.len() == 0 {
            lines_from(b, lines, k + 1)
        } else {
            match statement(b, line, k + 1) {
                Ok(c) => lines_from(c, lines, k + 1),
                Err(e) => Err(e),
            }
        }
    }
}

/// A graph without anything under the name that is used if none is given.
pub open spec fn blank() -> Build {
    Build { graph: GraphModel::empty("dsl"@), names: Map::empty() }
}

/// The graph that a text stands for, or the error.
pub open spec fn dsl_graph(src: Seq<char>) -> Parsed<Build> {
    lines_from(blank(), parts(src, '\n'), 0)
}

struct Reader {
    graph: Graph,
    names: Names,
}

impl Reader {
    spec fn view(&self) -> Build {
        Build { graph: self.graph@, names: self.names@ }
    }

    fn read_line(&mut self, line: &Vec<char>, lineno: usize) -> (r: Result<()>)
        requires
            old(self)@.graph.storage.nodes.len() <= u32::MAX,
        ensures
            match r {
                Ok(_) => statement(old(self)@, line@, lineno as nat) == Ok::<Build, ErrorModel>(
                    final(self)@,
                ),
                Err(e) => statement(old(self)@, line@, lineno as nat) == Err::<Build, ErrorModel>(e@),
            },
            final(self)@.graph.storage.nodes.len() <= old(self)@.graph.storage.nodes.len() + 1,
    {
        let n: usize = line.len();
        if has_prefix(line, "graph ") {
            let k = chars_of("graph ").len();
            let rest = sub_chars(line, k, n);
            assert(rest@ == line@.skip("graph "@.len() as int));
            let name = drop_trailing(&drop_leading(&trim_chars(&rest), '"'), '"');
            let text = string_of(&name, 0, name.len());
            assert(text@ == name@);
            self.graph.name = text;
            return Ok(());
        }
        if has_prefix(line, "in ") {
            let k = chars_of("in ").len();
            let rest = sub_chars(line, k, n);
            assert(rest@ == line@.skip("in "@.len() as int));
            return self.read_input(&trim_chars(&rest), lineno);
        }
        if has_prefix(line, "out ") {
            let k = chars_of("out ").len();
            let rest = sub_chars(line, k, n);
            assert(rest@ == line@.skip("out "@.len() as int));
            return self.read_output(&trim_chars(&rest), lineno);
        }
        match find_char(line, '=', 0) {
            Some(i) => {
                let left = sub_chars(line, 0, i);
                assert(left@ == line@.take(i as int));
                let right = sub_chars(line, i + 1, n);
                assert(right@ == line@.skip(i as int + 1));
                self.read_node(&trim_chars(&left), &trim_chars(&right), lineno)
            },
            None => Err(line_failure(lineno, " 行无法解析: ", line)),
        }
    }

    fn read_input(&mut self, rest: &Vec<char>, lineno: usize) -> (r: Result<()>)
        ensures
            match r {
                Ok(_) => input_statement(old(self)@, rest@, lineno as nat) == Ok::<Build, ErrorModel>(
                    final(self)@,
                ),
                Err(e) => input_statement(old(self)@, rest@, lineno as nat) == Err::<
                    Build,
                    ErrorModel,
                >(e@),
            },
            final(self)@.graph.storage.nodes == old(self)@.graph.storage.nodes,
    {
        let n: usize = rest.len();
        match find_char(rest, ':', 0) {
            None => Err(line_failure(lineno, " 行输入缺 ':' : ", rest)),
            Some(c) => {
                let left = sub_chars(rest, 0, c);
                assert(left@ == rest@.take(c as int));
                let right = sub_chars(rest, c + 1, n);
                assert(right@ == rest@.skip(c as int + 1));
                let name = trim_chars(&left);
                let text = string_of(&name, 0, name.len());
                assert(text@ == name@);
                match parse_type(&trim_chars(&right), lineno) {
                    Err(e) => Err(e),
                    Ok(ty) => {
                        let v = self.graph.add_input(ty, Some(text.as_str()));
                        self.graph.mark_input(v);
                        self.names.insert(text.as_str(), v);
                        Ok(())
                    },
                }
            },
        }
    }

    fn read_output(&mut self, rest: &Vec<char>, lineno: usize) -> (r: Result<()>)
        ensures
            match r {
                Ok(_) => output_statement(old(self)@, rest@, lineno as nat) == Ok::<Build, ErrorModel>(
                    final(self)@,
                ),
                Err(e) => output_statement(old(self)@, rest@, lineno as nat) == Err::<
                    Build,
                    ErrorModel,
                >(e@),
            },
            final(self)@.graph.storage.nodes == old(self)@.graph.storage.nodes,
    {
        let text = string_of(rest, 0, rest.len());
        assert(text@ == rest@);
        match self.names.get(text.as_str()) {
            Some(v) => {
                self.graph.mark_output(v);
                Ok(())
            },
            None => Err(line_failure(lineno, " 行输出未定义: ", rest)),
        }
    }

    fn read_args(&self, args: &Vec<char>, lineno: usize) -> (r: Result<Vec<ValueId>>)
        ensures
            match r {
                Ok(v) => args_of(self@, args@, lineno as nat) == Ok::<Seq<u32>, ErrorModel>(v@),
                Err(e) => args_of(self@, args@, lineno as nat) == Err::<Seq<u32>, ErrorModel>(e@),
            },
    {
        let mut out: Vec<ValueId> = Vec::new();
        if trim_chars(args).len() == 0 {
            return Ok(out);
        }
        let ps = split_chars(args, ',');
        let mut k: usize = 0;
        while k < ps.len()
            invariant
                k <= ps@.len(),
                char_views(ps@) == parts(args@, ','),
                args_of(self@, args@, lineno as nat) == args_from(
                    self@,
                    parts(args@, ','),
                    k as nat,
                    out@,
                    lineno as nat,
                ),
            decreases ps@.len() - k,
        {
            assert(char_views(ps@)[k as int] == ps@[k as int]@);
            let a = trim_chars(&ps[k]);
            let text = string_of(&a, 0, a.len());
            assert(text@ == a@);
            match self.names.get(text.as_str()) {
                Some(v) => out.push(v),
                None => {
                    return Err(line_failure(lineno, " 行参数未定义: ", &a));
                },
            }
            k += 1;
        }
        assert(char_views(ps@).len() == ps@.len());
        Ok(out)
    }

    fn read_node(&mut self, out: &Vec<char>, rhs: &Vec<char>, lineno: usize) -> (r: Result<()>)
        requires
            old(self)@.graph.storage.nodes.len() <= u32::MAX,
        ensures
            match r {
                Ok(_) => node_statement(old(self)@, out@, rhs@, lineno as nat) == Ok::<
                    Build,
                    ErrorModel,
                >(final(self)@),
                Err(e) => node_statement(old(self)@, out@, rhs@, lineno as nat) == Err::<
                    Build,
                    ErrorModel,
                >(e@),
            },
            final(self)@.graph.storage.nodes.len() <= old(self)@.graph.storage.nodes.len() + 1,
    {
        let n: usize = rhs.len();
        match find_char(rhs, '(', 0) {
            None => Err(line_failure(lineno, " 行节点缺 '(': ", rhs)),
            Some(p) => {
                let left = sub_chars(rhs, 0, p);
                assert(left@ == rhs@.take(p as int));
                let right = sub_chars(rhs, p + 1, n);
                assert(right@ == rhs@.skip(p as int + 1));
                let op = trim_chars(&left);
                let op_text = string_of(&op, 0, op.len());
                assert(op_text@ == op@);
                let args = drop_trailing(&trim_chars(&right), ')');
                let node = self.graph.add_node(map_dsl_op(op_text.as_str()));
                let name = string_of(out, 0, out.len());
                assert(name@ == out@);
                let v = self.graph.add_value(unknown_type(2), Some(name.as_str()), node);
                let outs: Vec<ValueId> = vec![v];
                assert(outs@ == seq![v]);
                self.graph.storage.set_node_outputs(node, outs.as_slice());
                self.names.insert(name.as_str(), v);
                match self.read_args(&args, lineno) {
                    Ok(ins) => {
                        self.graph.storage.set_node_inputs(node, ins.as_slice());
                        Ok(())
                    },
                    Err(e) => Err(e),
                }
            },
        }
    }
}

/// Reads a graph. Node identifiers have to fit their type, so the text has
/// less than four thousand million lines.
pub fn parse(src: &str) -> (r: Result<Graph>)
    requires
        parts(src@, '\n').len() < u32::MAX,
    ensures
        match r {
            Ok(g) => dsl_graph(src@) is Ok && g@ == dsl_graph(src@)->Ok_0.graph,
            Err(e) => dsl_graph(src@) == Err::<Build, ErrorModel>(e@),
        },
{
    let mut b = Reader { graph: Graph::new("dsl"), names: Names::new() };
    assert(b@ == blank());
    let lines = split_chars(&chars_of(src), '\n');
    assert(char_views(lines@).len() == lines@.len());
    let mut k: usize = 0;
    while k < lines.len()
        invariant
            k <= lines@.len(),
            lines@.len() < u32::MAX,
            char_views(lines@) == parts(src@, '\n'),
            b@.graph.storage.nodes.len() <= k,
            dsl_graph(src@) == lines_from(b@, parts(src@, '\n'), k as nat),
        decreases lines@.len() - k,
    {
        assert(char_views(lines@)[k as int] == lines@[k as int]@);
        let line = trim_chars(&strip_comment(&lines[k]));
        if line.len() > 0 {
            match b.read_line(&line, k + 1) {
                Ok(_) => {},
                Err(e) => {
                    return Err(e);
                },
            }
        }
        k += 1;
    }
    assert(char_views(lines@).len() == lines@.len());
    Ok(b.graph)
}

} // verus!
