//! What the operators are called throughout the library.

use vstd::prelude::*;
use crate::arch::native;
use crate::backend::extract::short_name;
use crate::base::OpKind;
use crate::frontend::dsl::{dsl_op, lower_case};
use crate::frontend::onnx::op_for;
use crate::isel::defaults::{Entry, default_entries};
use crate::isel::select::{default_instruction, first_entry};

verus! {

/// A few characters of a text, which tell the names of operators apart.
pub open spec fn told(s: Seq<char>) -> (char, char, char, nat) {
    (s[0], s[1], s[s.len() - 1], s.len())
}

/// The names of native operations differ.
proof fn native_told()
    ensures
        told("add"@) == ('a', 'd', 'd', 3nat),
        told("sub"@) == ('s', 'u', 'b', 3nat),
        told("mul"@) == ('m', 'u', 'l', 3nat),
        told("div"@) == ('d', 'i', 'v', 3nat),
        told("mma"@) == ('m', 'm', 'a', 3nat),
        told("relu"@) == ('r', 'e', 'u', 4nat),
        told("gelu"@) == ('g', 'e', 'u', 4nat),
        told("sigmoid"@) == ('s', 'i', 'd', 7nat),
        told("tanh"@) == ('t', 'a', 'h', 4nat),
        told("sqrt"@) == ('s', 'q', 't', 4nat),
        told("rsqrt"@) == ('r', 's', 't', 5nat),
        told("reciprocal"@) == ('r', 'e', 'l', 10nat),
        told("abs"@) == ('a', 'b', 's', 3nat),
        told("log"@) == ('l', 'o', 'g', 3nat),
        told("exp"@) == ('e', 'x', 'p', 3nat),
        told("pow"@) == ('p', 'o', 'w', 3nat),
        told("reduce_sum"@) == ('r', 'e', 'm', 10nat),
        told("reduce_mean"@) == ('r', 'e', 'n', 11nat),
        told("reduce_max"@) == ('r', 'e', 'x', 10nat),
        told("reshape"@) == ('r', 'e', 'e', 7nat),
        told("transpose"@) == ('t', 'r', 'e', 9nat),
        told("concat"@) == ('c', 'o', 't', 6nat),
        told("slice"@) == ('s', 'l', 'e', 5nat),
        told("pool"@) == ('p', 'o', 'l', 4nat),
        told("softmax"@) == ('s', 'o', 'x', 7nat),
        told("layer_norm"@) == ('l', 'a', 'm', 10nat),
        told("conv"@) == ('c', 'o', 'v', 4nat),
        told("load"@) == ('l', 'o', 'd', 4nat),
        told("store"@) == ('s', 't', 'e', 5nat),
        told("const"@) == ('c', 'o', 't', 5nat),
        told("fused"@) == ('f', 'u', 'd', 5nat),
        told("custom"@) == ('c', 'u', 'm', 6nat),
{
    reveal_strlit("add");
    reveal_strlit("sub");
    reveal_strlit("mul");
    reveal_strlit("div");
    reveal_strlit("mma");
    reveal_strlit("relu");
    reveal_strlit("gelu");
    reveal_strlit("sigmoid");
    reveal_strlit("tanh");
    reveal_strlit("sqrt");
    reveal_strlit("rsqrt");
    reveal_strlit("reciprocal");
    reveal_strlit("abs");
    reveal_strlit("log");
    reveal_strlit("exp");
    reveal_strlit("pow");
    reveal_strlit("reduce_sum");
    reveal_strlit("reduce_mean");
    reveal_strlit("reduce_max");
    reveal_strlit("reshape");
    reveal_strlit("transpose");
    reveal_strlit("concat");
    reveal_strlit("slice");
    reveal_strlit("pool");
    reveal_strlit("softmax");
    reveal_strlit("layer_norm");
    reveal_strlit("conv");
    reveal_strlit("load");
    reveal_strlit("store");
    reveal_strlit("const");
    reveal_strlit("fused");
    reveal_strlit("custom");
}

/// The names of instructions differ.
proof fn instructions_told()
    ensures
        told("fadd"@) == ('f', 'a', 'd', 4nat),
        told("fsub"@) == ('f', 's', 'b', 4nat),
        told("fmul"@) == ('f', 'm', 'l', 4nat),
        told("fdiv"@) == ('f', 'd', 'v', 4nat),
        told("mma"@) == ('m', 'm', 'a', 3nat),
        told("relu"@) == ('r', 'e', 'u', 4nat),
        told("gelu"@) == ('g', 'e', 'u', 4nat),
        told("sigm"@) == ('s', 'i', 'm', 4nat),
        told("tanh"@) == ('t', 'a', 'h', 4nat),
        told("sm"@) == ('s', 'm', 'm', 2nat),
        told("ln"@) == ('l', 'n', 'n', 2nat),
        told("conv"@) == ('c', 'o', 'v', 4nat),
        told("pool"@) == ('p', 'o', 'l', 4nat),
        told("reshape"@) == ('r', 'e', 'e', 7nat),
        told("transpose"@) == ('t', 'r', 'e', 9nat),
        told("concat"@) == ('c', 'o', 't', 6nat),
        told("slice"@) == ('s', 'l', 'e', 5nat),
        told("const"@) == ('c', 'o', 't', 5nat),
        told("load"@) == ('l', 'o', 'd', 4nat),
        told("store"@) == ('s', 't', 'e', 5nat),
        told("sqrt"@) == ('s', 'q', 't', 4nat),
        told("exp"@) == ('e', 'x', 'p', 3nat),
        told("pow"@) == ('p', 'o', 'w', 3nat),
        told("rsum"@) == ('r', 's', 'm', 4nat),
        told("rmean"@) == ('r', 'm', 'n', 5nat),
        told("rmax"@) == ('r', 'm', 'x', 4nat),
        told("rsqrt"@) == ('r', 's', 't', 5nat),
        told("reciprocal"@) == ('r', 'e', 'l', 10nat),
        told("abs"@) == ('a', 'b', 's', 3nat),
        told("log"@) == ('l', 'o', 'g', 3nat),
        told("fused"@) == ('f', 'u', 'd', 5nat),
        told("custom"@) == ('c', 'u', 'm', 6nat),
{
    reveal_strlit("fadd");
    reveal_strlit("fsub");
    reveal_strlit("fmul");
    reveal_strlit("fdiv");
    reveal_strlit("mma");
    reveal_strlit("relu");
    reveal_strlit("gelu");
    reveal_strlit("sigm");
    reveal_strlit("tanh");
    reveal_strlit("sm");
    reveal_strlit("ln");
    reveal_strlit("conv");
    reveal_strlit("pool");
    reveal_strlit("reshape");
    reveal_strlit("transpose");
    reveal_strlit("concat");
    reveal_strlit("slice");
    reveal_strlit("const");
    reveal_strlit("load");
    reveal_strlit("store");
    reveal_strlit("sqrt");
    reveal_strlit("exp");
    reveal_strlit("pow");
    reveal_strlit("rsum");
    reveal_strlit("rmean");
    reveal_strlit("rmax");
    reveal_strlit("rsqrt");
    reveal_strlit("reciprocal");
    reveal_strlit("abs");
    reveal_strlit("log");
    reveal_strlit("fused");
    reveal_strlit("custom");
}

/// The names of operators differ.
proof fn spellings_told()
    ensures
        told("Add"@) == ('A', 'd', 'd', 3nat),
        told("Sub"@) == ('S', 'u', 'b', 3nat),
        told("Mul"@) == ('M', 'u', 'l', 3nat),
        told("Div"@) == ('D', 'i', 'v', 3nat),
        told("MatMul"@) == ('M', 'a', 'l', 6nat),
        told("Relu"@) == ('R', 'e', 'u', 4nat),
        told("Gelu"@) == ('G', 'e', 'u', 4nat),
        told("Sigmoid"@) == ('S', 'i', 'd', 7nat),
        told("Tanh"@) == ('T', 'a', 'h', 4nat),
        told("Softmax"@) == ('S', 'o', 'x', 7nat),
        told("LayerNorm"@) == ('L', 'a', 'm', 9nat),
        told("Conv"@) == ('C', 'o', 'v', 4nat),
        told("Pool"@) == ('P', 'o', 'l', 4nat),
        told("Reshape"@) == ('R', 'e', 'e', 7nat),
        told("Transpose"@) == ('T', 'r', 'e', 9nat),
        told("Concat"@) == ('C', 'o', 't', 6nat),
        told("Slice"@) == ('S', 'l', 'e', 5nat),
        told("Constant"@) == ('C', 'o', 't', 8nat),
        told("Placeholder"@) == ('P', 'l', 'r', 11nat),
        told("Return"@) == ('R', 'e', 'n', 6nat),
        told("Sqrt"@) == ('S', 'q', 't', 4nat),
        told("Exp"@) == ('E', 'x', 'p', 3nat),
        told("Pow"@) == ('P', 'o', 'w', 3nat),
        told("ReduceSum"@) == ('R', 'e', 'm', 9nat),
        told("ReduceMean"@) == ('R', 'e', 'n', 10nat),
        told("ReduceMax"@) == ('R', 'e', 'x', 9nat),
        told("Rsqrt"@) == ('R', 's', 't', 5nat),
        told("Reciprocal"@) == ('R', 'e', 'l', 10nat),
        told("Abs"@) == ('A', 'b', 's', 3nat),
        told("Log"@) == ('L', 'o', 'g', 3nat),
        told("Fused"@) == ('F', 'u', 'd', 5nat),
        told("Custom"@) == ('C', 'u', 'm', 6nat),
{
    reveal_strlit("Add");
    reveal_strlit("Sub");
    reveal_strlit("Mul");
    reveal_strlit("Div");
    reveal_strlit("MatMul");
    reveal_strlit("Relu");
    reveal_strlit("Gelu");
    reveal_strlit("Sigmoid");
    reveal_strlit("Tanh");
    reveal_strlit("Softmax");
    reveal_strlit("LayerNorm");
    reveal_strlit("Conv");
    reveal_strlit("Pool");
    reveal_strlit("Reshape");
    reveal_strlit("Transpose");
    reveal_strlit("Concat");
    reveal_strlit("Slice");
    reveal_strlit("Constant");
    reveal_strlit("Placeholder");
    reveal_strlit("Return");
    reveal_strlit("Sqrt");
    reveal_strlit("Exp");
    reveal_strlit("Pow");
    reveal_strlit("ReduceSum");
    reveal_strlit("ReduceMean");
    reveal_strlit("ReduceMax");
    reveal_strlit("Rsqrt");
    reveal_strlit("Reciprocal");
    reveal_strlit("Abs");
    reveal_strlit("Log");
    reveal_strlit("Fused");
    reveal_strlit("Custom");
}

/// The short names of operators differ.
proof fn shorts_told()
    ensures
        told("add"@) == ('a', 'd', 'd', 3nat),
        told("sub"@) == ('s', 'u', 'b', 3nat),
        told("mul"@) == ('m', 'u', 'l', 3nat),
        told("div"@) == ('d', 'i', 'v', 3nat),
        told("matmul"@) == ('m', 'a', 'l', 6nat),
        told("relu"@) == ('r', 'e', 'u', 4nat),
        told("gelu"@) == ('g', 'e', 'u', 4nat),
        told("sigmoid"@) == ('s', 'i', 'd', 7nat),
        told("tanh"@) == ('t', 'a', 'h', 4nat),
        told("softmax"@) == ('s', 'o', 'x', 7nat),
        told("layernorm"@) == ('l', 'a', 'm', 9nat),
        told("conv"@) == ('c', 'o', 'v', 4nat),
        told("pool"@) == ('p', 'o', 'l', 4nat),
        told("reshape"@) == ('r', 'e', 'e', 7nat),
        told("transpose"@) == ('t', 'r', 'e', 9nat),
        told("concat"@) == ('c', 'o', 't', 6nat),
        told("slice"@) == ('s', 'l', 'e', 5nat),
        told("const"@) == ('c', 'o', 't', 5nat),
        told("placeholder"@) == ('p', 'l', 'r', 11nat),
        told("ret"@) == ('r', 'e', 't', 3nat),
        told("sqrt"@) == ('s', 'q', 't', 4nat),
        told("exp"@) == ('e', 'x', 'p', 3nat),
        told("pow"@) == ('p', 'o', 'w', 3nat),
        told("reduce_sum"@) == ('r', 'e', 'm', 10nat),
        told("reduce_mean"@) == ('r', 'e', 'n', 11nat),
        told("reduce_max"@) == ('r', 'e', 'x', 10nat),
        told("rsqrt"@) == ('r', 's', 't', 5nat),
        told("reciprocal"@) == ('r', 'e', 'l', 10nat),
        told("abs"@) == ('a', 'b', 's', 3nat),
        told("log"@) == ('l', 'o', 'g', 3nat),
        told("fused"@) == ('f', 'u', 'd', 5nat),
        told("custom"@) == ('c', 'u', 'm', 6nat),
{
    reveal_strlit("add");
    reveal_strlit("sub");
    reveal_strlit("mul");
    reveal_strlit("div");
    reveal_strlit("matmul");
    reveal_strlit("relu");
    reveal_strlit("gelu");
    reveal_strlit("sigmoid");
    reveal_strlit("tanh");
    reveal_strlit("softmax");
    reveal_strlit("layernorm");
    reveal_strlit("conv");
    reveal_strlit("pool");
    reveal_strlit("reshape");
    reveal_strlit("transpose");
    reveal_strlit("concat");
    reveal_strlit("slice");
    reveal_strlit("const");
    reveal_strlit("placeholder");
    reveal_strlit("ret");
    reveal_strlit("sqrt");
    reveal_strlit("exp");
    reveal_strlit("pow");
    reveal_strlit("reduce_sum");
    reveal_strlit("reduce_mean");
    reveal_strlit("reduce_max");
    reveal_strlit("rsqrt");
    reveal_strlit("reciprocal");
    reveal_strlit("abs");
    reveal_strlit("log");
    reveal_strlit("fused");
    reveal_strlit("custom");
}

/// The ONNX names of operators differ.
proof fn onnx_told()
    ensures
        told("Add"@) == ('A', 'd', 'd', 3nat),
        told("Sub"@) == ('S', 'u', 'b', 3nat),
        told("Mul"@) == ('M', 'u', 'l', 3nat),
        told("Div"@) == ('D', 'i', 'v', 3nat),
        told("MatMul"@) == ('M', 'a', 'l', 6nat),
        told("Gemm"@) == ('G', 'e', 'm', 4nat),
        told("Relu"@) == ('R', 'e', 'u', 4nat),
        told("Gelu"@) == ('G', 'e', 'u', 4nat),
        told("Sigmoid"@) == ('S', 'i', 'd', 7nat),
        told("Tanh"@) == ('T', 'a', 'h', 4nat),
        told("Softmax"@) == ('S', 'o', 'x', 7nat),
        told("LayerNormalization"@) == ('L', 'a', 'n', 18nat),
        told("InstanceNormalization"@) == ('I', 'n', 'n', 21nat),
        told("Conv"@) == ('C', 'o', 'v', 4nat),
        told("MaxPool"@) == ('M', 'a', 'l', 7nat),
        told("AveragePool"@) == ('A', 'v', 'l', 11nat),
        told("GlobalAveragePool"@) == ('G', 'l', 'l', 17nat),
        told("Reshape"@) == ('R', 'e', 'e', 7nat),
        told("Transpose"@) == ('T', 'r', 'e', 9nat),
        told("Concat"@) == ('C', 'o', 't', 6nat),
        told("Slice"@) == ('S', 'l', 'e', 5nat),
        told("Sqrt"@) == ('S', 'q', 't', 4nat),
        told("Exp"@) == ('E', 'x', 'p', 3nat),
        told("Pow"@) == ('P', 'o', 'w', 3nat),
        told("Abs"@) == ('A', 'b', 's', 3nat),
        told("Log"@) == ('L', 'o', 'g', 3nat),
        told("Reciprocal"@) == ('R', 'e', 'l', 10nat),
        told("ReduceSum"@) == ('R', 'e', 'm', 9nat),
        told("ReduceL1"@) == ('R', 'e', '1', 8nat),
        told("ReduceL2"@) == ('R', 'e', '2', 8nat),
        told("ReduceMean"@) == ('R', 'e', 'n', 10nat),
        told("ReduceMax"@) == ('R', 'e', 'x', 9nat),
{
    reveal_strlit("Add");
    reveal_strlit("Sub");
    reveal_strlit("Mul");
    reveal_strlit("Div");
    reveal_strlit("MatMul");
    reveal_strlit("Gemm");
    reveal_strlit("Relu");
    reveal_strlit("Gelu");
    reveal_strlit("Sigmoid");
    reveal_strlit("Tanh");
    reveal_strlit("Softmax");
    reveal_strlit("LayerNormalization");
    reveal_strlit("InstanceNormalization");
    reveal_strlit("Conv");
    reveal_strlit("MaxPool");
    reveal_strlit("AveragePool");
    reveal_strlit("GlobalAveragePool");
    reveal_strlit("Reshape");
    reveal_strlit("Transpose");
    reveal_strlit("Concat");
    reveal_strlit("Slice");
    reveal_strlit("Sqrt");
    reveal_strlit("Exp");
    reveal_strlit("Pow");
    reveal_strlit("Abs");
    reveal_strlit("Log");
    reveal_strlit("Reciprocal");
    reveal_strlit("ReduceSum");
    reveal_strlit("ReduceL1");
    reveal_strlit("ReduceL2");
    reveal_strlit("ReduceMean");
    reveal_strlit("ReduceMax");
}

/// The lower case names of operators differ.
proof fn dsl_told()
    ensures
        told("add"@) == ('a', 'd', 'd', 3nat),
        told("sub"@) == ('s', 'u', 'b', 3nat),
        told("mul"@) == ('m', 'u', 'l', 3nat),
        told("div"@) == ('d', 'i', 'v', 3nat),
        told("matmul"@) == ('m', 'a', 'l', 6nat),
        told("relu"@) == ('r', 'e', 'u', 4nat),
        told("gelu"@) == ('g', 'e', 'u', 4nat),
        told("sigmoid"@) == ('s', 'i', 'd', 7nat),
        told("tanh"@) == ('t', 'a', 'h', 4nat),
        told("softmax"@) == ('s', 'o', 'x', 7nat),
        told("layernorm"@) == ('l', 'a', 'm', 9nat),
        told("conv"@) == ('c', 'o', 'v', 4nat),
        told("pool"@) == ('p', 'o', 'l', 4nat),
        told("reshape"@) == ('r', 'e', 'e', 7nat),
        told("transpose"@) == ('t', 'r', 'e', 9nat),
        told("concat"@) == ('c', 'o', 't', 6nat),
        told("slice"@) == ('s', 'l', 'e', 5nat),
        told("sqrt"@) == ('s', 'q', 't', 4nat),
        told("exp"@) == ('e', 'x', 'p', 3nat),
        told("pow"@) == ('p', 'o', 'w', 3nat),
        told("reducesum"@) == ('r', 'e', 'm', 9nat),
        told("reducemean"@) == ('r', 'e', 'n', 10nat),
        told("reducemax"@) == ('r', 'e', 'x', 9nat),
        told("gemm"@) == ('g', 'e', 'm', 4nat),
{
    reveal_strlit("add");
    reveal_strlit("sub");
    reveal_strlit("mul");
    reveal_strlit("div");
    reveal_strlit("matmul");
    reveal_strlit("relu");
    reveal_strlit("gelu");
    reveal_strlit("sigmoid");
    reveal_strlit("tanh");
    reveal_strlit("softmax");
    reveal_strlit("layernorm");
    reveal_strlit("conv");
    reveal_strlit("pool");
    reveal_strlit("reshape");
    reveal_strlit("transpose");
    reveal_strlit("concat");
    reveal_strlit("slice");
    reveal_strlit("sqrt");
    reveal_strlit("exp");
    reveal_strlit("pow");
    reveal_strlit("reducesum");
    reveal_strlit("reducemean");
    reveal_strlit("reducemax");
    reveal_strlit("gemm");
}

/// The first entry for an operation gives its instruction.
proof fn first_is_found(es: Seq<Entry>, k: nat, j: int, op: Seq<char>)
    requires
        k <= j < es.len(),
        es[j].op == op,
        forall|i: int| k <= i < j ==> told(#[trigger] es[i].op) != told(op),
    ensures
        first_entry(es, k, op) == Some(es[j].instr),
    decreases j - k,
{
    if k < j {
        assert(told(es[k as int].op) != told(op));
        first_is_found(es, k + 1, j, op);
    }
}

/// What an operator is called: in a graph and by its number, as a native
/// operation and by the instruction that the default rules select for it, and
/// in the names of kernels.
pub open spec fn called(
    kind: OpKind,
    spelled: Seq<char>,
    tag: u8,
    op: Seq<char>,
    instr: Seq<char>,
    short: Seq<char>,
) -> bool {
    &&& kind.spelling() == spelled
    &&& kind.tag() == tag
    &&& native(kind) == op
    &&& default_instruction(op) == Some(instr)
    &&& short_name(kind) == short
}

/// The default rules give each native operation its own instruction.
#[verifier::rlimit(40)]
pub proof fn native_operations_have_instructions()
    ensures
        default_instruction("add"@) == Some("fadd"@),
        default_instruction("sub"@) == Some("fsub"@),
        default_instruction("mul"@) == Some("fmul"@),
        default_instruction("div"@) == Some("fdiv"@),
        default_instruction("mma"@) == Some("mma"@),
        default_instruction("relu"@) == Some("relu"@),
        default_instruction("gelu"@) == Some("gelu"@),
        default_instruction("sigmoid"@) == Some("sigm"@),
        default_instruction("tanh"@) == Some("tanh"@),
        default_instruction("sqrt"@) == Some("sqrt"@),
        default_instruction("rsqrt"@) == Some("rsqrt"@),
        default_instruction("reciprocal"@) == Some("reciprocal"@),
        default_instruction("abs"@) == Some("abs"@),
        default_instruction("log"@) == Some("log"@),
        default_instruction("exp"@) == Some("exp"@),
        default_instruction("pow"@) == Some("pow"@),
        default_instruction("reduce_sum"@) == Some("rsum"@),
        default_instruction("reduce_mean"@) == Some("rmean"@),
        default_instruction("reduce_max"@) == Some("rmax"@),
        default_instruction("reshape"@) == Some("reshape"@),
        default_instruction("transpose"@) == Some("transpose"@),
        default_instruction("concat"@) == Some("concat"@),
        default_instruction("slice"@) == Some("slice"@),
        default_instruction("pool"@) == Some("pool"@),
        default_instruction("softmax"@) == Some("sm"@),
        default_instruction("layer_norm"@) == Some("ln"@),
        default_instruction("conv"@) == Some("conv"@),
        default_instruction("load"@) == Some("load"@),
        default_instruction("store"@) == Some("store"@),
        default_instruction("const"@) == Some("const"@),
        default_instruction("fused"@) == Some("fused"@),
        default_instruction("custom"@) == Some("custom"@),
{
    let es = default_entries();
    native_told();
    assert(es[0].op == "add"@ && es[0].instr == "fadd"@);
    assert(es[1].op == "sub"@ && es[1].instr == "fsub"@);
    assert(es[2].op == "mul"@ && es[2].instr == "fmul"@);
    assert(es[3].op == "div"@ && es[3].instr == "fdiv"@);
    assert(es[4].op == "mma"@ && es[4].instr == "mma"@);
    assert(es[5].op == "relu"@ && es[5].instr == "relu"@);
    assert(es[6].op == "gelu"@ && es[6].instr == "gelu"@);
    assert(es[7].op == "sigmoid"@ && es[7].instr == "sigm"@);
    assert(es[8].op == "tanh"@ && es[8].instr == "tanh"@);
    assert(es[9].op == "sqrt"@ && es[9].instr == "sqrt"@);
    assert(es[10].op == "rsqrt"@ && es[10].instr == "rsqrt"@);
    assert(es[11].op == "reciprocal"@ && es[11].instr == "reciprocal"@);
    assert(es[12].op == "abs"@ && es[12].instr == "abs"@);
    assert(es[13].op == "log"@ && es[13].instr == "log"@);
    assert(es[14].op == "exp"@ && es[14].instr == "exp"@);
    assert(es[15].op == "pow"@ && es[15].instr == "pow"@);
    assert(es[16].op == "reduce_sum"@ && es[16].instr == "rsum"@);
    assert(es[17].op == "reduce_mean"@ && es[17].instr == "rmean"@);
    assert(es[18].op == "reduce_max"@ && es[18].instr == "rmax"@);
    assert(es[19].op == "reshape"@ && es[19].instr == "reshape"@);
    assert(es[20].op == "transpose"@ && es[20].instr == "transpose"@);
    assert(es[21].op == "concat"@ && es[21].instr == "concat"@);
    assert(es[22].op == "slice"@ && es[22].instr == "slice"@);
    assert(es[23].op == "pool"@ && es[23].instr == "pool"@);
    assert(es[24].op == "softmax"@ && es[24].instr == "sm"@);
    assert(es[25].op == "layer_norm"@ && es[25].instr == "ln"@);
    assert(es[26].op == "conv"@ && es[26].instr == "conv"@);
    assert(es[27].op == "load"@ && es[27].instr == "load"@);
    assert(es[28].op == "store"@ && es[28].instr == "store"@);
    assert(es[29].op == "const"@ && es[29].instr == "const"@);
    assert(es[30].op == "fused"@ && es[30].instr == "fused"@);
    assert(es[31].op == "custom"@ && es[31].instr == "custom"@);
    first_is_found(es, 0, 0, "add"@);
    first_is_found(es, 0, 1, "sub"@);
    first_is_found(es, 0, 2, "mul"@);
    first_is_found(es, 0, 3, "div"@);
    first_is_found(es, 0, 4, "mma"@);
    first_is_found(es, 0, 5, "relu"@);
    first_is_found(es, 0, 6, "gelu"@);
    first_is_found(es, 0, 7, "sigmoid"@);
    first_is_found(es, 0, 8, "tanh"@);
    first_is_found(es, 0, 9, "sqrt"@);
    first_is_found(es, 0, 10, "rsqrt"@);
    first_is_found(es, 0, 11, "reciprocal"@);
    first_is_found(es, 0, 12, "abs"@);
    first_is_found(es, 0, 13, "log"@);
    first_is_found(es, 0, 14, "exp"@);
    first_is_found(es, 0, 15, "pow"@);
    first_is_found(es, 0, 16, "reduce_sum"@);
    first_is_found(es, 0, 17, "reduce_mean"@);
    first_is_found(es, 0, 18, "reduce_max"@);
    first_is_found(es, 0, 19, "reshape"@);
    first_is_found(es, 0, 20, "transpose"@);
    first_is_found(es, 0, 21, "concat"@);
    first_is_found(es, 0, 22, "slice"@);
    first_is_found(es, 0, 23, "pool"@);
    first_is_found(es, 0, 24, "softmax"@);
    first_is_found(es, 0, 25, "layer_norm"@);
    first_is_found(es, 0, 26, "conv"@);
    first_is_found(es, 0, 27, "load"@);
    first_is_found(es, 0, 28, "store"@);
    first_is_found(es, 0, 29, "const"@);
    first_is_found(es, 0, 30, "fused"@);
    first_is_found(es, 0, 31, "custom"@);
}

/// What every operator is called.
pub proof fn operators_are_called(kind: OpKind)
    ensures
        match kind {
            OpKind::Add => called(kind, "Add"@, 0, "add"@, "fadd"@, "add"@),
            OpKind::Sub => called(kind, "Sub"@, 1, "sub"@, "fsub"@, "sub"@),
            OpKind::Mul => called(kind, "Mul"@, 2, "mul"@, "fmul"@, "mul"@),
            OpKind::Div => called(kind, "Div"@, 3, "div"@, "fdiv"@, "div"@),
            OpKind::MatMul => called(kind, "MatMul"@, 4, "mma"@, "mma"@, "matmul"@),
            OpKind::Relu => called(kind, "Relu"@, 5, "relu"@, "relu"@, "relu"@),
            OpKind::Gelu => called(kind, "Gelu"@, 6, "gelu"@, "gelu"@, "gelu"@),
            OpKind::Sigmoid => called(kind, "Sigmoid"@, 7, "sigmoid"@, "sigm"@, "sigmoid"@),
            OpKind::Tanh => called(kind, "Tanh"@, 8, "tanh"@, "tanh"@, "tanh"@),
            OpKind::Softmax => called(kind, "Softmax"@, 9, "softmax"@, "sm"@, "softmax"@),
            OpKind::LayerNorm => called(kind, "LayerNorm"@, 10, "layer_norm"@, "ln"@, "layernorm"@),
            OpKind::Conv => called(kind, "Conv"@, 11, "conv"@, "conv"@, "conv"@),
            OpKind::Pool => called(kind, "Pool"@, 12, "pool"@, "pool"@, "pool"@),
            OpKind::Reshape => called(kind, "Reshape"@, 13, "reshape"@, "reshape"@, "reshape"@),
            OpKind::Transpose => called(kind, "Transpose"@, 14, "transpose"@, "transpose"@, "transpose"@),
            OpKind::Concat => called(kind, "Concat"@, 15, "concat"@, "concat"@, "concat"@),
            OpKind::Slice => called(kind, "Slice"@, 16, "slice"@, "slice"@, "slice"@),
            OpKind::Constant => called(kind, "Constant"@, 17, "const"@, "const"@, "const"@),
            OpKind::Placeholder => called(kind, "Placeholder"@, 18, "load"@, "load"@, "placeholder"@),
            OpKind::Return => called(kind, "Return"@, 19, "store"@, "store"@, "ret"@),
            OpKind::Sqrt => called(kind, "Sqrt"@, 20, "sqrt"@, "sqrt"@, "sqrt"@),
            OpKind::Exp => called(kind, "Exp"@, 21, "exp"@, "exp"@, "exp"@),
            OpKind::Pow => called(kind, "Pow"@, 22, "pow"@, "pow"@, "pow"@),
            OpKind::ReduceSum => called(kind, "ReduceSum"@, 23, "reduce_sum"@, "rsum"@, "reduce_sum"@),
            OpKind::ReduceMean => called(kind, "ReduceMean"@, 24, "reduce_mean"@, "rmean"@, "reduce_mean"@),
            OpKind::ReduceMax => called(kind, "ReduceMax"@, 25, "reduce_max"@, "rmax"@, "reduce_max"@),
            OpKind::Rsqrt => called(kind, "Rsqrt"@, 26, "rsqrt"@, "rsqrt"@, "rsqrt"@),
            OpKind::Reciprocal => called(kind, "Reciprocal"@, 27, "reciprocal"@, "reciprocal"@, "reciprocal"@),
            OpKind::Abs => called(kind, "Abs"@, 28, "abs"@, "abs"@, "abs"@),
            OpKind::Log => called(kind, "Log"@, 29, "log"@, "log"@, "log"@),
            OpKind::Fused => called(kind, "Fused"@, 30, "fused"@, "fused"@, "fused"@),
            OpKind::Custom => called(kind, "Custom"@, 64, "custom"@, "custom"@, "custom"@),
        },
{
    native_operations_have_instructions();
}

/// Different operators have different numbers, names, native operations,
/// instructions and short names.
pub proof fn operators_differ(a: OpKind, b: OpKind)
    requires
        a != b,
    ensures
        a.tag() != b.tag(),
        a.spelling() != b.spelling(),
        native(a) != native(b),
        default_instruction(native(a)) != default_instruction(native(b)),
        short_name(a) != short_name(b),
{
    native_operations_have_instructions();
    native_told();
    instructions_told();
    spellings_told();
    shorts_told();
}

/// The operators that the ONNX names stand for. Every operator that has an ONNX
/// name of its own is found under the name that the graph shows for it.
pub proof fn onnx_names_stand_for_operators(name: Seq<char>)
    ensures
        op_for("Add"@) == OpKind::Add,
        op_for("Sub"@) == OpKind::Sub,
        op_for("Mul"@) == OpKind::Mul,
        op_for("Div"@) == OpKind::Div,
        op_for("MatMul"@) == OpKind::MatMul,
        op_for("Gemm"@) == OpKind::MatMul,
        op_for("Relu"@) == OpKind::Relu,
        op_for("Gelu"@) == OpKind::Gelu,
        op_for("Sigmoid"@) == OpKind::Sigmoid,
        op_for("Tanh"@) == OpKind::Tanh,
        op_for("Softmax"@) == OpKind::Softmax,
        op_for("LayerNormalization"@) == OpKind::LayerNorm,
        op_for("InstanceNormalization"@) == OpKind::LayerNorm,
        op_for("Conv"@) == OpKind::Conv,
        op_for("MaxPool"@) == OpKind::Pool,
        op_for("AveragePool"@) == OpKind::Pool,
        op_for("GlobalAveragePool"@) == OpKind::Pool,
        op_for("Reshape"@) == OpKind::Reshape,
        op_for("Transpose"@) == OpKind::Transpose,
        op_for("Concat"@) == OpKind::Concat,
        op_for("Slice"@) == OpKind::Slice,
        op_for("Sqrt"@) == OpKind::Sqrt,
        op_for("Exp"@) == OpKind::Exp,
        op_for("Pow"@) == OpKind::Pow,
        op_for("Abs"@) == OpKind::Abs,
        op_for("Log"@) == OpKind::Log,
        op_for("Reciprocal"@) == OpKind::Reciprocal,
        op_for("ReduceSum"@) == OpKind::ReduceSum,
        op_for("ReduceL1"@) == OpKind::ReduceSum,
        op_for("ReduceL2"@) == OpKind::ReduceSum,
        op_for("ReduceMean"@) == OpKind::ReduceMean,
        op_for("ReduceMax"@) == OpKind::ReduceMax,
        op_for(name) != OpKind::Custom ==> onnx_name(name),
{
    onnx_told();
}

/// Whether `name` is one of the ONNX names that are understood.
pub open spec fn onnx_name(name: Seq<char>) -> bool {
    ||| name == "Add"@
    ||| name == "Sub"@
    ||| name == "Mul"@
    ||| name == "Div"@
    ||| name == "MatMul"@
    ||| name == "Gemm"@
    ||| name == "Relu"@
    ||| name == "Gelu"@
    ||| name == "Sigmoid"@
    ||| name == "Tanh"@
    ||| name == "Softmax"@
    ||| name == "LayerNormalization"@
    ||| name == "InstanceNormalization"@
    ||| name == "Conv"@
    ||| name == "MaxPool"@
    ||| name == "AveragePool"@
    ||| name == "GlobalAveragePool"@
    ||| name == "Reshape"@
    ||| name == "Transpose"@
    ||| name == "Concat"@
    ||| name == "Slice"@
    ||| name == "Sqrt"@
    ||| name == "Exp"@
    ||| name == "Pow"@
    ||| name == "Abs"@
    ||| name == "Log"@
    ||| name == "Reciprocal"@
    ||| name == "ReduceSum"@
    ||| name == "ReduceL1"@
    ||| name == "ReduceL2"@
    ||| name == "ReduceMean"@
    ||| name == "ReduceMax"@
}

/// The text form knows an operator by the name that the graph shows for it, in
/// upper and lower case, and `gemm` as a matrix product. The operators that it
/// has no name for are not among them.
pub proof fn text_names_stand_for_operators(kind: OpKind)
    ensures
        dsl_op("gemm"@) == OpKind::MatMul,
        dsl_op(kind.spelling()) == if dsl_name(kind) {
            kind
        } else {
            OpKind::Custom
        },
{
    dsl_told();
    reveal_strlit("gemm");
    assert(lower_case("gemm"@) == "gemm"@);
    match kind {
        OpKind::Add => {
            reveal_strlit("Add");
            reveal_strlit("add");
            assert(lower_case("Add"@) == "add"@);
        },
        OpKind::Sub => {
            reveal_strlit("Sub");
            reveal_strlit("sub");
            assert(lower_case("Sub"@) == "sub"@);
        },
        OpKind::Mul => {
            reveal_strlit("Mul");
            reveal_strlit("mul");
            assert(lower_case("Mul"@) == "mul"@);
        },
        OpKind::Div => {
            reveal_strlit("Div");
            reveal_strlit("div");
            assert(lower_case("Div"@) == "div"@);
        },
        OpKind::MatMul => {
            reveal_strlit("MatMul");
            reveal_strlit("matmul");
            assert(lower_case("MatMul"@) == "matmul"@);
        },
        OpKind::Relu => {
            reveal_strlit("Relu");
            reveal_strlit("relu");
            assert(lower_case("Relu"@) == "relu"@);
        },
        OpKind::Gelu => {
            reveal_strlit("Gelu");
            reveal_strlit("gelu");
            assert(lower_case("Gelu"@) == "gelu"@);
        },
        OpKind::Sigmoid => {
            reveal_strlit("Sigmoid");
            reveal_strlit("sigmoid");
            assert(lower_case("Sigmoid"@) == "sigmoid"@);
        },
        OpKind::Tanh => {
            reveal_strlit("Tanh");
            reveal_strlit("tanh");
            assert(lower_case("Tanh"@) == "tanh"@);
        },
        OpKind::Softmax => {
            reveal_strlit("Softmax");
            reveal_strlit("softmax");
            assert(lower_case("Softmax"@) == "softmax"@);
        },
        OpKind::LayerNorm => {
            reveal_strlit("LayerNorm");
            reveal_strlit("layernorm");
            assert(lower_case("LayerNorm"@) == "layernorm"@);
        },
        OpKind::Conv => {
            reveal_strlit("Conv");
            reveal_strlit("conv");
            assert(lower_case("Conv"@) == "conv"@);
        },
        OpKind::Pool => {
            reveal_strlit("Pool");
            reveal_strlit("pool");
            assert(lower_case("Pool"@) == "pool"@);
        },
        OpKind::Reshape => {
            reveal_strlit("Reshape");
            reveal_strlit("reshape");
            assert(lower_case("Reshape"@) == "reshape"@);
        },
        OpKind::Transpose => {
            reveal_strlit("Transpose");
            reveal_strlit("transpose");
            assert(lower_case("Transpose"@) == "transpose"@);
        },
        OpKind::Concat => {
            reveal_strlit("Concat");
            reveal_strlit("concat");
            assert(lower_case("Concat"@) == "concat"@);
        },
        OpKind::Slice => {
            reveal_strlit("Slice");
            reveal_strlit("slice");
            assert(lower_case("Slice"@) == "slice"@);
        },
        OpKind::Constant => {
            reveal_strlit("Constant");
            reveal_strlit("constant");
            assert(lower_case("Constant"@) == "constant"@);
            assert(told("constant"@) == ('c', 'o', 't', 8nat));
        },
        OpKind::Placeholder => {
            reveal_strlit("Placeholder");
            reveal_strlit("placeholder");
            assert(lower_case("Placeholder"@) == "placeholder"@);
            assert(told("placeholder"@) == ('p', 'l', 'r', 11nat));
        },
        OpKind::Return => {
            reveal_strlit("Return");
            reveal_strlit("return");
            assert(lower_case("Return"@) == "return"@);
            assert(told("return"@) == ('r', 'e', 'n', 6nat));
        },
        OpKind::Sqrt => {
            reveal_strlit("Sqrt");
            reveal_strlit("sqrt");
            assert(lower_case("Sqrt"@) == "sqrt"@);
        },
        OpKind::Exp => {
            reveal_strlit("Exp");
            reveal_strlit("exp");
            assert(lower_case("Exp"@) == "exp"@);
        },
        OpKind::Pow => {
            reveal_strlit("Pow");
            reveal_strlit("pow");
            assert(lower_case("Pow"@) == "pow"@);
        },
        OpKind::ReduceSum => {
            reveal_strlit("ReduceSum");
            reveal_strlit("reducesum");
            assert(lower_case("ReduceSum"@) == "reducesum"@);
        },
        OpKind::ReduceMean => {
            reveal_strlit("ReduceMean");
            reveal_strlit("reducemean");
            assert(lower_case("ReduceMean"@) == "reducemean"@);
        },
        OpKind::ReduceMax => {
            reveal_strlit("ReduceMax");
            reveal_strlit("reducemax");
            assert(lower_case("ReduceMax"@) == "reducemax"@);
        },
        OpKind::Rsqrt => {
            reveal_strlit("Rsqrt");
            reveal_strlit("rsqrt");
            assert(lower_case("Rsqrt"@) == "rsqrt"@);
            assert(told("rsqrt"@) == ('r', 's', 't', 5nat));
        },
        OpKind::Reciprocal => {
            reveal_strlit("Reciprocal");
            reveal_strlit("reciprocal");
            assert(lower_case("Reciprocal"@) == "reciprocal"@);
            assert(told("reciprocal"@) == ('r', 'e', 'l', 10nat));
        },
        OpKind::Abs => {
            reveal_strlit("Abs");
            reveal_strlit("abs");
            assert(lower_case("Abs"@) == "abs"@);
            assert(told("abs"@) == ('a', 'b', 's', 3nat));
        },
        OpKind::Log => {
            reveal_strlit("Log");
            reveal_strlit("log");
            assert(lower_case("Log"@) == "log"@);
            assert(told("log"@) == ('l', 'o', 'g', 3nat));
        },
        OpKind::Fused => {
            reveal_strlit("Fused");
            reveal_strlit("fused");
            assert(lower_case("Fused"@) == "fused"@);
            assert(told("fused"@) == ('f', 'u', 'd', 5nat));
        },
        OpKind::Custom => {
            reveal_strlit("Custom");
            reveal_strlit("custom");
            assert(lower_case("Custom"@) == "custom"@);
            assert(told("custom"@) == ('c', 'u', 'm', 6nat));
        },
    }
}

/// Whether the text form has a name for an operator.
pub open spec fn dsl_name(kind: OpKind) -> bool {
    match kind {
        OpKind::Constant
        | OpKind::Placeholder
        | OpKind::Return
        | OpKind::Rsqrt
        | OpKind::Reciprocal
        | OpKind::Abs
        | OpKind::Log
        | OpKind::Fused
        | OpKind::Custom => false,
        _ => true,
    }
}

} // verus!
