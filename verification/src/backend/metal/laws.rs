//! What Metal kernels say of the kernels they are made for.

use vstd::prelude::*;
use crate::backend::dialect::{at_least_two, chain, contains, joined, named_or_unknown};
use crate::backend::filling::{
    are_tokens, is_fenced, is_plain, is_token, numbers_are_plain, put_all, types_are_plain,
    value_is_put, word,
};
use crate::backend::spec::{DTypeExt, GpuArch, KernelModel};
use crate::base::OpKind;
use crate::text::dec;
use super::{
    concat_kernel_text, constant_kernel_text, conv_kernel_text, custom_kernel_text,
    elem_binary_text, elem_unary_text, fused_kernel_text, kernel_text, layernorm_kernel_text,
    matmul_kernel_text, matmul_note, placeholder_kernel_text, pool_kernel_text,
    reduce_kernel_text, reshape_kernel_text, return_kernel_text, slice_kernel_text,
    softmax_kernel_text, transpose_kernel_text,
};
use super::templates::{
    concat_holds_slots, concat_template, constant_holds_slots, constant_template,
    conv_holds_slots, conv_template, custom_holds_slots, custom_template, elem_binary_holds_slots,
    elem_binary_template, elem_unary_holds_slots, elem_unary_template, fused_holds_slots,
    fused_template, layernorm_holds_slots, layernorm_template, matmul_holds_slots,
    matmul_template, placeholder_holds_slots, placeholder_template, pool_holds_slots,
    pool_template, reduce_holds_slots, reduce_template, reshape_holds_slots, reshape_template,
    return_holds_slots, return_template, slice_holds_slots, slice_template, softmax_holds_slots,
    softmax_template, transpose_holds_slots, transpose_template,
};

verus! {

/// The texts that are replaced in templates are tokens, and differ.
pub(crate) proof fn tokens_differ()
    ensures
        is_token("__NAME__"@),
        word("__NAME__"@) == ('N', 'A', 'E', 8nat),
        is_token("__T__"@),
        word("__T__"@) == ('T', '_', 'T', 5nat),
        is_token("__BODY__"@),
        word("__BODY__"@) == ('B', 'O', 'Y', 8nat),
        is_token("__EXPR__"@),
        word("__EXPR__"@) == ('E', 'X', 'R', 8nat),
        is_token("__IDENT__"@),
        word("__IDENT__"@) == ('I', 'D', 'T', 9nat),
        is_token("__COMBINE__"@),
        word("__COMBINE__"@) == ('C', 'O', 'E', 11nat),
        is_token("__FINALIZE__"@),
        word("__FINALIZE__"@) == ('F', 'I', 'E', 12nat),
        is_token("__ARCH_NOTE__"@),
        word("__ARCH_NOTE__"@) == ('A', 'R', 'E', 13nat),
        is_token("__EPS__"@),
        word("__EPS__"@) == ('E', 'P', 'S', 7nat),
        is_token("__N_INPUTS__"@),
        word("__N_INPUTS__"@) == ('N', '_', 'S', 12nat),
        is_token("__VAL__"@),
        word("__VAL__"@) == ('V', 'A', 'L', 7nat),
        is_token("__OPS__"@),
        word("__OPS__"@) == ('O', 'P', 'S', 7nat),
        is_token("__OP_TYPE__"@),
        word("__OP_TYPE__"@) == ('O', 'P', 'E', 11nat),
{
    reveal_strlit("__NAME__");
    reveal_strlit("__T__");
    reveal_strlit("__BODY__");
    reveal_strlit("__EXPR__");
    reveal_strlit("__IDENT__");
    reveal_strlit("__COMBINE__");
    reveal_strlit("__FINALIZE__");
    reveal_strlit("__ARCH_NOTE__");
    reveal_strlit("__EPS__");
    reveal_strlit("__N_INPUTS__");
    reveal_strlit("__VAL__");
    reveal_strlit("__OPS__");
    reveal_strlit("__OP_TYPE__");
}

/// The texts around tokens are plain, and no token can begin or end in them.
pub(crate) proof fn surroundings_are_plain()
    ensures
        is_plain(": Custom op（原始 op_type = "@),
        is_fenced(": Custom op（原始 op_type = "@),
        is_plain("）"@),
        is_fenced("）"@),
        is_plain("kernel void "@),
        is_fenced("kernel void "@),
        is_plain("("@),
        is_fenced("("@),
        is_plain("device const "@),
        is_fenced("device const "@),
        is_plain("*"@),
        is_fenced("*"@),
        is_plain(": Fused（融合算子链: "@),
        is_fenced(": Fused（融合算子链: "@),
        is_plain("// 注: 默认 value = "@),
        is_fenced("// 注: 默认 value = "@),
        is_plain("（"@),
        is_fenced("（"@),
        is_plain("device "@),
        is_fenced("device "@),
        is_plain("// 注: 通用版支持 "@),
        is_fenced("// 注: 通用版支持 "@),
        is_plain(" "@),
        is_fenced(" "@),
        is_plain("float inv_std = rsqrt(var + "@),
        is_fenced("float inv_std = rsqrt(var + "@),
        is_plain(")"@),
        is_fenced(")"@),
{
    reveal_strlit(": Custom op（原始 op_type = ");
    reveal_strlit("）");
    reveal_strlit("kernel void ");
    reveal_strlit("(");
    reveal_strlit("device const ");
    reveal_strlit("*");
    reveal_strlit(": Fused（融合算子链: ");
    reveal_strlit("// 注: 默认 value = ");
    reveal_strlit("（");
    reveal_strlit("device ");
    reveal_strlit("// 注: 通用版支持 ");
    reveal_strlit(" ");
    reveal_strlit("float inv_std = rsqrt(var + ");
    reveal_strlit(")");
}

/// What the template of these kernels says once it is filled.
proof fn elem_binary_says(k: KernelModel, body: Seq<char>)
    ensures
        is_plain(k.name) ==> contains(
            elem_binary_text(k, body),
            "kernel void "@ + k.name + "("@,
        ),
        contains(
            elem_binary_text(k, body),
            "device const "@ + k.dtype.msl_text() + "*"@,
        ),
{
    tokens_differ();
    surroundings_are_plain();
    types_are_plain(k.dtype);
    let puts = seq![
        ("__NAME__"@, k.name),
        ("__T__"@, k.dtype.msl_text()),
        ("__BODY__"@, body),
    ];
    let t = elem_binary_template();
    reveal_with_fuel(put_all, 4);
    assert(puts.take(3).drop_last() == puts.take(2));
    assert(puts.take(2).drop_last() == puts.take(1));
    assert(puts.take(1).drop_last() == puts.take(0));
    assert(puts.take(3) == puts);
    assert(put_all(t, puts) == elem_binary_text(k, body));
    assert(are_tokens(puts));
    elem_binary_holds_slots();
    if is_plain(k.name) {
        value_is_put(t, puts, 3, 0, "kernel void "@, "("@);
    }
    value_is_put(t, puts, 3, 1, "device const "@, "*"@);
}

/// What the template of these kernels says once it is filled.
proof fn elem_unary_says(k: KernelModel, expr: Seq<char>)
    ensures
        is_plain(k.name) ==> contains(
            elem_unary_text(k, expr),
            "kernel void "@ + k.name + "("@,
        ),
        contains(
            elem_unary_text(k, expr),
            "device const "@ + k.dtype.msl_text() + "*"@,
        ),
{
    tokens_differ();
    surroundings_are_plain();
    types_are_plain(k.dtype);
    let puts = seq![
        ("__NAME__"@, k.name),
        ("__T__"@, k.dtype.msl_text()),
        ("__EXPR__"@, expr),
    ];
    let t = elem_unary_template();
    reveal_with_fuel(put_all, 4);
    assert(puts.take(3).drop_last() == puts.take(2));
    assert(puts.take(2).drop_last() == puts.take(1));
    assert(puts.take(1).drop_last() == puts.take(0));
    assert(puts.take(3) == puts);
    assert(put_all(t, puts) == elem_unary_text(k, expr));
    assert(are_tokens(puts));
    elem_unary_holds_slots();
    if is_plain(k.name) {
        value_is_put(t, puts, 3, 0, "kernel void "@, "("@);
    }
    value_is_put(t, puts, 3, 1, "device const "@, "*"@);
}

/// What the template of these kernels says once it is filled.
proof fn reduce_kernel_says(k: KernelModel, identity: Seq<char>, combine: Seq<char>, finalize: Seq<char>)
    ensures
        is_plain(k.name) ==> contains(
            reduce_kernel_text(k, identity, combine, finalize),
            "kernel void "@ + k.name + "("@,
        ),
        contains(
            reduce_kernel_text(k, identity, combine, finalize),
            "device const "@ + k.dtype.msl_text() + "*"@,
        ),
{
    tokens_differ();
    surroundings_are_plain();
    types_are_plain(k.dtype);
    let puts = seq![
        ("__NAME__"@, k.name),
        ("__T__"@, k.dtype.msl_text()),
        ("__IDENT__"@, identity),
        ("__COMBINE__"@, combine),
        ("__FINALIZE__"@, finalize),
    ];
    let t = reduce_template();
    reveal_with_fuel(put_all, 6);
    assert(puts.take(5).drop_last() == puts.take(4));
    assert(puts.take(4).drop_last() == puts.take(3));
    assert(puts.take(3).drop_last() == puts.take(2));
    assert(puts.take(2).drop_last() == puts.take(1));
    assert(puts.take(1).drop_last() == puts.take(0));
    assert(puts.take(5) == puts);
    assert(put_all(t, puts) == reduce_kernel_text(k, identity, combine, finalize));
    assert(are_tokens(puts));
    reduce_holds_slots();
    if is_plain(k.name) {
        value_is_put(t, puts, 5, 0, "kernel void "@, "("@);
    }
    value_is_put(t, puts, 5, 1, "device const "@, "*"@);
}

/// What the template of these kernels says once it is filled.
proof fn matmul_kernel_says(k: KernelModel, arch: GpuArch)
    ensures
        is_plain(k.name) ==> contains(
            matmul_kernel_text(k, arch),
            "kernel void "@ + k.name + "("@,
        ),
{
    tokens_differ();
    surroundings_are_plain();
    let puts = seq![
        ("__NAME__"@, k.name),
        ("__ARCH_NOTE__"@, matmul_note(arch)),
    ];
    let t = matmul_template();
    reveal_with_fuel(put_all, 3);
    assert(puts.take(2).drop_last() == puts.take(1));
    assert(puts.take(1).drop_last() == puts.take(0));
    assert(puts.take(2) == puts);
    assert(put_all(t, puts) == matmul_kernel_text(k, arch));
    assert(are_tokens(puts));
    matmul_holds_slots();
    if is_plain(k.name) {
        value_is_put(t, puts, 2, 0, "kernel void "@, "("@);
    }
}

/// What the template of these kernels says once it is filled.
proof fn softmax_kernel_says(k: KernelModel)
    ensures
        is_plain(k.name) ==> contains(
            softmax_kernel_text(k),
            "kernel void "@ + k.name + "("@,
        ),
{
    tokens_differ();
    surroundings_are_plain();
    let puts = seq![
        ("__NAME__"@, k.name),
    ];
    let t = softmax_template();
    reveal_with_fuel(put_all, 2);
    assert(puts.take(1).drop_last() == puts.take(0));
    assert(puts.take(1) == puts);
    assert(put_all(t, puts) == softmax_kernel_text(k));
    assert(are_tokens(puts));
    softmax_holds_slots();
    if is_plain(k.name) {
        value_is_put(t, puts, 1, 0, "kernel void "@, "("@);
    }
}

/// What the template of these kernels says once it is filled.
proof fn layernorm_kernel_says(k: KernelModel, epsilon: Seq<char>)
    ensures
        is_plain(k.name) ==> contains(
            layernorm_kernel_text(k, epsilon),
            "kernel void "@ + k.name + "("@,
        ),
        is_plain(epsilon) ==> contains(
            layernorm_kernel_text(k, epsilon),
            "float inv_std = rsqrt(var + "@ + epsilon + ")"@,
        ),
{
    tokens_differ();
    surroundings_are_plain();
    let puts = seq![
        ("__NAME__"@, k.name),
        ("__EPS__"@, epsilon),
    ];
    let t = layernorm_template();
    reveal_with_fuel(put_all, 3);
    assert(puts.take(2).drop_last() == puts.take(1));
    assert(puts.take(1).drop_last() == puts.take(0));
    assert(puts.take(2) == puts);
    assert(put_all(t, puts) == layernorm_kernel_text(k, epsilon));
    assert(are_tokens(puts));
    layernorm_holds_slots();
    if is_plain(k.name) {
        value_is_put(t, puts, 2, 0, "kernel void "@, "("@);
    }
    if is_plain(epsilon) {
        value_is_put(t, puts, 2, 1, "float inv_std = rsqrt(var + "@, ")"@);
    }
}

/// What the template of these kernels says once it is filled.
proof fn conv_kernel_says(k: KernelModel)
    ensures
        is_plain(k.name) ==> contains(
            conv_kernel_text(k),
            "kernel void "@ + k.name + "("@,
        ),
{
    tokens_differ();
    surroundings_are_plain();
    let puts = seq![
        ("__NAME__"@, k.name),
    ];
    let t = conv_template();
    reveal_with_fuel(put_all, 2);
    assert(puts.take(1).drop_last() == puts.take(0));
    assert(puts.take(1) == puts);
    assert(put_all(t, puts) == conv_kernel_text(k));
    assert(are_tokens(puts));
    conv_holds_slots();
    if is_plain(k.name) {
        value_is_put(t, puts, 1, 0, "kernel void "@, "("@);
    }
}

/// What the template of these kernels says once it is filled.
proof fn pool_kernel_says(k: KernelModel)
    ensures
        is_plain(k.name) ==> contains(
            pool_kernel_text(k),
            "kernel void "@ + k.name + "("@,
        ),
{
    tokens_differ();
    surroundings_are_plain();
    let puts = seq![
        ("__NAME__"@, k.name),
    ];
    let t = pool_template();
    reveal_with_fuel(put_all, 2);
    assert(puts.take(1).drop_last() == puts.take(0));
    assert(puts.take(1) == puts);
    assert(put_all(t, puts) == pool_kernel_text(k));
    assert(are_tokens(puts));
    pool_holds_slots();
    if is_plain(k.name) {
        value_is_put(t, puts, 1, 0, "kernel void "@, "("@);
    }
}

/// What the template of these kernels says once it is filled.
proof fn reshape_kernel_says(k: KernelModel)
    ensures
        is_plain(k.name) ==> contains(
            reshape_kernel_text(k),
            "kernel void "@ + k.name + "("@,
        ),
        contains(
            reshape_kernel_text(k),
            "device const "@ + k.dtype.msl_text() + "*"@,
        ),
{
    tokens_differ();
    surroundings_are_plain();
    types_are_plain(k.dtype);
    let puts = seq![
        ("__NAME__"@, k.name),
        ("__T__"@, k.dtype.msl_text()),
    ];
    let t = reshape_template();
    reveal_with_fuel(put_all, 3);
    assert(puts.take(2).drop_last() == puts.take(1));
    assert(puts.take(1).drop_last() == puts.take(0));
    assert(puts.take(2) == puts);
    assert(put_all(t, puts) == reshape_kernel_text(k));
    assert(are_tokens(puts));
    reshape_holds_slots();
    if is_plain(k.name) {
        value_is_put(t, puts, 2, 0, "kernel void "@, "("@);
    }
    value_is_put(t, puts, 2, 1, "device const "@, "*"@);
}

/// What the template of these kernels says once it is filled.
proof fn transpose_kernel_says(k: KernelModel)
    ensures
        is_plain(k.name) ==> contains(
            transpose_kernel_text(k),
            "kernel void "@ + k.name + "("@,
        ),
        contains(
            transpose_kernel_text(k),
            "device const "@ + k.dtype.msl_text() + "*"@,
        ),
{
    tokens_differ();
    surroundings_are_plain();
    types_are_plain(k.dtype);
    let puts = seq![
        ("__NAME__"@, k.name),
        ("__T__"@, k.dtype.msl_text()),
    ];
    let t = transpose_template();
    reveal_with_fuel(put_all, 3);
    assert(puts.take(2).drop_last() == puts.take(1));
    assert(puts.take(1).drop_last() == puts.take(0));
    assert(puts.take(2) == puts);
    assert(put_all(t, puts) == transpose_kernel_text(k));
    assert(are_tokens(puts));
    transpose_holds_slots();
    if is_plain(k.name) {
        value_is_put(t, puts, 2, 0, "kernel void "@, "("@);
    }
    value_is_put(t, puts, 2, 1, "device const "@, "*"@);
}

/// What the template of these kernels says once it is filled.
proof fn concat_kernel_says(k: KernelModel)
    ensures
        contains(
            concat_kernel_text(k),
            "// 注: 通用版支持 "@ + dec(if k.inputs.len() > 2 {
                k.inputs.len()
            } else {
                2
            }) + " "@,
        ),
        is_plain(k.name) ==> contains(
            concat_kernel_text(k),
            "kernel void "@ + k.name + "("@,
        ),
        contains(
            concat_kernel_text(k),
            "device const "@ + k.dtype.msl_text() + "*"@,
        ),
{
    tokens_differ();
    surroundings_are_plain();
    numbers_are_plain(at_least_two(k.inputs.len()) as int);
    types_are_plain(k.dtype);
    let puts = seq![
        ("__NAME__"@, k.name),
        ("__T__"@, k.dtype.msl_text()),
        ("__N_INPUTS__"@, dec(at_least_two(k.inputs.len()))),
    ];
    let t = concat_template();
    reveal_with_fuel(put_all, 4);
    assert(puts.take(3).drop_last() == puts.take(2));
    assert(puts.take(2).drop_last() == puts.take(1));
    assert(puts.take(1).drop_last() == puts.take(0));
    assert(puts.take(3) == puts);
    assert(put_all(t, puts) == concat_kernel_text(k));
    assert(are_tokens(puts));
    concat_holds_slots();
    value_is_put(t, puts, 3, 2, "// 注: 通用版支持 "@, " "@);
    if is_plain(k.name) {
        value_is_put(t, puts, 3, 0, "kernel void "@, "("@);
    }
    value_is_put(t, puts, 3, 1, "device const "@, "*"@);
}

/// What the template of these kernels says once it is filled.
proof fn slice_kernel_says(k: KernelModel)
    ensures
        is_plain(k.name) ==> contains(
            slice_kernel_text(k),
            "kernel void "@ + k.name + "("@,
        ),
        contains(
            slice_kernel_text(k),
            "device const "@ + k.dtype.msl_text() + "*"@,
        ),
{
    tokens_differ();
    surroundings_are_plain();
    types_are_plain(k.dtype);
    let puts = seq![
        ("__NAME__"@, k.name),
        ("__T__"@, k.dtype.msl_text()),
    ];
    let t = slice_template();
    reveal_with_fuel(put_all, 3);
    assert(puts.take(2).drop_last() == puts.take(1));
    assert(puts.take(1).drop_last() == puts.take(0));
    assert(puts.take(2) == puts);
    assert(put_all(t, puts) == slice_kernel_text(k));
    assert(are_tokens(puts));
    slice_holds_slots();
    if is_plain(k.name) {
        value_is_put(t, puts, 2, 0, "kernel void "@, "("@);
    }
    value_is_put(t, puts, 2, 1, "device const "@, "*"@);
}

/// What the template of these kernels says once it is filled.
proof fn constant_kernel_says(k: KernelModel, value: Seq<char>)
    ensures
        is_plain(value) ==> contains(
            constant_kernel_text(k, value),
            "// 注: 默认 value = "@ + value + "（"@,
        ),
        is_plain(k.name) ==> contains(
            constant_kernel_text(k, value),
            "kernel void "@ + k.name + "("@,
        ),
        contains(
            constant_kernel_text(k, value),
            "device "@ + k.dtype.msl_text() + "*"@,
        ),
{
    tokens_differ();
    surroundings_are_plain();
    types_are_plain(k.dtype);
    let puts = seq![
        ("__NAME__"@, k.name),
        ("__T__"@, k.dtype.msl_text()),
        ("__VAL__"@, value),
    ];
    let t = constant_template();
    reveal_with_fuel(put_all, 4);
    assert(puts.take(3).drop_last() == puts.take(2));
    assert(puts.take(2).drop_last() == puts.take(1));
    assert(puts.take(1).drop_last() == puts.take(0));
    assert(puts.take(3) == puts);
    assert(put_all(t, puts) == constant_kernel_text(k, value));
    assert(are_tokens(puts));
    constant_holds_slots();
    if is_plain(value) {
        value_is_put(t, puts, 3, 2, "// 注: 默认 value = "@, "（"@);
    }
    if is_plain(k.name) {
        value_is_put(t, puts, 3, 0, "kernel void "@, "("@);
    }
    value_is_put(t, puts, 3, 1, "device "@, "*"@);
}

/// What the template of these kernels says once it is filled.
proof fn placeholder_kernel_says(k: KernelModel)
    ensures
        is_plain(k.name) ==> contains(
            placeholder_kernel_text(k),
            "kernel void "@ + k.name + "("@,
        ),
        contains(
            placeholder_kernel_text(k),
            "device const "@ + k.dtype.msl_text() + "*"@,
        ),
{
    tokens_differ();
    surroundings_are_plain();
    types_are_plain(k.dtype);
    let puts = seq![
        ("__NAME__"@, k.name),
        ("__T__"@, k.dtype.msl_text()),
    ];
    let t = placeholder_template();
    reveal_with_fuel(put_all, 3);
    assert(puts.take(2).drop_last() == puts.take(1));
    assert(puts.take(1).drop_last() == puts.take(0));
    assert(puts.take(2) == puts);
    assert(put_all(t, puts) == placeholder_kernel_text(k));
    assert(are_tokens(puts));
    placeholder_holds_slots();
    if is_plain(k.name) {
        value_is_put(t, puts, 2, 0, "kernel void "@, "("@);
    }
    value_is_put(t, puts, 2, 1, "device const "@, "*"@);
}

/// What the template of these kernels says once it is filled.
proof fn return_kernel_says(k: KernelModel)
    ensures
        is_plain(k.name) ==> contains(
            return_kernel_text(k),
            "kernel void "@ + k.name + "("@,
        ),
        contains(
            return_kernel_text(k),
            "device const "@ + k.dtype.msl_text() + "*"@,
        ),
{
    tokens_differ();
    surroundings_are_plain();
    types_are_plain(k.dtype);
    let puts = seq![
        ("__NAME__"@, k.name),
        ("__T__"@, k.dtype.msl_text()),
    ];
    let t = return_template();
    reveal_with_fuel(put_all, 3);
    assert(puts.take(2).drop_last() == puts.take(1));
    assert(puts.take(1).drop_last() == puts.take(0));
    assert(puts.take(2) == puts);
    assert(put_all(t, puts) == return_kernel_text(k));
    assert(are_tokens(puts));
    return_holds_slots();
    if is_plain(k.name) {
        value_is_put(t, puts, 2, 0, "kernel void "@, "("@);
    }
    value_is_put(t, puts, 2, 1, "device const "@, "*"@);
}

/// What the template of these kernels says once it is filled.
proof fn fused_kernel_says(k: KernelModel)
    ensures
        is_plain(chain(k.attrs.fused_ops)) ==> contains(
            fused_kernel_text(k),
            ": Fused（融合算子链: "@ + (if k.attrs.fused_ops.len() > 0 {
                joined(k.attrs.fused_ops, " -> "@)
            } else {
                "mul -> add -> relu"@
            }) + "）"@,
        ),
        is_plain(k.name) ==> contains(
            fused_kernel_text(k),
            "kernel void "@ + k.name + "("@,
        ),
        contains(
            fused_kernel_text(k),
            "device const "@ + k.dtype.msl_text() + "*"@,
        ),
{
    tokens_differ();
    surroundings_are_plain();
    types_are_plain(k.dtype);
    let puts = seq![
        ("__NAME__"@, k.name),
        ("__T__"@, k.dtype.msl_text()),
        ("__OPS__"@, chain(k.attrs.fused_ops)),
    ];
    let t = fused_template();
    reveal_with_fuel(put_all, 4);
    assert(puts.take(3).drop_last() == puts.take(2));
    assert(puts.take(2).drop_last() == puts.take(1));
    assert(puts.take(1).drop_last() == puts.take(0));
    assert(puts.take(3) == puts);
    assert(put_all(t, puts) == fused_kernel_text(k));
    assert(are_tokens(puts));
    fused_holds_slots();
    if is_plain(chain(k.attrs.fused_ops)) {
        value_is_put(t, puts, 3, 2, ": Fused（融合算子链: "@, "）"@);
    }
    if is_plain(k.name) {
        value_is_put(t, puts, 3, 0, "kernel void "@, "("@);
    }
    value_is_put(t, puts, 3, 1, "device const "@, "*"@);
}

/// What the template of these kernels says once it is filled.
proof fn custom_kernel_says(k: KernelModel)
    ensures
        is_plain(named_or_unknown(k.attrs.custom_op_type)) ==> contains(
            custom_kernel_text(k),
            ": Custom op（原始 op_type = "@ + (if k.attrs.custom_op_type.len() > 0 {
                k.attrs.custom_op_type
            } else {
                "unknown"@
            }) + "）"@,
        ),
        is_plain(k.name) ==> contains(
            custom_kernel_text(k),
            "kernel void "@ + k.name + "("@,
        ),
        contains(
            custom_kernel_text(k),
            "device const "@ + k.dtype.msl_text() + "*"@,
        ),
{
    tokens_differ();
    surroundings_are_plain();
    types_are_plain(k.dtype);
    let puts = seq![
        ("__NAME__"@, k.name),
        ("__T__"@, k.dtype.msl_text()),
        ("__OP_TYPE__"@, named_or_unknown(k.attrs.custom_op_type)),
    ];
    let t = custom_template();
    reveal_with_fuel(put_all, 4);
    assert(puts.take(3).drop_last() == puts.take(2));
    assert(puts.take(2).drop_last() == puts.take(1));
    assert(puts.take(1).drop_last() == puts.take(0));
    assert(puts.take(3) == puts);
    assert(put_all(t, puts) == custom_kernel_text(k));
    assert(are_tokens(puts));
    custom_holds_slots();
    if is_plain(named_or_unknown(k.attrs.custom_op_type)) {
        value_is_put(t, puts, 3, 2, ": Custom op（原始 op_type = "@, "）"@);
    }
    if is_plain(k.name) {
        value_is_put(t, puts, 3, 0, "kernel void "@, "("@);
    }
    value_is_put(t, puts, 3, 1, "device const "@, "*"@);
}

/// The source of a kernel for Add, Sub, Mul, Div or Pow holds its name and its
/// element type, each in its place.
pub proof fn elem_binary_source_says(k: KernelModel, scalar: Seq<char>, arch: GpuArch)
    requires
        k.op == OpKind::Add || k.op == OpKind::Sub || k.op == OpKind::Mul || k.op == OpKind::Div || k.op == OpKind::Pow,
    ensures
        is_plain(k.name) ==> contains(
            kernel_text(k, scalar, arch),
            "kernel void "@ + k.name + "("@,
        ),
        contains(
            kernel_text(k, scalar, arch),
            "device const "@ + k.dtype.msl_text() + "*"@,
        ),
{
    match k.op {
        OpKind::Add => elem_binary_says(k, "c[tid] = a[tid] + b[tid];"@),
        OpKind::Sub => elem_binary_says(k, "c[tid] = a[tid] - b[tid];"@),
        OpKind::Mul => elem_binary_says(k, "c[tid] = a[tid] * b[tid];"@),
        OpKind::Div => elem_binary_says(k, "c[tid] = a[tid] / b[tid];"@),
        OpKind::Pow => elem_binary_says(k, "c[tid] = pow(a[tid], b[tid]);"@),
        _ => {},
    }
}

/// The source of a kernel for Relu, Gelu, Sigmoid, Tanh, Sqrt, Exp, Log, Rsqrt,
/// Reciprocal or Abs holds its name and its element type, each in its place.
pub proof fn elem_unary_source_says(k: KernelModel, scalar: Seq<char>, arch: GpuArch)
    requires
        k.op == OpKind::Relu || k.op == OpKind::Gelu || k.op == OpKind::Sigmoid || k.op == OpKind::Tanh || k.op == OpKind::Sqrt || k.op == OpKind::Exp || k.op == OpKind::Log || k.op == OpKind::Rsqrt || k.op == OpKind::Reciprocal || k.op == OpKind::Abs,
    ensures
        is_plain(k.name) ==> contains(
            kernel_text(k, scalar, arch),
            "kernel void "@ + k.name + "("@,
        ),
        contains(
            kernel_text(k, scalar, arch),
            "device const "@ + k.dtype.msl_text() + "*"@,
        ),
{
    match k.op {
        OpKind::Relu => elem_unary_says(k, "max(x, 0.0f)"@),
        OpKind::Gelu => elem_unary_says(k,
            "0.5f * x * (1.0f + tanh(0.7978845608f * (x + 0.044715f * x*x*x)))"@),
        OpKind::Sigmoid => elem_unary_says(k, "1.0f / (1.0f + exp(-x))"@),
        OpKind::Tanh => elem_unary_says(k, "tanh(x)"@),
        OpKind::Sqrt => elem_unary_says(k, "sqrt(x)"@),
        OpKind::Exp => elem_unary_says(k, "exp(x)"@),
        OpKind::Log => elem_unary_says(k, "log(x)"@),
        OpKind::Rsqrt => elem_unary_says(k, "rsqrt(x)"@),
        OpKind::Reciprocal => elem_unary_says(k, "1.0f / x"@),
        OpKind::Abs => elem_unary_says(k, "abs(x)"@),
        _ => {},
    }
}

/// The source of a kernel for ReduceSum, ReduceMean or ReduceMax holds its name
/// and its element type, each in its place.
pub proof fn reduce_source_says(k: KernelModel, scalar: Seq<char>, arch: GpuArch)
    requires
        k.op == OpKind::ReduceSum || k.op == OpKind::ReduceMean || k.op == OpKind::ReduceMax,
    ensures
        is_plain(k.name) ==> contains(
            kernel_text(k, scalar, arch),
            "kernel void "@ + k.name + "("@,
        ),
        contains(
            kernel_text(k, scalar, arch),
            "device const "@ + k.dtype.msl_text() + "*"@,
        ),
{
    match k.op {
        OpKind::ReduceSum => reduce_kernel_says(k,
            "0.0f"@,
            "shared[tid] = shared[tid] + shared[tid + s];"@,
            "if (tid == 0) output[bid] = shared[0];\n"@),
        OpKind::ReduceMean => reduce_kernel_says(k,
            "0.0f"@,
            "shared[tid] = shared[tid] + shared[tid + s];"@,
            "if (tid == 0) output[bid] = shared[0] / (float)N;\n"@),
        OpKind::ReduceMax => reduce_kernel_says(k,
            "-INFINITY"@,
            "shared[tid] = max(shared[tid], shared[tid + s]);"@,
            "if (tid == 0) output[bid] = shared[0];\n"@),
        _ => {},
    }
}

/// The source of a kernel for MatMul holds its name in its place.
pub proof fn matmul_source_says(k: KernelModel, scalar: Seq<char>, arch: GpuArch)
    requires
        k.op == OpKind::MatMul,
    ensures
        is_plain(k.name) ==> contains(
            kernel_text(k, scalar, arch),
            "kernel void "@ + k.name + "("@,
        ),
{
    matmul_kernel_says(k, arch);
}

/// The source of a kernel for Softmax holds its name in its place.
pub proof fn softmax_source_says(k: KernelModel, scalar: Seq<char>, arch: GpuArch)
    requires
        k.op == OpKind::Softmax,
    ensures
        is_plain(k.name) ==> contains(
            kernel_text(k, scalar, arch),
            "kernel void "@ + k.name + "("@,
        ),
{
    softmax_kernel_says(k);
}

/// The source of a kernel for LayerNorm holds its name and its epsilon, each in
/// its place.
pub proof fn layernorm_source_says(k: KernelModel, scalar: Seq<char>, arch: GpuArch)
    requires
        k.op == OpKind::LayerNorm,
    ensures
        is_plain(k.name) ==> contains(
            kernel_text(k, scalar, arch),
            "kernel void "@ + k.name + "("@,
        ),
        is_plain(scalar) ==> contains(
            kernel_text(k, scalar, arch),
            "float inv_std = rsqrt(var + "@ + scalar + ")"@,
        ),
{
    layernorm_kernel_says(k, scalar);
}

/// The source of a kernel for Conv holds its name in its place.
pub proof fn conv_source_says(k: KernelModel, scalar: Seq<char>, arch: GpuArch)
    requires
        k.op == OpKind::Conv,
    ensures
        is_plain(k.name) ==> contains(
            kernel_text(k, scalar, arch),
            "kernel void "@ + k.name + "("@,
        ),
{
    conv_kernel_says(k);
}

/// The source of a kernel for Pool holds its name in its place.
pub proof fn pool_source_says(k: KernelModel, scalar: Seq<char>, arch: GpuArch)
    requires
        k.op == OpKind::Pool,
    ensures
        is_plain(k.name) ==> contains(
            kernel_text(k, scalar, arch),
            "kernel void "@ + k.name + "("@,
        ),
{
    pool_kernel_says(k);
}

/// The source of a kernel for Reshape holds its name and its element type, each
/// in its place.
pub proof fn reshape_source_says(k: KernelModel, scalar: Seq<char>, arch: GpuArch)
    requires
        k.op == OpKind::Reshape,
    ensures
        is_plain(k.name) ==> contains(
            kernel_text(k, scalar, arch),
            "kernel void "@ + k.name + "("@,
        ),
        contains(
            kernel_text(k, scalar, arch),
            "device const "@ + k.dtype.msl_text() + "*"@,
        ),
{
    reshape_kernel_says(k);
}

/// The source of a kernel for Transpose holds its name and its element type,
/// each in its place.
pub proof fn transpose_source_says(k: KernelModel, scalar: Seq<char>, arch: GpuArch)
    requires
        k.op == OpKind::Transpose,
    ensures
        is_plain(k.name) ==> contains(
            kernel_text(k, scalar, arch),
            "kernel void "@ + k.name + "("@,
        ),
        contains(
            kernel_text(k, scalar, arch),
            "device const "@ + k.dtype.msl_text() + "*"@,
        ),
{
    transpose_kernel_says(k);
}

/// The source of a kernel for Concat holds how many inputs it has, at least
/// two, its name and its element type, each in its place.
pub proof fn concat_source_says(k: KernelModel, scalar: Seq<char>, arch: GpuArch)
    requires
        k.op == OpKind::Concat,
    ensures
        contains(
            kernel_text(k, scalar, arch),
            "// 注: 通用版支持 "@ + dec(if k.inputs.len() > 2 {
                k.inputs.len()
            } else {
                2
            }) + " "@,
        ),
        is_plain(k.name) ==> contains(
            kernel_text(k, scalar, arch),
            "kernel void "@ + k.name + "("@,
        ),
        contains(
            kernel_text(k, scalar, arch),
            "device const "@ + k.dtype.msl_text() + "*"@,
        ),
{
    concat_kernel_says(k);
}

/// The source of a kernel for Slice holds its name and its element type, each
/// in its place.
pub proof fn slice_source_says(k: KernelModel, scalar: Seq<char>, arch: GpuArch)
    requires
        k.op == OpKind::Slice,
    ensures
        is_plain(k.name) ==> contains(
            kernel_text(k, scalar, arch),
            "kernel void "@ + k.name + "("@,
        ),
        contains(
            kernel_text(k, scalar, arch),
            "device const "@ + k.dtype.msl_text() + "*"@,
        ),
{
    slice_kernel_says(k);
}

/// The source of a kernel for Constant holds its value, its name and its
/// element type, each in its place.
pub proof fn constant_source_says(k: KernelModel, scalar: Seq<char>, arch: GpuArch)
    requires
        k.op == OpKind::Constant,
    ensures
        is_plain(scalar) ==> contains(
            kernel_text(k, scalar, arch),
            "// 注: 默认 value = "@ + scalar + "（"@,
        ),
        is_plain(k.name) ==> contains(
            kernel_text(k, scalar, arch),
            "kernel void "@ + k.name + "("@,
        ),
        contains(
            kernel_text(k, scalar, arch),
            "device "@ + k.dtype.msl_text() + "*"@,
        ),
{
    constant_kernel_says(k, scalar);
}

/// The source of a kernel for Placeholder holds its name and its element type,
/// each in its place.
pub proof fn placeholder_source_says(k: KernelModel, scalar: Seq<char>, arch: GpuArch)
    requires
        k.op == OpKind::Placeholder,
    ensures
        is_plain(k.name) ==> contains(
            kernel_text(k, scalar, arch),
            "kernel void "@ + k.name + "("@,
        ),
        contains(
            kernel_text(k, scalar, arch),
            "device const "@ + k.dtype.msl_text() + "*"@,
        ),
{
    placeholder_kernel_says(k);
}

/// The source of a kernel for Return holds its name and its element type, each
/// in its place.
pub proof fn return_source_says(k: KernelModel, scalar: Seq<char>, arch: GpuArch)
    requires
        k.op == OpKind::Return,
    ensures
        is_plain(k.name) ==> contains(
            kernel_text(k, scalar, arch),
            "kernel void "@ + k.name + "("@,
        ),
        contains(
            kernel_text(k, scalar, arch),
            "device const "@ + k.dtype.msl_text() + "*"@,
        ),
{
    return_kernel_says(k);
}

/// The source of a kernel for Fused holds its operators, its name and its
/// element type, each in its place.
pub proof fn fused_source_says(k: KernelModel, scalar: Seq<char>, arch: GpuArch)
    requires
        k.op == OpKind::Fused,
    ensures
        is_plain(chain(k.attrs.fused_ops)) ==> contains(
            kernel_text(k, scalar, arch),
            ": Fused（融合算子链: "@ + (if k.attrs.fused_ops.len() > 0 {
                joined(k.attrs.fused_ops, " -> "@)
            } else {
                "mul -> add -> relu"@
            }) + "）"@,
        ),
        is_plain(k.name) ==> contains(
            kernel_text(k, scalar, arch),
            "kernel void "@ + k.name + "("@,
        ),
        contains(
            kernel_text(k, scalar, arch),
            "device const "@ + k.dtype.msl_text() + "*"@,
        ),
{
    fused_kernel_says(k);
}

/// The source of a kernel for Custom holds its operator, its name and its
/// element type, each in its place.
pub proof fn custom_source_says(k: KernelModel, scalar: Seq<char>, arch: GpuArch)
    requires
        k.op == OpKind::Custom,
    ensures
        is_plain(named_or_unknown(k.attrs.custom_op_type)) ==> contains(
            kernel_text(k, scalar, arch),
            ": Custom op（原始 op_type = "@ + (if k.attrs.custom_op_type.len() > 0 {
                k.attrs.custom_op_type
            } else {
                "unknown"@
            }) + "）"@,
        ),
        is_plain(k.name) ==> contains(
            kernel_text(k, scalar, arch),
            "kernel void "@ + k.name + "("@,
        ),
        contains(
            kernel_text(k, scalar, arch),
            "device const "@ + k.dtype.msl_text() + "*"@,
        ),
{
    custom_kernel_says(k);
}

} // verus!
