//! What Triton kernels say of the kernels they are made for.

use vstd::prelude::*;
use crate::backend::dialect::{at_least_two, chain, contains, joined, named_or_unknown};
use crate::backend::filling::{
    are_tokens, is_fenced, is_plain, is_token, numbers_are_plain, put_all, types_are_plain,
    value_is_put, word,
};
use crate::backend::spec::{DTypeExt, GpuArch, KernelModel};
use crate::base::OpKind;
use crate::text::dec;
use super::{
    concat_kernel_text, constant_kernel_text, conv_kernel_text, custom_kernel_text,
    elem_binary_text, elem_unary_text, fused_kernel_text, kernel_text, layernorm_kernel_text,
    matmul_ampere_text, matmul_blackwell_text, matmul_generic_text, matmul_hopper_text,
    placeholder_kernel_text, pool_kernel_text, reduce_kernel_text, reshape_kernel_text,
    return_kernel_text, slice_kernel_text, softmax_kernel_text, transpose_kernel_text,
};
use super::templates::{
    concat_holds_slots, concat_template, constant_holds_slots, constant_template,
    conv_holds_slots, conv_template, custom_holds_slots, custom_template, elem_binary_holds_slots,
    elem_binary_template, elem_unary_holds_slots, elem_unary_template, fused_holds_slots,
    fused_template, layernorm_holds_slots, layernorm_template, matmul_ampere_holds_slots,
    matmul_ampere_template, matmul_blackwell_holds_slots, matmul_blackwell_template,
    matmul_generic_holds_slots, matmul_generic_template, matmul_hopper_holds_slots,
    matmul_hopper_template, placeholder_holds_slots, placeholder_template, pool_holds_slots,
    pool_template, reduce_holds_slots, reduce_template, reshape_holds_slots, reshape_template,
    return_holds_slots, return_template, slice_holds_slots, slice_template, softmax_holds_slots,
    softmax_template, transpose_holds_slots, transpose_template,
};

verus! {

/// The texts that are replaced in templates are tokens, and differ.
pub(crate) proof fn tokens_differ()
    ensures
        is_token("__NAME__"@),
        word("__NAME__"@) == ('N', 'A', 'E', 8nat),
        is_token("__DT__"@),
        word("__DT__"@) == ('D', 'T', 'T', 6nat),
        is_token("__EXPR__"@),
        word("__EXPR__"@) == ('E', 'X', 'R', 8nat),
        is_token("__IDENT__"@),
        word("__IDENT__"@) == ('I', 'D', 'T', 9nat),
        is_token("__ARCH__"@),
        word("__ARCH__"@) == ('A', 'R', 'H', 8nat),
        is_token("__EPS__"@),
        word("__EPS__"@) == ('E', 'P', 'S', 7nat),
        is_token("__N_INPUTS__"@),
        word("__N_INPUTS__"@) == ('N', '_', 'S', 12nat),
        is_token("__VAL__"@),
        word("__VAL__"@) == ('V', 'A', 'L', 7nat),
        is_token("__OPS__"@),
        word("__OPS__"@) == ('O', 'P', 'S', 7nat),
        is_token("__OP_TYPE__"@),
        word("__OP_TYPE__"@) == ('O', 'P', 'E', 11nat),
{
    reveal_strlit("__NAME__");
    reveal_strlit("__DT__");
    reveal_strlit("__EXPR__");
    reveal_strlit("__IDENT__");
    reveal_strlit("__ARCH__");
    reveal_strlit("__EPS__");
    reveal_strlit("__N_INPUTS__");
    reveal_strlit("__VAL__");
    reveal_strlit("__OPS__");
    reveal_strlit("__OP_TYPE__");
}

/// The texts around tokens are plain, and no token can begin or end in them.
pub(crate) proof fn surroundings_are_plain()
    ensures
        is_plain(": Custom op（dtype="@),
        is_fenced(": Custom op（dtype="@),
        is_plain("，"@),
        is_fenced("，"@),
        is_plain("原始 op_type = "@),
        is_fenced("原始 op_type = "@),
        is_plain("）"@),
        is_fenced("）"@),
        is_plain("def "@),
        is_fenced("def "@),
        is_plain("("@),
        is_fenced("("@),
        is_plain(": Fused（dtype="@),
        is_fenced(": Fused（dtype="@),
        is_plain("融合算子链: "@),
        is_fenced("融合算子链: "@),
        is_plain(": Return（dtype="@),
        is_fenced(": Return（dtype="@),
        is_plain(": Placeholder（dtype="@),
        is_fenced(": Placeholder（dtype="@),
        is_plain(": Constant（dtype="@),
        is_fenced(": Constant（dtype="@),
        is_plain("用 tl.full 填充标量 value="@),
        is_fenced("用 tl.full 填充标量 value="@),
        is_plain(" "@),
        is_fenced(" "@),
        is_plain(": Slice（dtype="@),
        is_fenced(": Slice（dtype="@),
        is_plain(": Concat（dtype="@),
        is_fenced(": Concat（dtype="@),
        is_plain("沿 axis 拼接，每 program 处理一段输出；"@),
        is_fenced("沿 axis 拼接，每 program 处理一段输出；"@),
        is_plain(": Transpose（dtype="@),
        is_fenced(": Transpose（dtype="@),
        is_plain(": Reshape（dtype="@),
        is_fenced(": Reshape（dtype="@),
        is_plain(": LayerNorm（dtype="@),
        is_fenced(": LayerNorm（dtype="@),
        is_plain("n → var → normalize，epsilon="@),
        is_fenced("n → var → normalize，epsilon="@),
        is_plain(": Reduce（dtype="@),
        is_fenced(": Reduce（dtype="@),
        is_plain(": 元素级一元 op（dtype="@),
        is_fenced(": 元素级一元 op（dtype="@),
        is_plain(": 元素级二元 op（dtype="@),
        is_fenced(": 元素级二元 op（dtype="@),
{
    reveal_strlit(": Custom op（dtype=");
    reveal_strlit("，");
    reveal_strlit("原始 op_type = ");
    reveal_strlit("）");
    reveal_strlit("def ");
    reveal_strlit("(");
    reveal_strlit(": Fused（dtype=");
    reveal_strlit("融合算子链: ");
    reveal_strlit(": Return（dtype=");
    reveal_strlit(": Placeholder（dtype=");
    reveal_strlit(": Constant（dtype=");
    reveal_strlit("用 tl.full 填充标量 value=");
    reveal_strlit(" ");
    reveal_strlit(": Slice（dtype=");
    reveal_strlit(": Concat（dtype=");
    reveal_strlit("沿 axis 拼接，每 program 处理一段输出；");
    reveal_strlit(": Transpose（dtype=");
    reveal_strlit(": Reshape（dtype=");
    reveal_strlit(": LayerNorm（dtype=");
    reveal_strlit("n → var → normalize，epsilon=");
    reveal_strlit(": Reduce（dtype=");
    reveal_strlit(": 元素级一元 op（dtype=");
    reveal_strlit(": 元素级二元 op（dtype=");
}

/// What the template of these kernels says once it is filled.
proof fn elem_binary_says(k: KernelModel, expr: Seq<char>)
    ensures
        contains(
            elem_binary_text(k, expr),
            ": 元素级二元 op（dtype="@ + k.dtype.triton_text() + "，"@,
        ),
        is_plain(k.name) ==> contains(
            elem_binary_text(k, expr),
            "def "@ + k.name + "("@,
        ),
{
    tokens_differ();
    surroundings_are_plain();
    types_are_plain(k.dtype);
    let puts = seq![
        ("__NAME__"@, k.name),
        ("__DT__"@, k.dtype.triton_text()),
        ("__EXPR__"@, expr),
    ];
    let t = elem_binary_template();
    reveal_with_fuel(put_all, 4);
    assert(puts.take(3).drop_last() == puts.take(2));
    assert(puts.take(2).drop_last() == puts.take(1));
    assert(puts.take(1).drop_last() == puts.take(0));
    assert(puts.take(3) == puts);
    assert(put_all(t, puts) == elem_binary_text(k, expr));
    assert(are_tokens(puts));
    elem_binary_holds_slots();
    value_is_put(t, puts, 3, 1, ": 元素级二元 op（dtype="@, "，"@);
    if is_plain(k.name) {
        value_is_put(t, puts, 3, 0, "def "@, "("@);
    }
}

/// What the template of these kernels says once it is filled.
proof fn elem_unary_says(k: KernelModel, expr: Seq<char>)
    ensures
        contains(
            elem_unary_text(k, expr),
            ": 元素级一元 op（dtype="@ + k.dtype.triton_text() + "，"@,
        ),
        is_plain(k.name) ==> contains(
            elem_unary_text(k, expr),
            "def "@ + k.name + "("@,
        ),
{
    tokens_differ();
    surroundings_are_plain();
    types_are_plain(k.dtype);
    let puts = seq![
        ("__NAME__"@, k.name),
        ("__DT__"@, k.dtype.triton_text()),
        ("__EXPR__"@, expr),
    ];
    let t = elem_unary_template();
    reveal_with_fuel(put_all, 4);
    assert(puts.take(3).drop_last() == puts.take(2));
    assert(puts.take(2).drop_last() == puts.take(1));
    assert(puts.take(1).drop_last() == puts.take(0));
    assert(puts.take(3) == puts);
    assert(put_all(t, puts) == elem_unary_text(k, expr));
    assert(are_tokens(puts));
    elem_unary_holds_slots();
    value_is_put(t, puts, 3, 1, ": 元素级一元 op（dtype="@, "，"@);
    if is_plain(k.name) {
        value_is_put(t, puts, 3, 0, "def "@, "("@);
    }
}

/// What the template of these kernels says once it is filled.
proof fn reduce_kernel_says(k: KernelModel, identity: Seq<char>, expr: Seq<char>)
    ensures
        contains(
            reduce_kernel_text(k, identity, expr),
            ": Reduce（dtype="@ + k.dtype.triton_text() + "，"@,
        ),
        is_plain(k.name) ==> contains(
            reduce_kernel_text(k, identity, expr),
            "def "@ + k.name + "("@,
        ),
{
    tokens_differ();
    surroundings_are_plain();
    types_are_plain(k.dtype);
    let puts = seq![
        ("__NAME__"@, k.name),
        ("__DT__"@, k.dtype.triton_text()),
        ("__IDENT__"@, identity),
        ("__EXPR__"@, expr),
    ];
    let t = reduce_template();
    reveal_with_fuel(put_all, 5);
    assert(puts.take(4).drop_last() == puts.take(3));
    assert(puts.take(3).drop_last() == puts.take(2));
    assert(puts.take(2).drop_last() == puts.take(1));
    assert(puts.take(1).drop_last() == puts.take(0));
    assert(puts.take(4) == puts);
    assert(put_all(t, puts) == reduce_kernel_text(k, identity, expr));
    assert(are_tokens(puts));
    reduce_holds_slots();
    value_is_put(t, puts, 4, 1, ": Reduce（dtype="@, "，"@);
    if is_plain(k.name) {
        value_is_put(t, puts, 4, 0, "def "@, "("@);
    }
}

/// What the template of these kernels says once it is filled.
proof fn matmul_hopper_says(k: KernelModel)
    ensures
        is_plain(k.name) ==> contains(
            matmul_hopper_text(k),
            "def "@ + k.name + "("@,
        ),
{
    tokens_differ();
    surroundings_are_plain();
    let puts = seq![
        ("__NAME__"@, k.name),
    ];
    let t = matmul_hopper_template();
    reveal_with_fuel(put_all, 2);
    assert(puts.take(1).drop_last() == puts.take(0));
    assert(puts.take(1) == puts);
    assert(put_all(t, puts) == matmul_hopper_text(k));
    assert(are_tokens(puts));
    matmul_hopper_holds_slots();
    if is_plain(k.name) {
        value_is_put(t, puts, 1, 0, "def "@, "("@);
    }
}

/// What the template of these kernels says once it is filled.
proof fn matmul_ampere_says(k: KernelModel)
    ensures
        is_plain(k.name) ==> contains(
            matmul_ampere_text(k),
            "def "@ + k.name + "("@,
        ),
{
    tokens_differ();
    surroundings_are_plain();
    let puts = seq![
        ("__NAME__"@, k.name),
    ];
    let t = matmul_ampere_template();
    reveal_with_fuel(put_all, 2);
    assert(puts.take(1).drop_last() == puts.take(0));
    assert(puts.take(1) == puts);
    assert(put_all(t, puts) == matmul_ampere_text(k));
    assert(are_tokens(puts));
    matmul_ampere_holds_slots();
    if is_plain(k.name) {
        value_is_put(t, puts, 1, 0, "def "@, "("@);
    }
}

/// What the template of these kernels says once it is filled.
proof fn matmul_blackwell_says(k: KernelModel)
    ensures
        is_plain(k.name) ==> contains(
            matmul_blackwell_text(k),
            "def "@ + k.name + "("@,
        ),
{
    tokens_differ();
    surroundings_are_plain();
    let puts = seq![
        ("__NAME__"@, k.name),
    ];
    let t = matmul_blackwell_template();
    reveal_with_fuel(put_all, 2);
    assert(puts.take(1).drop_last() == puts.take(0));
    assert(puts.take(1) == puts);
    assert(put_all(t, puts) == matmul_blackwell_text(k));
    assert(are_tokens(puts));
    matmul_blackwell_holds_slots();
    if is_plain(k.name) {
        value_is_put(t, puts, 1, 0, "def "@, "("@);
    }
}

/// What the template of these kernels says once it is filled.
proof fn matmul_generic_says(k: KernelModel, arch: GpuArch)
    ensures
        is_plain(k.name) ==> contains(
            matmul_generic_text(k, arch),
            "def "@ + k.name + "("@,
        ),
{
    tokens_differ();
    surroundings_are_plain();
    let puts = seq![
        ("__NAME__"@, k.name),
        ("__ARCH__"@, arch.label()),
    ];
    let t = matmul_generic_template();
    reveal_with_fuel(put_all, 3);
    assert(puts.take(2).drop_last() == puts.take(1));
    assert(puts.take(1).drop_last() == puts.take(0));
    assert(puts.take(2) == puts);
    assert(put_all(t, puts) == matmul_generic_text(k, arch));
    assert(are_tokens(puts));
    matmul_generic_holds_slots();
    if is_plain(k.name) {
        value_is_put(t, puts, 2, 0, "def "@, "("@);
    }
}

/// What the template of these kernels says once it is filled.
proof fn softmax_kernel_says(k: KernelModel)
    ensures
        is_plain(k.name) ==> contains(
            softmax_kernel_text(k),
            "def "@ + k.name + "("@,
        ),
{
    tokens_differ();
    surroundings_are_plain();
    let puts = seq![
        ("__NAME__"@, k.name),
    ];
    let t = softmax_template();
    reveal_with_fuel(put_all, 2);
    assert(puts.take(1).drop_last() == puts.take(0));
    assert(puts.take(1) == puts);
    assert(put_all(t, puts) == softmax_kernel_text(k));
    assert(are_tokens(puts));
    softmax_holds_slots();
    if is_plain(k.name) {
        value_is_put(t, puts, 1, 0, "def "@, "("@);
    }
}

/// What the template of these kernels says once it is filled.
proof fn layernorm_kernel_says(k: KernelModel, epsilon: Seq<char>)
    ensures
        contains(
            layernorm_kernel_text(k, epsilon),
            ": LayerNorm（dtype="@ + k.dtype.triton_text() + "，"@,
        ),
        is_plain(epsilon) ==> contains(
            layernorm_kernel_text(k, epsilon),
            "n → var → normalize，epsilon="@ + epsilon + "）"@,
        ),
        is_plain(k.name) ==> contains(
            layernorm_kernel_text(k, epsilon),
            "def "@ + k.name + "("@,
        ),
{
    tokens_differ();
    surroundings_are_plain();
    types_are_plain(k.dtype);
    let puts = seq![
        ("__NAME__"@, k.name),
        ("__DT__"@, k.dtype.triton_text()),
        ("__EPS__"@, epsilon),
    ];
    let t = layernorm_template();
    reveal_with_fuel(put_all, 4);
    assert(puts.take(3).drop_last() == puts.take(2));
    assert(puts.take(2).drop_last() == puts.take(1));
    assert(puts.take(1).drop_last() == puts.take(0));
    assert(puts.take(3) == puts);
    assert(put_all(t, puts) == layernorm_kernel_text(k, epsilon));
    assert(are_tokens(puts));
    layernorm_holds_slots();
    value_is_put(t, puts, 3, 1, ": LayerNorm（dtype="@, "，"@);
    if is_plain(epsilon) {
        value_is_put(t, puts, 3, 2, "n → var → normalize，epsilon="@, "）"@);
    }
    if is_plain(k.name) {
        value_is_put(t, puts, 3, 0, "def "@, "("@);
    }
}

/// What the template of these kernels says once it is filled.
proof fn conv_kernel_says(k: KernelModel)
    ensures
        is_plain(k.name) ==> contains(
            conv_kernel_text(k),
            "def "@ + k.name + "("@,
        ),
{
    tokens_differ();
    surroundings_are_plain();
    let puts = seq![
        ("__NAME__"@, k.name),
    ];
    let t = conv_template();
    reveal_with_fuel(put_all, 2);
    assert(puts.take(1).drop_last() == puts.take(0));
    assert(puts.take(1) == puts);
    assert(put_all(t, puts) == conv_kernel_text(k));
    assert(are_tokens(puts));
    conv_holds_slots();
    if is_plain(k.name) {
        value_is_put(t, puts, 1, 0, "def "@, "("@);
    }
}

/// What the template of these kernels says once it is filled.
proof fn pool_kernel_says(k: KernelModel)
    ensures
        is_plain(k.name) ==> contains(
            pool_kernel_text(k),
            "def "@ + k.name + "("@,
        ),
{
    tokens_differ();
    surroundings_are_plain();
    let puts = seq![
        ("__NAME__"@, k.name),
    ];
    let t = pool_template();
    reveal_with_fuel(put_all, 2);
    assert(puts.take(1).drop_last() == puts.take(0));
    assert(puts.take(1) == puts);
    assert(put_all(t, puts) == pool_kernel_text(k));
    assert(are_tokens(puts));
    pool_holds_slots();
    if is_plain(k.name) {
        value_is_put(t, puts, 1, 0, "def "@, "("@);
    }
}

/// What the template of these kernels says once it is filled.
proof fn reshape_kernel_says(k: KernelModel)
    ensures
        contains(
            reshape_kernel_text(k),
            ": Reshape（dtype="@ + k.dtype.triton_text() + "，"@,
        ),
        is_plain(k.name) ==> contains(
            reshape_kernel_text(k),
            "def "@ + k.name + "("@,
        ),
{
    tokens_differ();
    surroundings_are_plain();
    types_are_plain(k.dtype);
    let puts = seq![
        ("__NAME__"@, k.name),
        ("__DT__"@, k.dtype.triton_text()),
    ];
    let t = reshape_template();
    reveal_with_fuel(put_all, 3);
    assert(puts.take(2).drop_last() == puts.take(1));
    assert(puts.take(1).drop_last() == puts.take(0));
    assert(puts.take(2) == puts);
    assert(put_all(t, puts) == reshape_kernel_text(k));
    assert(are_tokens(puts));
    reshape_holds_slots();
    value_is_put(t, puts, 2, 1, ": Reshape（dtype="@, "，"@);
    if is_plain(k.name) {
        value_is_put(t, puts, 2, 0, "def "@, "("@);
    }
}

/// What the template of these kernels says once it is filled.
proof fn transpose_kernel_says(k: KernelModel)
    ensures
        contains(
            transpose_kernel_text(k),
            ": Transpose（dtype="@ + k.dtype.triton_text() + "，"@,
        ),
        is_plain(k.name) ==> contains(
            transpose_kernel_text(k),
            "def "@ + k.name + "("@,
        ),
{
    tokens_differ();
    surroundings_are_plain();
    types_are_plain(k.dtype);
    let puts = seq![
        ("__NAME__"@, k.name),
        ("__DT__"@, k.dtype.triton_text()),
    ];
    let t = transpose_template();
    reveal_with_fuel(put_all, 3);
    assert(puts.take(2).drop_last() == puts.take(1));
    assert(puts.take(1).drop_last() == puts.take(0));
    assert(puts.take(2) == puts);
    assert(put_all(t, puts) == transpose_kernel_text(k));
    assert(are_tokens(puts));
    transpose_holds_slots();
    value_is_put(t, puts, 2, 1, ": Transpose（dtype="@, "，"@);
    if is_plain(k.name) {
        value_is_put(t, puts, 2, 0, "def "@, "("@);
    }
}

/// What the template of these kernels says once it is filled.
proof fn concat_kernel_says(k: KernelModel)
    ensures
        contains(
            concat_kernel_text(k),
            ": Concat（dtype="@ + k.dtype.triton_text() + "，"@,
        ),
        contains(
            concat_kernel_text(k),
            "沿 axis 拼接，每 program 处理一段输出；"@ + dec(if k.inputs.len() > 2 {
                k.inputs.len()
            } else {
                2
            }) + " "@,
        ),
        is_plain(k.name) ==> contains(
            concat_kernel_text(k),
            "def "@ + k.name + "("@,
        ),
{
    tokens_differ();
    surroundings_are_plain();
    types_are_plain(k.dtype);
    numbers_are_plain(at_least_two(k.inputs.len()) as int);
    let puts = seq![
        ("__NAME__"@, k.name),
        ("__DT__"@, k.dtype.triton_text()),
        ("__N_INPUTS__"@, dec(at_least_two(k.inputs.len()))),
    ];
    let t = concat_template();
    reveal_with_fuel(put_all, 4);
    assert(puts.take(3).drop_last() == puts.take(2));
    assert(puts.take(2).drop_last() == puts.take(1));
    assert(puts.take(1).drop_last() == puts.take(0));
    assert(puts.take(3) == puts);
    assert(put_all(t, puts) == concat_kernel_text(k));
    assert(are_tokens(puts));
    concat_holds_slots();
    value_is_put(t, puts, 3, 1, ": Concat（dtype="@, "，"@);
    value_is_put(t, puts, 3, 2, "沿 axis 拼接，每 program 处理一段输出；"@, " "@);
    if is_plain(k.name) {
        value_is_put(t, puts, 3, 0, "def "@, "("@);
    }
}

/// What the template of these kernels says once it is filled.
proof fn slice_kernel_says(k: KernelModel)
    ensures
        contains(
            slice_kernel_text(k),
            ": Slice（dtype="@ + k.dtype.triton_text() + "，"@,
        ),
        is_plain(k.name) ==> contains(
            slice_kernel_text(k),
            "def "@ + k.name + "("@,
        ),
{
    tokens_differ();
    surroundings_are_plain();
    types_are_plain(k.dtype);
    let puts = seq![
        ("__NAME__"@, k.name),
        ("__DT__"@, k.dtype.triton_text()),
    ];
    let t = slice_template();
    reveal_with_fuel(put_all, 3);
    assert(puts.take(2).drop_last() == puts.take(1));
    assert(puts.take(1).drop_last() == puts.take(0));
    assert(puts.take(2) == puts);
    assert(put_all(t, puts) == slice_kernel_text(k));
    assert(are_tokens(puts));
    slice_holds_slots();
    value_is_put(t, puts, 2, 1, ": Slice（dtype="@, "，"@);
    if is_plain(k.name) {
        value_is_put(t, puts, 2, 0, "def "@, "("@);
    }
}

/// What the template of these kernels says once it is filled.
proof fn constant_kernel_says(k: KernelModel, value: Seq<char>)
    ensures
        contains(
            constant_kernel_text(k, value),
            ": Constant（dtype="@ + k.dtype.triton_text() + "，"@,
        ),
        is_plain(value) ==> contains(
            constant_kernel_text(k, value),
            "用 tl.full 填充标量 value="@ + value + " "@,
        ),
        is_plain(k.name) ==> contains(
            constant_kernel_text(k, value),
            "def "@ + k.name + "("@,
        ),
{
    tokens_differ();
    surroundings_are_plain();
    types_are_plain(k.dtype);
    let puts = seq![
        ("__NAME__"@, k.name),
        ("__DT__"@, k.dtype.triton_text()),
        ("__VAL__"@, value),
    ];
    let t = constant_template();
    reveal_with_fuel(put_all, 4);
    assert(puts.take(3).drop_last() == puts.take(2));
    assert(puts.take(2).drop_last() == puts.take(1));
    assert(puts.take(1).drop_last() == puts.take(0));
    assert(puts.take(3) == puts);
    assert(put_all(t, puts) == constant_kernel_text(k, value));
    assert(are_tokens(puts));
    constant_holds_slots();
    value_is_put(t, puts, 3, 1, ": Constant（dtype="@, "，"@);
    if is_plain(value) {
        value_is_put(t, puts, 3, 2, "用 tl.full 填充标量 value="@, " "@);
    }
    if is_plain(k.name) {
        value_is_put(t, puts, 3, 0, "def "@, "("@);
    }
}

/// What the template of these kernels says once it is filled.
proof fn placeholder_kernel_says(k: KernelModel)
    ensures
        contains(
            placeholder_kernel_text(k),
            ": Placeholder（dtype="@ + k.dtype.triton_text() + "，"@,
        ),
        is_plain(k.name) ==> contains(
            placeholder_kernel_text(k),
            "def "@ + k.name + "("@,
        ),
{
    tokens_differ();
    surroundings_are_plain();
    types_are_plain(k.dtype);
    let puts = seq![
        ("__NAME__"@, k.name),
        ("__DT__"@, k.dtype.triton_text()),
    ];
    let t = placeholder_template();
    reveal_with_fuel(put_all, 3);
    assert(puts.take(2).drop_last() == puts.take(1));
    assert(puts.take(1).drop_last() == puts.take(0));
    assert(puts.take(2) == puts);
    assert(put_all(t, puts) == placeholder_kernel_text(k));
    assert(are_tokens(puts));
    placeholder_holds_slots();
    value_is_put(t, puts, 2, 1, ": Placeholder（dtype="@, "，"@);
    if is_plain(k.name) {
        value_is_put(t, puts, 2, 0, "def "@, "("@);
    }
}

/// What the template of these kernels says once it is filled.
proof fn return_kernel_says(k: KernelModel)
    ensures
        contains(
            return_kernel_text(k),
            ": Return（dtype="@ + k.dtype.triton_text() + "，"@,
        ),
        is_plain(k.name) ==> contains(
            return_kernel_text(k),
            "def "@ + k.name + "("@,
        ),
{
    tokens_differ();
    surroundings_are_plain();
    types_are_plain(k.dtype);
    let puts = seq![
        ("__NAME__"@, k.name),
        ("__DT__"@, k.dtype.triton_text()),
    ];
    let t = return_template();
    reveal_with_fuel(put_all, 3);
    assert(puts.take(2).drop_last() == puts.take(1));
    assert(puts.take(1).drop_last() == puts.take(0));
    assert(puts.take(2) == puts);
    assert(put_all(t, puts) == return_kernel_text(k));
    assert(are_tokens(puts));
    return_holds_slots();
    value_is_put(t, puts, 2, 1, ": Return（dtype="@, "，"@);
    if is_plain(k.name) {
        value_is_put(t, puts, 2, 0, "def "@, "("@);
    }
}

/// What the template of these kernels says once it is filled.
proof fn fused_kernel_says(k: KernelModel)
    ensures
        contains(
            fused_kernel_text(k),
            ": Fused（dtype="@ + k.dtype.triton_text() + "，"@,
        ),
        is_plain(chain(k.attrs.fused_ops)) ==> contains(
            fused_kernel_text(k),
            "融合算子链: "@ + (if k.attrs.fused_ops.len() > 0 {
                joined(k.attrs.fused_ops, " -> "@)
            } else {
                "mul -> add -> relu"@
            }) + "）"@,
        ),
        is_plain(k.name) ==> contains(
            fused_kernel_text(k),
            "def "@ + k.name + "("@,
        ),
{
    tokens_differ();
    surroundings_are_plain();
    types_are_plain(k.dtype);
    let puts = seq![
        ("__NAME__"@, k.name),
        ("__DT__"@, k.dtype.triton_text()),
        ("__OPS__"@, chain(k.attrs.fused_ops)),
    ];
    let t = fused_template();
    reveal_with_fuel(put_all, 4);
    assert(puts.take(3).drop_last() == puts.take(2));
    assert(puts.take(2).drop_last() == puts.take(1));
    assert(puts.take(1).drop_last() == puts.take(0));
    assert(puts.take(3) == puts);
    assert(put_all(t, puts) == fused_kernel_text(k));
    assert(are_tokens(puts));
    fused_holds_slots();
    value_is_put(t, puts, 3, 1, ": Fused（dtype="@, "，"@);
    if is_plain(chain(k.attrs.fused_ops)) {
        value_is_put(t, puts, 3, 2, "融合算子链: "@, "）"@);
    }
    if is_plain(k.name) {
        value_is_put(t, puts, 3, 0, "def "@, "("@);
    }
}

/// What the template of these kernels says once it is filled.
proof fn custom_kernel_says(k: KernelModel)
    ensures
        contains(
            custom_kernel_text(k),
            ": Custom op（dtype="@ + k.dtype.triton_text() + "，"@,
        ),
        is_plain(named_or_unknown(k.attrs.custom_op_type)) ==> contains(
            custom_kernel_text(k),
            "原始 op_type = "@ + (if k.attrs.custom_op_type.len() > 0 {
                k.attrs.custom_op_type
            } else {
                "unknown"@
            }) + "）"@,
        ),
        is_plain(k.name) ==> contains(
            custom_kernel_text(k),
            "def "@ + k.name + "("@,
        ),
{
    tokens_differ();
    surroundings_are_plain();
    types_are_plain(k.dtype);
    let puts = seq![
        ("__NAME__"@, k.name),
        ("__DT__"@, k.dtype.triton_text()),
        ("__OP_TYPE__"@, named_or_unknown(k.attrs.custom_op_type)),
    ];
    let t = custom_template();
    reveal_with_fuel(put_all, 4);
    assert(puts.take(3).drop_last() == puts.take(2));
    assert(puts.take(2).drop_last() == puts.take(1));
    assert(puts.take(1).drop_last() == puts.take(0));
    assert(puts.take(3) == puts);
    assert(put_all(t, puts) == custom_kernel_text(k));
    assert(are_tokens(puts));
    custom_holds_slots();
    value_is_put(t, puts, 3, 1, ": Custom op（dtype="@, "，"@);
    if is_plain(named_or_unknown(k.attrs.custom_op_type)) {
        value_is_put(t, puts, 3, 2, "原始 op_type = "@, "）"@);
    }
    if is_plain(k.name) {
        value_is_put(t, puts, 3, 0, "def "@, "("@);
    }
}

/// The source of a kernel for Add, Sub, Mul, Div or Pow holds its element type
/// and its name, each in its place.
pub proof fn elem_binary_source_says(k: KernelModel, scalar: Seq<char>, arch: GpuArch)
    requires
        k.op == OpKind::Add || k.op == OpKind::Sub || k.op == OpKind::Mul || k.op == OpKind::Div || k.op == OpKind::Pow,
    ensures
        contains(
            kernel_text(k, scalar, arch),
            ": 元素级二元 op（dtype="@ + k.dtype.triton_text() + "，"@,
        ),
        is_plain(k.name) ==> contains(
            kernel_text(k, scalar, arch),
            "def "@ + k.name + "("@,
        ),
{
    match k.op {
        OpKind::Add => elem_binary_says(k, "x + y"@),
        OpKind::Sub => elem_binary_says(k, "x - y"@),
        OpKind::Mul => elem_binary_says(k, "x * y"@),
        OpKind::Div => elem_binary_says(k, "x / y"@),
        OpKind::Pow => elem_binary_says(k, "tl.math.pow(x, y)"@),
        _ => {},
    }
}

/// The source of a kernel for Relu, Gelu, Sigmoid, Tanh, Sqrt, Exp, Log, Rsqrt,
/// Reciprocal or Abs holds its element type and its name, each in its place.
pub proof fn elem_unary_source_says(k: KernelModel, scalar: Seq<char>, arch: GpuArch)
    requires
        k.op == OpKind::Relu || k.op == OpKind::Gelu || k.op == OpKind::Sigmoid || k.op == OpKind::Tanh || k.op == OpKind::Sqrt || k.op == OpKind::Exp || k.op == OpKind::Log || k.op == OpKind::Rsqrt || k.op == OpKind::Reciprocal || k.op == OpKind::Abs,
    ensures
        contains(
            kernel_text(k, scalar, arch),
            ": 元素级一元 op（dtype="@ + k.dtype.triton_text() + "，"@,
        ),
        is_plain(k.name) ==> contains(
            kernel_text(k, scalar, arch),
            "def "@ + k.name + "("@,
        ),
{
    match k.op {
        OpKind::Relu => elem_unary_says(k, "tl.where(x > 0, x, 0.0)"@),
        OpKind::Gelu => elem_unary_says(k,
            "0.5 * x * (1.0 + tl.tanh(0.7978845608 * (x + 0.044715 * x * x * x)))"@),
        OpKind::Sigmoid => elem_unary_says(k, "1.0 / (1.0 + tl.exp(-x))"@),
        OpKind::Tanh => elem_unary_says(k, "tl.tanh(x)"@),
        OpKind::Sqrt => elem_unary_says(k, "tl.sqrt(x)"@),
        OpKind::Exp => elem_unary_says(k, "tl.exp(x)"@),
        OpKind::Log => elem_unary_says(k, "tl.log(x)"@),
        OpKind::Rsqrt => elem_unary_says(k, "1.0 / tl.sqrt(x)"@),
        OpKind::Reciprocal => elem_unary_says(k, "1.0 / x"@),
        OpKind::Abs => elem_unary_says(k, "tl.abs(x)"@),
        _ => {},
    }
}

/// The source of a kernel for ReduceSum, ReduceMean or ReduceMax holds its
/// element type and its name, each in its place.
pub proof fn reduce_source_says(k: KernelModel, scalar: Seq<char>, arch: GpuArch)
    requires
        k.op == OpKind::ReduceSum || k.op == OpKind::ReduceMean || k.op == OpKind::ReduceMax,
    ensures
        contains(
            kernel_text(k, scalar, arch),
            ": Reduce（dtype="@ + k.dtype.triton_text() + "，"@,
        ),
        is_plain(k.name) ==> contains(
            kernel_text(k, scalar, arch),
            "def "@ + k.name + "("@,
        ),
{
    match k.op {
        OpKind::ReduceSum => reduce_kernel_says(k, "0.0"@, "tl.sum(x, axis=0)"@),
        OpKind::ReduceMean => reduce_kernel_says(k, "0.0"@, "tl.sum(x, axis=0) / N"@),
        OpKind::ReduceMax => reduce_kernel_says(k, "-float('inf')"@, "tl.max(x, axis=0)"@),
        _ => {},
    }
}

/// The source of a kernel for Softmax holds its name in its place.
pub proof fn softmax_source_says(k: KernelModel, scalar: Seq<char>, arch: GpuArch)
    requires
        k.op == OpKind::Softmax,
    ensures
        is_plain(k.name) ==> contains(
            kernel_text(k, scalar, arch),
            "def "@ + k.name + "("@,
        ),
{
    softmax_kernel_says(k);
}

/// The source of a kernel for LayerNorm holds its element type, its epsilon and
/// its name, each in its place.
pub proof fn layernorm_source_says(k: KernelModel, scalar: Seq<char>, arch: GpuArch)
    requires
        k.op == OpKind::LayerNorm,
    ensures
        contains(
            kernel_text(k, scalar, arch),
            ": LayerNorm（dtype="@ + k.dtype.triton_text() + "，"@,
        ),
        is_plain(scalar) ==> contains(
            kernel_text(k, scalar, arch),
            "n → var → normalize，epsilon="@ + scalar + "）"@,
        ),
        is_plain(k.name) ==> contains(
            kernel_text(k, scalar, arch),
            "def "@ + k.name + "("@,
        ),
{
    layernorm_kernel_says(k, scalar);
}

/// The source of a kernel for Conv holds its name in its place.
pub proof fn conv_source_says(k: KernelModel, scalar: Seq<char>, arch: GpuArch)
    requires
        k.op == OpKind::Conv,
    ensures
        is_plain(k.name) ==> contains(
            kernel_text(k, scalar, arch),
            "def "@ + k.name + "("@,
        ),
{
    conv_kernel_says(k);
}

/// The source of a kernel for Pool holds its name in its place.
pub proof fn pool_source_says(k: KernelModel, scalar: Seq<char>, arch: GpuArch)
    requires
        k.op == OpKind::Pool,
    ensures
        is_plain(k.name) ==> contains(
            kernel_text(k, scalar, arch),
            "def "@ + k.name + "("@,
        ),
{
    pool_kernel_says(k);
}

/// The source of a kernel for Reshape holds its element type and its name, each
/// in its place.
pub proof fn reshape_source_says(k: KernelModel, scalar: Seq<char>, arch: GpuArch)
    requires
        k.op == OpKind::Reshape,
    ensures
        contains(
            kernel_text(k, scalar, arch),
            ": Reshape（dtype="@ + k.dtype.triton_text() + "，"@,
        ),
        is_plain(k.name) ==> contains(
            kernel_text(k, scalar, arch),
            "def "@ + k.name + "("@,
        ),
{
    reshape_kernel_says(k);
}

/// The source of a kernel for Transpose holds its element type and its name,
/// each in its place.
pub proof fn transpose_source_says(k: KernelModel, scalar: Seq<char>, arch: GpuArch)
    requires
        k.op == OpKind::Transpose,
    ensures
        contains(
            kernel_text(k, scalar, arch),
            ": Transpose（dtype="@ + k.dtype.triton_text() + "，"@,
        ),
        is_plain(k.name) ==> contains(
            kernel_text(k, scalar, arch),
            "def "@ + k.name + "("@,
        ),
{
    transpose_kernel_says(k);
}

/// The source of a kernel for Concat holds its element type, how many inputs it
/// has, at least two and its name, each in its place.
pub proof fn concat_source_says(k: KernelModel, scalar: Seq<char>, arch: GpuArch)
    requires
        k.op == OpKind::Concat,
    ensures
        contains(
            kernel_text(k, scalar, arch),
            ": Concat（dtype="@ + k.dtype.triton_text() + "，"@,
        ),
        contains(
            kernel_text(k, scalar, arch),
            "沿 axis 拼接，每 program 处理一段输出；"@ + dec(if k.inputs.len() > 2 {
                k.inputs.len()
            } else {
                2
            }) + " "@,
        ),
        is_plain(k.name) ==> contains(
            kernel_text(k, scalar, arch),
            "def "@ + k.name + "("@,
        ),
{
    concat_kernel_says(k);
}

/// The source of a kernel for Slice holds its element type and its name, each
/// in its place.
pub proof fn slice_source_says(k: KernelModel, scalar: Seq<char>, arch: GpuArch)
    requires
        k.op == OpKind::Slice,
    ensures
        contains(
            kernel_text(k, scalar, arch),
            ": Slice（dtype="@ + k.dtype.triton_text() + "，"@,
        ),
        is_plain(k.name) ==> contains(
            kernel_text(k, scalar, arch),
            "def "@ + k.name + "("@,
        ),
{
    slice_kernel_says(k);
}

/// The source of a kernel for Constant holds its element type, its value and
/// its name, each in its place.
pub proof fn constant_source_says(k: KernelModel, scalar: Seq<char>, arch: GpuArch)
    requires
        k.op == OpKind::Constant,
    ensures
        contains(
            kernel_text(k, scalar, arch),
            ": Constant（dtype="@ + k.dtype.triton_text() + "，"@,
        ),
        is_plain(scalar) ==> contains(
            kernel_text(k, scalar, arch),
            "用 tl.full 填充标量 value="@ + scalar + " "@,
        ),
        is_plain(k.name) ==> contains(
            kernel_text(k, scalar, arch),
            "def "@ + k.name + "("@,
        ),
{
    constant_kernel_says(k, scalar);
}

/// The source of a kernel for Placeholder holds its element type and its name,
/// each in its place.
pub proof fn placeholder_source_says(k: KernelModel, scalar: Seq<char>, arch: GpuArch)
    requires
        k.op == OpKind::Placeholder,
    ensures
        contains(
            kernel_text(k, scalar, arch),
            ": Placeholder（dtype="@ + k.dtype.triton_text() + "，"@,
        ),
        is_plain(k.name) ==> contains(
            kernel_text(k, scalar, arch),
            "def "@ + k.name + "("@,
        ),
{
    placeholder_kernel_says(k);
}

/// The source of a kernel for Return holds its element type and its name, each
/// in its place.
pub proof fn return_source_says(k: KernelModel, scalar: Seq<char>, arch: GpuArch)
    requires
        k.op == OpKind::Return,
    ensures
        contains(
            kernel_text(k, scalar, arch),
            ": Return（dtype="@ + k.dtype.triton_text() + "，"@,
        ),
        is_plain(k.name) ==> contains(
            kernel_text(k, scalar, arch),
            "def "@ + k.name + "("@,
        ),
{
    return_kernel_says(k);
}

/// The source of a kernel for Fused holds its element type, its operators and
/// its name, each in its place.
pub proof fn fused_source_says(k: KernelModel, scalar: Seq<char>, arch: GpuArch)
    requires
        k.op == OpKind::Fused,
    ensures
        contains(
            kernel_text(k, scalar, arch),
            ": Fused（dtype="@ + k.dtype.triton_text() + "，"@,
        ),
        is_plain(chain(k.attrs.fused_ops)) ==> contains(
            kernel_text(k, scalar, arch),
            "融合算子链: "@ + (if k.attrs.fused_ops.len() > 0 {
                joined(k.attrs.fused_ops, " -> "@)
            } else {
                "mul -> add -> relu"@
            }) + "）"@,
        ),
        is_plain(k.name) ==> contains(
            kernel_text(k, scalar, arch),
            "def "@ + k.name + "("@,
        ),
{
    fused_kernel_says(k);
}

/// The source of a kernel for Custom holds its element type, its operator and
/// its name, each in its place.
pub proof fn custom_source_says(k: KernelModel, scalar: Seq<char>, arch: GpuArch)
    requires
        k.op == OpKind::Custom,
    ensures
        contains(
            kernel_text(k, scalar, arch),
            ": Custom op（dtype="@ + k.dtype.triton_text() + "，"@,
        ),
        is_plain(named_or_unknown(k.attrs.custom_op_type)) ==> contains(
            kernel_text(k, scalar, arch),
            "原始 op_type = "@ + (if k.attrs.custom_op_type.len() > 0 {
                k.attrs.custom_op_type
            } else {
                "unknown"@
            }) + "）"@,
        ),
        is_plain(k.name) ==> contains(
            kernel_text(k, scalar, arch),
            "def "@ + k.name + "("@,
        ),
{
    custom_kernel_says(k);
}

/// The source of a kernel for MatMul holds its name in its place, whatever the
/// architecture.
pub proof fn matmul_source_says(k: KernelModel, scalar: Seq<char>, arch: GpuArch)
    requires
        k.op == OpKind::MatMul,
    ensures
        is_plain(k.name) ==> contains(
            kernel_text(k, scalar, arch),
            "def "@ + k.name + "("@,
        ),
{
    matmul_hopper_says(k);
    matmul_ampere_says(k);
    matmul_blackwell_says(k);
    matmul_generic_says(k, arch);
}

} // verus!
