//! What Ascend C kernels say of the kernels they are made for.

use vstd::prelude::*;
use crate::backend::dialect::{at_least_two, chain, contains, joined, named_or_unknown};
use crate::backend::filling::{
    are_tokens, is_fenced, is_plain, is_token, numbers_are_plain, put_all, types_are_plain,
    value_is_put, word,
};
use crate::backend::spec::{DTypeExt, GpuArch, KernelModel};
use crate::base::OpKind;
use crate::text::dec;
use super::{
    camel, class_text, concat_kernel_text, constant_kernel_text, conv_kernel_text,
    custom_kernel_text, elem_binary_text, elem_unary_text, fused_kernel_text, kernel_text,
    layernorm_kernel_text, matmul_kernel_text, matmul_note, placeholder_kernel_text,
    pool_kernel_text, reduce_kernel_text, reshape_kernel_text, return_kernel_text,
    slice_kernel_text, softmax_kernel_text, transpose_kernel_text, upper,
};
use super::templates::{
    concat_holds_slots, concat_template, constant_holds_slots, constant_template,
    conv_holds_slots, conv_template, custom_holds_slots, custom_template, elem_binary_holds_slots,
    elem_binary_template, elem_unary_holds_slots, elem_unary_template, fused_holds_slots,
    fused_template, layernorm_holds_slots, layernorm_template, matmul_holds_slots,
    matmul_template, placeholder_holds_slots, placeholder_template, pool_holds_slots,
    pool_template, reduce_holds_slots, reduce_template, reshape_holds_slots, reshape_template,
    return_holds_slots, return_template, slice_holds_slots, slice_template, softmax_holds_slots,
    softmax_template, transpose_holds_slots, transpose_template,
};

verus! {

/// The texts that are replaced in templates are tokens, and differ.
pub(crate) proof fn tokens_differ()
    ensures
        is_token("__NAME__"@),
        word("__NAME__"@) == ('N', 'A', 'E', 8nat),
        is_token("__CLS__"@),
        word("__CLS__"@) == ('C', 'L', 'S', 7nat),
        is_token("__T__"@),
        word("__T__"@) == ('T', '_', 'T', 5nat),
        is_token("__API__"@),
        word("__API__"@) == ('A', 'P', 'I', 7nat),
        is_token("__NOTE__"@),
        word("__NOTE__"@) == ('N', 'O', 'E', 8nat),
        is_token("__MEAN_DIV__"@),
        word("__MEAN_DIV__"@) == ('M', 'E', 'V', 12nat),
        is_token("__ARCH_NOTE__"@),
        word("__ARCH_NOTE__"@) == ('A', 'R', 'E', 13nat),
        is_token("__EPS__"@),
        word("__EPS__"@) == ('E', 'P', 'S', 7nat),
        is_token("__N_INPUTS__"@),
        word("__N_INPUTS__"@) == ('N', '_', 'S', 12nat),
        is_token("__VAL__"@),
        word("__VAL__"@) == ('V', 'A', 'L', 7nat),
        is_token("__OPS__"@),
        word("__OPS__"@) == ('O', 'P', 'S', 7nat),
        is_token("__OP_TYPE__"@),
        word("__OP_TYPE__"@) == ('O', 'P', 'E', 11nat),
{
    reveal_strlit("__NAME__");
    reveal_strlit("__CLS__");
    reveal_strlit("__T__");
    reveal_strlit("__API__");
    reveal_strlit("__NOTE__");
    reveal_strlit("__MEAN_DIV__");
    reveal_strlit("__ARCH_NOTE__");
    reveal_strlit("__EPS__");
    reveal_strlit("__N_INPUTS__");
    reveal_strlit("__VAL__");
    reveal_strlit("__OPS__");
    reveal_strlit("__OP_TYPE__");
}

/// The texts around tokens are plain, and no token can begin or end in them.
pub(crate) proof fn surroundings_are_plain()
    ensures
        is_plain(": Custom op（原始 op_type = "@),
        is_fenced(": Custom op（原始 op_type = "@),
        is_plain("）"@),
        is_fenced("）"@),
        is_plain("class "@),
        is_fenced("class "@),
        is_plain(" "@),
        is_fenced(" "@),
        is_plain(", TILE_LENGTH * sizeof("@),
        is_fenced(", TILE_LENGTH * sizeof("@),
        is_plain(")"@),
        is_fenced(")"@),
        is_plain("void "@),
        is_fenced("void "@),
        is_plain("("@),
        is_fenced("("@),
        is_plain(": Fused（融合算子链: "@),
        is_fenced(": Fused（融合算子链: "@),
        is_plain(","@),
        is_fenced(","@),
        is_plain("pe.InitBuffer(inBuf, sizeof("@),
        is_fenced("pe.InitBuffer(inBuf, sizeof("@),
        is_plain("// 注: 通用版支持 "@),
        is_fenced("// 注: 通用版支持 "@),
        is_plain("utBuf, TILE_LENGTH * sizeof("@),
        is_fenced("utBuf, TILE_LENGTH * sizeof("@),
        is_plain("inBuf, TILE_LENGTH * sizeof("@),
        is_fenced("inBuf, TILE_LENGTH * sizeof("@),
        is_plain(" Duplicate(epsT, (float)"@),
        is_fenced(" Duplicate(epsT, (float)"@),
{
    reveal_strlit(": Custom op（原始 op_type = ");
    reveal_strlit("）");
    reveal_strlit("class ");
    reveal_strlit(" ");
    reveal_strlit(", TILE_LENGTH * sizeof(");
    reveal_strlit(")");
    reveal_strlit("void ");
    reveal_strlit("(");
    reveal_strlit(": Fused（融合算子链: ");
    reveal_strlit(",");
    reveal_strlit("pe.InitBuffer(inBuf, sizeof(");
    reveal_strlit("// 注: 通用版支持 ");
    reveal_strlit("utBuf, TILE_LENGTH * sizeof(");
    reveal_strlit("inBuf, TILE_LENGTH * sizeof(");
    reveal_strlit(" Duplicate(epsT, (float)");
}

/// What the template of these kernels says once it is filled.
proof fn elem_binary_says(k: KernelModel, api: Seq<char>)
    ensures
        is_plain(class_text(k.name)) ==> contains(
            elem_binary_text(k, api),
            "class "@ + class_text(k.name) + " "@,
        ),
        contains(
            elem_binary_text(k, api),
            ", TILE_LENGTH * sizeof("@ + k.dtype.cann_text() + ")"@,
        ),
        is_plain(k.name) ==> contains(
            elem_binary_text(k, api),
            "void "@ + k.name + "("@,
        ),
{
    tokens_differ();
    surroundings_are_plain();
    types_are_plain(k.dtype);
    let puts = seq![
        ("__NAME__"@, k.name),
        ("__CLS__"@, class_text(k.name)),
        ("__T__"@, k.dtype.cann_text()),
        ("__API__"@, api),
    ];
    let t = elem_binary_template();
    reveal_with_fuel(put_all, 5);
    assert(puts.take(4).drop_last() == puts.take(3));
    assert(puts.take(3).drop_last() == puts.take(2));
    assert(puts.take(2).drop_last() == puts.take(1));
    assert(puts.take(1).drop_last() == puts.take(0));
    assert(puts.take(4) == puts);
    assert(put_all(t, puts) == elem_binary_text(k, api));
    assert(are_tokens(puts));
    elem_binary_holds_slots();
    if is_plain(class_text(k.name)) {
        value_is_put(t, puts, 4, 1, "class "@, " "@);
    }
    value_is_put(t, puts, 4, 2, ", TILE_LENGTH * sizeof("@, ")"@);
    if is_plain(k.name) {
        value_is_put(t, puts, 4, 0, "void "@, "("@);
    }
}

/// What the template of these kernels says once it is filled.
proof fn elem_unary_says(k: KernelModel, api: Seq<char>, note: Seq<char>)
    ensures
        is_plain(class_text(k.name)) ==> contains(
            elem_unary_text(k, api, note),
            "class "@ + class_text(k.name) + " "@,
        ),
        contains(
            elem_unary_text(k, api, note),
            ", TILE_LENGTH * sizeof("@ + k.dtype.cann_text() + ")"@,
        ),
        is_plain(k.name) ==> contains(
            elem_unary_text(k, api, note),
            "void "@ + k.name + "("@,
        ),
{
    tokens_differ();
    surroundings_are_plain();
    types_are_plain(k.dtype);
    let puts = seq![
        ("__NAME__"@, k.name),
        ("__CLS__"@, class_text(k.name)),
        ("__T__"@, k.dtype.cann_text()),
        ("__API__"@, api),
        ("__NOTE__"@, note),
    ];
    let t = elem_unary_template();
    reveal_with_fuel(put_all, 6);
    assert(puts.take(5).drop_last() == puts.take(4));
    assert(puts.take(4).drop_last() == puts.take(3));
    assert(puts.take(3).drop_last() == puts.take(2));
    assert(puts.take(2).drop_last() == puts.take(1));
    assert(puts.take(1).drop_last() == puts.take(0));
    assert(puts.take(5) == puts);
    assert(put_all(t, puts) == elem_unary_text(k, api, note));
    assert(are_tokens(puts));
    elem_unary_holds_slots();
    if is_plain(class_text(k.name)) {
        value_is_put(t, puts, 5, 1, "class "@, " "@);
    }
    value_is_put(t, puts, 5, 2, ", TILE_LENGTH * sizeof("@, ")"@);
    if is_plain(k.name) {
        value_is_put(t, puts, 5, 0, "void "@, "("@);
    }
}

/// What the template of these kernels says once it is filled.
proof fn reduce_kernel_says(k: KernelModel, api: Seq<char>, mean_div: Seq<char>)
    ensures
        is_plain(class_text(k.name)) ==> contains(
            reduce_kernel_text(k, api, mean_div),
            "class "@ + class_text(k.name) + " "@,
        ),
        contains(
            reduce_kernel_text(k, api, mean_div),
            ", TILE_LENGTH * sizeof("@ + k.dtype.cann_text() + ")"@,
        ),
        is_plain(k.name) ==> contains(
            reduce_kernel_text(k, api, mean_div),
            "void "@ + k.name + "("@,
        ),
{
    tokens_differ();
    surroundings_are_plain();
    types_are_plain(k.dtype);
    let puts = seq![
        ("__NAME__"@, k.name),
        ("__CLS__"@, class_text(k.name)),
        ("__T__"@, k.dtype.cann_text()),
        ("__API__"@, api),
        ("__MEAN_DIV__"@, mean_div),
    ];
    let t = reduce_template();
    reveal_with_fuel(put_all, 6);
    assert(puts.take(5).drop_last() == puts.take(4));
    assert(puts.take(4).drop_last() == puts.take(3));
    assert(puts.take(3).drop_last() == puts.take(2));
    assert(puts.take(2).drop_last() == puts.take(1));
    assert(puts.take(1).drop_last() == puts.take(0));
    assert(puts.take(5) == puts);
    assert(put_all(t, puts) == reduce_kernel_text(k, api, mean_div));
    assert(are_tokens(puts));
    reduce_holds_slots();
    if is_plain(class_text(k.name)) {
        value_is_put(t, puts, 5, 1, "class "@, " "@);
    }
    value_is_put(t, puts, 5, 2, ", TILE_LENGTH * sizeof("@, ")"@);
    if is_plain(k.name) {
        value_is_put(t, puts, 5, 0, "void "@, "("@);
    }
}

/// What the template of these kernels says once it is filled.
proof fn matmul_kernel_says(k: KernelModel, arch: GpuArch)
    ensures
        is_plain(class_text(k.name)) ==> contains(
            matmul_kernel_text(k, arch),
            "class "@ + class_text(k.name) + " "@,
        ),
        is_plain(k.name) ==> contains(
            matmul_kernel_text(k, arch),
            "void "@ + k.name + "("@,
        ),
{
    tokens_differ();
    surroundings_are_plain();
    let puts = seq![
        ("__NAME__"@, k.name),
        ("__CLS__"@, class_text(k.name)),
        ("__ARCH_NOTE__"@, matmul_note(arch)),
    ];
    let t = matmul_template();
    reveal_with_fuel(put_all, 4);
    assert(puts.take(3).drop_last() == puts.take(2));
    assert(puts.take(2).drop_last() == puts.take(1));
    assert(puts.take(1).drop_last() == puts.take(0));
    assert(puts.take(3) == puts);
    assert(put_all(t, puts) == matmul_kernel_text(k, arch));
    assert(are_tokens(puts));
    matmul_holds_slots();
    if is_plain(class_text(k.name)) {
        value_is_put(t, puts, 3, 1, "class "@, " "@);
    }
    if is_plain(k.name) {
        value_is_put(t, puts, 3, 0, "void "@, "("@);
    }
}

/// What the template of these kernels says once it is filled.
proof fn softmax_kernel_says(k: KernelModel)
    ensures
        is_plain(class_text(k.name)) ==> contains(
            softmax_kernel_text(k),
            "class "@ + class_text(k.name) + " "@,
        ),
        is_plain(k.name) ==> contains(
            softmax_kernel_text(k),
            "void "@ + k.name + "("@,
        ),
{
    tokens_differ();
    surroundings_are_plain();
    let puts = seq![
        ("__NAME__"@, k.name),
        ("__CLS__"@, class_text(k.name)),
    ];
    let t = softmax_template();
    reveal_with_fuel(put_all, 3);
    assert(puts.take(2).drop_last() == puts.take(1));
    assert(puts.take(1).drop_last() == puts.take(0));
    assert(puts.take(2) == puts);
    assert(put_all(t, puts) == softmax_kernel_text(k));
    assert(are_tokens(puts));
    softmax_holds_slots();
    if is_plain(class_text(k.name)) {
        value_is_put(t, puts, 2, 1, "class "@, " "@);
    }
    if is_plain(k.name) {
        value_is_put(t, puts, 2, 0, "void "@, "("@);
    }
}

/// What the template of these kernels says once it is filled.
proof fn layernorm_kernel_says(k: KernelModel, epsilon: Seq<char>)
    ensures
        is_plain(class_text(k.name)) ==> contains(
            layernorm_kernel_text(k, epsilon),
            "class "@ + class_text(k.name) + " "@,
        ),
        is_plain(epsilon) ==> contains(
            layernorm_kernel_text(k, epsilon),
            " Duplicate(epsT, (float)"@ + epsilon + ","@,
        ),
        is_plain(k.name) ==> contains(
            layernorm_kernel_text(k, epsilon),
            "void "@ + k.name + "("@,
        ),
{
    tokens_differ();
    surroundings_are_plain();
    let puts = seq![
        ("__NAME__"@, k.name),
        ("__CLS__"@, class_text(k.name)),
        ("__EPS__"@, epsilon),
    ];
    let t = layernorm_template();
    reveal_with_fuel(put_all, 4);
    assert(puts.take(3).drop_last() == puts.take(2));
    assert(puts.take(2).drop_last() == puts.take(1));
    assert(puts.take(1).drop_last() == puts.take(0));
    assert(puts.take(3) == puts);
    assert(put_all(t, puts) == layernorm_kernel_text(k, epsilon));
    assert(are_tokens(puts));
    layernorm_holds_slots();
    if is_plain(class_text(k.name)) {
        value_is_put(t, puts, 3, 1, "class "@, " "@);
    }
    if is_plain(epsilon) {
        value_is_put(t, puts, 3, 2, " Duplicate(epsT, (float)"@, ","@);
    }
    if is_plain(k.name) {
        value_is_put(t, puts, 3, 0, "void "@, "("@);
    }
}

/// What the template of these kernels says once it is filled.
proof fn conv_kernel_says(k: KernelModel)
    ensures
        is_plain(class_text(k.name)) ==> contains(
            conv_kernel_text(k),
            "class "@ + class_text(k.name) + " "@,
        ),
        is_plain(k.name) ==> contains(
            conv_kernel_text(k),
            "void "@ + k.name + "("@,
        ),
{
    tokens_differ();
    surroundings_are_plain();
    let puts = seq![
        ("__NAME__"@, k.name),
        ("__CLS__"@, class_text(k.name)),
    ];
    let t = conv_template();
    reveal_with_fuel(put_all, 3);
    assert(puts.take(2).drop_last() == puts.take(1));
    assert(puts.take(1).drop_last() == puts.take(0));
    assert(puts.take(2) == puts);
    assert(put_all(t, puts) == conv_kernel_text(k));
    assert(are_tokens(puts));
    conv_holds_slots();
    if is_plain(class_text(k.name)) {
        value_is_put(t, puts, 2, 1, "class "@, " "@);
    }
    if is_plain(k.name) {
        value_is_put(t, puts, 2, 0, "void "@, "("@);
    }
}

/// What the template of these kernels says once it is filled.
proof fn pool_kernel_says(k: KernelModel)
    ensures
        is_plain(class_text(k.name)) ==> contains(
            pool_kernel_text(k),
            "class "@ + class_text(k.name) + " "@,
        ),
        is_plain(k.name) ==> contains(
            pool_kernel_text(k),
            "void "@ + k.name + "("@,
        ),
{
    tokens_differ();
    surroundings_are_plain();
    let puts = seq![
        ("__NAME__"@, k.name),
        ("__CLS__"@, class_text(k.name)),
    ];
    let t = pool_template();
    reveal_with_fuel(put_all, 3);
    assert(puts.take(2).drop_last() == puts.take(1));
    assert(puts.take(1).drop_last() == puts.take(0));
    assert(puts.take(2) == puts);
    assert(put_all(t, puts) == pool_kernel_text(k));
    assert(are_tokens(puts));
    pool_holds_slots();
    if is_plain(class_text(k.name)) {
        value_is_put(t, puts, 2, 1, "class "@, " "@);
    }
    if is_plain(k.name) {
        value_is_put(t, puts, 2, 0, "void "@, "("@);
    }
}

/// What the template of these kernels says once it is filled.
proof fn reshape_kernel_says(k: KernelModel)
    ensures
        is_plain(class_text(k.name)) ==> contains(
            reshape_kernel_text(k),
            "class "@ + class_text(k.name) + " "@,
        ),
        contains(
            reshape_kernel_text(k),
            ", TILE_LENGTH * sizeof("@ + k.dtype.cann_text() + ")"@,
        ),
        is_plain(k.name) ==> contains(
            reshape_kernel_text(k),
            "void "@ + k.name + "("@,
        ),
{
    tokens_differ();
    surroundings_are_plain();
    types_are_plain(k.dtype);
    let puts = seq![
        ("__NAME__"@, k.name),
        ("__CLS__"@, class_text(k.name)),
        ("__T__"@, k.dtype.cann_text()),
    ];
    let t = reshape_template();
    reveal_with_fuel(put_all, 4);
    assert(puts.take(3).drop_last() == puts.take(2));
    assert(puts.take(2).drop_last() == puts.take(1));
    assert(puts.take(1).drop_last() == puts.take(0));
    assert(puts.take(3) == puts);
    assert(put_all(t, puts) == reshape_kernel_text(k));
    assert(are_tokens(puts));
    reshape_holds_slots();
    if is_plain(class_text(k.name)) {
        value_is_put(t, puts, 3, 1, "class "@, " "@);
    }
    value_is_put(t, puts, 3, 2, ", TILE_LENGTH * sizeof("@, ")"@);
    if is_plain(k.name) {
        value_is_put(t, puts, 3, 0, "void "@, "("@);
    }
}

/// What the template of these kernels says once it is filled.
proof fn transpose_kernel_says(k: KernelModel)
    ensures
        is_plain(class_text(k.name)) ==> contains(
            transpose_kernel_text(k),
            "class "@ + class_text(k.name) + " "@,
        ),
        contains(
            transpose_kernel_text(k),
            "inBuf, TILE_LENGTH * sizeof("@ + k.dtype.cann_text() + ")"@,
        ),
        is_plain(k.name) ==> contains(
            transpose_kernel_text(k),
            "void "@ + k.name + "("@,
        ),
{
    tokens_differ();
    surroundings_are_plain();
    types_are_plain(k.dtype);
    let puts = seq![
        ("__NAME__"@, k.name),
        ("__CLS__"@, class_text(k.name)),
        ("__T__"@, k.dtype.cann_text()),
    ];
    let t = transpose_template();
    reveal_with_fuel(put_all, 4);
    assert(puts.take(3).drop_last() == puts.take(2));
    assert(puts.take(2).drop_last() == puts.take(1));
    assert(puts.take(1).drop_last() == puts.take(0));
    assert(puts.take(3) == puts);
    assert(put_all(t, puts) == transpose_kernel_text(k));
    assert(are_tokens(puts));
    transpose_holds_slots();
    if is_plain(class_text(k.name)) {
        value_is_put(t, puts, 3, 1, "class "@, " "@);
    }
    value_is_put(t, puts, 3, 2, "inBuf, TILE_LENGTH * sizeof("@, ")"@);
    if is_plain(k.name) {
        value_is_put(t, puts, 3, 0, "void "@, "("@);
    }
}

/// What the template of these kernels says once it is filled.
proof fn concat_kernel_says(k: KernelModel)
    ensures
        contains(
            concat_kernel_text(k),
            "// 注: 通用版支持 "@ + dec(if k.inputs.len() > 2 {
                k.inputs.len()
            } else {
                2
            }) + " "@,
        ),
        is_plain(class_text(k.name)) ==> contains(
            concat_kernel_text(k),
            "class "@ + class_text(k.name) + " "@,
        ),
        contains(
            concat_kernel_text(k),
            "utBuf, TILE_LENGTH * sizeof("@ + k.dtype.cann_text() + ")"@,
        ),
        is_plain(k.name) ==> contains(
            concat_kernel_text(k),
            "void "@ + k.name + "("@,
        ),
{
    tokens_differ();
    surroundings_are_plain();
    numbers_are_plain(at_least_two(k.inputs.len()) as int);
    types_are_plain(k.dtype);
    let puts = seq![
        ("__NAME__"@, k.name),
        ("__CLS__"@, class_text(k.name)),
        ("__T__"@, k.dtype.cann_text()),
        ("__N_INPUTS__"@, dec(at_least_two(k.inputs.len()))),
    ];
    let t = concat_template();
    reveal_with_fuel(put_all, 5);
    assert(puts.take(4).drop_last() == puts.take(3));
    assert(puts.take(3).drop_last() == puts.take(2));
    assert(puts.take(2).drop_last() == puts.take(1));
    assert(puts.take(1).drop_last() == puts.take(0));
    assert(puts.take(4) == puts);
    assert(put_all(t, puts) == concat_kernel_text(k));
    assert(are_tokens(puts));
    concat_holds_slots();
    value_is_put(t, puts, 4, 3, "// 注: 通用版支持 "@, " "@);
    if is_plain(class_text(k.name)) {
        value_is_put(t, puts, 4, 1, "class "@, " "@);
    }
    value_is_put(t, puts, 4, 2, "utBuf, TILE_LENGTH * sizeof("@, ")"@);
    if is_plain(k.name) {
        value_is_put(t, puts, 4, 0, "void "@, "("@);
    }
}

/// What the template of these kernels says once it is filled.
proof fn slice_kernel_says(k: KernelModel)
    ensures
        is_plain(class_text(k.name)) ==> contains(
            slice_kernel_text(k),
            "class "@ + class_text(k.name) + " "@,
        ),
        contains(
            slice_kernel_text(k),
            "pe.InitBuffer(inBuf, sizeof("@ + k.dtype.cann_text() + ")"@,
        ),
        is_plain(k.name) ==> contains(
            slice_kernel_text(k),
            "void "@ + k.name + "("@,
        ),
{
    tokens_differ();
    surroundings_are_plain();
    types_are_plain(k.dtype);
    let puts = seq![
        ("__NAME__"@, k.name),
        ("__CLS__"@, class_text(k.name)),
        ("__T__"@, k.dtype.cann_text()),
    ];
    let t = slice_template();
    reveal_with_fuel(put_all, 4);
    assert(puts.take(3).drop_last() == puts.take(2));
    assert(puts.take(2).drop_last() == puts.take(1));
    assert(puts.take(1).drop_last() == puts.take(0));
    assert(puts.take(3) == puts);
    assert(put_all(t, puts) == slice_kernel_text(k));
    assert(are_tokens(puts));
    slice_holds_slots();
    if is_plain(class_text(k.name)) {
        value_is_put(t, puts, 3, 1, "class "@, " "@);
    }
    value_is_put(t, puts, 3, 2, "pe.InitBuffer(inBuf, sizeof("@, ")"@);
    if is_plain(k.name) {
        value_is_put(t, puts, 3, 0, "void "@, "("@);
    }
}

/// What the template of these kernels says once it is filled.
proof fn constant_kernel_says(k: KernelModel, value: Seq<char>)
    ensures
        is_plain(class_text(k.name)) ==> contains(
            constant_kernel_text(k, value),
            "class "@ + class_text(k.name) + " "@,
        ),
        contains(
            constant_kernel_text(k, value),
            ", TILE_LENGTH * sizeof("@ + k.dtype.cann_text() + ")"@,
        ),
        is_plain(value) ==> contains(
            constant_kernel_text(k, value),
            ")"@ + value + ","@,
        ),
        is_plain(k.name) ==> contains(
            constant_kernel_text(k, value),
            "void "@ + k.name + "("@,
        ),
{
    tokens_differ();
    surroundings_are_plain();
    types_are_plain(k.dtype);
    let puts = seq![
        ("__NAME__"@, k.name),
        ("__CLS__"@, class_text(k.name)),
        ("__T__"@, k.dtype.cann_text()),
        ("__VAL__"@, value),
    ];
    let t = constant_template();
    reveal_with_fuel(put_all, 5);
    assert(puts.take(4).drop_last() == puts.take(3));
    assert(puts.take(3).drop_last() == puts.take(2));
    assert(puts.take(2).drop_last() == puts.take(1));
    assert(puts.take(1).drop_last() == puts.take(0));
    assert(puts.take(4) == puts);
    assert(put_all(t, puts) == constant_kernel_text(k, value));
    assert(are_tokens(puts));
    constant_holds_slots();
    if is_plain(class_text(k.name)) {
        value_is_put(t, puts, 4, 1, "class "@, " "@);
    }
    value_is_put(t, puts, 4, 2, ", TILE_LENGTH * sizeof("@, ")"@);
    if is_plain(value) {
        value_is_put(t, puts, 4, 3, ")"@, ","@);
    }
    if is_plain(k.name) {
        value_is_put(t, puts, 4, 0, "void "@, "("@);
    }
}

/// What the template of these kernels says once it is filled.
proof fn placeholder_kernel_says(k: KernelModel)
    ensures
        is_plain(class_text(k.name)) ==> contains(
            placeholder_kernel_text(k),
            "class "@ + class_text(k.name) + " "@,
        ),
        contains(
            placeholder_kernel_text(k),
            ", TILE_LENGTH * sizeof("@ + k.dtype.cann_text() + ")"@,
        ),
        is_plain(k.name) ==> contains(
            placeholder_kernel_text(k),
            "void "@ + k.name + "("@,
        ),
{
    tokens_differ();
    surroundings_are_plain();
    types_are_plain(k.dtype);
    let puts = seq![
        ("__NAME__"@, k.name),
        ("__CLS__"@, class_text(k.name)),
        ("__T__"@, k.dtype.cann_text()),
    ];
    let t = placeholder_template();
    reveal_with_fuel(put_all, 4);
    assert(puts.take(3).drop_last() == puts.take(2));
    assert(puts.take(2).drop_last() == puts.take(1));
    assert(puts.take(1).drop_last() == puts.take(0));
    assert(puts.take(3) == puts);
    assert(put_all(t, puts) == placeholder_kernel_text(k));
    assert(are_tokens(puts));
    placeholder_holds_slots();
    if is_plain(class_text(k.name)) {
        value_is_put(t, puts, 3, 1, "class "@, " "@);
    }
    value_is_put(t, puts, 3, 2, ", TILE_LENGTH * sizeof("@, ")"@);
    if is_plain(k.name) {
        value_is_put(t, puts, 3, 0, "void "@, "("@);
    }
}

/// What the template of these kernels says once it is filled.
proof fn return_kernel_says(k: KernelModel)
    ensures
        is_plain(class_text(k.name)) ==> contains(
            return_kernel_text(k),
            "class "@ + class_text(k.name) + " "@,
        ),
        contains(
            return_kernel_text(k),
            ", TILE_LENGTH * sizeof("@ + k.dtype.cann_text() + ")"@,
        ),
        is_plain(k.name) ==> contains(
            return_kernel_text(k),
            "void "@ + k.name + "("@,
        ),
{
    tokens_differ();
    surroundings_are_plain();
    types_are_plain(k.dtype);
    let puts = seq![
        ("__NAME__"@, k.name),
        ("__CLS__"@, class_text(k.name)),
        ("__T__"@, k.dtype.cann_text()),
    ];
    let t = return_template();
    reveal_with_fuel(put_all, 4);
    assert(puts.take(3).drop_last() == puts.take(2));
    assert(puts.take(2).drop_last() == puts.take(1));
    assert(puts.take(1).drop_last() == puts.take(0));
    assert(puts.take(3) == puts);
    assert(put_all(t, puts) == return_kernel_text(k));
    assert(are_tokens(puts));
    return_holds_slots();
    if is_plain(class_text(k.name)) {
        value_is_put(t, puts, 3, 1, "class "@, " "@);
    }
    value_is_put(t, puts, 3, 2, ", TILE_LENGTH * sizeof("@, ")"@);
    if is_plain(k.name) {
        value_is_put(t, puts, 3, 0, "void "@, "("@);
    }
}

/// What the template of these kernels says once it is filled.
proof fn fused_kernel_says(k: KernelModel)
    ensures
        is_plain(chain(k.attrs.fused_ops)) ==> contains(
            fused_kernel_text(k),
            ": Fused（融合算子链: "@ + (if k.attrs.fused_ops.len() > 0 {
                joined(k.attrs.fused_ops, " -> "@)
            } else {
                "mul -> add -> relu"@
            }) + "）"@,
        ),
        is_plain(class_text(k.name)) ==> contains(
            fused_kernel_text(k),
            "class "@ + class_text(k.name) + " "@,
        ),
        contains(
            fused_kernel_text(k),
            ", TILE_LENGTH * sizeof("@ + k.dtype.cann_text() + ")"@,
        ),
        is_plain(k.name) ==> contains(
            fused_kernel_text(k),
            "void "@ + k.name + "("@,
        ),
{
    tokens_differ();
    surroundings_are_plain();
    types_are_plain(k.dtype);
    let puts = seq![
        ("__NAME__"@, k.name),
        ("__CLS__"@, class_text(k.name)),
        ("__T__"@, k.dtype.cann_text()),
        ("__OPS__"@, chain(k.attrs.fused_ops)),
    ];
    let t = fused_template();
    reveal_with_fuel(put_all, 5);
    assert(puts.take(4).drop_last() == puts.take(3));
    assert(puts.take(3).drop_last() == puts.take(2));
    assert(puts.take(2).drop_last() == puts.take(1));
    assert(puts.take(1).drop_last() == puts.take(0));
    assert(puts.take(4) == puts);
    assert(put_all(t, puts) == fused_kernel_text(k));
    assert(are_tokens(puts));
    fused_holds_slots();
    if is_plain(chain(k.attrs.fused_ops)) {
        value_is_put(t, puts, 4, 3, ": Fused（融合算子链: "@, "）"@);
    }
    if is_plain(class_text(k.name)) {
        value_is_put(t, puts, 4, 1, "class "@, " "@);
    }
    value_is_put(t, puts, 4, 2, ", TILE_LENGTH * sizeof("@, ")"@);
    if is_plain(k.name) {
        value_is_put(t, puts, 4, 0, "void "@, "("@);
    }
}

/// What the template of these kernels says once it is filled.
proof fn custom_kernel_says(k: KernelModel)
    ensures
        is_plain(named_or_unknown(k.attrs.custom_op_type)) ==> contains(
            custom_kernel_text(k),
            ": Custom op（原始 op_type = "@ + (if k.attrs.custom_op_type.len() > 0 {
                k.attrs.custom_op_type
            } else {
                "unknown"@
            }) + "）"@,
        ),
        is_plain(class_text(k.name)) ==> contains(
            custom_kernel_text(k),
            "class "@ + class_text(k.name) + " "@,
        ),
        contains(
            custom_kernel_text(k),
            ", TILE_LENGTH * sizeof("@ + k.dtype.cann_text() + ")"@,
        ),
        is_plain(k.name) ==> contains(
            custom_kernel_text(k),
            "void "@ + k.name + "("@,
        ),
{
    tokens_differ();
    surroundings_are_plain();
    types_are_plain(k.dtype);
    let puts = seq![
        ("__NAME__"@, k.name),
        ("__CLS__"@, class_text(k.name)),
        ("__T__"@, k.dtype.cann_text()),
        ("__OP_TYPE__"@, named_or_unknown(k.attrs.custom_op_type)),
    ];
    let t = custom_template();
    reveal_with_fuel(put_all, 5);
    assert(puts.take(4).drop_last() == puts.take(3));
    assert(puts.take(3).drop_last() == puts.take(2));
    assert(puts.take(2).drop_last() == puts.take(1));
    assert(puts.take(1).drop_last() == puts.take(0));
    assert(puts.take(4) == puts);
    assert(put_all(t, puts) == custom_kernel_text(k));
    assert(are_tokens(puts));
    custom_holds_slots();
    if is_plain(named_or_unknown(k.attrs.custom_op_type)) {
        value_is_put(t, puts, 4, 3, ": Custom op（原始 op_type = "@, "）"@);
    }
    if is_plain(class_text(k.name)) {
        value_is_put(t, puts, 4, 1, "class "@, " "@);
    }
    value_is_put(t, puts, 4, 2, ", TILE_LENGTH * sizeof("@, ")"@);
    if is_plain(k.name) {
        value_is_put(t, puts, 4, 0, "void "@, "("@);
    }
}

/// The source of a kernel for Add, Sub, Mul, Div or Pow holds the class that it
/// is in, its element type and its name, each in its place.
pub proof fn elem_binary_source_says(k: KernelModel, scalar: Seq<char>, arch: GpuArch)
    requires
        k.op == OpKind::Add || k.op == OpKind::Sub || k.op == OpKind::Mul || k.op == OpKind::Div || k.op == OpKind::Pow,
    ensures
        is_plain(class_text(k.name)) ==> contains(
            kernel_text(k, scalar, arch),
            "class "@ + class_text(k.name) + " "@,
        ),
        contains(
            kernel_text(k, scalar, arch),
            ", TILE_LENGTH * sizeof("@ + k.dtype.cann_text() + ")"@,
        ),
        is_plain(k.name) ==> contains(
            kernel_text(k, scalar, arch),
            "void "@ + k.name + "("@,
        ),
{
    match k.op {
        OpKind::Add => elem_binary_says(k, "Add"@),
        OpKind::Sub => elem_binary_says(k, "Sub"@),
        OpKind::Mul => elem_binary_says(k, "Mul"@),
        OpKind::Div => elem_binary_says(k, "Div"@),
        OpKind::Pow => elem_binary_says(k, "Pow"@),
        _ => {},
    }
}

/// The source of a kernel for Relu, Gelu, Sigmoid, Tanh, Sqrt, Exp, Log, Rsqrt,
/// Reciprocal or Abs holds the class that it is in, its element type and its
/// name, each in its place.
pub proof fn elem_unary_source_says(k: KernelModel, scalar: Seq<char>, arch: GpuArch)
    requires
        k.op == OpKind::Relu || k.op == OpKind::Gelu || k.op == OpKind::Sigmoid || k.op == OpKind::Tanh || k.op == OpKind::Sqrt || k.op == OpKind::Exp || k.op == OpKind::Log || k.op == OpKind::Rsqrt || k.op == OpKind::Reciprocal || k.op == OpKind::Abs,
    ensures
        is_plain(class_text(k.name)) ==> contains(
            kernel_text(k, scalar, arch),
            "class "@ + class_text(k.name) + " "@,
        ),
        contains(
            kernel_text(k, scalar, arch),
            ", TILE_LENGTH * sizeof("@ + k.dtype.cann_text() + ")"@,
        ),
        is_plain(k.name) ==> contains(
            kernel_text(k, scalar, arch),
            "void "@ + k.name + "("@,
        ),
{
    match k.op {
        OpKind::Relu => elem_unary_says(k, "Relu"@, "// AscendC::Relu 等价 Maxs(x, 0)"@),
        OpKind::Gelu => elem_unary_says(k, "Gelu"@, "// AscendC::Gelu 超越函数"@),
        OpKind::Sigmoid => elem_unary_says(k, "Sigmoid"@, "// AscendC::Sigmoid"@),
        OpKind::Tanh => elem_unary_says(k, "Tanh"@, "// AscendC::Tanh"@),
        OpKind::Sqrt => elem_unary_says(k, "Sqrt"@, "// AscendC::Sqrt"@),
        OpKind::Exp => elem_unary_says(k, "Exp"@, "// AscendC::Exp"@),
        OpKind::Log => elem_unary_says(k, "Log"@, "// AscendC::Log"@),
        OpKind::Rsqrt => elem_unary_says(k, "Rsqrt"@, "// AscendC::Rsqrt"@),
        OpKind::Reciprocal => elem_unary_says(k, "Reciprocal"@, "// AscendC::Reciprocal"@),
        OpKind::Abs => elem_unary_says(k, "Abs"@, "// AscendC::Abs"@),
        _ => {},
    }
}

/// The source of a kernel for ReduceSum, ReduceMean or ReduceMax holds the
/// class that it is in, its element type and its name, each in its place.
pub proof fn reduce_source_says(k: KernelModel, scalar: Seq<char>, arch: GpuArch)
    requires
        k.op == OpKind::ReduceSum || k.op == OpKind::ReduceMean || k.op == OpKind::ReduceMax,
    ensures
        is_plain(class_text(k.name)) ==> contains(
            kernel_text(k, scalar, arch),
            "class "@ + class_text(k.name) + " "@,
        ),
        contains(
            kernel_text(k, scalar, arch),
            ", TILE_LENGTH * sizeof("@ + k.dtype.cann_text() + ")"@,
        ),
        is_plain(k.name) ==> contains(
            kernel_text(k, scalar, arch),
            "void "@ + k.name + "("@,
        ),
{
    match k.op {
        OpKind::ReduceSum => reduce_kernel_says(k,
            "ReduceSum"@,
            "        // ReduceSum/ReduceMax：直接输出累加/最大值\n"@),
        OpKind::ReduceMean => reduce_kernel_says(k,
            "ReduceMean"@,
            "        // ReduceMean：除以 N 得均值\n        __T__ inv_n = (__T__)(1.0) / (__T__)reduceLen;\n        Muls(zLocal, zLocal, inv_n, 1);\n"@),
        OpKind::ReduceMax => reduce_kernel_says(k,
            "ReduceMax"@,
            "        // ReduceSum/ReduceMax：直接输出累加/最大值\n"@),
        _ => {},
    }
}

/// The source of a kernel for MatMul holds the class that it is in and its
/// name, each in its place.
pub proof fn matmul_source_says(k: KernelModel, scalar: Seq<char>, arch: GpuArch)
    requires
        k.op == OpKind::MatMul,
    ensures
        is_plain(class_text(k.name)) ==> contains(
            kernel_text(k, scalar, arch),
            "class "@ + class_text(k.name) + " "@,
        ),
        is_plain(k.name) ==> contains(
            kernel_text(k, scalar, arch),
            "void "@ + k.name + "("@,
        ),
{
    matmul_kernel_says(k, arch);
}

/// The source of a kernel for Softmax holds the class that it is in and its
/// name, each in its place.
pub proof fn softmax_source_says(k: KernelModel, scalar: Seq<char>, arch: GpuArch)
    requires
        k.op == OpKind::Softmax,
    ensures
        is_plain(class_text(k.name)) ==> contains(
            kernel_text(k, scalar, arch),
            "class "@ + class_text(k.name) + " "@,
        ),
        is_plain(k.name) ==> contains(
            kernel_text(k, scalar, arch),
            "void "@ + k.name + "("@,
        ),
{
    softmax_kernel_says(k);
}

/// The source of a kernel for LayerNorm holds the class that it is in, its
/// epsilon and its name, each in its place.
pub proof fn layernorm_source_says(k: KernelModel, scalar: Seq<char>, arch: GpuArch)
    requires
        k.op == OpKind::LayerNorm,
    ensures
        is_plain(class_text(k.name)) ==> contains(
            kernel_text(k, scalar, arch),
            "class "@ + class_text(k.name) + " "@,
        ),
        is_plain(scalar) ==> contains(
            kernel_text(k, scalar, arch),
            " Duplicate(epsT, (float)"@ + scalar + ","@,
        ),
        is_plain(k.name) ==> contains(
            kernel_text(k, scalar, arch),
            "void "@ + k.name + "("@,
        ),
{
    layernorm_kernel_says(k, scalar);
}

/// The source of a kernel for Conv holds the class that it is in and its name,
/// each in its place.
pub proof fn conv_source_says(k: KernelModel, scalar: Seq<char>, arch: GpuArch)
    requires
        k.op == OpKind::Conv,
    ensures
        is_plain(class_text(k.name)) ==> contains(
            kernel_text(k, scalar, arch),
            "class "@ + class_text(k.name) + " "@,
        ),
        is_plain(k.name) ==> contains(
            kernel_text(k, scalar, arch),
            "void "@ + k.name + "("@,
        ),
{
    conv_kernel_says(k);
}

/// The source of a kernel for Pool holds the class that it is in and its name,
/// each in its place.
pub proof fn pool_source_says(k: KernelModel, scalar: Seq<char>, arch: GpuArch)
    requires
        k.op == OpKind::Pool,
    ensures
        is_plain(class_text(k.name)) ==> contains(
            kernel_text(k, scalar, arch),
            "class "@ + class_text(k.name) + " "@,
        ),
        is_plain(k.name) ==> contains(
            kernel_text(k, scalar, arch),
            "void "@ + k.name + "("@,
        ),
{
    pool_kernel_says(k);
}

/// The source of a kernel for Reshape holds the class that it is in, its
/// element type and its name, each in its place.
pub proof fn reshape_source_says(k: KernelModel, scalar: Seq<char>, arch: GpuArch)
    requires
        k.op == OpKind::Reshape,
    ensures
        is_plain(class_text(k.name)) ==> contains(
            kernel_text(k, scalar, arch),
            "class "@ + class_text(k.name) + " "@,
        ),
        contains(
            kernel_text(k, scalar, arch),
            ", TILE_LENGTH * sizeof("@ + k.dtype.cann_text() + ")"@,
        ),
        is_plain(k.name) ==> contains(
            kernel_text(k, scalar, arch),
            "void "@ + k.name + "("@,
        ),
{
    reshape_kernel_says(k);
}

/// The source of a kernel for Transpose holds the class that it is in, its
/// element type and its name, each in its place.
pub proof fn transpose_source_says(k: KernelModel, scalar: Seq<char>, arch: GpuArch)
    requires
        k.op == OpKind::Transpose,
    ensures
        is_plain(class_text(k.name)) ==> contains(
            kernel_text(k, scalar, arch),
            "class "@ + class_text(k.name) + " "@,
        ),
        contains(
            kernel_text(k, scalar, arch),
            "inBuf, TILE_LENGTH * sizeof("@ + k.dtype.cann_text() + ")"@,
        ),
        is_plain(k.name) ==> contains(
            kernel_text(k, scalar, arch),
            "void "@ + k.name + "("@,
        ),
{
    transpose_kernel_says(k);
}

/// The source of a kernel for Concat holds how many inputs it has, at least
/// two, the class that it is in, its element type and its name, each in its
/// place.
pub proof fn concat_source_says(k: KernelModel, scalar: Seq<char>, arch: GpuArch)
    requires
        k.op == OpKind::Concat,
    ensures
        contains(
            kernel_text(k, scalar, arch),
            "// 注: 通用版支持 "@ + dec(if k.inputs.len() > 2 {
                k.inputs.len()
            } else {
                2
            }) + " "@,
        ),
        is_plain(class_text(k.name)) ==> contains(
            kernel_text(k, scalar, arch),
            "class "@ + class_text(k.name) + " "@,
        ),
        contains(
            kernel_text(k, scalar, arch),
            "utBuf, TILE_LENGTH * sizeof("@ + k.dtype.cann_text() + ")"@,
        ),
        is_plain(k.name) ==> contains(
            kernel_text(k, scalar, arch),
            "void "@ + k.name + "("@,
        ),
{
    concat_kernel_says(k);
}

/// The source of a kernel for Slice holds the class that it is in, its element
/// type and its name, each in its place.
pub proof fn slice_source_says(k: KernelModel, scalar: Seq<char>, arch: GpuArch)
    requires
        k.op == OpKind::Slice,
    ensures
        is_plain(class_text(k.name)) ==> contains(
            kernel_text(k, scalar, arch),
            "class "@ + class_text(k.name) + " "@,
        ),
        contains(
            kernel_text(k, scalar, arch),
            "pe.InitBuffer(inBuf, sizeof("@ + k.dtype.cann_text() + ")"@,
        ),
        is_plain(k.name) ==> contains(
            kernel_text(k, scalar, arch),
            "void "@ + k.name + "("@,
        ),
{
    slice_kernel_says(k);
}

/// The source of a kernel for Constant holds the class that it is in, its
/// element type, its value and its name, each in its place.
pub proof fn constant_source_says(k: KernelModel, scalar: Seq<char>, arch: GpuArch)
    requires
        k.op == OpKind::Constant,
    ensures
        is_plain(class_text(k.name)) ==> contains(
            kernel_text(k, scalar, arch),
            "class "@ + class_text(k.name) + " "@,
        ),
        contains(
            kernel_text(k, scalar, arch),
            ", TILE_LENGTH * sizeof("@ + k.dtype.cann_text() + ")"@,
        ),
        is_plain(scalar) ==> contains(
            kernel_text(k, scalar, arch),
            ")"@ + scalar + ","@,
        ),
        is_plain(k.name) ==> contains(
            kernel_text(k, scalar, arch),
            "void "@ + k.name + "("@,
        ),
{
    constant_kernel_says(k, scalar);
}

/// The source of a kernel for Placeholder holds the class that it is in, its
/// element type and its name, each in its place.
pub proof fn placeholder_source_says(k: KernelModel, scalar: Seq<char>, arch: GpuArch)
    requires
        k.op == OpKind::Placeholder,
    ensures
        is_plain(class_text(k.name)) ==> contains(
            kernel_text(k, scalar, arch),
            "class "@ + class_text(k.name) + " "@,
        ),
        contains(
            kernel_text(k, scalar, arch),
            ", TILE_LENGTH * sizeof("@ + k.dtype.cann_text() + ")"@,
        ),
        is_plain(k.name) ==> contains(
            kernel_text(k, scalar, arch),
            "void "@ + k.name + "("@,
        ),
{
    placeholder_kernel_says(k);
}

/// The source of a kernel for Return holds the class that it is in, its element
/// type and its name, each in its place.
pub proof fn return_source_says(k: KernelModel, scalar: Seq<char>, arch: GpuArch)
    requires
        k.op == OpKind::Return,
    ensures
        is_plain(class_text(k.name)) ==> contains(
            kernel_text(k, scalar, arch),
            "class "@ + class_text(k.name) + " "@,
        ),
        contains(
            kernel_text(k, scalar, arch),
            ", TILE_LENGTH * sizeof("@ + k.dtype.cann_text() + ")"@,
        ),
        is_plain(k.name) ==> contains(
            kernel_text(k, scalar, arch),
            "void "@ + k.name + "("@,
        ),
{
    return_kernel_says(k);
}

/// The source of a kernel for Fused holds its operators, the class that it is
/// in, its element type and its name, each in its place.
pub proof fn fused_source_says(k: KernelModel, scalar: Seq<char>, arch: GpuArch)
    requires
        k.op == OpKind::Fused,
    ensures
        is_plain(chain(k.attrs.fused_ops)) ==> contains(
            kernel_text(k, scalar, arch),
            ": Fused（融合算子链: "@ + (if k.attrs.fused_ops.len() > 0 {
                joined(k.attrs.fused_ops, " -> "@)
            } else {
                "mul -> add -> relu"@
            }) + "）"@,
        ),
        is_plain(class_text(k.name)) ==> contains(
            kernel_text(k, scalar, arch),
            "class "@ + class_text(k.name) + " "@,
        ),
        contains(
            kernel_text(k, scalar, arch),
            ", TILE_LENGTH * sizeof("@ + k.dtype.cann_text() + ")"@,
        ),
        is_plain(k.name) ==> contains(
            kernel_text(k, scalar, arch),
            "void "@ + k.name + "("@,
        ),
{
    fused_kernel_says(k);
}

/// The source of a kernel for Custom holds its operator, the class that it is
/// in, its element type and its name, each in its place.
pub proof fn custom_source_says(k: KernelModel, scalar: Seq<char>, arch: GpuArch)
    requires
        k.op == OpKind::Custom,
    ensures
        is_plain(named_or_unknown(k.attrs.custom_op_type)) ==> contains(
            kernel_text(k, scalar, arch),
            ": Custom op（原始 op_type = "@ + (if k.attrs.custom_op_type.len() > 0 {
                k.attrs.custom_op_type
            } else {
                "unknown"@
            }) + "）"@,
        ),
        is_plain(class_text(k.name)) ==> contains(
            kernel_text(k, scalar, arch),
            "class "@ + class_text(k.name) + " "@,
        ),
        contains(
            kernel_text(k, scalar, arch),
            ", TILE_LENGTH * sizeof("@ + k.dtype.cann_text() + ")"@,
        ),
        is_plain(k.name) ==> contains(
            kernel_text(k, scalar, arch),
            "void "@ + k.name + "("@,
        ),
{
    custom_kernel_says(k);
}

/// A class name behind a seam is that of the text behind it.
proof fn camel_behind(a: Seq<char>, b: Seq<char>, i: int, after: bool)
    requires
        a.len() <= i <= a.len() + b.len(),
    ensures
        camel(a + b, i, after) == camel(b, i - a.len(), after),
    decreases a.len() + b.len() - i,
{
    let s = a + b;
    if i < s.len() {
        assert(s[i] == b[i - a.len()]);
        camel_behind(a, b, i + 1, s[i] == '_');
    }
}

proof fn camel_before(a: Seq<char>, b: Seq<char>, i: int, after: bool)
    requires
        0 <= i <= a.len(),
    ensures
        camel(a + seq!['_'] + b, i, after) == camel(a, i, after) + camel(b, 0, true),
    decreases a.len() - i,
{
    let s = a + seq!['_'] + b;
    if i < a.len() {
        assert(s[i] == a[i]);
        camel_before(a, b, i + 1, a[i] == '_');
        if a[i] != '_' {
            let c = if after {
                upper(a[i])
            } else {
                a[i]
            };
            assert(seq![c] + (camel(a, i + 1, false) + camel(b, 0, true)) == (seq![c] + camel(
                a,
                i + 1,
                false,
            )) + camel(b, 0, true));
        }
    } else {
        assert(s[i] == '_');
        camel_behind(a + seq!['_'], b, i + 1, true);
        assert(camel(a, i, after) + camel(b, 0, true) == camel(b, 0, true));
    }
}

/// A word as it stands from `i` on.
proof fn camel_of_word(w: Seq<char>, i: int)
    requires
        0 <= i <= w.len(),
        forall|j: int| 0 <= j < w.len() ==> #[trigger] w[j] != '_',
    ensures
        camel(w, i, false) == w.skip(i),
    decreases w.len() - i,
{
    if i < w.len() {
        camel_of_word(w, i + 1);
        assert(seq![w[i]] + w.skip(i + 1) == w.skip(i));
    } else {
        assert(w.skip(i) == Seq::<char>::empty());
    }
}

/// The class name of a name in two parts with an underscore between them is made of
/// those of the parts, and that of a word is the word with its first letter in upper
/// case.
pub proof fn class_names_are_put_together(a: Seq<char>, b: Seq<char>, w: Seq<char>)
    requires
        w.len() > 0,
        forall|j: int| 0 <= j < w.len() ==> #[trigger] w[j] != '_',
    ensures
        class_text(a + seq!['_'] + b) == class_text(a) + class_text(b),
        class_text(w) == w.update(0, upper(w[0])),
{
    camel_before(a, b, 0, true);
    camel_of_word(w, 1);
    assert(seq![upper(w[0])] + w.skip(1) == w.update(0, upper(w[0])));
}

} // verus!
