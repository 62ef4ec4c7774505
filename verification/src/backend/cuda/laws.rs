//! What CUDA kernels say of the kernels they are made for.

use vstd::prelude::*;
use crate::backend::dialect::{contains, first_or, joined, named_or_unknown};
use crate::backend::filling::{
    are_tokens, is_fenced, is_plain, is_token, list_is_plain, numbers_are_plain, put_all,
    types_are_plain, value_is_put, word,
};
use crate::backend::spec::{DTypeExt, GpuArch, KernelModel, listed};
use crate::base::OpKind;
use crate::text::dec_int;
use super::{
    axis_or, concat_kernel_text, constant_kernel_text, conv_kernel_text, custom_kernel_text,
    elem_binary_text, elem_unary_text, fused, fused_kernel_text, fused_lines, kernel_text,
    layernorm_kernel_text, list_or, matmul_ampere_text, matmul_blackwell_text, matmul_hopper_text,
    pool_kernel_text, reduce_kernel_text, reshape_kernel_text, slice_kernel_text,
    softmax_kernel_text, tensor_init, transpose_kernel_text,
};
use super::templates::{
    concat_holds_slots, concat_template, constant_holds_slots, constant_template,
    conv_holds_slots, conv_template, custom_holds_slots, custom_template, elem_binary_holds_slots,
    elem_binary_template, elem_unary_holds_slots, elem_unary_template, fused_holds_slots,
    fused_template, layernorm_holds_slots, layernorm_template, matmul_ampere_holds_slots,
    matmul_ampere_template, matmul_blackwell_holds_slots, matmul_blackwell_template,
    matmul_hopper_holds_slots, matmul_hopper_template, pool_holds_slots, pool_template,
    reduce_holds_slots, reduce_template, reshape_holds_slots, reshape_template, slice_holds_slots,
    slice_template, softmax_holds_slots, softmax_template, transpose_holds_slots,
    transpose_template,
};

verus! {

/// The texts that are replaced in templates are tokens, and differ.
pub(crate) proof fn tokens_differ()
    ensures
        is_token("__NAME__"@),
        word("__NAME__"@) == ('N', 'A', 'E', 8nat),
        is_token("__T__"@),
        word("__T__"@) == ('T', '_', 'T', 5nat),
        is_token("__BODY__"@),
        word("__BODY__"@) == ('B', 'O', 'Y', 8nat),
        is_token("__EXPR__"@),
        word("__EXPR__"@) == ('E', 'X', 'R', 8nat),
        is_token("__LABEL__"@),
        word("__LABEL__"@) == ('L', 'A', 'L', 9nat),
        is_token("__IDENT__"@),
        word("__IDENT__"@) == ('I', 'D', 'T', 9nat),
        is_token("__COMBINE_RAW__"@),
        word("__COMBINE_RAW__"@) == ('C', 'O', 'W', 15nat),
        is_token("__COMBINE_TREE__"@),
        word("__COMBINE_TREE__"@) == ('C', 'O', 'E', 16nat),
        is_token("__FINALIZE__"@),
        word("__FINALIZE__"@) == ('F', 'I', 'E', 12nat),
        is_token("__AXIS__"@),
        word("__AXIS__"@) == ('A', 'X', 'S', 8nat),
        is_token("__EPSILON__"@),
        word("__EPSILON__"@) == ('E', 'P', 'N', 11nat),
        is_token("__STRIDE__"@),
        word("__STRIDE__"@) == ('S', 'T', 'E', 10nat),
        is_token("__PADDING__"@),
        word("__PADDING__"@) == ('P', 'A', 'G', 11nat),
        is_token("__DILATION__"@),
        word("__DILATION__"@) == ('D', 'I', 'N', 12nat),
        is_token("__GROUPS__"@),
        word("__GROUPS__"@) == ('G', 'R', 'S', 10nat),
        is_token("__KERNEL__"@),
        word("__KERNEL__"@) == ('K', 'E', 'L', 10nat),
        is_token("__STARTS__"@),
        word("__STARTS__"@) == ('S', 'T', 'S', 10nat),
        is_token("__ENDS__"@),
        word("__ENDS__"@) == ('E', 'N', 'S', 8nat),
        is_token("__STEPS__"@),
        word("__STEPS__"@) == ('S', 'T', 'S', 9nat),
        is_token("__VALUE__"@),
        word("__VALUE__"@) == ('V', 'A', 'E', 9nat),
        is_token("__TENSOR_INIT__"@),
        word("__TENSOR_INIT__"@) == ('T', 'E', 'T', 15nat),
        is_token("__OPS__"@),
        word("__OPS__"@) == ('O', 'P', 'S', 7nat),
        is_token("__CUSTOM_TYPE__"@),
        word("__CUSTOM_TYPE__"@) == ('C', 'U', 'E', 15nat),
{
    reveal_strlit("__NAME__");
    reveal_strlit("__T__");
    reveal_strlit("__BODY__");
    reveal_strlit("__EXPR__");
    reveal_strlit("__LABEL__");
    reveal_strlit("__IDENT__");
    reveal_strlit("__COMBINE_RAW__");
    reveal_strlit("__COMBINE_TREE__");
    reveal_strlit("__FINALIZE__");
    reveal_strlit("__AXIS__");
    reveal_strlit("__EPSILON__");
    reveal_strlit("__STRIDE__");
    reveal_strlit("__PADDING__");
    reveal_strlit("__DILATION__");
    reveal_strlit("__GROUPS__");
    reveal_strlit("__KERNEL__");
    reveal_strlit("__STARTS__");
    reveal_strlit("__ENDS__");
    reveal_strlit("__STEPS__");
    reveal_strlit("__VALUE__");
    reveal_strlit("__TENSOR_INIT__");
    reveal_strlit("__OPS__");
    reveal_strlit("__CUSTOM_TYPE__");
}

/// The texts around tokens are plain, and no token can begin or end in them.
pub(crate) proof fn surroundings_are_plain()
    ensures
        is_plain("// 原始 op_type: "@),
        is_fenced("// 原始 op_type: "@),
        is_plain("\n"@),
        is_fenced("\n"@),
        is_plain("void "@),
        is_fenced("void "@),
        is_plain("("@),
        is_fenced("("@),
        is_plain("* out, const "@),
        is_fenced("* out, const "@),
        is_plain("*"@),
        is_fenced("*"@),
        is_plain("// fused_ops: "@),
        is_fenced("// fused_ops: "@),
        is_plain(": Constant (把 value="@),
        is_fenced(": Constant (把 value="@),
        is_plain(" "@),
        is_fenced(" "@),
        is_plain("* out, "@),
        is_fenced("* out, "@),
        is_plain("// starts=["@),
        is_fenced("// starts=["@),
        is_plain("]"@),
        is_fenced("]"@),
        is_plain(", ends=["@),
        is_fenced(", ends=["@),
        is_plain(", steps=["@),
        is_fenced(", steps=["@),
        is_plain("const "@),
        is_fenced("const "@),
        is_plain(": Concat (按 axis="@),
        is_fenced(": Concat (按 axis="@),
        is_plain("// "@),
        is_fenced("// "@),
        is_plain(":"@),
        is_fenced(":"@),
        is_plain("// kernel_size="@),
        is_fenced("// kernel_size="@),
        is_plain(","@),
        is_fenced(","@),
        is_plain(" stride="@),
        is_fenced(" stride="@),
        is_plain(" padding="@),
        is_fenced(" padding="@),
        is_plain("int kernel = "@),
        is_fenced("int kernel = "@),
        is_plain(";"@),
        is_fenced(";"@),
        is_plain("int stride = "@),
        is_fenced("int stride = "@),
        is_plain("int padding = "@),
        is_fenced("int padding = "@),
        is_plain("// stride="@),
        is_fenced("// stride="@),
        is_plain(" dilation="@),
        is_fenced(" dilation="@),
        is_plain(" groups="@),
        is_fenced(" groups="@),
        is_plain("int groups = "@),
        is_fenced("int groups = "@),
        is_plain("int dilation = "@),
        is_fenced("int dilation = "@),
        is_plain("// axis="@),
        is_fenced("// axis="@),
        is_plain("float epsilon = "@),
        is_fenced("float epsilon = "@),
{
    reveal_strlit("// 原始 op_type: ");
    reveal_strlit("\n");
    reveal_strlit("void ");
    reveal_strlit("(");
    reveal_strlit("* out, const ");
    reveal_strlit("*");
    reveal_strlit("// fused_ops: ");
    reveal_strlit(": Constant (把 value=");
    reveal_strlit(" ");
    reveal_strlit("* out, ");
    reveal_strlit("// starts=[");
    reveal_strlit("]");
    reveal_strlit(", ends=[");
    reveal_strlit(", steps=[");
    reveal_strlit("const ");
    reveal_strlit(": Concat (按 axis=");
    reveal_strlit("// ");
    reveal_strlit(":");
    reveal_strlit("// kernel_size=");
    reveal_strlit(",");
    reveal_strlit(" stride=");
    reveal_strlit(" padding=");
    reveal_strlit("int kernel = ");
    reveal_strlit(";");
    reveal_strlit("int stride = ");
    reveal_strlit("int padding = ");
    reveal_strlit("// stride=");
    reveal_strlit(" dilation=");
    reveal_strlit(" groups=");
    reveal_strlit("int groups = ");
    reveal_strlit("int dilation = ");
    reveal_strlit("// axis=");
    reveal_strlit("float epsilon = ");
}

/// What the template of these kernels says once it is filled.
proof fn elem_binary_says(k: KernelModel, body: Seq<char>)
    ensures
        is_plain(k.name) ==> contains(
            elem_binary_text(k, body),
            "void "@ + k.name + "("@,
        ),
        contains(
            elem_binary_text(k, body),
            "const "@ + k.dtype.c_text() + "*"@,
        ),
{
    tokens_differ();
    surroundings_are_plain();
    types_are_plain(k.dtype);
    let puts = seq![
        ("__NAME__"@, k.name),
        ("__T__"@, k.dtype.c_text()),
        ("__BODY__"@, body),
    ];
    let t = elem_binary_template();
    reveal_with_fuel(put_all, 4);
    assert(puts.take(3).drop_last() == puts.take(2));
    assert(puts.take(2).drop_last() == puts.take(1));
    assert(puts.take(1).drop_last() == puts.take(0));
    assert(puts.take(3) == puts);
    assert(put_all(t, puts) == elem_binary_text(k, body));
    assert(are_tokens(puts));
    elem_binary_holds_slots();
    if is_plain(k.name) {
        value_is_put(t, puts, 3, 0, "void "@, "("@);
    }
    value_is_put(t, puts, 3, 1, "const "@, "*"@);
}

/// What the template of these kernels says once it is filled.
proof fn elem_unary_says(k: KernelModel, expr: Seq<char>)
    ensures
        is_plain(k.name) ==> contains(
            elem_unary_text(k, expr),
            "void "@ + k.name + "("@,
        ),
        contains(
            elem_unary_text(k, expr),
            "const "@ + k.dtype.c_text() + "*"@,
        ),
{
    tokens_differ();
    surroundings_are_plain();
    types_are_plain(k.dtype);
    let puts = seq![
        ("__NAME__"@, k.name),
        ("__T__"@, k.dtype.c_text()),
        ("__EXPR__"@, expr),
    ];
    let t = elem_unary_template();
    reveal_with_fuel(put_all, 4);
    assert(puts.take(3).drop_last() == puts.take(2));
    assert(puts.take(2).drop_last() == puts.take(1));
    assert(puts.take(1).drop_last() == puts.take(0));
    assert(puts.take(3) == puts);
    assert(put_all(t, puts) == elem_unary_text(k, expr));
    assert(are_tokens(puts));
    elem_unary_holds_slots();
    if is_plain(k.name) {
        value_is_put(t, puts, 3, 0, "void "@, "("@);
    }
    value_is_put(t, puts, 3, 1, "const "@, "*"@);
}

/// What the template of these kernels says once it is filled.
proof fn reduce_kernel_says(k: KernelModel, label: Seq<char>, identity: Seq<char>, combine_raw: Seq<char>, combine_tree: Seq<char>, finalize: Seq<char>)
    ensures
        is_plain(k.name) ==> contains(
            reduce_kernel_text(k, label, identity, combine_raw, combine_tree, finalize),
            "void "@ + k.name + "("@,
        ),
        contains(
            reduce_kernel_text(k, label, identity, combine_raw, combine_tree, finalize),
            "const "@ + k.dtype.c_text() + "*"@,
        ),
{
    tokens_differ();
    surroundings_are_plain();
    types_are_plain(k.dtype);
    let puts = seq![
        ("__NAME__"@, k.name),
        ("__LABEL__"@, label),
        ("__T__"@, k.dtype.c_text()),
        ("__IDENT__"@, identity),
        ("__COMBINE_RAW__"@, combine_raw),
        ("__COMBINE_TREE__"@, combine_tree),
        ("__FINALIZE__"@, finalize),
    ];
    let t = reduce_template();
    reveal_with_fuel(put_all, 8);
    assert(puts.take(7).drop_last() == puts.take(6));
    assert(puts.take(6).drop_last() == puts.take(5));
    assert(puts.take(5).drop_last() == puts.take(4));
    assert(puts.take(4).drop_last() == puts.take(3));
    assert(puts.take(3).drop_last() == puts.take(2));
    assert(puts.take(2).drop_last() == puts.take(1));
    assert(puts.take(1).drop_last() == puts.take(0));
    assert(puts.take(7) == puts);
    assert(put_all(t, puts) == reduce_kernel_text(k, label, identity, combine_raw, combine_tree, finalize));
    assert(are_tokens(puts));
    reduce_holds_slots();
    if is_plain(k.name) {
        value_is_put(t, puts, 7, 0, "void "@, "("@);
    }
    value_is_put(t, puts, 7, 2, "const "@, "*"@);
}

/// What the template of these kernels says once it is filled.
proof fn matmul_ampere_says(k: KernelModel)
    ensures
        is_plain(k.name) ==> contains(
            matmul_ampere_text(k),
            "void "@ + k.name + "("@,
        ),
{
    tokens_differ();
    surroundings_are_plain();
    let puts = seq![
        ("__NAME__"@, k.name),
    ];
    let t = matmul_ampere_template();
    reveal_with_fuel(put_all, 2);
    assert(puts.take(1).drop_last() == puts.take(0));
    assert(puts.take(1) == puts);
    assert(put_all(t, puts) == matmul_ampere_text(k));
    assert(are_tokens(puts));
    matmul_ampere_holds_slots();
    if is_plain(k.name) {
        value_is_put(t, puts, 1, 0, "void "@, "("@);
    }
}

/// What the template of these kernels says once it is filled.
proof fn matmul_hopper_says(k: KernelModel)
    ensures
        is_plain(k.name) ==> contains(
            matmul_hopper_text(k),
            "void "@ + k.name + "("@,
        ),
{
    tokens_differ();
    surroundings_are_plain();
    let puts = seq![
        ("__NAME__"@, k.name),
    ];
    let t = matmul_hopper_template();
    reveal_with_fuel(put_all, 2);
    assert(puts.take(1).drop_last() == puts.take(0));
    assert(puts.take(1) == puts);
    assert(put_all(t, puts) == matmul_hopper_text(k));
    assert(are_tokens(puts));
    matmul_hopper_holds_slots();
    if is_plain(k.name) {
        value_is_put(t, puts, 1, 0, "void "@, "("@);
    }
}

/// What the template of these kernels says once it is filled.
proof fn matmul_blackwell_says(k: KernelModel)
    ensures
        is_plain(k.name) ==> contains(
            matmul_blackwell_text(k),
            "void "@ + k.name + "("@,
        ),
{
    tokens_differ();
    surroundings_are_plain();
    let puts = seq![
        ("__NAME__"@, k.name),
    ];
    let t = matmul_blackwell_template();
    reveal_with_fuel(put_all, 2);
    assert(puts.take(1).drop_last() == puts.take(0));
    assert(puts.take(1) == puts);
    assert(put_all(t, puts) == matmul_blackwell_text(k));
    assert(are_tokens(puts));
    matmul_blackwell_holds_slots();
    if is_plain(k.name) {
        value_is_put(t, puts, 1, 0, "void "@, "("@);
    }
}

/// What the template of these kernels says once it is filled.
proof fn softmax_kernel_says(k: KernelModel)
    ensures
        contains(
            softmax_kernel_text(k),
            "// axis="@ + dec_int(match k.attrs.axis {
                Some(a) => a as int,
                None => -1,
            }) + "\n"@,
        ),
        is_plain(k.name) ==> contains(
            softmax_kernel_text(k),
            "void "@ + k.name + "("@,
        ),
{
    tokens_differ();
    surroundings_are_plain();
    numbers_are_plain(axis_or(k.attrs.axis, -1i64) as int);
    let puts = seq![
        ("__NAME__"@, k.name),
        ("__AXIS__"@, dec_int(axis_or(k.attrs.axis, -1i64) as int)),
    ];
    let t = softmax_template();
    reveal_with_fuel(put_all, 3);
    assert(puts.take(2).drop_last() == puts.take(1));
    assert(puts.take(1).drop_last() == puts.take(0));
    assert(puts.take(2) == puts);
    assert(put_all(t, puts) == softmax_kernel_text(k));
    assert(are_tokens(puts));
    softmax_holds_slots();
    value_is_put(t, puts, 2, 1, "// axis="@, "\n"@);
    if is_plain(k.name) {
        value_is_put(t, puts, 2, 0, "void "@, "("@);
    }
}

/// What the template of these kernels says once it is filled.
proof fn layernorm_kernel_says(k: KernelModel, epsilon: Seq<char>)
    ensures
        contains(
            layernorm_kernel_text(k, epsilon),
            "// axis="@ + dec_int(match k.attrs.axis {
                Some(a) => a as int,
                None => -1,
            }) + ","@,
        ),
        is_plain(k.name) ==> contains(
            layernorm_kernel_text(k, epsilon),
            "void "@ + k.name + "("@,
        ),
        is_plain(epsilon) ==> contains(
            layernorm_kernel_text(k, epsilon),
            "float epsilon = "@ + epsilon + ";"@,
        ),
{
    tokens_differ();
    surroundings_are_plain();
    numbers_are_plain(axis_or(k.attrs.axis, -1i64) as int);
    let puts = seq![
        ("__NAME__"@, k.name),
        ("__AXIS__"@, dec_int(axis_or(k.attrs.axis, -1i64) as int)),
        ("__EPSILON__"@, epsilon),
    ];
    let t = layernorm_template();
    reveal_with_fuel(put_all, 4);
    assert(puts.take(3).drop_last() == puts.take(2));
    assert(puts.take(2).drop_last() == puts.take(1));
    assert(puts.take(1).drop_last() == puts.take(0));
    assert(puts.take(3) == puts);
    assert(put_all(t, puts) == layernorm_kernel_text(k, epsilon));
    assert(are_tokens(puts));
    layernorm_holds_slots();
    value_is_put(t, puts, 3, 1, "// axis="@, ","@);
    if is_plain(k.name) {
        value_is_put(t, puts, 3, 0, "void "@, "("@);
    }
    if is_plain(epsilon) {
        value_is_put(t, puts, 3, 2, "float epsilon = "@, ";"@);
    }
}

/// What the template of these kernels says once it is filled.
proof fn conv_kernel_says(k: KernelModel)
    ensures
        is_plain(k.name) ==> contains(
            conv_kernel_text(k),
            "// "@ + k.name + ":"@,
        ),
        contains(
            conv_kernel_text(k),
            "// stride="@ + dec_int(if k.attrs.conv_stride.len() > 0 {
                k.attrs.conv_stride[0] as i32 as int
            } else {
                1
            }) + ","@,
        ),
        contains(
            conv_kernel_text(k),
            " padding="@ + dec_int(if k.attrs.conv_padding.len() > 0 {
                k.attrs.conv_padding[0] as i32 as int
            } else {
                0
            }) + ","@,
        ),
        contains(
            conv_kernel_text(k),
            " dilation="@ + dec_int(if k.attrs.conv_dilation.len() > 0 {
                k.attrs.conv_dilation[0] as i32 as int
            } else {
                1
            }) + ","@,
        ),
        contains(
            conv_kernel_text(k),
            " groups="@ + dec_int(match k.attrs.conv_groups {
                Some(a) => a as i32 as int,
                None => 1,
            }) + "\n"@,
        ),
        is_plain(k.name) ==> contains(
            conv_kernel_text(k),
            "void "@ + k.name + "("@,
        ),
        contains(
            conv_kernel_text(k),
            "int groups = "@ + dec_int(match k.attrs.conv_groups {
                Some(a) => a as i32 as int,
                None => 1,
            }) + ";"@,
        ),
        contains(
            conv_kernel_text(k),
            "int stride = "@ + dec_int(if k.attrs.conv_stride.len() > 0 {
                k.attrs.conv_stride[0] as i32 as int
            } else {
                1
            }) + ";"@,
        ),
        contains(
            conv_kernel_text(k),
            "int padding = "@ + dec_int(if k.attrs.conv_padding.len() > 0 {
                k.attrs.conv_padding[0] as i32 as int
            } else {
                0
            }) + ";"@,
        ),
        contains(
            conv_kernel_text(k),
            "int dilation = "@ + dec_int(if k.attrs.conv_dilation.len() > 0 {
                k.attrs.conv_dilation[0] as i32 as int
            } else {
                1
            }) + ";"@,
        ),
{
    tokens_differ();
    surroundings_are_plain();
    numbers_are_plain(first_or(k.attrs.conv_stride, 1) as int);
    numbers_are_plain(first_or(k.attrs.conv_padding, 0) as int);
    numbers_are_plain(first_or(k.attrs.conv_dilation, 1) as int);
    numbers_are_plain(axis_or(k.attrs.conv_groups, 1) as i32 as int);
    let puts = seq![
        ("__NAME__"@, k.name),
        ("__STRIDE__"@, dec_int(first_or(k.attrs.conv_stride, 1) as int)),
        ("__PADDING__"@, dec_int(first_or(k.attrs.conv_padding, 0) as int)),
        ("__DILATION__"@, dec_int(first_or(k.attrs.conv_dilation, 1) as int)),
        ("__GROUPS__"@, dec_int(axis_or(k.attrs.conv_groups, 1) as i32 as int)),
    ];
    let t = conv_template();
    reveal_with_fuel(put_all, 6);
    assert(puts.take(5).drop_last() == puts.take(4));
    assert(puts.take(4).drop_last() == puts.take(3));
    assert(puts.take(3).drop_last() == puts.take(2));
    assert(puts.take(2).drop_last() == puts.take(1));
    assert(puts.take(1).drop_last() == puts.take(0));
    assert(puts.take(5) == puts);
    assert(put_all(t, puts) == conv_kernel_text(k));
    assert(are_tokens(puts));
    conv_holds_slots();
    if is_plain(k.name) {
        value_is_put(t, puts, 5, 0, "// "@, ":"@);
    }
    value_is_put(t, puts, 5, 1, "// stride="@, ","@);
    value_is_put(t, puts, 5, 2, " padding="@, ","@);
    value_is_put(t, puts, 5, 3, " dilation="@, ","@);
    value_is_put(t, puts, 5, 4, " groups="@, "\n"@);
    if is_plain(k.name) {
        value_is_put(t, puts, 5, 0, "void "@, "("@);
    }
    value_is_put(t, puts, 5, 4, "int groups = "@, ";"@);
    value_is_put(t, puts, 5, 1, "int stride = "@, ";"@);
    value_is_put(t, puts, 5, 2, "int padding = "@, ";"@);
    value_is_put(t, puts, 5, 3, "int dilation = "@, ";"@);
}

/// What the template of these kernels says once it is filled.
proof fn pool_kernel_says(k: KernelModel)
    ensures
        is_plain(k.name) ==> contains(
            pool_kernel_text(k),
            "// "@ + k.name + ":"@,
        ),
        contains(
            pool_kernel_text(k),
            "// kernel_size="@ + dec_int(if k.attrs.pool_kernel.len() > 0 {
                k.attrs.pool_kernel[0] as i32 as int
            } else {
                2
            }) + ","@,
        ),
        contains(
            pool_kernel_text(k),
            " stride="@ + dec_int(if k.attrs.pool_stride.len() > 0 {
                k.attrs.pool_stride[0] as i32 as int
            } else {
                1
            }) + ","@,
        ),
        contains(
            pool_kernel_text(k),
            " padding="@ + dec_int(if k.attrs.pool_padding.len() > 0 {
                k.attrs.pool_padding[0] as i32 as int
            } else {
                0
            }) + "\n"@,
        ),
        is_plain(k.name) ==> contains(
            pool_kernel_text(k),
            "void "@ + k.name + "("@,
        ),
        contains(
            pool_kernel_text(k),
            "int kernel = "@ + dec_int(if k.attrs.pool_kernel.len() > 0 {
                k.attrs.pool_kernel[0] as i32 as int
            } else {
                2
            }) + ";"@,
        ),
        contains(
            pool_kernel_text(k),
            "int stride = "@ + dec_int(if k.attrs.pool_stride.len() > 0 {
                k.attrs.pool_stride[0] as i32 as int
            } else {
                1
            }) + ";"@,
        ),
        contains(
            pool_kernel_text(k),
            "int padding = "@ + dec_int(if k.attrs.pool_padding.len() > 0 {
                k.attrs.pool_padding[0] as i32 as int
            } else {
                0
            }) + ";"@,
        ),
{
    tokens_differ();
    surroundings_are_plain();
    numbers_are_plain(first_or(k.attrs.pool_kernel, 2) as int);
    numbers_are_plain(first_or(k.attrs.pool_stride, 1) as int);
    numbers_are_plain(first_or(k.attrs.pool_padding, 0) as int);
    let puts = seq![
        ("__NAME__"@, k.name),
        ("__KERNEL__"@, dec_int(first_or(k.attrs.pool_kernel, 2) as int)),
        ("__STRIDE__"@, dec_int(first_or(k.attrs.pool_stride, 1) as int)),
        ("__PADDING__"@, dec_int(first_or(k.attrs.pool_padding, 0) as int)),
    ];
    let t = pool_template();
    reveal_with_fuel(put_all, 5);
    assert(puts.take(4).drop_last() == puts.take(3));
    assert(puts.take(3).drop_last() == puts.take(2));
    assert(puts.take(2).drop_last() == puts.take(1));
    assert(puts.take(1).drop_last() == puts.take(0));
    assert(puts.take(4) == puts);
    assert(put_all(t, puts) == pool_kernel_text(k));
    assert(are_tokens(puts));
    pool_holds_slots();
    if is_plain(k.name) {
        value_is_put(t, puts, 4, 0, "// "@, ":"@);
    }
    value_is_put(t, puts, 4, 1, "// kernel_size="@, ","@);
    value_is_put(t, puts, 4, 2, " stride="@, ","@);
    value_is_put(t, puts, 4, 3, " padding="@, "\n"@);
    if is_plain(k.name) {
        value_is_put(t, puts, 4, 0, "void "@, "("@);
    }
    value_is_put(t, puts, 4, 1, "int kernel = "@, ";"@);
    value_is_put(t, puts, 4, 2, "int stride = "@, ";"@);
    value_is_put(t, puts, 4, 3, "int padding = "@, ";"@);
}

/// What the template of these kernels says once it is filled.
proof fn reshape_kernel_says(k: KernelModel)
    ensures
        is_plain(k.name) ==> contains(
            reshape_kernel_text(k),
            "void "@ + k.name + "("@,
        ),
        contains(
            reshape_kernel_text(k),
            "const "@ + k.dtype.c_text() + "*"@,
        ),
{
    tokens_differ();
    surroundings_are_plain();
    types_are_plain(k.dtype);
    let puts = seq![
        ("__NAME__"@, k.name),
        ("__T__"@, k.dtype.c_text()),
    ];
    let t = reshape_template();
    reveal_with_fuel(put_all, 3);
    assert(puts.take(2).drop_last() == puts.take(1));
    assert(puts.take(1).drop_last() == puts.take(0));
    assert(puts.take(2) == puts);
    assert(put_all(t, puts) == reshape_kernel_text(k));
    assert(are_tokens(puts));
    reshape_holds_slots();
    if is_plain(k.name) {
        value_is_put(t, puts, 2, 0, "void "@, "("@);
    }
    value_is_put(t, puts, 2, 1, "const "@, "*"@);
}

/// What the template of these kernels says once it is filled.
proof fn transpose_kernel_says(k: KernelModel)
    ensures
        is_plain(k.name) ==> contains(
            transpose_kernel_text(k),
            "void "@ + k.name + "("@,
        ),
        contains(
            transpose_kernel_text(k),
            "const "@ + k.dtype.c_text() + "*"@,
        ),
{
    tokens_differ();
    surroundings_are_plain();
    types_are_plain(k.dtype);
    let puts = seq![
        ("__NAME__"@, k.name),
        ("__T__"@, k.dtype.c_text()),
    ];
    let t = transpose_template();
    reveal_with_fuel(put_all, 3);
    assert(puts.take(2).drop_last() == puts.take(1));
    assert(puts.take(1).drop_last() == puts.take(0));
    assert(puts.take(2) == puts);
    assert(put_all(t, puts) == transpose_kernel_text(k));
    assert(are_tokens(puts));
    transpose_holds_slots();
    if is_plain(k.name) {
        value_is_put(t, puts, 2, 0, "void "@, "("@);
    }
    value_is_put(t, puts, 2, 1, "const "@, "*"@);
}

/// What the template of these kernels says once it is filled.
proof fn concat_kernel_says(k: KernelModel)
    ensures
        contains(
            concat_kernel_text(k),
            ": Concat (按 axis="@ + dec_int(match k.attrs.axis {
                Some(a) => a as int,
                None => 0,
            }) + " "@,
        ),
        is_plain(k.name) ==> contains(
            concat_kernel_text(k),
            "void "@ + k.name + "("@,
        ),
        contains(
            concat_kernel_text(k),
            "const "@ + k.dtype.c_text() + "*"@,
        ),
{
    tokens_differ();
    surroundings_are_plain();
    numbers_are_plain(axis_or(k.attrs.axis, 0) as int);
    types_are_plain(k.dtype);
    let puts = seq![
        ("__NAME__"@, k.name),
        ("__AXIS__"@, dec_int(axis_or(k.attrs.axis, 0) as int)),
        ("__T__"@, k.dtype.c_text()),
    ];
    let t = concat_template();
    reveal_with_fuel(put_all, 4);
    assert(puts.take(3).drop_last() == puts.take(2));
    assert(puts.take(2).drop_last() == puts.take(1));
    assert(puts.take(1).drop_last() == puts.take(0));
    assert(puts.take(3) == puts);
    assert(put_all(t, puts) == concat_kernel_text(k));
    assert(are_tokens(puts));
    concat_holds_slots();
    value_is_put(t, puts, 3, 1, ": Concat (按 axis="@, " "@);
    if is_plain(k.name) {
        value_is_put(t, puts, 3, 0, "void "@, "("@);
    }
    value_is_put(t, puts, 3, 2, "const "@, "*"@);
}

/// What the template of these kernels says once it is filled.
proof fn slice_kernel_says(k: KernelModel)
    ensures
        contains(
            slice_kernel_text(k),
            "// starts=["@ + (if k.attrs.slice_starts.len() > 0 {
                listed(k.attrs.slice_starts, ", "@)
            } else {
                "0"@
            }) + "]"@,
        ),
        contains(
            slice_kernel_text(k),
            ", ends=["@ + (if k.attrs.slice_ends.len() > 0 {
                listed(k.attrs.slice_ends, ", "@)
            } else {
                "-1"@
            }) + "]"@,
        ),
        contains(
            slice_kernel_text(k),
            ", steps=["@ + (if k.attrs.slice_steps.len() > 0 {
                listed(k.attrs.slice_steps, ", "@)
            } else {
                "1"@
            }) + "]"@,
        ),
        is_plain(k.name) ==> contains(
            slice_kernel_text(k),
            "void "@ + k.name + "("@,
        ),
        contains(
            slice_kernel_text(k),
            "const "@ + k.dtype.c_text() + "*"@,
        ),
{
    tokens_differ();
    surroundings_are_plain();
    reveal_strlit("0");
    list_is_plain(k.attrs.slice_starts, "0"@);
    reveal_strlit("-1");
    list_is_plain(k.attrs.slice_ends, "-1"@);
    reveal_strlit("1");
    list_is_plain(k.attrs.slice_steps, "1"@);
    types_are_plain(k.dtype);
    let puts = seq![
        ("__NAME__"@, k.name),
        ("__STARTS__"@, list_or(k.attrs.slice_starts, "0"@)),
        ("__ENDS__"@, list_or(k.attrs.slice_ends, "-1"@)),
        ("__STEPS__"@, list_or(k.attrs.slice_steps, "1"@)),
        ("__T__"@, k.dtype.c_text()),
    ];
    let t = slice_template();
    reveal_with_fuel(put_all, 6);
    assert(puts.take(5).drop_last() == puts.take(4));
    assert(puts.take(4).drop_last() == puts.take(3));
    assert(puts.take(3).drop_last() == puts.take(2));
    assert(puts.take(2).drop_last() == puts.take(1));
    assert(puts.take(1).drop_last() == puts.take(0));
    assert(puts.take(5) == puts);
    assert(put_all(t, puts) == slice_kernel_text(k));
    assert(are_tokens(puts));
    slice_holds_slots();
    value_is_put(t, puts, 5, 1, "// starts=["@, "]"@);
    value_is_put(t, puts, 5, 2, ", ends=["@, "]"@);
    value_is_put(t, puts, 5, 3, ", steps=["@, "]"@);
    if is_plain(k.name) {
        value_is_put(t, puts, 5, 0, "void "@, "("@);
    }
    value_is_put(t, puts, 5, 4, "const "@, "*"@);
}

/// What the template of these kernels says once it is filled.
proof fn constant_kernel_says(k: KernelModel, value: Seq<char>)
    ensures
        is_plain(value) ==> contains(
            constant_kernel_text(k, value),
            ": Constant (把 value="@ + value + " "@,
        ),
        is_plain(k.name) ==> contains(
            constant_kernel_text(k, value),
            "void "@ + k.name + "("@,
        ),
        contains(
            constant_kernel_text(k, value),
            "* out, "@ + k.dtype.c_text() + " "@,
        ),
{
    tokens_differ();
    surroundings_are_plain();
    types_are_plain(k.dtype);
    let puts = seq![
        ("__NAME__"@, k.name),
        ("__T__"@, k.dtype.c_text()),
        ("__VALUE__"@, value),
        ("__TENSOR_INIT__"@, tensor_init(k.attrs.tensor_data.len())),
    ];
    let t = constant_template();
    reveal_with_fuel(put_all, 5);
    assert(puts.take(4).drop_last() == puts.take(3));
    assert(puts.take(3).drop_last() == puts.take(2));
    assert(puts.take(2).drop_last() == puts.take(1));
    assert(puts.take(1).drop_last() == puts.take(0));
    assert(puts.take(4) == puts);
    assert(put_all(t, puts) == constant_kernel_text(k, value));
    assert(are_tokens(puts));
    constant_holds_slots();
    if is_plain(value) {
        value_is_put(t, puts, 4, 2, ": Constant (把 value="@, " "@);
    }
    if is_plain(k.name) {
        value_is_put(t, puts, 4, 0, "void "@, "("@);
    }
    value_is_put(t, puts, 4, 1, "* out, "@, " "@);
}

/// What the template of these kernels says once it is filled.
proof fn fused_kernel_says(k: KernelModel)
    ensures
        is_plain(joined(fused(k.attrs.fused_ops), ", "@)) ==> contains(
            fused_kernel_text(k),
            "// fused_ops: "@ + (if k.attrs.fused_ops.len() > 0 {
                joined(k.attrs.fused_ops, ", "@)
            } else {
                "identity"@
            }) + "\n"@,
        ),
        is_plain(k.name) ==> contains(
            fused_kernel_text(k),
            "void "@ + k.name + "("@,
        ),
{
    tokens_differ();
    surroundings_are_plain();
    let puts = seq![
        ("__NAME__"@, k.name),
        ("__OPS__"@, joined(fused(k.attrs.fused_ops), ", "@)),
        ("__BODY__"@, fused_lines(fused(k.attrs.fused_ops))),
    ];
    let t = fused_template();
    reveal_with_fuel(put_all, 4);
    assert(puts.take(3).drop_last() == puts.take(2));
    assert(puts.take(2).drop_last() == puts.take(1));
    assert(puts.take(1).drop_last() == puts.take(0));
    assert(puts.take(3) == puts);
    assert(put_all(t, puts) == fused_kernel_text(k));
    assert(are_tokens(puts));
    fused_holds_slots();
    if is_plain(joined(fused(k.attrs.fused_ops), ", "@)) {
        value_is_put(t, puts, 3, 1, "// fused_ops: "@, "\n"@);
    }
    if is_plain(k.name) {
        value_is_put(t, puts, 3, 0, "void "@, "("@);
    }
}

/// What the template of these kernels says once it is filled.
proof fn custom_kernel_says(k: KernelModel)
    ensures
        is_plain(named_or_unknown(k.attrs.custom_op_type)) ==> contains(
            custom_kernel_text(k),
            "// 原始 op_type: "@ + (if k.attrs.custom_op_type.len() > 0 {
                k.attrs.custom_op_type
            } else {
                "unknown"@
            }) + "\n"@,
        ),
        is_plain(k.name) ==> contains(
            custom_kernel_text(k),
            "void "@ + k.name + "("@,
        ),
        contains(
            custom_kernel_text(k),
            "* out, const "@ + k.dtype.c_text() + "*"@,
        ),
{
    tokens_differ();
    surroundings_are_plain();
    types_are_plain(k.dtype);
    let puts = seq![
        ("__NAME__"@, k.name),
        ("__CUSTOM_TYPE__"@, named_or_unknown(k.attrs.custom_op_type)),
        ("__T__"@, k.dtype.c_text()),
    ];
    let t = custom_template();
    reveal_with_fuel(put_all, 4);
    assert(puts.take(3).drop_last() == puts.take(2));
    assert(puts.take(2).drop_last() == puts.take(1));
    assert(puts.take(1).drop_last() == puts.take(0));
    assert(puts.take(3) == puts);
    assert(put_all(t, puts) == custom_kernel_text(k));
    assert(are_tokens(puts));
    custom_holds_slots();
    if is_plain(named_or_unknown(k.attrs.custom_op_type)) {
        value_is_put(t, puts, 3, 1, "// 原始 op_type: "@, "\n"@);
    }
    if is_plain(k.name) {
        value_is_put(t, puts, 3, 0, "void "@, "("@);
    }
    value_is_put(t, puts, 3, 2, "* out, const "@, "*"@);
}

/// The source of a kernel for Add, Sub, Mul, Div or Pow holds its name and its
/// element type, each in its place.
pub proof fn elem_binary_source_says(k: KernelModel, scalar: Seq<char>, arch: GpuArch)
    requires
        k.op == OpKind::Add || k.op == OpKind::Sub || k.op == OpKind::Mul || k.op == OpKind::Div || k.op == OpKind::Pow,
    ensures
        is_plain(k.name) ==> contains(
            kernel_text(k, scalar, arch),
            "void "@ + k.name + "("@,
        ),
        contains(
            kernel_text(k, scalar, arch),
            "const "@ + k.dtype.c_text() + "*"@,
        ),
{
    match k.op {
        OpKind::Add => elem_binary_says(k, "c[i] = a[i] + b[i];"@),
        OpKind::Sub => elem_binary_says(k, "c[i] = a[i] - b[i];"@),
        OpKind::Mul => elem_binary_says(k, "c[i] = a[i] * b[i];"@),
        OpKind::Div => elem_binary_says(k, "c[i] = a[i] / b[i];"@),
        OpKind::Pow => elem_binary_says(k, "c[i] = powf(a[i], b[i]);"@),
        _ => {},
    }
}

/// The source of a kernel for Relu, Gelu, Sigmoid, Tanh, Sqrt, Exp, Log, Rsqrt,
/// Reciprocal or Abs holds its name and its element type, each in its place.
pub proof fn elem_unary_source_says(k: KernelModel, scalar: Seq<char>, arch: GpuArch)
    requires
        k.op == OpKind::Relu || k.op == OpKind::Gelu || k.op == OpKind::Sigmoid || k.op == OpKind::Tanh || k.op == OpKind::Sqrt || k.op == OpKind::Exp || k.op == OpKind::Log || k.op == OpKind::Rsqrt || k.op == OpKind::Reciprocal || k.op == OpKind::Abs,
    ensures
        is_plain(k.name) ==> contains(
            kernel_text(k, scalar, arch),
            "void "@ + k.name + "("@,
        ),
        contains(
            kernel_text(k, scalar, arch),
            "const "@ + k.dtype.c_text() + "*"@,
        ),
{
    match k.op {
        OpKind::Relu => elem_unary_says(k, "fmaxf(a[i], 0.0f)"@),
        OpKind::Gelu => elem_unary_says(k,
            "0.5f * a[i] * (1.0f + tanhf(0.7978845608f * (a[i] + 0.044715f * a[i]*a[i]*a[i])))"@),
        OpKind::Sigmoid => elem_unary_says(k, "1.0f / (1.0f + expf(-a[i]))"@),
        OpKind::Tanh => elem_unary_says(k, "tanhf(a[i])"@),
        OpKind::Sqrt => elem_unary_says(k, "sqrtf(a[i])"@),
        OpKind::Exp => elem_unary_says(k, "expf(a[i])"@),
        OpKind::Log => elem_unary_says(k, "logf(a[i])"@),
        OpKind::Rsqrt => elem_unary_says(k, "rsqrtf(a[i])"@),
        OpKind::Reciprocal => elem_unary_says(k, "1.0f / a[i]"@),
        OpKind::Abs => elem_unary_says(k, "fabsf(a[i])"@),
        _ => {},
    }
}

/// The source of a kernel for ReduceSum, ReduceMean or ReduceMax holds its name
/// and its element type, each in its place.
pub proof fn reduce_source_says(k: KernelModel, scalar: Seq<char>, arch: GpuArch)
    requires
        k.op == OpKind::ReduceSum || k.op == OpKind::ReduceMean || k.op == OpKind::ReduceMax,
    ensures
        is_plain(k.name) ==> contains(
            kernel_text(k, scalar, arch),
            "void "@ + k.name + "("@,
        ),
        contains(
            kernel_text(k, scalar, arch),
            "const "@ + k.dtype.c_text() + "*"@,
        ),
{
    match k.op {
        OpKind::ReduceSum => reduce_kernel_says(k,
            "ReduceSum"@,
            "0.0f"@,
            "acc = acc + v;"@,
            "shared[tid] = shared[tid] + shared[tid + s];"@,
            "if (tid == 0) output[bid] = shared[0];"@),
        OpKind::ReduceMean => reduce_kernel_says(k,
            "ReduceMean"@,
            "0.0f"@,
            "acc = acc + v;"@,
            "shared[tid] = shared[tid] + shared[tid + s];"@,
            "if (tid == 0) output[bid] = shared[0] / (float)N;"@),
        OpKind::ReduceMax => reduce_kernel_says(k,
            "ReduceMax"@,
            "-INFINITY"@,
            "acc = fmaxf(acc, v);"@,
            "shared[tid] = fmaxf(shared[tid], shared[tid + s]);"@,
            "if (tid == 0) output[bid] = shared[0];"@),
        _ => {},
    }
}

/// The source of a kernel for Softmax holds its axis and its name, each in its
/// place.
pub proof fn softmax_source_says(k: KernelModel, scalar: Seq<char>, arch: GpuArch)
    requires
        k.op == OpKind::Softmax,
    ensures
        contains(
            kernel_text(k, scalar, arch),
            "// axis="@ + dec_int(match k.attrs.axis {
                Some(a) => a as int,
                None => -1,
            }) + "\n"@,
        ),
        is_plain(k.name) ==> contains(
            kernel_text(k, scalar, arch),
            "void "@ + k.name + "("@,
        ),
{
    softmax_kernel_says(k);
}

/// The source of a kernel for LayerNorm holds its axis, its name and its
/// epsilon, each in its place.
pub proof fn layernorm_source_says(k: KernelModel, scalar: Seq<char>, arch: GpuArch)
    requires
        k.op == OpKind::LayerNorm,
    ensures
        contains(
            kernel_text(k, scalar, arch),
            "// axis="@ + dec_int(match k.attrs.axis {
                Some(a) => a as int,
                None => -1,
            }) + ","@,
        ),
        is_plain(k.name) ==> contains(
            kernel_text(k, scalar, arch),
            "void "@ + k.name + "("@,
        ),
        is_plain(scalar) ==> contains(
            kernel_text(k, scalar, arch),
            "float epsilon = "@ + scalar + ";"@,
        ),
{
    layernorm_kernel_says(k, scalar);
}

/// The source of a kernel for Conv holds its name, its first stride, its first
/// padding, its first dilation and its number of groups, each in its place.
pub proof fn conv_source_says(k: KernelModel, scalar: Seq<char>, arch: GpuArch)
    requires
        k.op == OpKind::Conv,
    ensures
        is_plain(k.name) ==> contains(
            kernel_text(k, scalar, arch),
            "// "@ + k.name + ":"@,
        ),
        contains(
            kernel_text(k, scalar, arch),
            "// stride="@ + dec_int(if k.attrs.conv_stride.len() > 0 {
                k.attrs.conv_stride[0] as i32 as int
            } else {
                1
            }) + ","@,
        ),
        contains(
            kernel_text(k, scalar, arch),
            " padding="@ + dec_int(if k.attrs.conv_padding.len() > 0 {
                k.attrs.conv_padding[0] as i32 as int
            } else {
                0
            }) + ","@,
        ),
        contains(
            kernel_text(k, scalar, arch),
            " dilation="@ + dec_int(if k.attrs.conv_dilation.len() > 0 {
                k.attrs.conv_dilation[0] as i32 as int
            } else {
                1
            }) + ","@,
        ),
        contains(
            kernel_text(k, scalar, arch),
            " groups="@ + dec_int(match k.attrs.conv_groups {
                Some(a) => a as i32 as int,
                None => 1,
            }) + "\n"@,
        ),
        is_plain(k.name) ==> contains(
            kernel_text(k, scalar, arch),
            "void "@ + k.name + "("@,
        ),
        contains(
            kernel_text(k, scalar, arch),
            "int groups = "@ + dec_int(match k.attrs.conv_groups {
                Some(a) => a as i32 as int,
                None => 1,
            }) + ";"@,
        ),
        contains(
            kernel_text(k, scalar, arch),
            "int stride = "@ + dec_int(if k.attrs.conv_stride.len() > 0 {
                k.attrs.conv_stride[0] as i32 as int
            } else {
                1
            }) + ";"@,
        ),
        contains(
            kernel_text(k, scalar, arch),
            "int padding = "@ + dec_int(if k.attrs.conv_padding.len() > 0 {
                k.attrs.conv_padding[0] as i32 as int
            } else {
                0
            }) + ";"@,
        ),
        contains(
            kernel_text(k, scalar, arch),
            "int dilation = "@ + dec_int(if k.attrs.conv_dilation.len() > 0 {
                k.attrs.conv_dilation[0] as i32 as int
            } else {
                1
            }) + ";"@,
        ),
{
    conv_kernel_says(k);
}

/// The source of a kernel for Pool holds its name, its first kernel size, its
/// first stride and its first padding, each in its place.
pub proof fn pool_source_says(k: KernelModel, scalar: Seq<char>, arch: GpuArch)
    requires
        k.op == OpKind::Pool,
    ensures
        is_plain(k.name) ==> contains(
            kernel_text(k, scalar, arch),
            "// "@ + k.name + ":"@,
        ),
        contains(
            kernel_text(k, scalar, arch),
            "// kernel_size="@ + dec_int(if k.attrs.pool_kernel.len() > 0 {
                k.attrs.pool_kernel[0] as i32 as int
            } else {
                2
            }) + ","@,
        ),
        contains(
            kernel_text(k, scalar, arch),
            " stride="@ + dec_int(if k.attrs.pool_stride.len() > 0 {
                k.attrs.pool_stride[0] as i32 as int
            } else {
                1
            }) + ","@,
        ),
        contains(
            kernel_text(k, scalar, arch),
            " padding="@ + dec_int(if k.attrs.pool_padding.len() > 0 {
                k.attrs.pool_padding[0] as i32 as int
            } else {
                0
            }) + "\n"@,
        ),
        is_plain(k.name) ==> contains(
            kernel_text(k, scalar, arch),
            "void "@ + k.name + "("@,
        ),
        contains(
            kernel_text(k, scalar, arch),
            "int kernel = "@ + dec_int(if k.attrs.pool_kernel.len() > 0 {
                k.attrs.pool_kernel[0] as i32 as int
            } else {
                2
            }) + ";"@,
        ),
        contains(
            kernel_text(k, scalar, arch),
            "int stride = "@ + dec_int(if k.attrs.pool_stride.len() > 0 {
                k.attrs.pool_stride[0] as i32 as int
            } else {
                1
            }) + ";"@,
        ),
        contains(
            kernel_text(k, scalar, arch),
            "int padding = "@ + dec_int(if k.attrs.pool_padding.len() > 0 {
                k.attrs.pool_padding[0] as i32 as int
            } else {
                0
            }) + ";"@,
        ),
{
    pool_kernel_says(k);
}

/// The source of a kernel for Reshape holds its name and its element type, each
/// in its place.
pub proof fn reshape_source_says(k: KernelModel, scalar: Seq<char>, arch: GpuArch)
    requires
        k.op == OpKind::Reshape,
    ensures
        is_plain(k.name) ==> contains(
            kernel_text(k, scalar, arch),
            "void "@ + k.name + "("@,
        ),
        contains(
            kernel_text(k, scalar, arch),
            "const "@ + k.dtype.c_text() + "*"@,
        ),
{
    reshape_kernel_says(k);
}

/// The source of a kernel for Transpose holds its name and its element type,
/// each in its place.
pub proof fn transpose_source_says(k: KernelModel, scalar: Seq<char>, arch: GpuArch)
    requires
        k.op == OpKind::Transpose,
    ensures
        is_plain(k.name) ==> contains(
            kernel_text(k, scalar, arch),
            "void "@ + k.name + "("@,
        ),
        contains(
            kernel_text(k, scalar, arch),
            "const "@ + k.dtype.c_text() + "*"@,
        ),
{
    transpose_kernel_says(k);
}

/// The source of a kernel for Concat holds its axis, its name and its element
/// type, each in its place.
pub proof fn concat_source_says(k: KernelModel, scalar: Seq<char>, arch: GpuArch)
    requires
        k.op == OpKind::Concat,
    ensures
        contains(
            kernel_text(k, scalar, arch),
            ": Concat (按 axis="@ + dec_int(match k.attrs.axis {
                Some(a) => a as int,
                None => 0,
            }) + " "@,
        ),
        is_plain(k.name) ==> contains(
            kernel_text(k, scalar, arch),
            "void "@ + k.name + "("@,
        ),
        contains(
            kernel_text(k, scalar, arch),
            "const "@ + k.dtype.c_text() + "*"@,
        ),
{
    concat_kernel_says(k);
}

/// The source of a kernel for Slice holds its starts, its ends, its steps, its
/// name and its element type, each in its place.
pub proof fn slice_source_says(k: KernelModel, scalar: Seq<char>, arch: GpuArch)
    requires
        k.op == OpKind::Slice,
    ensures
        contains(
            kernel_text(k, scalar, arch),
            "// starts=["@ + (if k.attrs.slice_starts.len() > 0 {
                listed(k.attrs.slice_starts, ", "@)
            } else {
                "0"@
            }) + "]"@,
        ),
        contains(
            kernel_text(k, scalar, arch),
            ", ends=["@ + (if k.attrs.slice_ends.len() > 0 {
                listed(k.attrs.slice_ends, ", "@)
            } else {
                "-1"@
            }) + "]"@,
        ),
        contains(
            kernel_text(k, scalar, arch),
            ", steps=["@ + (if k.attrs.slice_steps.len() > 0 {
                listed(k.attrs.slice_steps, ", "@)
            } else {
                "1"@
            }) + "]"@,
        ),
        is_plain(k.name) ==> contains(
            kernel_text(k, scalar, arch),
            "void "@ + k.name + "("@,
        ),
        contains(
            kernel_text(k, scalar, arch),
            "const "@ + k.dtype.c_text() + "*"@,
        ),
{
    slice_kernel_says(k);
}

/// The source of a kernel for Constant holds its value, its name and its
/// element type, each in its place.
pub proof fn constant_source_says(k: KernelModel, scalar: Seq<char>, arch: GpuArch)
    requires
        k.op == OpKind::Constant,
    ensures
        is_plain(scalar) ==> contains(
            kernel_text(k, scalar, arch),
            ": Constant (把 value="@ + scalar + " "@,
        ),
        is_plain(k.name) ==> contains(
            kernel_text(k, scalar, arch),
            "void "@ + k.name + "("@,
        ),
        contains(
            kernel_text(k, scalar, arch),
            "* out, "@ + k.dtype.c_text() + " "@,
        ),
{
    constant_kernel_says(k, scalar);
}

/// The source of a kernel for Fused holds its operators and its name, each in
/// its place.
pub proof fn fused_source_says(k: KernelModel, scalar: Seq<char>, arch: GpuArch)
    requires
        k.op == OpKind::Fused,
    ensures
        is_plain(joined(fused(k.attrs.fused_ops), ", "@)) ==> contains(
            kernel_text(k, scalar, arch),
            "// fused_ops: "@ + (if k.attrs.fused_ops.len() > 0 {
                joined(k.attrs.fused_ops, ", "@)
            } else {
                "identity"@
            }) + "\n"@,
        ),
        is_plain(k.name) ==> contains(
            kernel_text(k, scalar, arch),
            "void "@ + k.name + "("@,
        ),
{
    fused_kernel_says(k);
}

/// The source of a kernel for Custom holds its operator, its name and its
/// element type, each in its place.
pub proof fn custom_source_says(k: KernelModel, scalar: Seq<char>, arch: GpuArch)
    requires
        k.op == OpKind::Custom,
    ensures
        is_plain(named_or_unknown(k.attrs.custom_op_type)) ==> contains(
            kernel_text(k, scalar, arch),
            "// 原始 op_type: "@ + (if k.attrs.custom_op_type.len() > 0 {
                k.attrs.custom_op_type
            } else {
                "unknown"@
            }) + "\n"@,
        ),
        is_plain(k.name) ==> contains(
            kernel_text(k, scalar, arch),
            "void "@ + k.name + "("@,
        ),
        contains(
            kernel_text(k, scalar, arch),
            "* out, const "@ + k.dtype.c_text() + "*"@,
        ),
{
    custom_kernel_says(k);
}

/// The source of a kernel for MatMul holds its name in its place, whatever the
/// architecture.
pub proof fn matmul_source_says(k: KernelModel, scalar: Seq<char>, arch: GpuArch)
    requires
        k.op == OpKind::MatMul,
    ensures
        is_plain(k.name) ==> contains(
            kernel_text(k, scalar, arch),
            "void "@ + k.name + "("@,
        ),
{
    matmul_ampere_says(k);
    matmul_hopper_says(k);
    matmul_blackwell_says(k);
}

} // verus!
