//! The texts that Triton source is made from.

use vstd::prelude::*;
use crate::backend::dialect::contains;
use crate::backend::filling::{end_is_part, part_stays, push_slot, slot};

verus! {

/// A kernel that applies an expression to two inputs, block by block.
pub open spec fn elem_binary_template() -> Seq<char> {
    ELEM_BINARY_1@
        + slot(": 元素级二元 op（dtype="@, "__DT__"@, "，"@)
        + ELEM_BINARY_2@
        + slot("def "@, "__NAME__"@, "("@)
        + ELEM_BINARY_3@
}

pub const ELEM_BINARY_1: &'static str = r#"# __NAME__"#;

pub const ELEM_BINARY_2: &'static str = r#"program_id(0) 一维分块，BLOCK_SIZE 个元素/program）
@triton.jit
"#;

pub const ELEM_BINARY_3: &'static str = r#"X_PTR, Y_PTR, OUT_PTR, N, BLOCK_SIZE: tl.constexpr):
    pid = tl.program_id(0)
    offs = pid * BLOCK_SIZE + tl.arange(0, BLOCK_SIZE)
    mask = offs < N
    x = tl.load(X_PTR + offs, mask=mask)
    y = tl.load(Y_PTR + offs, mask=mask)
    result = __EXPR__
    tl.store(OUT_PTR + offs, result, mask=mask)
"#;

pub(crate) fn elem_binary_source() -> (r: String)
    ensures
        r@ == elem_binary_template(),
{
    let mut s = ELEM_BINARY_1.to_owned();
    push_slot(&mut s, ": 元素级二元 op（dtype=", "__DT__", "，");
    s.append(ELEM_BINARY_2);
    push_slot(&mut s, "def ", "__NAME__", "(");
    s.append(ELEM_BINARY_3);
    s
}

/// A kernel that applies an expression to its input, block by block.
pub open spec fn elem_unary_template() -> Seq<char> {
    ELEM_UNARY_1@
        + slot(": 元素级一元 op（dtype="@, "__DT__"@, "，"@)
        + ELEM_UNARY_2@
        + slot("def "@, "__NAME__"@, "("@)
        + ELEM_UNARY_3@
}

pub const ELEM_UNARY_1: &'static str = r#"# __NAME__"#;

pub const ELEM_UNARY_2: &'static str = r#"program_id(0) 一维分块，BLOCK_SIZE 个元素/program）
@triton.jit
"#;

pub const ELEM_UNARY_3: &'static str = r#"X_PTR, OUT_PTR, N, BLOCK_SIZE: tl.constexpr):
    pid = tl.program_id(0)
    offs = pid * BLOCK_SIZE + tl.arange(0, BLOCK_SIZE)
    mask = offs < N
    x = tl.load(X_PTR + offs, mask=mask)
    result = __EXPR__
    tl.store(OUT_PTR + offs, result, mask=mask)
"#;

pub(crate) fn elem_unary_source() -> (r: String)
    ensures
        r@ == elem_unary_template(),
{
    let mut s = ELEM_UNARY_1.to_owned();
    push_slot(&mut s, ": 元素级一元 op（dtype=", "__DT__", "，");
    s.append(ELEM_UNARY_2);
    push_slot(&mut s, "def ", "__NAME__", "(");
    s.append(ELEM_UNARY_3);
    s
}

/// A reduction in one program.
pub open spec fn reduce_template() -> Seq<char> {
    REDUCE_1@
        + slot(": Reduce（dtype="@, "__DT__"@, "，"@)
        + REDUCE_2@
        + slot("def "@, "__NAME__"@, "("@)
        + REDUCE_3@
}

pub const REDUCE_1: &'static str = r#"# __NAME__"#;

pub const REDUCE_2: &'static str = r#"单 program 处理整个 reduce，tl.sum/tl.max 归约）
@triton.jit
"#;

pub const REDUCE_3: &'static str = r#"X_PTR, OUT_PTR, N, BLOCK_SIZE: tl.constexpr):
    pid = tl.program_id(0)
    offs = tl.arange(0, BLOCK_SIZE)
    mask = offs < N
    # 越界用 identity 填充（sum -> 0.0, max -> -inf）
    x = tl.load(X_PTR + offs, mask=mask, other=__IDENT__)
    result = __EXPR__
    tl.store(OUT_PTR + pid, result)
"#;

pub(crate) fn reduce_source() -> (r: String)
    ensures
        r@ == reduce_template(),
{
    let mut s = REDUCE_1.to_owned();
    push_slot(&mut s, ": Reduce（dtype=", "__DT__", "，");
    s.append(REDUCE_2);
    push_slot(&mut s, "def ", "__NAME__", "(");
    s.append(REDUCE_3);
    s
}

/// A matrix product on Hopper.
pub open spec fn matmul_hopper_template() -> Seq<char> {
    MATMUL_HOPPER_1@
        + slot("def "@, "__NAME__"@, "("@)
        + MATMUL_HOPPER_2@
}

pub const MATMUL_HOPPER_1: &'static str = r#"# __NAME__: MatMul（Hopper SM90 TMA — tl.make_block_ptr + tl.advance + boundary_check）
# SM90 TMA: 用 Tensor Memory Accelerator 加载 2D tile，配合 wgmma 做矩阵乘
@triton.jit
"#;

pub const MATMUL_HOPPER_2: &'static str = r#"A_PTR, B_PTR, C_PTR, M, N, K,
            stride_am, stride_ak, stride_bk, stride_bn, stride_cm, stride_cn,
            BLOCK_M: tl.constexpr, BLOCK_N: tl.constexpr, BLOCK_K: tl.constexpr):
    pid_m = tl.program_id(0)
    pid_n = tl.program_id(1)
    # SM90 TMA: 用 block_ptr 描述 2D tile，硬件自动处理边界
    a_block_ptr = tl.make_block_ptr(
        A_PTR, shape=(M, K), block_shape=(BLOCK_M, BLOCK_K),
        strides=(stride_am, stride_ak),
        offsets=(pid_m * BLOCK_M, 0), order=(1, 0))
    b_block_ptr = tl.make_block_ptr(
        B_PTR, shape=(K, N), block_shape=(BLOCK_K, BLOCK_N),
        strides=(stride_bk, stride_bn),
        offsets=(0, pid_n * BLOCK_N), order=(1, 0))
    acc = tl.zeros((BLOCK_M, BLOCK_N), dtype=tl.float32)
    for k in range(0, K, BLOCK_K):
        # SM90 TMA: tl.load + boundary_check
        a = tl.load(a_block_ptr, boundary_check=(0, 1))
        b = tl.load(b_block_ptr, boundary_check=(0, 1))
        acc += tl.dot(a, b)
        # SM90 TMA: advance 移动 tile 指针
        a_block_ptr = tl.advance(a_block_ptr, (0, BLOCK_K))
        b_block_ptr = tl.advance(b_block_ptr, (BLOCK_K, 0))
    # 存储结果
    c_block_ptr = tl.make_block_ptr(
        C_PTR, shape=(M, N), block_shape=(BLOCK_M, BLOCK_N),
        strides=(stride_cm, stride_cn),
        offsets=(pid_m * BLOCK_M, pid_n * BLOCK_N), order=(1, 0))
    tl.store(c_block_ptr, acc, boundary_check=(0, 1))
"#;

pub(crate) fn matmul_hopper_source() -> (r: String)
    ensures
        r@ == matmul_hopper_template(),
{
    let mut s = MATMUL_HOPPER_1.to_owned();
    push_slot(&mut s, "def ", "__NAME__", "(");
    s.append(MATMUL_HOPPER_2);
    s
}

/// A matrix product on Ampere.
pub open spec fn matmul_ampere_template() -> Seq<char> {
    MATMUL_AMPERE_1@
        + slot("def "@, "__NAME__"@, "("@)
        + MATMUL_AMPERE_2@
}

pub const MATMUL_AMPERE_1: &'static str = r#"# __NAME__: MatMul（Ampere SM80 标准 tl.dot，BLOCK_M=BLOCK_N=64, BLOCK_K=32）
@triton.jit
"#;

pub const MATMUL_AMPERE_2: &'static str = r#"A_PTR, B_PTR, C_PTR, M, N, K,
            stride_am, stride_ak, stride_bk, stride_bn, stride_cm, stride_cn,
            BLOCK_M: tl.constexpr, BLOCK_N: tl.constexpr, BLOCK_K: tl.constexpr):
    pid_m = tl.program_id(0)
    pid_n = tl.program_id(1)
    offs_m = pid_m * BLOCK_M + tl.arange(0, BLOCK_M)
    offs_n = pid_n * BLOCK_N + tl.arange(0, BLOCK_N)
    acc = tl.zeros((BLOCK_M, BLOCK_N), dtype=tl.float32)
    for k in range(0, K, BLOCK_K):
        offs_k = k + tl.arange(0, BLOCK_K)
        a = tl.load(A_PTR + offs_m[:, None] * stride_am + offs_k[None, :] * stride_ak,
                    mask=(offs_m[:, None] < M) & (offs_k[None, :] < K), other=0.0)
        b = tl.load(B_PTR + offs_k[:, None] * stride_bk + offs_n[None, :] * stride_bn,
                    mask=(offs_k[:, None] < K) & (offs_n[None, :] < N), other=0.0)
        # Ampere SM80: mma.sync via tl.dot
        acc += tl.dot(a, b)
    tl.store(C_PTR + offs_m[:, None] * stride_cm + offs_n[None, :] * stride_cn, acc,
             mask=(offs_m[:, None] < M) & (offs_n[None, :] < N))
"#;

pub(crate) fn matmul_ampere_source() -> (r: String)
    ensures
        r@ == matmul_ampere_template(),
{
    let mut s = MATMUL_AMPERE_1.to_owned();
    push_slot(&mut s, "def ", "__NAME__", "(");
    s.append(MATMUL_AMPERE_2);
    s
}

/// A matrix product on Blackwell.
pub open spec fn matmul_blackwell_template() -> Seq<char> {
    MATMUL_BLACKWELL_1@
        + slot("def "@, "__NAME__"@, "("@)
        + MATMUL_BLACKWELL_2@
}

pub const MATMUL_BLACKWELL_1: &'static str = r#"# __NAME__: MatMul（Blackwell SM100 FP4/FP6 tensor core）
# SM100: Blackwell 支持 FP4/FP6 tensor core，此处生成 block_ptr 路径
# 注: 完整 FP4/FP6 需 Triton 3.x+ 的 tl.dot_scaled 支持
@triton.jit
"#;

pub const MATMUL_BLACKWELL_2: &'static str = r#"A_PTR, B_PTR, C_PTR, M, N, K,
            stride_am, stride_ak, stride_bk, stride_bn, stride_cm, stride_cn,
            BLOCK_M: tl.constexpr, BLOCK_N: tl.constexpr, BLOCK_K: tl.constexpr):
    pid_m = tl.program_id(0)
    pid_n = tl.program_id(1)
    # SM100 FP4/FP6 tensor core: 用 make_block_ptr 加载
    a_block_ptr = tl.make_block_ptr(
        A_PTR, shape=(M, K), block_shape=(BLOCK_M, BLOCK_K),
        strides=(stride_am, stride_ak),
        offsets=(pid_m * BLOCK_M, 0), order=(1, 0))
    b_block_ptr = tl.make_block_ptr(
        B_PTR, shape=(K, N), block_shape=(BLOCK_K, BLOCK_N),
        strides=(stride_bk, stride_bn),
        offsets=(0, pid_n * BLOCK_N), order=(1, 0))
    acc = tl.zeros((BLOCK_M, BLOCK_N), dtype=tl.float32)
    for k in range(0, K, BLOCK_K):
        a = tl.load(a_block_ptr, boundary_check=(0, 1))
        b = tl.load(b_block_ptr, boundary_check=(0, 1))
        # SM100 FP4/FP6: 实际硬件用 tensor core 加速，Triton 自动映射
        acc += tl.dot(a, b)
        a_block_ptr = tl.advance(a_block_ptr, (0, BLOCK_K))
        b_block_ptr = tl.advance(b_block_ptr, (BLOCK_K, 0))
    c_block_ptr = tl.make_block_ptr(
        C_PTR, shape=(M, N), block_shape=(BLOCK_M, BLOCK_N),
        strides=(stride_cm, stride_cn),
        offsets=(pid_m * BLOCK_M, pid_n * BLOCK_N), order=(1, 0))
    tl.store(c_block_ptr, acc, boundary_check=(0, 1))
"#;

pub(crate) fn matmul_blackwell_source() -> (r: String)
    ensures
        r@ == matmul_blackwell_template(),
{
    let mut s = MATMUL_BLACKWELL_1.to_owned();
    push_slot(&mut s, "def ", "__NAME__", "(");
    s.append(MATMUL_BLACKWELL_2);
    s
}

/// A matrix product on any other architecture.
pub open spec fn matmul_generic_template() -> Seq<char> {
    MATMUL_GENERIC_1@
        + slot("def "@, "__NAME__"@, "("@)
        + MATMUL_GENERIC_2@
}

pub const MATMUL_GENERIC_1: &'static str = r#"# __NAME__: MatMul（__ARCH__ — Triton 主要面向 NVIDIA GPU，生成通用 tl.dot）
@triton.jit
"#;

pub const MATMUL_GENERIC_2: &'static str = r#"A_PTR, B_PTR, C_PTR, M, N, K,
            stride_am, stride_ak, stride_bk, stride_bn, stride_cm, stride_cn,
            BLOCK_M: tl.constexpr, BLOCK_N: tl.constexpr, BLOCK_K: tl.constexpr):
    pid_m = tl.program_id(0)
    pid_n = tl.program_id(1)
    offs_m = pid_m * BLOCK_M + tl.arange(0, BLOCK_M)
    offs_n = pid_n * BLOCK_N + tl.arange(0, BLOCK_N)
    acc = tl.zeros((BLOCK_M, BLOCK_N), dtype=tl.float32)
    for k in range(0, K, BLOCK_K):
        offs_k = k + tl.arange(0, BLOCK_K)
        a = tl.load(A_PTR + offs_m[:, None] * stride_am + offs_k[None, :] * stride_ak,
                    mask=(offs_m[:, None] < M) & (offs_k[None, :] < K), other=0.0)
        b = tl.load(B_PTR + offs_k[:, None] * stride_bk + offs_n[None, :] * stride_bn,
                    mask=(offs_k[:, None] < K) & (offs_n[None, :] < N), other=0.0)
        acc += tl.dot(a, b)
    tl.store(C_PTR + offs_m[:, None] * stride_cm + offs_n[None, :] * stride_cn, acc,
             mask=(offs_m[:, None] < M) & (offs_n[None, :] < N))
"#;

pub(crate) fn matmul_generic_source() -> (r: String)
    ensures
        r@ == matmul_generic_template(),
{
    let mut s = MATMUL_GENERIC_1.to_owned();
    push_slot(&mut s, "def ", "__NAME__", "(");
    s.append(MATMUL_GENERIC_2);
    s
}

/// A softmax with a program for each row.
pub open spec fn softmax_template() -> Seq<char> {
    SOFTMAX_1@
        + slot("def "@, "__NAME__"@, "("@)
        + SOFTMAX_2@
}

pub const SOFTMAX_1: &'static str = r#"# __NAME__: Softmax（每行一个 program，两遍扫描：max → exp → sum → normalize）
@triton.jit
"#;

pub const SOFTMAX_2: &'static str = r#"X_PTR, OUT_PTR, N_COLS, BLOCK_SIZE: tl.constexpr):
    row = tl.program_id(0)
    offs = tl.arange(0, BLOCK_SIZE)
    mask = offs < N_COLS
    # 加载一行数据，越界用 -inf 填充（数值稳定）
    x = tl.load(X_PTR + row * N_COLS + offs, mask=mask, other=-float('inf'))
    # 第一遍：求行 max（数值稳定）
    x_max = tl.max(x, axis=0)
    # 第二遍：exp(x - max) 并求和
    x_exp = tl.exp(x - x_max)
    sum_exp = tl.sum(x_exp, axis=0)
    # 归一化
    out = x_exp / sum_exp
    tl.store(OUT_PTR + row * N_COLS + offs, out, mask=mask)
"#;

pub(crate) fn softmax_source() -> (r: String)
    ensures
        r@ == softmax_template(),
{
    let mut s = SOFTMAX_1.to_owned();
    push_slot(&mut s, "def ", "__NAME__", "(");
    s.append(SOFTMAX_2);
    s
}

/// A layer normalization with a program for each row.
pub open spec fn layernorm_template() -> Seq<char> {
    LAYERNORM_1@
        + slot(": LayerNorm（dtype="@, "__DT__"@, "，"@)
        + LAYERNORM_2@
        + slot("n → var → normalize，epsilon="@, "__EPS__"@, "）"@)
        + LAYERNORM_3@
        + slot("def "@, "__NAME__"@, "("@)
        + LAYERNORM_4@
}

pub const LAYERNORM_1: &'static str = r#"# __NAME__"#;

pub const LAYERNORM_2: &'static str = r#"每行一个 program，两遍：mea"#;

pub const LAYERNORM_3: &'static str = r#"
@triton.jit
"#;

pub const LAYERNORM_4: &'static str = r#"X_PTR, OUT_PTR, N_COLS, EPS, BLOCK_SIZE: tl.constexpr):
    row = tl.program_id(0)
    offs = tl.arange(0, BLOCK_SIZE)
    mask = offs < N_COLS
    x = tl.load(X_PTR + row * N_COLS + offs, mask=mask, other=0.0)
    # 第一遍：求 mean
    mean = tl.sum(x, axis=0) / N_COLS
    # 第二遍：求 var
    var = tl.sum((x - mean) * (x - mean), axis=0) / N_COLS
    # normalize: (x - mean) / sqrt(var + EPS)
    out = (x - mean) / tl.sqrt(var + EPS)
    tl.store(OUT_PTR + row * N_COLS + offs, out, mask=mask)
"#;

pub(crate) fn layernorm_source() -> (r: String)
    ensures
        r@ == layernorm_template(),
{
    let mut s = LAYERNORM_1.to_owned();
    push_slot(&mut s, ": LayerNorm（dtype=", "__DT__", "，");
    s.append(LAYERNORM_2);
    push_slot(&mut s, "n → var → normalize，epsilon=", "__EPS__", "）");
    s.append(LAYERNORM_3);
    push_slot(&mut s, "def ", "__NAME__", "(");
    s.append(LAYERNORM_4);
    s
}

/// A direct convolution with a program for each output element.
pub open spec fn conv_template() -> Seq<char> {
    CONV_1@
        + slot("def "@, "__NAME__"@, "("@)
        + CONV_2@
}

pub const CONV_1: &'static str = r#"# __NAME__: Conv2D（直接卷积，每个 program 算一个输出元素，嵌套循环 KH*KW*C_in）
@triton.jit
"#;

pub const CONV_2: &'static str = r#"INPUT_PTR, WEIGHT_PTR, BIAS_PTR, OUTPUT_PTR,
            N, C_IN, H, W, C_OUT, STRIDE_H, STRIDE_W, KH,
            BLOCK_SIZE: tl.constexpr):
    pid = tl.program_id(0)
    OW = (W - KH) // STRIDE_W + 1
    OH = (H - KH) // STRIDE_H + 1
    # 每个 program 处理一个输出元素 (n, co, oh, ow)
    n = pid // (C_OUT * OH * OW)
    rem = pid % (C_OUT * OH * OW)
    co = rem // (OH * OW)
    rem2 = rem % (OH * OW)
    oh = rem2 // OW
    ow = rem2 % OW
    acc = tl.load(BIAS_PTR + co)
    for ci in range(C_IN):
        for kh in range(KH):
            for kw in range(KH):
                ih = oh * STRIDE_H + kh
                iw = ow * STRIDE_W + kw
                v = tl.load(INPUT_PTR + (n * C_IN + ci) * H * W + ih * W + iw)
                wgt = tl.load(WEIGHT_PTR + (co * C_IN + ci) * KH * KH + kh * KH + kw)
                acc += v * wgt
    tl.store(OUTPUT_PTR + (n * C_OUT + co) * OH * OW + oh * OW + ow, acc)
"#;

pub(crate) fn conv_source() -> (r: String)
    ensures
        r@ == conv_template(),
{
    let mut s = CONV_1.to_owned();
    push_slot(&mut s, "def ", "__NAME__", "(");
    s.append(CONV_2);
    s
}

/// Max pooling with a program for each output element.
pub open spec fn pool_template() -> Seq<char> {
    POOL_1@
        + slot("def "@, "__NAME__"@, "("@)
        + POOL_2@
}

pub const POOL_1: &'static str = r#"# __NAME__: Pool（max 池化，每个 program 算一个输出元素，嵌套循环 KH*KW 取 max）
@triton.jit
"#;

pub const POOL_2: &'static str = r#"INPUT_PTR, OUTPUT_PTR, C, H, W, KH, KW, STRIDE_H, STRIDE_W,
            BLOCK_SIZE: tl.constexpr):
    pid = tl.program_id(0)
    OH = (H - KH) // STRIDE_H + 1
    OW = (W - KW) // STRIDE_W + 1
    # 每个 program 处理一个输出元素 (c, oh, ow)
    c = pid // (OH * OW)
    rem = pid % (OH * OW)
    oh = rem // OW
    ow = rem % OW
    result = -float('inf')
    for kh in range(KH):
        for kw in range(KW):
            ih = oh * STRIDE_H + kh
            iw = ow * STRIDE_W + kw
            v = tl.load(INPUT_PTR + (c * H + ih) * W + iw)
            result = tl.maximum(result, v)
    tl.store(OUTPUT_PTR + (c * OH + oh) * OW + ow, result)
"#;

pub(crate) fn pool_source() -> (r: String)
    ensures
        r@ == pool_template(),
{
    let mut s = POOL_1.to_owned();
    push_slot(&mut s, "def ", "__NAME__", "(");
    s.append(POOL_2);
    s
}

/// A copy.
pub open spec fn reshape_template() -> Seq<char> {
    RESHAPE_1@
        + slot(": Reshape（dtype="@, "__DT__"@, "，"@)
        + RESHAPE_2@
        + slot("def "@, "__NAME__"@, "("@)
        + RESHAPE_3@
}

pub const RESHAPE_1: &'static str = r#"# __NAME__"#;

pub const RESHAPE_2: &'static str = r#"连续内存拷贝，shape 一致性由 host 保证）
@triton.jit
"#;

pub const RESHAPE_3: &'static str = r#"INPUT_PTR, OUTPUT_PTR, N, BLOCK_SIZE: tl.constexpr):
    pid = tl.program_id(0)
    offs = pid * BLOCK_SIZE + tl.arange(0, BLOCK_SIZE)
    mask = offs < N
    x = tl.load(INPUT_PTR + offs, mask=mask)
    tl.store(OUTPUT_PTR + offs, x, mask=mask)
"#;

pub(crate) fn reshape_source() -> (r: String)
    ensures
        r@ == reshape_template(),
{
    let mut s = RESHAPE_1.to_owned();
    push_slot(&mut s, ": Reshape（dtype=", "__DT__", "，");
    s.append(RESHAPE_2);
    push_slot(&mut s, "def ", "__NAME__", "(");
    s.append(RESHAPE_3);
    s
}

/// A transposition of tiles.
pub open spec fn transpose_template() -> Seq<char> {
    TRANSPOSE_1@
        + slot(": Transpose（dtype="@, "__DT__"@, "，"@)
        + TRANSPOSE_2@
        + slot("def "@, "__NAME__"@, "("@)
        + TRANSPOSE_3@
}

pub const TRANSPOSE_1: &'static str = r#"# __NAME__"#;

pub const TRANSPOSE_2: &'static str = r#"2D tile 转置，output[col, row] = input[row, col]）
@triton.jit
"#;

pub const TRANSPOSE_3: &'static str = r#"INPUT_PTR, OUTPUT_PTR, H, W, BLOCK_M: tl.constexpr, BLOCK_N: tl.constexpr):
    pid_m = tl.program_id(0)
    pid_n = tl.program_id(1)
    offs_m = pid_m * BLOCK_M + tl.arange(0, BLOCK_M)
    offs_n = pid_n * BLOCK_N + tl.arange(0, BLOCK_N)
    mask = (offs_m[:, None] < H) & (offs_n[None, :] < W)
    # 加载 input[row, col] tile
    x = tl.load(INPUT_PTR + offs_m[:, None] * W + offs_n[None, :], mask=mask)
    # 转置写回：output[col, row] = input[row, col]
    tl.store(OUTPUT_PTR + offs_n[:, None] * H + offs_m[None, :], tl.trans(x), mask=mask)
"#;

pub(crate) fn transpose_source() -> (r: String)
    ensures
        r@ == transpose_template(),
{
    let mut s = TRANSPOSE_1.to_owned();
    push_slot(&mut s, ": Transpose（dtype=", "__DT__", "，");
    s.append(TRANSPOSE_2);
    push_slot(&mut s, "def ", "__NAME__", "(");
    s.append(TRANSPOSE_3);
    s
}

/// A concatenation.
pub open spec fn concat_template() -> Seq<char> {
    CONCAT_1@
        + slot(": Concat（dtype="@, "__DT__"@, "，"@)
        + slot("沿 axis 拼接，每 program 处理一段输出；"@, "__N_INPUTS__"@, " "@)
        + CONCAT_2@
        + slot("def "@, "__NAME__"@, "("@)
        + CONCAT_3@
}

pub const CONCAT_1: &'static str = r#"# __NAME__"#;

pub const CONCAT_2: &'static str = r#"路输入）
# 注: 此处展示 2 路拼接，通用版按 offset 区间分配
@triton.jit
"#;

pub const CONCAT_3: &'static str = r#"IN0_PTR, IN1_PTR, OUT_PTR, OFFSET0, OFFSET1, TOTAL, BLOCK_SIZE: tl.constexpr):
    pid = tl.program_id(0)
    offs = pid * BLOCK_SIZE + tl.arange(0, BLOCK_SIZE)
    mask = offs < TOTAL
    # 根据 offset 区分从哪个输入拷贝
    from_in0 = offs < OFFSET1
    in0_offs = offs - OFFSET0
    in1_offs = offs - OFFSET1
    x0 = tl.load(IN0_PTR + in0_offs, mask=mask & from_in0, other=0.0)
    x1 = tl.load(IN1_PTR + in1_offs, mask=mask & (~from_in0), other=0.0)
    result = tl.where(from_in0, x0, x1)
    tl.store(OUT_PTR + offs, result, mask=mask)
"#;

pub(crate) fn concat_source() -> (r: String)
    ensures
        r@ == concat_template(),
{
    let mut s = CONCAT_1.to_owned();
    push_slot(&mut s, ": Concat（dtype=", "__DT__", "，");
    push_slot(&mut s, "沿 axis 拼接，每 program 处理一段输出；", "__N_INPUTS__", " ");
    s.append(CONCAT_2);
    push_slot(&mut s, "def ", "__NAME__", "(");
    s.append(CONCAT_3);
    s
}

/// A strided copy.
pub open spec fn slice_template() -> Seq<char> {
    SLICE_1@
        + slot(": Slice（dtype="@, "__DT__"@, "，"@)
        + SLICE_2@
        + slot("def "@, "__NAME__"@, "("@)
        + SLICE_3@
}

pub const SLICE_1: &'static str = r#"# __NAME__"#;

pub const SLICE_2: &'static str = r#"按 starts/steps 拷贝）
@triton.jit
"#;

pub const SLICE_3: &'static str = r#"INPUT_PTR, OUTPUT_PTR, START, STEP, OUT_N, BLOCK_SIZE: tl.constexpr):
    pid = tl.program_id(0)
    offs = pid * BLOCK_SIZE + tl.arange(0, BLOCK_SIZE)
    mask = offs < OUT_N
    src_offs = START + offs * STEP
    x = tl.load(INPUT_PTR + src_offs, mask=mask)
    tl.store(OUTPUT_PTR + offs, x, mask=mask)
"#;

pub(crate) fn slice_source() -> (r: String)
    ensures
        r@ == slice_template(),
{
    let mut s = SLICE_1.to_owned();
    push_slot(&mut s, ": Slice（dtype=", "__DT__", "，");
    s.append(SLICE_2);
    push_slot(&mut s, "def ", "__NAME__", "(");
    s.append(SLICE_3);
    s
}

/// A kernel that fills its output with a value.
pub open spec fn constant_template() -> Seq<char> {
    CONSTANT_1@
        + slot(": Constant（dtype="@, "__DT__"@, "，"@)
        + slot("用 tl.full 填充标量 value="@, "__VAL__"@, " "@)
        + CONSTANT_2@
        + slot("def "@, "__NAME__"@, "("@)
        + CONSTANT_3@
}

pub const CONSTANT_1: &'static str = r#"# __NAME__"#;

pub const CONSTANT_2: &'static str = r#"到输出 buffer）
@triton.jit
"#;

pub const CONSTANT_3: &'static str = r#"OUTPUT_PTR, VALUE, N, BLOCK_SIZE: tl.constexpr):
    pid = tl.program_id(0)
    offs = pid * BLOCK_SIZE + tl.arange(0, BLOCK_SIZE)
    mask = offs < N
    # 用 tl.full 填充标量值
    out = tl.full((BLOCK_SIZE,), VALUE, dtype=tl.float32)
    tl.store(OUTPUT_PTR + offs, out, mask=mask)
"#;

pub(crate) fn constant_source() -> (r: String)
    ensures
        r@ == constant_template(),
{
    let mut s = CONSTANT_1.to_owned();
    push_slot(&mut s, ": Constant（dtype=", "__DT__", "，");
    push_slot(&mut s, "用 tl.full 填充标量 value=", "__VAL__", " ");
    s.append(CONSTANT_2);
    push_slot(&mut s, "def ", "__NAME__", "(");
    s.append(CONSTANT_3);
    s
}

/// What stands for an input of the graph.
pub open spec fn placeholder_template() -> Seq<char> {
    PLACEHOLDER_1@
        + slot(": Placeholder（dtype="@, "__DT__"@, "，"@)
        + PLACEHOLDER_2@
        + slot("def "@, "__NAME__"@, "("@)
        + PLACEHOLDER_3@
}

pub const PLACEHOLDER_1: &'static str = r#"# __NAME__"#;

pub const PLACEHOLDER_2: &'static str = r#"输入占位，identity 拷贝便于调试）
@triton.jit
"#;

pub const PLACEHOLDER_3: &'static str = r#"INPUT_PTR, OUTPUT_PTR, N, BLOCK_SIZE: tl.constexpr):
    pid = tl.program_id(0)
    offs = pid * BLOCK_SIZE + tl.arange(0, BLOCK_SIZE)
    mask = offs < N
    x = tl.load(INPUT_PTR + offs, mask=mask)
    tl.store(OUTPUT_PTR + offs, x, mask=mask)
"#;

pub(crate) fn placeholder_source() -> (r: String)
    ensures
        r@ == placeholder_template(),
{
    let mut s = PLACEHOLDER_1.to_owned();
    push_slot(&mut s, ": Placeholder（dtype=", "__DT__", "，");
    s.append(PLACEHOLDER_2);
    push_slot(&mut s, "def ", "__NAME__", "(");
    s.append(PLACEHOLDER_3);
    s
}

/// What stands for an output of the graph.
pub open spec fn return_template() -> Seq<char> {
    RETURN_1@
        + slot(": Return（dtype="@, "__DT__"@, "，"@)
        + RETURN_2@
        + slot("def "@, "__NAME__"@, "("@)
        + RETURN_3@
}

pub const RETURN_1: &'static str = r#"# __NAME__"#;

pub const RETURN_2: &'static str = r#"图输出，identity 拷贝保证数据落盘）
@triton.jit
"#;

pub const RETURN_3: &'static str = r#"INPUT_PTR, OUTPUT_PTR, N, BLOCK_SIZE: tl.constexpr):
    pid = tl.program_id(0)
    offs = pid * BLOCK_SIZE + tl.arange(0, BLOCK_SIZE)
    mask = offs < N
    x = tl.load(INPUT_PTR + offs, mask=mask)
    tl.store(OUTPUT_PTR + offs, x, mask=mask)
"#;

pub(crate) fn return_source() -> (r: String)
    ensures
        r@ == return_template(),
{
    let mut s = RETURN_1.to_owned();
    push_slot(&mut s, ": Return（dtype=", "__DT__", "，");
    s.append(RETURN_2);
    push_slot(&mut s, "def ", "__NAME__", "(");
    s.append(RETURN_3);
    s
}

/// A chain of operators in one kernel.
pub open spec fn fused_template() -> Seq<char> {
    FUSED_1@
        + slot(": Fused（dtype="@, "__DT__"@, "，"@)
        + slot("融合算子链: "@, "__OPS__"@, "）"@)
        + FUSED_2@
        + slot("def "@, "__NAME__"@, "("@)
        + FUSED_3@
}

pub const FUSED_1: &'static str = r#"# __NAME__"#;

pub const FUSED_2: &'static str = r#"
@triton.jit
"#;

pub const FUSED_3: &'static str = r#"A_PTR, B_PTR, OUT_PTR, N, BLOCK_SIZE: tl.constexpr):
    pid = tl.program_id(0)
    offs = pid * BLOCK_SIZE + tl.arange(0, BLOCK_SIZE)
    mask = offs < N
    x = tl.load(A_PTR + offs, mask=mask)
    y = tl.load(B_PTR + offs, mask=mask)
    # 典型 GEMM + bias + 激活 融合：z = relu(x * y + y)
    z = x * y
    z = z + y
    z = tl.where(z > 0, z, 0.0)
    tl.store(OUT_PTR + offs, z, mask=mask)
"#;

pub(crate) fn fused_source() -> (r: String)
    ensures
        r@ == fused_template(),
{
    let mut s = FUSED_1.to_owned();
    push_slot(&mut s, ": Fused（dtype=", "__DT__", "，");
    push_slot(&mut s, "融合算子链: ", "__OPS__", "）");
    s.append(FUSED_2);
    push_slot(&mut s, "def ", "__NAME__", "(");
    s.append(FUSED_3);
    s
}

/// An operator that is not known.
pub open spec fn custom_template() -> Seq<char> {
    CUSTOM_1@
        + slot(": Custom op（dtype="@, "__DT__"@, "，"@)
        + slot("原始 op_type = "@, "__OP_TYPE__"@, "）"@)
        + CUSTOM_2@
        + slot("def "@, "__NAME__"@, "("@)
        + CUSTOM_3@
}

pub const CUSTOM_1: &'static str = r#"# __NAME__"#;

pub const CUSTOM_2: &'static str = r#"
# 注: 未知 ONNX 算子，生成通用元素级 identity kernel，host 端可替换为自定义实现
@triton.jit
"#;

pub const CUSTOM_3: &'static str = r#"INPUT_PTR, OUTPUT_PTR, N, BLOCK_SIZE: tl.constexpr):
    pid = tl.program_id(0)
    offs = pid * BLOCK_SIZE + tl.arange(0, BLOCK_SIZE)
    mask = offs < N
    x = tl.load(INPUT_PTR + offs, mask=mask)
    tl.store(OUTPUT_PTR + offs, x, mask=mask)
"#;

pub(crate) fn custom_source() -> (r: String)
    ensures
        r@ == custom_template(),
{
    let mut s = CUSTOM_1.to_owned();
    push_slot(&mut s, ": Custom op（dtype=", "__DT__", "，");
    push_slot(&mut s, "原始 op_type = ", "__OP_TYPE__", "）");
    s.append(CUSTOM_2);
    push_slot(&mut s, "def ", "__NAME__", "(");
    s.append(CUSTOM_3);
    s
}

/// What a file begins with.
pub const HEADER: &'static str = r#"# ============================================================
# neutron — Triton (Python DSL) kernel 源码
# 微架构: "#;

/// Remarks on an architecture.
pub const TMA_NOTES: &'static str = r#"# 特性: Hopper/Blackwell TMA (Tensor Memory Accelerator) + wgmma
"#;

/// Remarks on an architecture.
pub const AMPERE_NOTES: &'static str = r#"# 特性: Ampere 标准 tl.dot（BLOCK_M=BLOCK_N=64, BLOCK_K=32）
"#;

/// Remarks on an architecture.
pub const OTHER_NOTES: &'static str = r#"# 注: Triton 主要面向 NVIDIA GPU；非 NVIDIA 架构仍生成通用 Triton 代码
"#;

/// What stands before the kernels.
pub const PRELUDE: &'static str = r#"# ============================================================

import triton
import triton.language as tl
import torch

"#;

/// What stands before the launchers.
pub const LAUNCHERS: &'static str = r#"# ============================================================
# launch wrappers（Python host 端用 torch.Tensor + triton.cdiv 调度）
# ============================================================

"#;

/// The launcher of binary kernels.
pub const LAUNCH_BINARY: &'static str = r#"def launch___NAME__(x, y, out, n):
    BLOCK_SIZE = 1024
    grid = (triton.cdiv(n, BLOCK_SIZE),)
    __NAME__[grid](x, y, out, n, BLOCK_SIZE=BLOCK_SIZE)
"#;

/// The launcher of unary kernels.
pub const LAUNCH_UNARY: &'static str = r#"def launch___NAME__(x, out, n):
    BLOCK_SIZE = 1024
    grid = (triton.cdiv(n, BLOCK_SIZE),)
    __NAME__[grid](x, out, n, BLOCK_SIZE=BLOCK_SIZE)
"#;

/// The launcher of reduce kernels.
pub const LAUNCH_REDUCE: &'static str = r#"def launch___NAME__(x, out, n):
    BLOCK_SIZE = 1024
    grid = (1,)
    __NAME__[grid](x, out, n, BLOCK_SIZE=BLOCK_SIZE)
"#;

/// The launcher of matmul kernels.
pub const LAUNCH_MATMUL: &'static str = r#"def launch___NAME__(a, b, c, m, n, k):
    BLOCK_M = 64
    BLOCK_N = 64
    BLOCK_K = 32
    grid = (triton.cdiv(m, BLOCK_M), triton.cdiv(n, BLOCK_N))
    __NAME__[grid](a, b, c, m, n, k,
                   a.stride(0), a.stride(1), b.stride(0), b.stride(1),
                   c.stride(0), c.stride(1),
                   BLOCK_M=BLOCK_M, BLOCK_N=BLOCK_N, BLOCK_K=BLOCK_K)
"#;

/// The launcher of softmax kernels.
pub const LAUNCH_SOFTMAX: &'static str = r#"def launch___NAME__(x, out, n_cols, n_rows):
    BLOCK_SIZE = 1024
    grid = (n_rows,)
    __NAME__[grid](x, out, n_cols, BLOCK_SIZE=BLOCK_SIZE)
"#;

/// The launcher of layernorm kernels.
pub const LAUNCH_LAYERNORM: &'static str = r#"def launch___NAME__(x, out, n_cols, n_rows, eps=1e-5):
    BLOCK_SIZE = 1024
    grid = (n_rows,)
    __NAME__[grid](x, out, n_cols, eps, BLOCK_SIZE=BLOCK_SIZE)
"#;

/// The launcher of conv kernels.
pub const LAUNCH_CONV: &'static str = r#"def launch___NAME__(inp, weight, bias, output, n, c_in, h, w, c_out, stride_h, stride_w, kh):
    oh = (h - kh) // stride_h + 1
    ow = (w - kh) // stride_w + 1
    total = n * c_out * oh * ow
    BLOCK_SIZE = 256
    grid = (triton.cdiv(total, BLOCK_SIZE),)
    __NAME__[grid](inp, weight, bias, output, n, c_in, h, w, c_out,
                   stride_h, stride_w, kh, BLOCK_SIZE=BLOCK_SIZE)
"#;

/// The launcher of pool kernels.
pub const LAUNCH_POOL: &'static str = r#"def launch___NAME__(inp, output, c, h, w, kh, kw, stride_h, stride_w):
    oh = (h - kh) // stride_h + 1
    ow = (w - kw) // stride_w + 1
    total = c * oh * ow
    BLOCK_SIZE = 256
    grid = (triton.cdiv(total, BLOCK_SIZE),)
    __NAME__[grid](inp, output, c, h, w, kh, kw, stride_h, stride_w,
                   BLOCK_SIZE=BLOCK_SIZE)
"#;

/// The launcher of copy kernels.
pub const LAUNCH_COPY: &'static str = r#"def launch___NAME__(inp, out, n):
    BLOCK_SIZE = 1024
    grid = (triton.cdiv(n, BLOCK_SIZE),)
    __NAME__[grid](inp, out, n, BLOCK_SIZE=BLOCK_SIZE)
"#;

/// The launcher of transpose kernels.
pub const LAUNCH_TRANSPOSE: &'static str = r#"def launch___NAME__(inp, out, h, w):
    BLOCK_M = 32
    BLOCK_N = 32
    grid = (triton.cdiv(h, BLOCK_M), triton.cdiv(w, BLOCK_N))
    __NAME__[grid](inp, out, h, w, BLOCK_M=BLOCK_M, BLOCK_N=BLOCK_N)
"#;

/// The launcher of concat kernels.
pub const LAUNCH_CONCAT: &'static str = r#"def launch___NAME__(inp0, inp1, out, offset0, offset1, total):
    BLOCK_SIZE = 1024
    grid = (triton.cdiv(total, BLOCK_SIZE),)
    __NAME__[grid](inp0, inp1, out, offset0, offset1, total,
                   BLOCK_SIZE=BLOCK_SIZE)
"#;

/// The launcher of constant kernels.
pub const LAUNCH_CONSTANT: &'static str = r#"def launch___NAME__(out, value, n):
    BLOCK_SIZE = 1024
    grid = (triton.cdiv(n, BLOCK_SIZE),)
    __NAME__[grid](out, value, n, BLOCK_SIZE=BLOCK_SIZE)
"#;

/// The launcher of marker kernels.
pub const LAUNCH_MARKER: &'static str = r#"def launch___NAME__(inp, out, n):
    BLOCK_SIZE = 1024
    grid = (triton.cdiv(n, BLOCK_SIZE),)
    __NAME__[grid](inp, out, n, BLOCK_SIZE=BLOCK_SIZE)
"#;

/// The launcher of fused kernels.
pub const LAUNCH_FUSED: &'static str = r#"def launch___NAME__(a, b, c, n):
    BLOCK_SIZE = 1024
    grid = (triton.cdiv(n, BLOCK_SIZE),)
    __NAME__[grid](a, b, c, n, BLOCK_SIZE=BLOCK_SIZE)
"#;

/// The launcher of custom kernels.
pub const LAUNCH_CUSTOM: &'static str = r#"def launch___NAME__(inp, out, n):
    BLOCK_SIZE = 1024
    grid = (triton.cdiv(n, BLOCK_SIZE),)
    __NAME__[grid](inp, out, n, BLOCK_SIZE=BLOCK_SIZE)
"#;

/// The parts around tokens stand in the template.
pub proof fn custom_holds_slots()
    ensures
        contains(custom_template(), slot(": Custom op（dtype="@, "__DT__"@, "，"@)),
        contains(custom_template(), slot("原始 op_type = "@, "__OP_TYPE__"@, "）"@)),
        contains(custom_template(), slot("def "@, "__NAME__"@, "("@)),
{
    let t0 = CUSTOM_1@;
    end_is_part(t0, slot(": Custom op（dtype="@, "__DT__"@, "，"@));
    let t1 = t0 + slot(": Custom op（dtype="@, "__DT__"@, "，"@);
    part_stays(t1, slot("原始 op_type = "@, "__OP_TYPE__"@, "）"@), slot(": Custom op（dtype="@, "__DT__"@, "，"@));
    end_is_part(t1, slot("原始 op_type = "@, "__OP_TYPE__"@, "）"@));
    let t2 = t1 + slot("原始 op_type = "@, "__OP_TYPE__"@, "）"@);
    part_stays(t2, CUSTOM_2@, slot(": Custom op（dtype="@, "__DT__"@, "，"@));
    part_stays(t2, CUSTOM_2@, slot("原始 op_type = "@, "__OP_TYPE__"@, "）"@));
    let t3 = t2 + CUSTOM_2@;
    part_stays(t3, slot("def "@, "__NAME__"@, "("@), slot(": Custom op（dtype="@, "__DT__"@, "，"@));
    part_stays(t3, slot("def "@, "__NAME__"@, "("@), slot("原始 op_type = "@, "__OP_TYPE__"@, "）"@));
    end_is_part(t3, slot("def "@, "__NAME__"@, "("@));
    let t4 = t3 + slot("def "@, "__NAME__"@, "("@);
    part_stays(t4, CUSTOM_3@, slot(": Custom op（dtype="@, "__DT__"@, "，"@));
    part_stays(t4, CUSTOM_3@, slot("原始 op_type = "@, "__OP_TYPE__"@, "）"@));
    part_stays(t4, CUSTOM_3@, slot("def "@, "__NAME__"@, "("@));
    let t5 = t4 + CUSTOM_3@;
}

/// The parts around tokens stand in the template.
pub proof fn fused_holds_slots()
    ensures
        contains(fused_template(), slot(": Fused（dtype="@, "__DT__"@, "，"@)),
        contains(fused_template(), slot("融合算子链: "@, "__OPS__"@, "）"@)),
        contains(fused_template(), slot("def "@, "__NAME__"@, "("@)),
{
    let t0 = FUSED_1@;
    end_is_part(t0, slot(": Fused（dtype="@, "__DT__"@, "，"@));
    let t1 = t0 + slot(": Fused（dtype="@, "__DT__"@, "，"@);
    part_stays(t1, slot("融合算子链: "@, "__OPS__"@, "）"@), slot(": Fused（dtype="@, "__DT__"@, "，"@));
    end_is_part(t1, slot("融合算子链: "@, "__OPS__"@, "）"@));
    let t2 = t1 + slot("融合算子链: "@, "__OPS__"@, "）"@);
    part_stays(t2, FUSED_2@, slot(": Fused（dtype="@, "__DT__"@, "，"@));
    part_stays(t2, FUSED_2@, slot("融合算子链: "@, "__OPS__"@, "）"@));
    let t3 = t2 + FUSED_2@;
    part_stays(t3, slot("def "@, "__NAME__"@, "("@), slot(": Fused（dtype="@, "__DT__"@, "，"@));
    part_stays(t3, slot("def "@, "__NAME__"@, "("@), slot("融合算子链: "@, "__OPS__"@, "）"@));
    end_is_part(t3, slot("def "@, "__NAME__"@, "("@));
    let t4 = t3 + slot("def "@, "__NAME__"@, "("@);
    part_stays(t4, FUSED_3@, slot(": Fused（dtype="@, "__DT__"@, "，"@));
    part_stays(t4, FUSED_3@, slot("融合算子链: "@, "__OPS__"@, "）"@));
    part_stays(t4, FUSED_3@, slot("def "@, "__NAME__"@, "("@));
    let t5 = t4 + FUSED_3@;
}

/// The parts around tokens stand in the template.
pub proof fn return_holds_slots()
    ensures
        contains(return_template(), slot(": Return（dtype="@, "__DT__"@, "，"@)),
        contains(return_template(), slot("def "@, "__NAME__"@, "("@)),
{
    let t0 = RETURN_1@;
    end_is_part(t0, slot(": Return（dtype="@, "__DT__"@, "，"@));
    let t1 = t0 + slot(": Return（dtype="@, "__DT__"@, "，"@);
    part_stays(t1, RETURN_2@, slot(": Return（dtype="@, "__DT__"@, "，"@));
    let t2 = t1 + RETURN_2@;
    part_stays(t2, slot("def "@, "__NAME__"@, "("@), slot(": Return（dtype="@, "__DT__"@, "，"@));
    end_is_part(t2, slot("def "@, "__NAME__"@, "("@));
    let t3 = t2 + slot("def "@, "__NAME__"@, "("@);
    part_stays(t3, RETURN_3@, slot(": Return（dtype="@, "__DT__"@, "，"@));
    part_stays(t3, RETURN_3@, slot("def "@, "__NAME__"@, "("@));
    let t4 = t3 + RETURN_3@;
}

/// The parts around tokens stand in the template.
pub proof fn placeholder_holds_slots()
    ensures
        contains(placeholder_template(), slot(": Placeholder（dtype="@, "__DT__"@, "，"@)),
        contains(placeholder_template(), slot("def "@, "__NAME__"@, "("@)),
{
    let t0 = PLACEHOLDER_1@;
    end_is_part(t0, slot(": Placeholder（dtype="@, "__DT__"@, "，"@));
    let t1 = t0 + slot(": Placeholder（dtype="@, "__DT__"@, "，"@);
    part_stays(t1, PLACEHOLDER_2@, slot(": Placeholder（dtype="@, "__DT__"@, "，"@));
    let t2 = t1 + PLACEHOLDER_2@;
    part_stays(t2, slot("def "@, "__NAME__"@, "("@), slot(": Placeholder（dtype="@, "__DT__"@, "，"@));
    end_is_part(t2, slot("def "@, "__NAME__"@, "("@));
    let t3 = t2 + slot("def "@, "__NAME__"@, "("@);
    part_stays(t3, PLACEHOLDER_3@, slot(": Placeholder（dtype="@, "__DT__"@, "，"@));
    part_stays(t3, PLACEHOLDER_3@, slot("def "@, "__NAME__"@, "("@));
    let t4 = t3 + PLACEHOLDER_3@;
}

/// The parts around tokens stand in the template.
pub proof fn constant_holds_slots()
    ensures
        contains(constant_template(), slot(": Constant（dtype="@, "__DT__"@, "，"@)),
        contains(constant_template(), slot("用 tl.full 填充标量 value="@, "__VAL__"@, " "@)),
        contains(constant_template(), slot("def "@, "__NAME__"@, "("@)),
{
    let t0 = CONSTANT_1@;
    end_is_part(t0, slot(": Constant（dtype="@, "__DT__"@, "，"@));
    let t1 = t0 + slot(": Constant（dtype="@, "__DT__"@, "，"@);
    part_stays(t1, slot("用 tl.full 填充标量 value="@, "__VAL__"@, " "@), slot(": Constant（dtype="@, "__DT__"@, "，"@));
    end_is_part(t1, slot("用 tl.full 填充标量 value="@, "__VAL__"@, " "@));
    let t2 = t1 + slot("用 tl.full 填充标量 value="@, "__VAL__"@, " "@);
    part_stays(t2, CONSTANT_2@, slot(": Constant（dtype="@, "__DT__"@, "，"@));
    part_stays(t2, CONSTANT_2@, slot("用 tl.full 填充标量 value="@, "__VAL__"@, " "@));
    let t3 = t2 + CONSTANT_2@;
    part_stays(t3, slot("def "@, "__NAME__"@, "("@), slot(": Constant（dtype="@, "__DT__"@, "，"@));
    part_stays(t3, slot("def "@, "__NAME__"@, "("@), slot("用 tl.full 填充标量 value="@, "__VAL__"@, " "@));
    end_is_part(t3, slot("def "@, "__NAME__"@, "("@));
    let t4 = t3 + slot("def "@, "__NAME__"@, "("@);
    part_stays(t4, CONSTANT_3@, slot(": Constant（dtype="@, "__DT__"@, "，"@));
    part_stays(t4, CONSTANT_3@, slot("用 tl.full 填充标量 value="@, "__VAL__"@, " "@));
    part_stays(t4, CONSTANT_3@, slot("def "@, "__NAME__"@, "("@));
    let t5 = t4 + CONSTANT_3@;
}

/// The parts around tokens stand in the template.
pub proof fn slice_holds_slots()
    ensures
        contains(slice_template(), slot(": Slice（dtype="@, "__DT__"@, "，"@)),
        contains(slice_template(), slot("def "@, "__NAME__"@, "("@)),
{
    let t0 = SLICE_1@;
    end_is_part(t0, slot(": Slice（dtype="@, "__DT__"@, "，"@));
    let t1 = t0 + slot(": Slice（dtype="@, "__DT__"@, "，"@);
    part_stays(t1, SLICE_2@, slot(": Slice（dtype="@, "__DT__"@, "，"@));
    let t2 = t1 + SLICE_2@;
    part_stays(t2, slot("def "@, "__NAME__"@, "("@), slot(": Slice（dtype="@, "__DT__"@, "，"@));
    end_is_part(t2, slot("def "@, "__NAME__"@, "("@));
    let t3 = t2 + slot("def "@, "__NAME__"@, "("@);
    part_stays(t3, SLICE_3@, slot(": Slice（dtype="@, "__DT__"@, "，"@));
    part_stays(t3, SLICE_3@, slot("def "@, "__NAME__"@, "("@));
    let t4 = t3 + SLICE_3@;
}

/// The parts around tokens stand in the template.
pub proof fn concat_holds_slots()
    ensures
        contains(concat_template(), slot(": Concat（dtype="@, "__DT__"@, "，"@)),
        contains(concat_template(), slot("沿 axis 拼接，每 program 处理一段输出；"@, "__N_INPUTS__"@, " "@)),
        contains(concat_template(), slot("def "@, "__NAME__"@, "("@)),
{
    let t0 = CONCAT_1@;
    end_is_part(t0, slot(": Concat（dtype="@, "__DT__"@, "，"@));
    let t1 = t0 + slot(": Concat（dtype="@, "__DT__"@, "，"@);
    part_stays(t1, slot("沿 axis 拼接，每 program 处理一段输出；"@, "__N_INPUTS__"@, " "@), slot(": Concat（dtype="@, "__DT__"@, "，"@));
    end_is_part(t1, slot("沿 axis 拼接，每 program 处理一段输出；"@, "__N_INPUTS__"@, " "@));
    let t2 = t1 + slot("沿 axis 拼接，每 program 处理一段输出；"@, "__N_INPUTS__"@, " "@);
    part_stays(t2, CONCAT_2@, slot(": Concat（dtype="@, "__DT__"@, "，"@));
    part_stays(t2, CONCAT_2@, slot("沿 axis 拼接，每 program 处理一段输出；"@, "__N_INPUTS__"@, " "@));
    let t3 = t2 + CONCAT_2@;
    part_stays(t3, slot("def "@, "__NAME__"@, "("@), slot(": Concat（dtype="@, "__DT__"@, "，"@));
    part_stays(t3, slot("def "@, "__NAME__"@, "("@), slot("沿 axis 拼接，每 program 处理一段输出；"@, "__N_INPUTS__"@, " "@));
    end_is_part(t3, slot("def "@, "__NAME__"@, "("@));
    let t4 = t3 + slot("def "@, "__NAME__"@, "("@);
    part_stays(t4, CONCAT_3@, slot(": Concat（dtype="@, "__DT__"@, "，"@));
    part_stays(t4, CONCAT_3@, slot("沿 axis 拼接，每 program 处理一段输出；"@, "__N_INPUTS__"@, " "@));
    part_stays(t4, CONCAT_3@, slot("def "@, "__NAME__"@, "("@));
    let t5 = t4 + CONCAT_3@;
}

/// The parts around tokens stand in the template.
pub proof fn transpose_holds_slots()
    ensures
        contains(transpose_template(), slot(": Transpose（dtype="@, "__DT__"@, "，"@)),
        contains(transpose_template(), slot("def "@, "__NAME__"@, "("@)),
{
    let t0 = TRANSPOSE_1@;
    end_is_part(t0, slot(": Transpose（dtype="@, "__DT__"@, "，"@));
    let t1 = t0 + slot(": Transpose（dtype="@, "__DT__"@, "，"@);
    part_stays(t1, TRANSPOSE_2@, slot(": Transpose（dtype="@, "__DT__"@, "，"@));
    let t2 = t1 + TRANSPOSE_2@;
    part_stays(t2, slot("def "@, "__NAME__"@, "("@), slot(": Transpose（dtype="@, "__DT__"@, "，"@));
    end_is_part(t2, slot("def "@, "__NAME__"@, "("@));
    let t3 = t2 + slot("def "@, "__NAME__"@, "("@);
    part_stays(t3, TRANSPOSE_3@, slot(": Transpose（dtype="@, "__DT__"@, "，"@));
    part_stays(t3, TRANSPOSE_3@, slot("def "@, "__NAME__"@, "("@));
    let t4 = t3 + TRANSPOSE_3@;
}

/// The parts around tokens stand in the template.
pub proof fn reshape_holds_slots()
    ensures
        contains(reshape_template(), slot(": Reshape（dtype="@, "__DT__"@, "，"@)),
        contains(reshape_template(), slot("def "@, "__NAME__"@, "("@)),
{
    let t0 = RESHAPE_1@;
    end_is_part(t0, slot(": Reshape（dtype="@, "__DT__"@, "，"@));
    let t1 = t0 + slot(": Reshape（dtype="@, "__DT__"@, "，"@);
    part_stays(t1, RESHAPE_2@, slot(": Reshape（dtype="@, "__DT__"@, "，"@));
    let t2 = t1 + RESHAPE_2@;
    part_stays(t2, slot("def "@, "__NAME__"@, "("@), slot(": Reshape（dtype="@, "__DT__"@, "，"@));
    end_is_part(t2, slot("def "@, "__NAME__"@, "("@));
    let t3 = t2 + slot("def "@, "__NAME__"@, "("@);
    part_stays(t3, RESHAPE_3@, slot(": Reshape（dtype="@, "__DT__"@, "，"@));
    part_stays(t3, RESHAPE_3@, slot("def "@, "__NAME__"@, "("@));
    let t4 = t3 + RESHAPE_3@;
}

/// The parts around tokens stand in the template.
pub proof fn pool_holds_slots()
    ensures
        contains(pool_template(), slot("def "@, "__NAME__"@, "("@)),
{
    let t0 = POOL_1@;
    end_is_part(t0, slot("def "@, "__NAME__"@, "("@));
    let t1 = t0 + slot("def "@, "__NAME__"@, "("@);
    part_stays(t1, POOL_2@, slot("def "@, "__NAME__"@, "("@));
    let t2 = t1 + POOL_2@;
}

/// The parts around tokens stand in the template.
pub proof fn conv_holds_slots()
    ensures
        contains(conv_template(), slot("def "@, "__NAME__"@, "("@)),
{
    let t0 = CONV_1@;
    end_is_part(t0, slot("def "@, "__NAME__"@, "("@));
    let t1 = t0 + slot("def "@, "__NAME__"@, "("@);
    part_stays(t1, CONV_2@, slot("def "@, "__NAME__"@, "("@));
    let t2 = t1 + CONV_2@;
}

/// The parts around tokens stand in the template.
pub proof fn layernorm_holds_slots()
    ensures
        contains(layernorm_template(), slot(": LayerNorm（dtype="@, "__DT__"@, "，"@)),
        contains(layernorm_template(), slot("n → var → normalize，epsilon="@, "__EPS__"@, "）"@)),
        contains(layernorm_template(), slot("def "@, "__NAME__"@, "("@)),
{
    let t0 = LAYERNORM_1@;
    end_is_part(t0, slot(": LayerNorm（dtype="@, "__DT__"@, "，"@));
    let t1 = t0 + slot(": LayerNorm（dtype="@, "__DT__"@, "，"@);
    part_stays(t1, LAYERNORM_2@, slot(": LayerNorm（dtype="@, "__DT__"@, "，"@));
    let t2 = t1 + LAYERNORM_2@;
    part_stays(t2, slot("n → var → normalize，epsilon="@, "__EPS__"@, "）"@), slot(": LayerNorm（dtype="@, "__DT__"@, "，"@));
    end_is_part(t2, slot("n → var → normalize，epsilon="@, "__EPS__"@, "）"@));
    let t3 = t2 + slot("n → var → normalize，epsilon="@, "__EPS__"@, "）"@);
    part_stays(t3, LAYERNORM_3@, slot(": LayerNorm（dtype="@, "__DT__"@, "，"@));
    part_stays(t3, LAYERNORM_3@, slot("n → var → normalize，epsilon="@, "__EPS__"@, "）"@));
    let t4 = t3 + LAYERNORM_3@;
    part_stays(t4, slot("def "@, "__NAME__"@, "("@), slot(": LayerNorm（dtype="@, "__DT__"@, "，"@));
    part_stays(t4, slot("def "@, "__NAME__"@, "("@), slot("n → var → normalize，epsilon="@, "__EPS__"@, "）"@));
    end_is_part(t4, slot("def "@, "__NAME__"@, "("@));
    let t5 = t4 + slot("def "@, "__NAME__"@, "("@);
    part_stays(t5, LAYERNORM_4@, slot(": LayerNorm（dtype="@, "__DT__"@, "，"@));
    part_stays(t5, LAYERNORM_4@, slot("n → var → normalize，epsilon="@, "__EPS__"@, "）"@));
    part_stays(t5, LAYERNORM_4@, slot("def "@, "__NAME__"@, "("@));
    let t6 = t5 + LAYERNORM_4@;
}

/// The parts around tokens stand in the template.
pub proof fn softmax_holds_slots()
    ensures
        contains(softmax_template(), slot("def "@, "__NAME__"@, "("@)),
{
    let t0 = SOFTMAX_1@;
    end_is_part(t0, slot("def "@, "__NAME__"@, "("@));
    let t1 = t0 + slot("def "@, "__NAME__"@, "("@);
    part_stays(t1, SOFTMAX_2@, slot("def "@, "__NAME__"@, "("@));
    let t2 = t1 + SOFTMAX_2@;
}

/// The parts around tokens stand in the template.
pub proof fn matmul_generic_holds_slots()
    ensures
        contains(matmul_generic_template(), slot("def "@, "__NAME__"@, "("@)),
{
    let t0 = MATMUL_GENERIC_1@;
    end_is_part(t0, slot("def "@, "__NAME__"@, "("@));
    let t1 = t0 + slot("def "@, "__NAME__"@, "("@);
    part_stays(t1, MATMUL_GENERIC_2@, slot("def "@, "__NAME__"@, "("@));
    let t2 = t1 + MATMUL_GENERIC_2@;
}

/// The parts around tokens stand in the template.
pub proof fn matmul_blackwell_holds_slots()
    ensures
        contains(matmul_blackwell_template(), slot("def "@, "__NAME__"@, "("@)),
{
    let t0 = MATMUL_BLACKWELL_1@;
    end_is_part(t0, slot("def "@, "__NAME__"@, "("@));
    let t1 = t0 + slot("def "@, "__NAME__"@, "("@);
    part_stays(t1, MATMUL_BLACKWELL_2@, slot("def "@, "__NAME__"@, "("@));
    let t2 = t1 + MATMUL_BLACKWELL_2@;
}

/// The parts around tokens stand in the template.
pub proof fn matmul_ampere_holds_slots()
    ensures
        contains(matmul_ampere_template(), slot("def "@, "__NAME__"@, "("@)),
{
    let t0 = MATMUL_AMPERE_1@;
    end_is_part(t0, slot("def "@, "__NAME__"@, "("@));
    let t1 = t0 + slot("def "@, "__NAME__"@, "("@);
    part_stays(t1, MATMUL_AMPERE_2@, slot("def "@, "__NAME__"@, "("@));
    let t2 = t1 + MATMUL_AMPERE_2@;
}

/// The parts around tokens stand in the template.
pub proof fn matmul_hopper_holds_slots()
    ensures
        contains(matmul_hopper_template(), slot("def "@, "__NAME__"@, "("@)),
{
    let t0 = MATMUL_HOPPER_1@;
    end_is_part(t0, slot("def "@, "__NAME__"@, "("@));
    let t1 = t0 + slot("def "@, "__NAME__"@, "("@);
    part_stays(t1, MATMUL_HOPPER_2@, slot("def "@, "__NAME__"@, "("@));
    let t2 = t1 + MATMUL_HOPPER_2@;
}

/// The parts around tokens stand in the template.
pub proof fn reduce_holds_slots()
    ensures
        contains(reduce_template(), slot(": Reduce（dtype="@, "__DT__"@, "，"@)),
        contains(reduce_template(), slot("def "@, "__NAME__"@, "("@)),
{
    let t0 = REDUCE_1@;
    end_is_part(t0, slot(": Reduce（dtype="@, "__DT__"@, "，"@));
    let t1 = t0 + slot(": Reduce（dtype="@, "__DT__"@, "，"@);
    part_stays(t1, REDUCE_2@, slot(": Reduce（dtype="@, "__DT__"@, "，"@));
    let t2 = t1 + REDUCE_2@;
    part_stays(t2, slot("def "@, "__NAME__"@, "("@), slot(": Reduce（dtype="@, "__DT__"@, "，"@));
    end_is_part(t2, slot("def "@, "__NAME__"@, "("@));
    let t3 = t2 + slot("def "@, "__NAME__"@, "("@);
    part_stays(t3, REDUCE_3@, slot(": Reduce（dtype="@, "__DT__"@, "，"@));
    part_stays(t3, REDUCE_3@, slot("def "@, "__NAME__"@, "("@));
    let t4 = t3 + REDUCE_3@;
}

/// The parts around tokens stand in the template.
pub proof fn elem_unary_holds_slots()
    ensures
        contains(elem_unary_template(), slot(": 元素级一元 op（dtype="@, "__DT__"@, "，"@)),
        contains(elem_unary_template(), slot("def "@, "__NAME__"@, "("@)),
{
    let t0 = ELEM_UNARY_1@;
    end_is_part(t0, slot(": 元素级一元 op（dtype="@, "__DT__"@, "，"@));
    let t1 = t0 + slot(": 元素级一元 op（dtype="@, "__DT__"@, "，"@);
    part_stays(t1, ELEM_UNARY_2@, slot(": 元素级一元 op（dtype="@, "__DT__"@, "，"@));
    let t2 = t1 + ELEM_UNARY_2@;
    part_stays(t2, slot("def "@, "__NAME__"@, "("@), slot(": 元素级一元 op（dtype="@, "__DT__"@, "，"@));
    end_is_part(t2, slot("def "@, "__NAME__"@, "("@));
    let t3 = t2 + slot("def "@, "__NAME__"@, "("@);
    part_stays(t3, ELEM_UNARY_3@, slot(": 元素级一元 op（dtype="@, "__DT__"@, "，"@));
    part_stays(t3, ELEM_UNARY_3@, slot("def "@, "__NAME__"@, "("@));
    let t4 = t3 + ELEM_UNARY_3@;
}

/// The parts around tokens stand in the template.
pub proof fn elem_binary_holds_slots()
    ensures
        contains(elem_binary_template(), slot(": 元素级二元 op（dtype="@, "__DT__"@, "，"@)),
        contains(elem_binary_template(), slot("def "@, "__NAME__"@, "("@)),
{
    let t0 = ELEM_BINARY_1@;
    end_is_part(t0, slot(": 元素级二元 op（dtype="@, "__DT__"@, "，"@));
    let t1 = t0 + slot(": 元素级二元 op（dtype="@, "__DT__"@, "，"@);
    part_stays(t1, ELEM_BINARY_2@, slot(": 元素级二元 op（dtype="@, "__DT__"@, "，"@));
    let t2 = t1 + ELEM_BINARY_2@;
    part_stays(t2, slot("def "@, "__NAME__"@, "("@), slot(": 元素级二元 op（dtype="@, "__DT__"@, "，"@));
    end_is_part(t2, slot("def "@, "__NAME__"@, "("@));
    let t3 = t2 + slot("def "@, "__NAME__"@, "("@);
    part_stays(t3, ELEM_BINARY_3@, slot(": 元素级二元 op（dtype="@, "__DT__"@, "，"@));
    part_stays(t3, ELEM_BINARY_3@, slot("def "@, "__NAME__"@, "("@));
    let t4 = t3 + ELEM_BINARY_3@;
}

} // verus!
