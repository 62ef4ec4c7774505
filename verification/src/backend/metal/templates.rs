//! The texts that Metal source is made from.

use vstd::prelude::*;
use crate::backend::dialect::contains;
use crate::backend::filling::{end_is_part, part_stays, push_slot, slot};

verus! {

/// A kernel that applies a statement to two inputs, element by element.
pub open spec fn elem_binary_template() -> Seq<char> {
    ELEM_BINARY_1@
        + slot("kernel void "@, "__NAME__"@, "("@)
        + slot("device const "@, "__T__"@, "*"@)
        + ELEM_BINARY_2@
}

pub const ELEM_BINARY_1: &'static str = r#"// __NAME__: 元素级二元 op（每线程一个元素）
"#;

pub const ELEM_BINARY_2: &'static str = r#" a [[buffer(0)]],
                     device const __T__* b [[buffer(1)]],
                     device __T__* c [[buffer(2)]],
                     uint tid [[thread_position_in_grid]]) {
    __BODY__
}
"#;

pub(crate) fn elem_binary_source() -> (r: String)
    ensures
        r@ == elem_binary_template(),
{
    let mut s = ELEM_BINARY_1.to_owned();
    push_slot(&mut s, "kernel void ", "__NAME__", "(");
    push_slot(&mut s, "device const ", "__T__", "*");
    s.append(ELEM_BINARY_2);
    s
}

/// A kernel that applies an expression to each element.
pub open spec fn elem_unary_template() -> Seq<char> {
    ELEM_UNARY_1@
        + slot("kernel void "@, "__NAME__"@, "("@)
        + slot("device const "@, "__T__"@, "*"@)
        + ELEM_UNARY_2@
}

pub const ELEM_UNARY_1: &'static str = r#"// __NAME__: 元素级一元 op（每线程一个元素）
"#;

pub const ELEM_UNARY_2: &'static str = r#" a [[buffer(0)]],
                     device __T__* c [[buffer(1)]],
                     uint tid [[thread_position_in_grid]]) {
    __T__ x = a[tid];
    c[tid] = __EXPR__;
}
"#;

pub(crate) fn elem_unary_source() -> (r: String)
    ensures
        r@ == elem_unary_template(),
{
    let mut s = ELEM_UNARY_1.to_owned();
    push_slot(&mut s, "kernel void ", "__NAME__", "(");
    push_slot(&mut s, "device const ", "__T__", "*");
    s.append(ELEM_UNARY_2);
    s
}

/// A reduction in threadgroup memory.
pub open spec fn reduce_template() -> Seq<char> {
    REDUCE_1@
        + slot("kernel void "@, "__NAME__"@, "("@)
        + slot("device const "@, "__T__"@, "*"@)
        + REDUCE_2@
}

pub const REDUCE_1: &'static str = r#"// __NAME__: 树形归约（threadgroup shared memory + barrier）
"#;

pub const REDUCE_2: &'static str = r#" input [[buffer(0)]],
                    device __T__* output [[buffer(1)]],
                    constant uint& N [[buffer(2)]],
                    uint tid [[thread_position_in_threadgroup]],
                    uint gid [[thread_position_in_grid]],
                    uint bid [[threadgroup_position_in_grid]],
                    uint block_size [[threads_per_threadgroup]]) {
    threadgroup __T__ shared[256];
    shared[tid] = (gid < N) ? input[gid] : __IDENT__;
    threadgroup_barrier(mem_flags::mem_threadgroup);
    for (uint s = block_size / 2; s > 0; s >>= 1) {
        if (tid < s) {
            __COMBINE__
        }
        threadgroup_barrier(mem_flags::mem_threadgroup);
    }
    __FINALIZE__
}
"#;

pub(crate) fn reduce_source() -> (r: String)
    ensures
        r@ == reduce_template(),
{
    let mut s = REDUCE_1.to_owned();
    push_slot(&mut s, "kernel void ", "__NAME__", "(");
    push_slot(&mut s, "device const ", "__T__", "*");
    s.append(REDUCE_2);
    s
}

/// A matrix product on SIMD groups.
pub open spec fn matmul_template() -> Seq<char> {
    MATMUL_1@
        + slot("kernel void "@, "__NAME__"@, "("@)
        + MATMUL_2@
}

pub const MATMUL_1: &'static str = r#"// __NAME__: MatMul（simdgroup 8x8 tile 矩阵乘法）
__ARCH_NOTE__
// BLOCK_M=BLOCK_N=32（4x4 个 simdgroup 8x8 tile）
"#;

pub const MATMUL_2: &'static str = r#"device const float* A [[buffer(0)]],
                     device const float* B [[buffer(1)]],
                     device float* C [[buffer(2)]],
                     constant uint3& dims [[buffer(3)]],   // dims = (M, N, K)
                     uint2 local_id [[thread_position_in_threadgroup]],
                     uint2 block_id [[threadgroup_position_in_grid]]) {
    constexpr uint TILE = 8;
    constexpr uint BLOCK_M = 32;
    constexpr uint BLOCK_N = 32;
    uint M = dims.x;
    uint N = dims.y;
    uint K = dims.z;
    // threadgroup 内 simdgroup 的 2D 位置（每个 simdgroup 处理一个 8x8 输出 tile）
    uint sg_row = local_id.y / TILE;
    uint sg_col = local_id.x / TILE;
    uint row0 = block_id.y * BLOCK_M + sg_row * TILE;
    uint col0 = block_id.x * BLOCK_N + sg_col * TILE;
    simdgroup<float8x8> acc;
    simdgroup_fill(acc, 0.0f);
    for (uint k = 0; k < K; k += TILE) {
        simdgroup<float8x8> a_tile, b_tile;
        simdgroup_load(a_tile, A + row0 * K + k, K);
        simdgroup_load(b_tile, B + k * N + col0, N);
        // Apple GPU mma 指令原生支持累加
        simdgroup_multiply(acc, a_tile, b_tile);
    }
    simdgroup_store(acc, C + row0 * N + col0, N);
}
"#;

pub(crate) fn matmul_source() -> (r: String)
    ensures
        r@ == matmul_template(),
{
    let mut s = MATMUL_1.to_owned();
    push_slot(&mut s, "kernel void ", "__NAME__", "(");
    s.append(MATMUL_2);
    s
}

/// A softmax with a threadgroup for each row.
pub open spec fn softmax_template() -> Seq<char> {
    SOFTMAX_1@
        + slot("kernel void "@, "__NAME__"@, "("@)
        + SOFTMAX_2@
}

pub const SOFTMAX_1: &'static str = r#"// __NAME__: Softmax（每行一个 threadgroup，三遍扫描 + shared memory）
"#;

pub const SOFTMAX_2: &'static str = r#"device const float* input [[buffer(0)]],
                     device float* output [[buffer(1)]],
                     constant uint& N_COLS [[buffer(2)]],
                     uint row [[threadgroup_position_in_grid]],
                     uint lid [[thread_position_in_threadgroup]],
                     uint block_size [[threads_per_threadgroup]]) {
    threadgroup float shared[1024];
    uint base = row * N_COLS;
    // 第一遍：求行 max（数值稳定）
    float local_max = -INFINITY;
    for (uint i = lid; i < N_COLS; i += block_size) {
        local_max = max(local_max, input[base + i]);
    }
    shared[lid] = local_max;
    threadgroup_barrier(mem_flags::mem_threadgroup);
    for (uint s = block_size / 2; s > 0; s >>= 1) {
        if (lid < s) shared[lid] = max(shared[lid], shared[lid + s]);
        threadgroup_barrier(mem_flags::mem_threadgroup);
    }
    float row_max = shared[0];
    threadgroup_barrier(mem_flags::mem_threadgroup);
    // 第二遍：exp(x - max) 并求和
    float local_sum = 0.0f;
    for (uint i = lid; i < N_COLS; i += block_size) {
        float v = exp(input[base + i] - row_max);
        output[base + i] = v;
        local_sum += v;
    }
    shared[lid] = local_sum;
    threadgroup_barrier(mem_flags::mem_threadgroup);
    for (uint s = block_size / 2; s > 0; s >>= 1) {
        if (lid < s) shared[lid] += shared[lid + s];
        threadgroup_barrier(mem_flags::mem_threadgroup);
    }
    float row_sum = shared[0];
    threadgroup_barrier(mem_flags::mem_threadgroup);
    // 第三遍：归一化
    for (uint i = lid; i < N_COLS; i += block_size) {
        output[base + i] = output[base + i] / row_sum;
    }
}
"#;

pub(crate) fn softmax_source() -> (r: String)
    ensures
        r@ == softmax_template(),
{
    let mut s = SOFTMAX_1.to_owned();
    push_slot(&mut s, "kernel void ", "__NAME__", "(");
    s.append(SOFTMAX_2);
    s
}

/// A layer normalization with a threadgroup for each row.
pub open spec fn layernorm_template() -> Seq<char> {
    LAYERNORM_1@
        + slot("kernel void "@, "__NAME__"@, "("@)
        + LAYERNORM_2@
        + slot("float inv_std = rsqrt(var + "@, "__EPS__"@, ")"@)
        + LAYERNORM_3@
}

pub const LAYERNORM_1: &'static str = r#"// __NAME__: LayerNorm（两遍扫描 + shared memory，epsilon 用于数值稳定）
"#;

pub const LAYERNORM_2: &'static str = r#"device const float* input [[buffer(0)]],
                     device float* output [[buffer(1)]],
                     constant uint& N_COLS [[buffer(2)]],
                     uint row [[threadgroup_position_in_grid]],
                     uint lid [[thread_position_in_threadgroup]],
                     uint block_size [[threads_per_threadgroup]]) {
    threadgroup float shared[1024];
    uint base = row * N_COLS;
    // 第一遍：求 mean
    float local_sum = 0.0f;
    for (uint i = lid; i < N_COLS; i += block_size) {
        local_sum += input[base + i];
    }
    shared[lid] = local_sum;
    threadgroup_barrier(mem_flags::mem_threadgroup);
    for (uint s = block_size / 2; s > 0; s >>= 1) {
        if (lid < s) shared[lid] += shared[lid + s];
        threadgroup_barrier(mem_flags::mem_threadgroup);
    }
    float mean = shared[0] / (float)N_COLS;
    threadgroup_barrier(mem_flags::mem_threadgroup);
    // 第二遍：求 var
    float local_sq = 0.0f;
    for (uint i = lid; i < N_COLS; i += block_size) {
        float d = input[base + i] - mean;
        local_sq += d * d;
    }
    shared[lid] = local_sq;
    threadgroup_barrier(mem_flags::mem_threadgroup);
    for (uint s = block_size / 2; s > 0; s >>= 1) {
        if (lid < s) shared[lid] += shared[lid + s];
        threadgroup_barrier(mem_flags::mem_threadgroup);
    }
    float var = shared[0] / (float)N_COLS;
    // inv_std = 1 / sqrt(var + epsilon)
    "#;

pub const LAYERNORM_3: &'static str = r#";
    threadgroup_barrier(mem_flags::mem_threadgroup);
    // 第三遍：归一化 (x - mean) * inv_std
    for (uint i = lid; i < N_COLS; i += block_size) {
        output[base + i] = (input[base + i] - mean) * inv_std;
    }
}
"#;

pub(crate) fn layernorm_source() -> (r: String)
    ensures
        r@ == layernorm_template(),
{
    let mut s = LAYERNORM_1.to_owned();
    push_slot(&mut s, "kernel void ", "__NAME__", "(");
    s.append(LAYERNORM_2);
    push_slot(&mut s, "float inv_std = rsqrt(var + ", "__EPS__", ")");
    s.append(LAYERNORM_3);
    s
}

/// A direct convolution with a thread for each output element.
pub open spec fn conv_template() -> Seq<char> {
    CONV_1@
        + slot("kernel void "@, "__NAME__"@, "("@)
        + CONV_2@
}

pub const CONV_1: &'static str = r#"// __NAME__: Conv2D（直接卷积，每线程一个输出元素，嵌套循环 KH/KW/C_in）
"#;

pub const CONV_2: &'static str = r#"device const float* input [[buffer(0)]],
                     device const float* weight [[buffer(1)]],
                     device const float* bias [[buffer(2)]],
                     device float* output [[buffer(3)]],
                     constant uint4& dims [[buffer(4)]],        // dims = (N, C_in, H, W)
                     constant uint4& conv_params [[buffer(5)]], // conv_params = (C_out, stride_h, stride_w, KH*KW)
                     uint2 gid [[thread_position_in_grid]]) {
    uint C_in = dims.y, H = dims.z, W = dims.w;
    uint C_out = conv_params.x, stride_h = conv_params.y, stride_w = conv_params.z;
    uint KH = conv_params.w;  // 简化：方形 kernel（KH=KW）
    uint KW = KH;
    uint OH = (H - KH) / stride_h + 1;
    uint OW = (W - KW) / stride_w + 1;
    uint oh = gid.y;
    uint ow = gid.x;
    if (oh >= OH || ow >= OW) return;
    for (uint co = 0; co < C_out; ++co) {
        float acc = bias[co];
        for (uint ci = 0; ci < C_in; ++ci) {
            for (uint kh = 0; kh < KH; ++kh) {
                for (uint kw = 0; kw < KW; ++kw) {
                    uint ih = oh * stride_h + kh;
                    uint iw = ow * stride_w + kw;
                    float v = input[(ci * H + ih) * W + iw];
                    float wgt = weight[((co * C_in + ci) * KH + kh) * KW + kw];
                    acc += v * wgt;
                }
            }
        }
        output[(co * OH + oh) * OW + ow] = acc;
    }
}
"#;

pub(crate) fn conv_source() -> (r: String)
    ensures
        r@ == conv_template(),
{
    let mut s = CONV_1.to_owned();
    push_slot(&mut s, "kernel void ", "__NAME__", "(");
    s.append(CONV_2);
    s
}

/// Pooling with a thread for each output element.
pub open spec fn pool_template() -> Seq<char> {
    POOL_1@
        + slot("kernel void "@, "__NAME__"@, "("@)
        + POOL_2@
}

pub const POOL_1: &'static str = r#"// __NAME__: Pool（max 池化，每线程一个输出元素）
"#;

pub const POOL_2: &'static str = r#"device const float* input [[buffer(0)]],
                     device float* output [[buffer(1)]],
                     constant uint4& dims [[buffer(2)]],        // dims = (C, H, W, 0)
                     constant uint4& pool_params [[buffer(3)]], // pool_params = (KH, KW, stride_h, stride_w)
                     uint2 gid [[thread_position_in_grid]]) {
    uint C = dims.x, H = dims.y, W = dims.z;
    uint KH = pool_params.x, KW = pool_params.y;
    uint stride_h = pool_params.z, stride_w = pool_params.w;
    uint OH = (H - KH) / stride_h + 1;
    uint OW = (W - KW) / stride_w + 1;
    uint oh = gid.y;
    uint ow = gid.x;
    if (oh >= OH || ow >= OW) return;
    for (uint c = 0; c < C; ++c) {
        float result = -INFINITY;
        for (uint kh = 0; kh < KH; ++kh) {
            for (uint kw = 0; kw < KW; ++kw) {
                uint ih = oh * stride_h + kh;
                uint iw = ow * stride_w + kw;
                result = max(result, input[(c * H + ih) * W + iw]);
            }
        }
        output[(c * OH + oh) * OW + ow] = result;
    }
}
"#;

pub(crate) fn pool_source() -> (r: String)
    ensures
        r@ == pool_template(),
{
    let mut s = POOL_1.to_owned();
    push_slot(&mut s, "kernel void ", "__NAME__", "(");
    s.append(POOL_2);
    s
}

/// A copy.
pub open spec fn reshape_template() -> Seq<char> {
    RESHAPE_1@
        + slot("kernel void "@, "__NAME__"@, "("@)
        + slot("device const "@, "__T__"@, "*"@)
        + RESHAPE_2@
}

pub const RESHAPE_1: &'static str = r#"// __NAME__: Reshape（连续内存拷贝，shape 一致性由 host 保证）
"#;

pub const RESHAPE_2: &'static str = r#" input [[buffer(0)]],
                     device __T__* output [[buffer(1)]],
                     constant uint& N [[buffer(2)]],
                     uint tid [[thread_position_in_grid]]) {
    if (tid < N) output[tid] = input[tid];
}
"#;

pub(crate) fn reshape_source() -> (r: String)
    ensures
        r@ == reshape_template(),
{
    let mut s = RESHAPE_1.to_owned();
    push_slot(&mut s, "kernel void ", "__NAME__", "(");
    push_slot(&mut s, "device const ", "__T__", "*");
    s.append(RESHAPE_2);
    s
}

/// A transposition of tiles.
pub open spec fn transpose_template() -> Seq<char> {
    TRANSPOSE_1@
        + slot("kernel void "@, "__NAME__"@, "("@)
        + slot("device const "@, "__T__"@, "*"@)
        + TRANSPOSE_2@
}

pub const TRANSPOSE_1: &'static str = r#"// __NAME__: Transpose（2D threadgroup + shared memory tile，+1 列避免 bank conflict）
// 注: host 应以 2D threadgroup（如 32x32）启动以匹配此 kernel 的 2D 线程映射
"#;

pub const TRANSPOSE_2: &'static str = r#" input [[buffer(0)]],
                     device __T__* output [[buffer(1)]],
                     constant uint2& dims [[buffer(2)]],  // dims = (H, W)
                     uint2 local_id [[thread_position_in_threadgroup]],
                     uint2 block_id [[threadgroup_position_in_grid]]) {
    constexpr uint TILE = 32;
    uint H = dims.x;
    uint W = dims.y;
    threadgroup __T__ tile[TILE][TILE + 1];  // +1 列消除 shared memory bank conflict
    uint bx = block_id.x * TILE;
    uint by = block_id.y * TILE;
    uint tx = local_id.x;
    uint ty = local_id.y;
    // 加载 input 块到 shared memory
    if (bx + tx < W && by + ty < H) {
        tile[ty][tx] = input[(by + ty) * W + (bx + tx)];
    }
    threadgroup_barrier(mem_flags::mem_threadgroup);
    // 转置写回：output[col, row] = input[row, col]
    if (bx + tx < H && by + ty < W) {
        output[(bx + tx) * H + (by + ty)] = tile[tx][ty];
    }
}
"#;

pub(crate) fn transpose_source() -> (r: String)
    ensures
        r@ == transpose_template(),
{
    let mut s = TRANSPOSE_1.to_owned();
    push_slot(&mut s, "kernel void ", "__NAME__", "(");
    push_slot(&mut s, "device const ", "__T__", "*");
    s.append(TRANSPOSE_2);
    s
}

/// A concatenation.
pub open spec fn concat_template() -> Seq<char> {
    CONCAT_1@
        + slot("// 注: 通用版支持 "@, "__N_INPUTS__"@, " "@)
        + CONCAT_2@
        + slot("kernel void "@, "__NAME__"@, "("@)
        + slot("device const "@, "__T__"@, "*"@)
        + CONCAT_3@
}

pub const CONCAT_1: &'static str = r#"// __NAME__: Concat（沿 axis 拼接，每线程一个输出元素；此处展示 2 路拼接）
"#;

pub const CONCAT_2: &'static str = r#"路输入，host 按 offset 区间分配
"#;

pub const CONCAT_3: &'static str = r#" input0 [[buffer(0)]],
                     device const __T__* input1 [[buffer(1)]],
                     device __T__* output [[buffer(2)]],
                     constant uint& offset0 [[buffer(3)]],
                     constant uint& offset1 [[buffer(4)]],
                     constant uint& total [[buffer(5)]],
                     uint tid [[thread_position_in_grid]]) {
    if (tid >= total) return;
    if (tid < offset1) {
        output[tid] = input0[tid - offset0];
    } else {
        output[tid] = input1[tid - offset1];
    }
}
"#;

pub(crate) fn concat_source() -> (r: String)
    ensures
        r@ == concat_template(),
{
    let mut s = CONCAT_1.to_owned();
    push_slot(&mut s, "// 注: 通用版支持 ", "__N_INPUTS__", " ");
    s.append(CONCAT_2);
    push_slot(&mut s, "kernel void ", "__NAME__", "(");
    push_slot(&mut s, "device const ", "__T__", "*");
    s.append(CONCAT_3);
    s
}

/// A strided copy.
pub open spec fn slice_template() -> Seq<char> {
    SLICE_1@
        + slot("kernel void "@, "__NAME__"@, "("@)
        + slot("device const "@, "__T__"@, "*"@)
        + SLICE_2@
}

pub const SLICE_1: &'static str = r#"// __NAME__: Slice（按 starts/ends/steps 拷贝）
"#;

pub const SLICE_2: &'static str = r#" input [[buffer(0)]],
                     device __T__* output [[buffer(1)]],
                     constant uint& start [[buffer(2)]],
                     constant uint& step [[buffer(3)]],
                     constant uint& out_n [[buffer(4)]],
                     uint tid [[thread_position_in_grid]]) {
    if (tid < out_n) {
        output[tid] = input[start + tid * step];
    }
}
"#;

pub(crate) fn slice_source() -> (r: String)
    ensures
        r@ == slice_template(),
{
    let mut s = SLICE_1.to_owned();
    push_slot(&mut s, "kernel void ", "__NAME__", "(");
    push_slot(&mut s, "device const ", "__T__", "*");
    s.append(SLICE_2);
    s
}

/// A kernel that fills its output with a value.
pub open spec fn constant_template() -> Seq<char> {
    CONSTANT_1@
        + slot("// 注: 默认 value = "@, "__VAL__"@, "（"@)
        + CONSTANT_2@
        + slot("kernel void "@, "__NAME__"@, "("@)
        + slot("device "@, "__T__"@, "*"@)
        + CONSTANT_3@
}

pub const CONSTANT_1: &'static str = r#"// __NAME__: Constant（把标量 value 广播到输出 buffer）
"#;

pub const CONSTANT_2: &'static str = r#"host 端可用 constant buffer 覆盖）
"#;

pub const CONSTANT_3: &'static str = r#" output [[buffer(0)]],
                     constant __T__& value [[buffer(1)]],
                     constant uint& N [[buffer(2)]],
                     uint tid [[thread_position_in_grid]]) {
    if (tid < N) output[tid] = value;
}
"#;

pub(crate) fn constant_source() -> (r: String)
    ensures
        r@ == constant_template(),
{
    let mut s = CONSTANT_1.to_owned();
    push_slot(&mut s, "// 注: 默认 value = ", "__VAL__", "（");
    s.append(CONSTANT_2);
    push_slot(&mut s, "kernel void ", "__NAME__", "(");
    push_slot(&mut s, "device ", "__T__", "*");
    s.append(CONSTANT_3);
    s
}

/// What stands for an input of the graph.
pub open spec fn placeholder_template() -> Seq<char> {
    PLACEHOLDER_1@
        + slot("kernel void "@, "__NAME__"@, "("@)
        + slot("device const "@, "__T__"@, "*"@)
        + PLACEHOLDER_2@
}

pub const PLACEHOLDER_1: &'static str = r#"// __NAME__: Placeholder（输入占位）
// 注: Placeholder 标记图输入，host 端绑定 MTLBuffer；此处生成 identity 拷贝 kernel 便于调试
"#;

pub const PLACEHOLDER_2: &'static str = r#" input [[buffer(0)]],
                     device __T__* output [[buffer(1)]],
                     uint tid [[thread_position_in_grid]]) {
    output[tid] = input[tid];
}
"#;

pub(crate) fn placeholder_source() -> (r: String)
    ensures
        r@ == placeholder_template(),
{
    let mut s = PLACEHOLDER_1.to_owned();
    push_slot(&mut s, "kernel void ", "__NAME__", "(");
    push_slot(&mut s, "device const ", "__T__", "*");
    s.append(PLACEHOLDER_2);
    s
}

/// What stands for an output of the graph.
pub open spec fn return_template() -> Seq<char> {
    RETURN_1@
        + slot("kernel void "@, "__NAME__"@, "("@)
        + slot("device const "@, "__T__"@, "*"@)
        + RETURN_2@
}

pub const RETURN_1: &'static str = r#"// __NAME__: Return（图输出）
// 注: Return 标记图输出，host 端读取该 buffer；此处生成 identity 拷贝 kernel 保证数据落盘
"#;

pub const RETURN_2: &'static str = r#" input [[buffer(0)]],
                     device __T__* output [[buffer(1)]],
                     uint tid [[thread_position_in_grid]]) {
    output[tid] = input[tid];
}
"#;

pub(crate) fn return_source() -> (r: String)
    ensures
        r@ == return_template(),
{
    let mut s = RETURN_1.to_owned();
    push_slot(&mut s, "kernel void ", "__NAME__", "(");
    push_slot(&mut s, "device const ", "__T__", "*");
    s.append(RETURN_2);
    s
}

/// A chain of operators in one kernel.
pub open spec fn fused_template() -> Seq<char> {
    FUSED_1@
        + slot(": Fused（融合算子链: "@, "__OPS__"@, "）"@)
        + FUSED_2@
        + slot("kernel void "@, "__NAME__"@, "("@)
        + slot("device const "@, "__T__"@, "*"@)
        + FUSED_3@
}

pub const FUSED_1: &'static str = r#"// __NAME__"#;

pub const FUSED_2: &'static str = r#"
"#;

pub const FUSED_3: &'static str = r#" a [[buffer(0)]],
                     device const __T__* b [[buffer(1)]],
                     device __T__* c [[buffer(2)]],
                     uint tid [[thread_position_in_grid]]) {
    __T__ x = a[tid];
    __T__ y = b[tid];
    // 典型 GEMM + bias + 激活 融合：z = relu(x * y + y)
    __T__ z = x * y;
    z = z + y;
    z = max(z, 0.0f);
    c[tid] = z;
}
"#;

pub(crate) fn fused_source() -> (r: String)
    ensures
        r@ == fused_template(),
{
    let mut s = FUSED_1.to_owned();
    push_slot(&mut s, ": Fused（融合算子链: ", "__OPS__", "）");
    s.append(FUSED_2);
    push_slot(&mut s, "kernel void ", "__NAME__", "(");
    push_slot(&mut s, "device const ", "__T__", "*");
    s.append(FUSED_3);
    s
}

/// An operator that is not known.
pub open spec fn custom_template() -> Seq<char> {
    CUSTOM_1@
        + slot(": Custom op（原始 op_type = "@, "__OP_TYPE__"@, "）"@)
        + CUSTOM_2@
        + slot("kernel void "@, "__NAME__"@, "("@)
        + slot("device const "@, "__T__"@, "*"@)
        + CUSTOM_3@
}

pub const CUSTOM_1: &'static str = r#"// __NAME__"#;

pub const CUSTOM_2: &'static str = r#"
// 注: 未知 ONNX 算子，生成通用元素级 identity kernel，host 端可替换为自定义实现
"#;

pub const CUSTOM_3: &'static str = r#" input [[buffer(0)]],
                     device __T__* output [[buffer(1)]],
                     uint tid [[thread_position_in_grid]]) {
    output[tid] = input[tid];
}
"#;

pub(crate) fn custom_source() -> (r: String)
    ensures
        r@ == custom_template(),
{
    let mut s = CUSTOM_1.to_owned();
    push_slot(&mut s, ": Custom op（原始 op_type = ", "__OP_TYPE__", "）");
    s.append(CUSTOM_2);
    push_slot(&mut s, "kernel void ", "__NAME__", "(");
    push_slot(&mut s, "device const ", "__T__", "*");
    s.append(CUSTOM_3);
    s
}

/// What a file begins with.
pub const HEADER: &'static str = r#"// ============================================================
// neutron — Metal Shading Language (MSL) kernel 源码
// 微架构: "#;

/// Remarks on an architecture.
pub const APPLE_NOTES: &'static str = r#"// 特性: Apple GPU simdgroup_matrix 8x8 矩阵乘法单元
"#;

/// Remarks on an architecture.
pub const OTHER_NOTES: &'static str = r#"// 注: Metal 主要面向 Apple GPU；非 Apple 架构仍生成 simdgroup 代码
"#;

/// What stands before the kernels.
pub const PRELUDE: &'static str = r#"// ============================================================

#include <metal_stdlib>
using namespace metal;

"#;

/// What stands before the launchers.
pub const LAUNCHERS: &'static str = r#"// ============================================================
// launch wrappers（Metal host 端用 Obj-C++ / Swift 调度 MTLComputeCommandEncoder）
// ============================================================
"#;

/// The parts around tokens stand in the template.
pub proof fn custom_holds_slots()
    ensures
        contains(custom_template(), slot(": Custom op（原始 op_type = "@, "__OP_TYPE__"@, "）"@)),
        contains(custom_template(), slot("kernel void "@, "__NAME__"@, "("@)),
        contains(custom_template(), slot("device const "@, "__T__"@, "*"@)),
{
    let t0 = CUSTOM_1@;
    end_is_part(t0, slot(": Custom op（原始 op_type = "@, "__OP_TYPE__"@, "）"@));
    let t1 = t0 + slot(": Custom op（原始 op_type = "@, "__OP_TYPE__"@, "）"@);
    part_stays(t1, CUSTOM_2@, slot(": Custom op（原始 op_type = "@, "__OP_TYPE__"@, "）"@));
    let t2 = t1 + CUSTOM_2@;
    part_stays(t2, slot("kernel void "@, "__NAME__"@, "("@), slot(": Custom op（原始 op_type = "@, "__OP_TYPE__"@, "）"@));
    end_is_part(t2, slot("kernel void "@, "__NAME__"@, "("@));
    let t3 = t2 + slot("kernel void "@, "__NAME__"@, "("@);
    part_stays(t3, slot("device const "@, "__T__"@, "*"@), slot(": Custom op（原始 op_type = "@, "__OP_TYPE__"@, "）"@));
    part_stays(t3, slot("device const "@, "__T__"@, "*"@), slot("kernel void "@, "__NAME__"@, "("@));
    end_is_part(t3, slot("device const "@, "__T__"@, "*"@));
    let t4 = t3 + slot("device const "@, "__T__"@, "*"@);
    part_stays(t4, CUSTOM_3@, slot(": Custom op（原始 op_type = "@, "__OP_TYPE__"@, "）"@));
    part_stays(t4, CUSTOM_3@, slot("kernel void "@, "__NAME__"@, "("@));
    part_stays(t4, CUSTOM_3@, slot("device const "@, "__T__"@, "*"@));
    let t5 = t4 + CUSTOM_3@;
}

/// The parts around tokens stand in the template.
pub proof fn fused_holds_slots()
    ensures
        contains(fused_template(), slot(": Fused（融合算子链: "@, "__OPS__"@, "）"@)),
        contains(fused_template(), slot("kernel void "@, "__NAME__"@, "("@)),
        contains(fused_template(), slot("device const "@, "__T__"@, "*"@)),
{
    let t0 = FUSED_1@;
    end_is_part(t0, slot(": Fused（融合算子链: "@, "__OPS__"@, "）"@));
    let t1 = t0 + slot(": Fused（融合算子链: "@, "__OPS__"@, "）"@);
    part_stays(t1, FUSED_2@, slot(": Fused（融合算子链: "@, "__OPS__"@, "）"@));
    let t2 = t1 + FUSED_2@;
    part_stays(t2, slot("kernel void "@, "__NAME__"@, "("@), slot(": Fused（融合算子链: "@, "__OPS__"@, "）"@));
    end_is_part(t2, slot("kernel void "@, "__NAME__"@, "("@));
    let t3 = t2 + slot("kernel void "@, "__NAME__"@, "("@);
    part_stays(t3, slot("device const "@, "__T__"@, "*"@), slot(": Fused（融合算子链: "@, "__OPS__"@, "）"@));
    part_stays(t3, slot("device const "@, "__T__"@, "*"@), slot("kernel void "@, "__NAME__"@, "("@));
    end_is_part(t3, slot("device const "@, "__T__"@, "*"@));
    let t4 = t3 + slot("device const "@, "__T__"@, "*"@);
    part_stays(t4, FUSED_3@, slot(": Fused（融合算子链: "@, "__OPS__"@, "）"@));
    part_stays(t4, FUSED_3@, slot("kernel void "@, "__NAME__"@, "("@));
    part_stays(t4, FUSED_3@, slot("device const "@, "__T__"@, "*"@));
    let t5 = t4 + FUSED_3@;
}

/// The parts around tokens stand in the template.
pub proof fn return_holds_slots()
    ensures
        contains(return_template(), slot("kernel void "@, "__NAME__"@, "("@)),
        contains(return_template(), slot("device const "@, "__T__"@, "*"@)),
{
    let t0 = RETURN_1@;
    end_is_part(t0, slot("kernel void "@, "__NAME__"@, "("@));
    let t1 = t0 + slot("kernel void "@, "__NAME__"@, "("@);
    part_stays(t1, slot("device const "@, "__T__"@, "*"@), slot("kernel void "@, "__NAME__"@, "("@));
    end_is_part(t1, slot("device const "@, "__T__"@, "*"@));
    let t2 = t1 + slot("device const "@, "__T__"@, "*"@);
    part_stays(t2, RETURN_2@, slot("kernel void "@, "__NAME__"@, "("@));
    part_stays(t2, RETURN_2@, slot("device const "@, "__T__"@, "*"@));
    let t3 = t2 + RETURN_2@;
}

/// The parts around tokens stand in the template.
pub proof fn placeholder_holds_slots()
    ensures
        contains(placeholder_template(), slot("kernel void "@, "__NAME__"@, "("@)),
        contains(placeholder_template(), slot("device const "@, "__T__"@, "*"@)),
{
    let t0 = PLACEHOLDER_1@;
    end_is_part(t0, slot("kernel void "@, "__NAME__"@, "("@));
    let t1 = t0 + slot("kernel void "@, "__NAME__"@, "("@);
    part_stays(t1, slot("device const "@, "__T__"@, "*"@), slot("kernel void "@, "__NAME__"@, "("@));
    end_is_part(t1, slot("device const "@, "__T__"@, "*"@));
    let t2 = t1 + slot("device const "@, "__T__"@, "*"@);
    part_stays(t2, PLACEHOLDER_2@, slot("kernel void "@, "__NAME__"@, "("@));
    part_stays(t2, PLACEHOLDER_2@, slot("device const "@, "__T__"@, "*"@));
    let t3 = t2 + PLACEHOLDER_2@;
}

/// The parts around tokens stand in the template.
pub proof fn constant_holds_slots()
    ensures
        contains(constant_template(), slot("// 注: 默认 value = "@, "__VAL__"@, "（"@)),
        contains(constant_template(), slot("kernel void "@, "__NAME__"@, "("@)),
        contains(constant_template(), slot("device "@, "__T__"@, "*"@)),
{
    let t0 = CONSTANT_1@;
    end_is_part(t0, slot("// 注: 默认 value = "@, "__VAL__"@, "（"@));
    let t1 = t0 + slot("// 注: 默认 value = "@, "__VAL__"@, "（"@);
    part_stays(t1, CONSTANT_2@, slot("// 注: 默认 value = "@, "__VAL__"@, "（"@));
    let t2 = t1 + CONSTANT_2@;
    part_stays(t2, slot("kernel void "@, "__NAME__"@, "("@), slot("// 注: 默认 value = "@, "__VAL__"@, "（"@));
    end_is_part(t2, slot("kernel void "@, "__NAME__"@, "("@));
    let t3 = t2 + slot("kernel void "@, "__NAME__"@, "("@);
    part_stays(t3, slot("device "@, "__T__"@, "*"@), slot("// 注: 默认 value = "@, "__VAL__"@, "（"@));
    part_stays(t3, slot("device "@, "__T__"@, "*"@), slot("kernel void "@, "__NAME__"@, "("@));
    end_is_part(t3, slot("device "@, "__T__"@, "*"@));
    let t4 = t3 + slot("device "@, "__T__"@, "*"@);
    part_stays(t4, CONSTANT_3@, slot("// 注: 默认 value = "@, "__VAL__"@, "（"@));
    part_stays(t4, CONSTANT_3@, slot("kernel void "@, "__NAME__"@, "("@));
    part_stays(t4, CONSTANT_3@, slot("device "@, "__T__"@, "*"@));
    let t5 = t4 + CONSTANT_3@;
}

/// The parts around tokens stand in the template.
pub proof fn slice_holds_slots()
    ensures
        contains(slice_template(), slot("kernel void "@, "__NAME__"@, "("@)),
        contains(slice_template(), slot("device const "@, "__T__"@, "*"@)),
{
    let t0 = SLICE_1@;
    end_is_part(t0, slot("kernel void "@, "__NAME__"@, "("@));
    let t1 = t0 + slot("kernel void "@, "__NAME__"@, "("@);
    part_stays(t1, slot("device const "@, "__T__"@, "*"@), slot("kernel void "@, "__NAME__"@, "("@));
    end_is_part(t1, slot("device const "@, "__T__"@, "*"@));
    let t2 = t1 + slot("device const "@, "__T__"@, "*"@);
    part_stays(t2, SLICE_2@, slot("kernel void "@, "__NAME__"@, "("@));
    part_stays(t2, SLICE_2@, slot("device const "@, "__T__"@, "*"@));
    let t3 = t2 + SLICE_2@;
}

/// The parts around tokens stand in the template.
pub proof fn concat_holds_slots()
    ensures
        contains(concat_template(), slot("// 注: 通用版支持 "@, "__N_INPUTS__"@, " "@)),
        contains(concat_template(), slot("kernel void "@, "__NAME__"@, "("@)),
        contains(concat_template(), slot("device const "@, "__T__"@, "*"@)),
{
    let t0 = CONCAT_1@;
    end_is_part(t0, slot("// 注: 通用版支持 "@, "__N_INPUTS__"@, " "@));
    let t1 = t0 + slot("// 注: 通用版支持 "@, "__N_INPUTS__"@, " "@);
    part_stays(t1, CONCAT_2@, slot("// 注: 通用版支持 "@, "__N_INPUTS__"@, " "@));
    let t2 = t1 + CONCAT_2@;
    part_stays(t2, slot("kernel void "@, "__NAME__"@, "("@), slot("// 注: 通用版支持 "@, "__N_INPUTS__"@, " "@));
    end_is_part(t2, slot("kernel void "@, "__NAME__"@, "("@));
    let t3 = t2 + slot("kernel void "@, "__NAME__"@, "("@);
    part_stays(t3, slot("device const "@, "__T__"@, "*"@), slot("// 注: 通用版支持 "@, "__N_INPUTS__"@, " "@));
    part_stays(t3, slot("device const "@, "__T__"@, "*"@), slot("kernel void "@, "__NAME__"@, "("@));
    end_is_part(t3, slot("device const "@, "__T__"@, "*"@));
    let t4 = t3 + slot("device const "@, "__T__"@, "*"@);
    part_stays(t4, CONCAT_3@, slot("// 注: 通用版支持 "@, "__N_INPUTS__"@, " "@));
    part_stays(t4, CONCAT_3@, slot("kernel void "@, "__NAME__"@, "("@));
    part_stays(t4, CONCAT_3@, slot("device const "@, "__T__"@, "*"@));
    let t5 = t4 + CONCAT_3@;
}

/// The parts around tokens stand in the template.
pub proof fn transpose_holds_slots()
    ensures
        contains(transpose_template(), slot("kernel void "@, "__NAME__"@, "("@)),
        contains(transpose_template(), slot("device const "@, "__T__"@, "*"@)),
{
    let t0 = TRANSPOSE_1@;
    end_is_part(t0, slot("kernel void "@, "__NAME__"@, "("@));
    let t1 = t0 + slot("kernel void "@, "__NAME__"@, "("@);
    part_stays(t1, slot("device const "@, "__T__"@, "*"@), slot("kernel void "@, "__NAME__"@, "("@));
    end_is_part(t1, slot("device const "@, "__T__"@, "*"@));
    let t2 = t1 + slot("device const "@, "__T__"@, "*"@);
    part_stays(t2, TRANSPOSE_2@, slot("kernel void "@, "__NAME__"@, "("@));
    part_stays(t2, TRANSPOSE_2@, slot("device const "@, "__T__"@, "*"@));
    let t3 = t2 + TRANSPOSE_2@;
}

/// The parts around tokens stand in the template.
pub proof fn reshape_holds_slots()
    ensures
        contains(reshape_template(), slot("kernel void "@, "__NAME__"@, "("@)),
        contains(reshape_template(), slot("device const "@, "__T__"@, "*"@)),
{
    let t0 = RESHAPE_1@;
    end_is_part(t0, slot("kernel void "@, "__NAME__"@, "("@));
    let t1 = t0 + slot("kernel void "@, "__NAME__"@, "("@);
    part_stays(t1, slot("device const "@, "__T__"@, "*"@), slot("kernel void "@, "__NAME__"@, "("@));
    end_is_part(t1, slot("device const "@, "__T__"@, "*"@));
    let t2 = t1 + slot("device const "@, "__T__"@, "*"@);
    part_stays(t2, RESHAPE_2@, slot("kernel void "@, "__NAME__"@, "("@));
    part_stays(t2, RESHAPE_2@, slot("device const "@, "__T__"@, "*"@));
    let t3 = t2 + RESHAPE_2@;
}

/// The parts around tokens stand in the template.
pub proof fn pool_holds_slots()
    ensures
        contains(pool_template(), slot("kernel void "@, "__NAME__"@, "("@)),
{
    let t0 = POOL_1@;
    end_is_part(t0, slot("kernel void "@, "__NAME__"@, "("@));
    let t1 = t0 + slot("kernel void "@, "__NAME__"@, "("@);
    part_stays(t1, POOL_2@, slot("kernel void "@, "__NAME__"@, "("@));
    let t2 = t1 + POOL_2@;
}

/// The parts around tokens stand in the template.
pub proof fn conv_holds_slots()
    ensures
        contains(conv_template(), slot("kernel void "@, "__NAME__"@, "("@)),
{
    let t0 = CONV_1@;
    end_is_part(t0, slot("kernel void "@, "__NAME__"@, "("@));
    let t1 = t0 + slot("kernel void "@, "__NAME__"@, "("@);
    part_stays(t1, CONV_2@, slot("kernel void "@, "__NAME__"@, "("@));
    let t2 = t1 + CONV_2@;
}

/// The parts around tokens stand in the template.
pub proof fn layernorm_holds_slots()
    ensures
        contains(layernorm_template(), slot("kernel void "@, "__NAME__"@, "("@)),
        contains(layernorm_template(), slot("float inv_std = rsqrt(var + "@, "__EPS__"@, ")"@)),
{
    let t0 = LAYERNORM_1@;
    end_is_part(t0, slot("kernel void "@, "__NAME__"@, "("@));
    let t1 = t0 + slot("kernel void "@, "__NAME__"@, "("@);
    part_stays(t1, LAYERNORM_2@, slot("kernel void "@, "__NAME__"@, "("@));
    let t2 = t1 + LAYERNORM_2@;
    part_stays(t2, slot("float inv_std = rsqrt(var + "@, "__EPS__"@, ")"@), slot("kernel void "@, "__NAME__"@, "("@));
    end_is_part(t2, slot("float inv_std = rsqrt(var + "@, "__EPS__"@, ")"@));
    let t3 = t2 + slot("float inv_std = rsqrt(var + "@, "__EPS__"@, ")"@);
    part_stays(t3, LAYERNORM_3@, slot("kernel void "@, "__NAME__"@, "("@));
    part_stays(t3, LAYERNORM_3@, slot("float inv_std = rsqrt(var + "@, "__EPS__"@, ")"@));
    let t4 = t3 + LAYERNORM_3@;
}

/// The parts around tokens stand in the template.
pub proof fn softmax_holds_slots()
    ensures
        contains(softmax_template(), slot("kernel void "@, "__NAME__"@, "("@)),
{
    let t0 = SOFTMAX_1@;
    end_is_part(t0, slot("kernel void "@, "__NAME__"@, "("@));
    let t1 = t0 + slot("kernel void "@, "__NAME__"@, "("@);
    part_stays(t1, SOFTMAX_2@, slot("kernel void "@, "__NAME__"@, "("@));
    let t2 = t1 + SOFTMAX_2@;
}

/// The parts around tokens stand in the template.
pub proof fn matmul_holds_slots()
    ensures
        contains(matmul_template(), slot("kernel void "@, "__NAME__"@, "("@)),
{
    let t0 = MATMUL_1@;
    end_is_part(t0, slot("kernel void "@, "__NAME__"@, "("@));
    let t1 = t0 + slot("kernel void "@, "__NAME__"@, "("@);
    part_stays(t1, MATMUL_2@, slot("kernel void "@, "__NAME__"@, "("@));
    let t2 = t1 + MATMUL_2@;
}

/// The parts around tokens stand in the template.
pub proof fn reduce_holds_slots()
    ensures
        contains(reduce_template(), slot("kernel void "@, "__NAME__"@, "("@)),
        contains(reduce_template(), slot("device const "@, "__T__"@, "*"@)),
{
    let t0 = REDUCE_1@;
    end_is_part(t0, slot("kernel void "@, "__NAME__"@, "("@));
    let t1 = t0 + slot("kernel void "@, "__NAME__"@, "("@);
    part_stays(t1, slot("device const "@, "__T__"@, "*"@), slot("kernel void "@, "__NAME__"@, "("@));
    end_is_part(t1, slot("device const "@, "__T__"@, "*"@));
    let t2 = t1 + slot("device const "@, "__T__"@, "*"@);
    part_stays(t2, REDUCE_2@, slot("kernel void "@, "__NAME__"@, "("@));
    part_stays(t2, REDUCE_2@, slot("device const "@, "__T__"@, "*"@));
    let t3 = t2 + REDUCE_2@;
}

/// The parts around tokens stand in the template.
pub proof fn elem_unary_holds_slots()
    ensures
        contains(elem_unary_template(), slot("kernel void "@, "__NAME__"@, "("@)),
        contains(elem_unary_template(), slot("device const "@, "__T__"@, "*"@)),
{
    let t0 = ELEM_UNARY_1@;
    end_is_part(t0, slot("kernel void "@, "__NAME__"@, "("@));
    let t1 = t0 + slot("kernel void "@, "__NAME__"@, "("@);
    part_stays(t1, slot("device const "@, "__T__"@, "*"@), slot("kernel void "@, "__NAME__"@, "("@));
    end_is_part(t1, slot("device const "@, "__T__"@, "*"@));
    let t2 = t1 + slot("device const "@, "__T__"@, "*"@);
    part_stays(t2, ELEM_UNARY_2@, slot("kernel void "@, "__NAME__"@, "("@));
    part_stays(t2, ELEM_UNARY_2@, slot("device const "@, "__T__"@, "*"@));
    let t3 = t2 + ELEM_UNARY_2@;
}

/// The parts around tokens stand in the template.
pub proof fn elem_binary_holds_slots()
    ensures
        contains(elem_binary_template(), slot("kernel void "@, "__NAME__"@, "("@)),
        contains(elem_binary_template(), slot("device const "@, "__T__"@, "*"@)),
{
    let t0 = ELEM_BINARY_1@;
    end_is_part(t0, slot("kernel void "@, "__NAME__"@, "("@));
    let t1 = t0 + slot("kernel void "@, "__NAME__"@, "("@);
    part_stays(t1, slot("device const "@, "__T__"@, "*"@), slot("kernel void "@, "__NAME__"@, "("@));
    end_is_part(t1, slot("device const "@, "__T__"@, "*"@));
    let t2 = t1 + slot("device const "@, "__T__"@, "*"@);
    part_stays(t2, ELEM_BINARY_2@, slot("kernel void "@, "__NAME__"@, "("@));
    part_stays(t2, ELEM_BINARY_2@, slot("device const "@, "__T__"@, "*"@));
    let t3 = t2 + ELEM_BINARY_2@;
}

} // verus!
