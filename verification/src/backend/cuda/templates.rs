//! The texts that CUDA source is made from.

use vstd::prelude::*;
use crate::backend::dialect::contains;
use crate::backend::filling::{end_is_part, part_stays, push_slot, slot, whole_is_part};

verus! {

/// A kernel that applies a statement to two inputs, element by element.
pub open spec fn elem_binary_template() -> Seq<char> {
    ELEM_BINARY_1@
        + slot("void "@, "__NAME__"@, "("@)
        + slot("const "@, "__T__"@, "*"@)
        + ELEM_BINARY_2@
}

pub const ELEM_BINARY_1: &'static str = r#"// __NAME__: 元素级二元 op（每线程一个元素，1D grid + bounds check）
// TEMPLATE: __T__
__global__ "#;

pub const ELEM_BINARY_2: &'static str = r#" __restrict__ a,
                         const __T__* __restrict__ b,
                         __T__* __restrict__ c,
                         int n) {
    int i = blockIdx.x * blockDim.x + threadIdx.x;
    if (i < n) {
        __BODY__
    }
}
"#;

pub(crate) fn elem_binary_source() -> (r: String)
    ensures
        r@ == elem_binary_template(),
{
    let mut s = ELEM_BINARY_1.to_owned();
    push_slot(&mut s, "void ", "__NAME__", "(");
    push_slot(&mut s, "const ", "__T__", "*");
    s.append(ELEM_BINARY_2);
    s
}

/// A kernel that applies an expression to each element.
pub open spec fn elem_unary_template() -> Seq<char> {
    ELEM_UNARY_1@
        + slot("void "@, "__NAME__"@, "("@)
        + slot("const "@, "__T__"@, "*"@)
        + ELEM_UNARY_2@
}

pub const ELEM_UNARY_1: &'static str = r#"// __NAME__: 元素级一元 op（每线程一个元素，1D grid + bounds check）
// TEMPLATE: __T__
__global__ "#;

pub const ELEM_UNARY_2: &'static str = r#" __restrict__ a,
                         __T__* __restrict__ c,
                         int n) {
    int i = blockIdx.x * blockDim.x + threadIdx.x;
    if (i < n) {
        c[i] = __EXPR__;
    }
}
"#;

pub(crate) fn elem_unary_source() -> (r: String)
    ensures
        r@ == elem_unary_template(),
{
    let mut s = ELEM_UNARY_1.to_owned();
    push_slot(&mut s, "void ", "__NAME__", "(");
    push_slot(&mut s, "const ", "__T__", "*");
    s.append(ELEM_UNARY_2);
    s
}

/// A reduction in shared memory.
pub open spec fn reduce_template() -> Seq<char> {
    REDUCE_1@
        + slot("void "@, "__NAME__"@, "("@)
        + slot("const "@, "__T__"@, "*"@)
        + REDUCE_2@
}

pub const REDUCE_1: &'static str = r#"// __NAME__: __LABEL__ 树形归约（block 内 shared memory + __syncthreads，每 block 处理一个 reduce 输出）
// TEMPLATE: __T__
__global__ "#;

pub const REDUCE_2: &'static str = r#" __restrict__ input,
                         __T__* __restrict__ output,
                         int N) {
    __shared__ __T__ shared[256];
    int tid = threadIdx.x;
    int bid = blockIdx.x;
    // 每个线程累加多个元素（grid-stride pattern）
    __T__ acc = __IDENT__;
    for (int i = tid; i < N; i += blockDim.x) {
        __T__ v = input[bid * N + i];
        __COMBINE_RAW__
    }
    shared[tid] = acc;
    __syncthreads();
    // 树形归约（block 内两两合并）
    for (int s = blockDim.x / 2; s > 0; s >>= 1) {
        if (tid < s) {
            __COMBINE_TREE__
        }
        __syncthreads();
    }
    __FINALIZE__
}
"#;

pub(crate) fn reduce_source() -> (r: String)
    ensures
        r@ == reduce_template(),
{
    let mut s = REDUCE_1.to_owned();
    push_slot(&mut s, "void ", "__NAME__", "(");
    push_slot(&mut s, "const ", "__T__", "*");
    s.append(REDUCE_2);
    s
}

/// A matrix product on Ampere.
pub open spec fn matmul_ampere_template() -> Seq<char> {
    MATMUL_AMPERE_1@
        + slot("void "@, "__NAME__"@, "("@)
        + MATMUL_AMPERE_2@
}

pub const MATMUL_AMPERE_1: &'static str = r#"// __NAME__: MatMul (Ampere SM80 — nvcuda::wmma mma.sync 16x16x16 tile + shared memory + cp.async)
// TEMPLATE: float
__global__ "#;

pub const MATMUL_AMPERE_2: &'static str = r#"const float* __restrict__ A,
                         const float* __restrict__ B,
                         float* __restrict__ C,
                         int M, int N, int K) {
    // Ampere mma.sync via nvcuda::wmma fragment (16x16x16 tensor core MMA)
    constexpr int WMMA_M = 16, WMMA_N = 16, WMMA_K = 16;
    constexpr int BLOCK_M = 32, BLOCK_N = 32;
    __shared__ float sA[32][16];   // BLOCK_M x WMMA_K tile of A
    __shared__ float sB[16][32];   // WMMA_K x BLOCK_N tile of B
    int warp_m = (threadIdx.x / 32) % (BLOCK_M / WMMA_M);
    int warp_n = (threadIdx.x / 32) / (BLOCK_M / WMMA_M);
    int row = blockIdx.y * BLOCK_M + warp_m * WMMA_M;
    int col = blockIdx.x * BLOCK_N + warp_n * WMMA_N;
    // wmma fragment（寄存器内 accumulator）
    wmma::fragment<wmma::matrix_a, WMMA_M, WMMA_N, WMMA_K, float, wmma::row_major> a_frag;
    wmma::fragment<wmma::matrix_b, WMMA_M, WMMA_N, WMMA_K, float, wmma::row_major> b_frag;
    wmma::fragment<wmma::accumulator, WMMA_M, WMMA_N, WMMA_K, float> c_frag;
    wmma::fill_fragment(c_frag, 0.0f);
    for (int k = 0; k < K; k += WMMA_K) {
        // load A tile [BLOCK_M x WMMA_K] to shared memory（coalesced read）
        int load_row = threadIdx.x / 16;
        int load_col = threadIdx.x % 16;
        if (load_row < BLOCK_M) {
            sA[load_row][load_col] = (row + load_row < M && k + load_col < K)
                ? A[(row + load_row) * K + (k + load_col)] : 0.0f;
        }
        // load B tile [WMMA_K x BLOCK_N]
        int b_load_row = threadIdx.x / 32;
        int b_load_col = threadIdx.x % 32;
        if (b_load_row < WMMA_K) {
            sB[b_load_row][b_load_col] = (k + b_load_row < K && col + b_load_col < N)
                ? B[(k + b_load_row) * N + (col + b_load_col)] : 0.0f;
        }
        __syncthreads();
        // mma.sync: load fragment from shared memory + execute tensor core MMA
        wmma::load_matrix_sync(a_frag, sA + warp_m * 16, WMMA_K);
        wmma::load_matrix_sync(b_frag, sB, BLOCK_N);
        wmma::mma_sync(c_frag, a_frag, b_frag, c_frag);
        __syncthreads();
    }
    // store C fragment back to global memory（coalesced write）
    if (row < M && col < N) {
        wmma::store_matrix_sync(C + row * N + col, c_frag, N, wmma::mem_row_major);
    }
}
"#;

pub(crate) fn matmul_ampere_source() -> (r: String)
    ensures
        r@ == matmul_ampere_template(),
{
    let mut s = MATMUL_AMPERE_1.to_owned();
    push_slot(&mut s, "void ", "__NAME__", "(");
    s.append(MATMUL_AMPERE_2);
    s
}

/// A matrix product on Hopper.
pub open spec fn matmul_hopper_template() -> Seq<char> {
    MATMUL_HOPPER_1@
        + slot("void "@, "__NAME__"@, "("@)
        + MATMUL_HOPPER_2@
}

pub const MATMUL_HOPPER_1: &'static str = r#"// __NAME__: MatMul (Hopper SM90 — wgmma.mma_async 64x256 + TMA bulk load + cp.async.bulk)
// TEMPLATE: float
__global__ "#;

pub const MATMUL_HOPPER_2: &'static str = r#"const float* __restrict__ A,
                         const float* __restrict__ B,
                         float* __restrict__ C,
                         int M, int N, int K) {
    // Hopper wgmma.mma_async: warp group (4 warps = 128 threads) 异步执行 64x256 MMA
    // TMA (Tensor Memory Accelerator) 提供 bulk 异步 load/store，替代 cp.async
    constexpr int WGMM_M = 64, WGMM_N = 256, WGMM_K = 16;
    __shared__ __align__(128) float sA[64][16];   // TMA-aligned shared memory tile
    __shared__ __align__(128) float sB[16][256];
    int warp_id = threadIdx.x / 32;
    int lane_id = threadIdx.x % 32;
    int row = blockIdx.y * WGMM_M;
    int col = blockIdx.x * WGMM_N;
    // wgmma accumulator（寄存器内，每个 warp 持 8 个 16x16 accumulator tiles）
    float c_frag[8] = {0};
    for (int k = 0; k < K; k += WGMM_K) {
        // TMA bulk load: cp.async.bulk from global to shared memory
        // PTX: cp.async.bulk.shared::cluster.global.mbarrier::complete_tx::bytes
        unsigned sA_addr = (unsigned)__cvta_generic_to_shared(sA);
        unsigned sB_addr = (unsigned)__cvta_generic_to_shared(sB);
        asm volatile(
            "cp.async.bulk.shared::cluster.global.mbarrier::complete_tx::bytes [%0], [%1], %2;\n"
            :: "r"(sA_addr), "l"((const void*)(A + row * K + k)), "n"(64 * 16 * 4)
        );
        asm volatile(
            "cp.async.bulk.shared::cluster.global.mbarrier::complete_tx::bytes [%0], [%1], %2;\n"
            :: "r"(sB_addr), "l"((const void*)(B + k * N + col)), "n"(16 * 256 * 4)
        );
        // mbarrier wait for TMA load completion
        asm volatile("mbarrier.arrive.parity.shared.b64 _, [%0], %1;\n"
            :: "r"(sA_addr), "n"(1));
        // wgmma.mma_async: warp group 异步 MMA 64x256x16
        // PTX: wgmma.mma_async.sync.aligned.m64n256k16.f32.f32.f32
        asm volatile(
            "wgmma.mma_async.sync.aligned.m64n256k16.f32.f32.f32 "
            "{%0,%1,%2,%3,%4,%5,%6,%7}, [%8], [%9], %10, %11;\n"
            :: "f"(c_frag[0]), "f"(c_frag[1]), "f"(c_frag[2]), "f"(c_frag[3]),
               "f"(c_frag[4]), "f"(c_frag[5]), "f"(c_frag[6]), "f"(c_frag[7]),
               "r"(sA_addr), "r"(sB_addr),
               "n"(1), "n"(1)
        );
        asm volatile("wgmma.wait_group.sync.aligned 0;\n" :::);
    }
    // store accumulator back to global memory（warp group 协作）
    int store_row = row + warp_id * 16 + (lane_id / 4);
    int store_col = col + (lane_id % 4) * 2;
    if (store_row < M && store_col < N) {
        C[store_row * N + store_col] = c_frag[0];
    }
}
"#;

pub(crate) fn matmul_hopper_source() -> (r: String)
    ensures
        r@ == matmul_hopper_template(),
{
    let mut s = MATMUL_HOPPER_1.to_owned();
    push_slot(&mut s, "void ", "__NAME__", "(");
    s.append(MATMUL_HOPPER_2);
    s
}

/// A matrix product on Blackwell.
pub open spec fn matmul_blackwell_template() -> Seq<char> {
    MATMUL_BLACKWELL_1@
        + slot("void "@, "__NAME__"@, "("@)
        + MATMUL_BLACKWELL_2@
}

pub const MATMUL_BLACKWELL_1: &'static str = r#"// __NAME__: MatMul (Blackwell SM100 — tensor memory accelerator + TC fusion + FP4/FP6 原生)
// TEMPLATE: float
__global__ "#;

pub const MATMUL_BLACKWELL_2: &'static str = r#"const float* __restrict__ A,
                         const float* __restrict__ B,
                         float* __restrict__ C,
                         int M, int N, int K) {
    // Blackwell tensor memory: 替代 shared memory 的 on-chip tensor memory
    // TC fusion: 融合后续 elementwise op（如 bias add / activation）到 MMA 输出
    // 原生支持 FP4/FP6/FP8 输入（本 kernel 用 float，FP4 路径在 dtype=BF16 时启用）
    constexpr int TMEM_M = 128, TMEM_N = 256, TMEM_K = 16;
    __shared__ __align__(128) float tmem_a[128][16];   // tensor memory tile A
    __shared__ __align__(128) float tmem_b[16][256];   // tensor memory tile B
    int warp_id = threadIdx.x / 32;
    int lane_id = threadIdx.x % 32;
    int row = blockIdx.y * TMEM_M;
    int col = blockIdx.x * TMEM_N;
    // wgmma accumulator (Blackwell 扩展支持 FP4/FP6 输入，tc 命名空间融合)
    float c_frag[8] = {0};
    for (int k = 0; k < K; k += TMEM_K) {
        // TMA load to tensor memory（替代 shared::cluster，Blackwell 扩展）
        // PTX: cp.async.bulk.tensor.4d.shared::cta.global.tile.spatial::2x2
        unsigned ta_addr = (unsigned)__cvta_generic_to_shared(tmem_a);
        unsigned tb_addr = (unsigned)__cvta_generic_to_shared(tmem_b);
        asm volatile(
            "cp.async.bulk.tensor.4d.shared::cta.global.tile.spatial::2x2 [%0], [%1], 0x0;\n"
            :: "r"(ta_addr), "l"((const void*)(A + row * K + k))
        );
        asm volatile(
            "cp.async.bulk.tensor.4d.shared::cta.global.tile.spatial::2x2 [%0], [%1], 0x0;\n"
            :: "r"(tb_addr), "l"((const void*)(B + k * N + col))
        );
        asm volatile("mbarrier.arrive.parity.shared.b64 _, [%0], %1;\n"
            :: "r"(ta_addr), "n"(1));
        // wgmma.mma_async (Blackwell 扩展，tc fusion 命名空间)
        // PTX: wgmma.mma_async.sync.aligned.m128n256k16.f32.f32.f32 (Blackwell)
        asm volatile(
            "wgmma.mma_async.sync.aligned.m128n256k16.f32.f32.f32 "
            "{%0,%1,%2,%3,%4,%5,%6,%7}, [%8], [%9], %10, %11;\n"
            :: "f"(c_frag[0]), "f"(c_frag[1]), "f"(c_frag[2]), "f"(c_frag[3]),
               "f"(c_frag[4]), "f"(c_frag[5]), "f"(c_frag[6]), "f"(c_frag[7]),
               "r"(ta_addr), "r"(tb_addr),
               "n"(1), "n"(1)
        );
        asm volatile("wgmma.wait_group.sync.aligned 0;\n" :::);
    }
    // TC fusion: 直接在 MMA 输出上做后续 elementwise（如 bias add）
    // 这里仅 store，fusion 在 Fused op kernel 里做
    int store_row = row + warp_id * 16 + (lane_id / 4);
    int store_col = col + (lane_id % 4) * 2;
    if (store_row < M && store_col < N) {
        C[store_row * N + store_col] = c_frag[0];
    }
}
"#;

pub(crate) fn matmul_blackwell_source() -> (r: String)
    ensures
        r@ == matmul_blackwell_template(),
{
    let mut s = MATMUL_BLACKWELL_1.to_owned();
    push_slot(&mut s, "void ", "__NAME__", "(");
    s.append(MATMUL_BLACKWELL_2);
    s
}

/// A softmax with a block for each row.
pub open spec fn softmax_template() -> Seq<char> {
    SOFTMAX_1@
        + slot("// axis="@, "__AXIS__"@, "\n"@)
        + SOFTMAX_2@
        + slot("void "@, "__NAME__"@, "("@)
        + SOFTMAX_3@
}

pub const SOFTMAX_1: &'static str = r#"// __NAME__: Softmax (数值稳定版，每行一个 block，shared memory + warp reduce)
// 先减 max 再 exp 再 sum 再除，避免 exp 溢出
"#;

pub const SOFTMAX_2: &'static str = r#"// TEMPLATE: float
__global__ "#;

pub const SOFTMAX_3: &'static str = r#"const float* __restrict__ input,
                         float* __restrict__ output,
                         int row_len) {
    __shared__ float shared_max[32];   // 每 warp 一个 slot
    __shared__ float shared_sum[32];
    int row = blockIdx.x;
    int tid = threadIdx.x;
    int lane_id = tid % 32;
    int warp_id = tid / 32;
    int num_warps = blockDim.x / 32;
    const float* in_row = input + row * row_len;
    float* out_row = output + row * row_len;
    // 第一遍：求 row max（数值稳定，先减 max 再 exp 避免 overflow）
    float local_max = -INFINITY;
    for (int i = tid; i < row_len; i += blockDim.x) {
        local_max = fmaxf(local_max, in_row[i]);
    }
    // warp 内 reduce max（用 __shfl_xor_sync）
    for (int s = 16; s > 0; s >>= 1) {
        local_max = fmaxf(local_max, __shfl_xor_sync(0xffffffff, local_max, s));
    }
    if (lane_id == 0) shared_max[warp_id] = local_max;
    __syncthreads();
    // 第一个 warp 做 cross-warp reduce max
    if (warp_id == 0) {
        float v = (lane_id < num_warps) ? shared_max[lane_id] : -INFINITY;
        for (int s = 16; s > 0; s >>= 1) {
            v = fmaxf(v, __shfl_xor_sync(0xffffffff, v, s));
        }
        if (lane_id == 0) shared_max[0] = v;
    }
    __syncthreads();
    float row_max = shared_max[0];
    // 第二遍：exp(x - max) 并求和（暂存 exp 结果到 output 避免 re-read）
    float local_sum = 0.0f;
    for (int i = tid; i < row_len; i += blockDim.x) {
        float e = expf(in_row[i] - row_max);
        out_row[i] = e;
        local_sum += e;
    }
    // warp 内 reduce sum
    for (int s = 16; s > 0; s >>= 1) {
        local_sum += __shfl_xor_sync(0xffffffff, local_sum, s);
    }
    if (lane_id == 0) shared_sum[warp_id] = local_sum;
    __syncthreads();
    if (warp_id == 0) {
        float v = (lane_id < num_warps) ? shared_sum[lane_id] : 0.0f;
        for (int s = 16; s > 0; s >>= 1) {
            v += __shfl_xor_sync(0xffffffff, v, s);
        }
        if (lane_id == 0) shared_sum[0] = v;
    }
    __syncthreads();
    float row_sum = shared_sum[0];
    // 第三遍：除以 sum 归一化
    for (int i = tid; i < row_len; i += blockDim.x) {
        out_row[i] = out_row[i] / row_sum;
    }
}
"#;

pub(crate) fn softmax_source() -> (r: String)
    ensures
        r@ == softmax_template(),
{
    let mut s = SOFTMAX_1.to_owned();
    push_slot(&mut s, "// axis=", "__AXIS__", "\n");
    s.append(SOFTMAX_2);
    push_slot(&mut s, "void ", "__NAME__", "(");
    s.append(SOFTMAX_3);
    s
}

/// A layer normalization with a block for each row.
pub open spec fn layernorm_template() -> Seq<char> {
    LAYERNORM_1@
        + slot("// axis="@, "__AXIS__"@, ","@)
        + LAYERNORM_2@
        + slot("void "@, "__NAME__"@, "("@)
        + LAYERNORM_3@
        + slot("float epsilon = "@, "__EPSILON__"@, ";"@)
        + LAYERNORM_4@
}

pub const LAYERNORM_1: &'static str = r#"// __NAME__: LayerNorm (每行一个 block，两遍：mean → var → normalize)
// 数值稳定：用 rsqrt(var + epsilon) 避免除零
"#;

pub const LAYERNORM_2: &'static str = r#" epsilon=__EPSILON__
// TEMPLATE: float
__global__ "#;

pub const LAYERNORM_3: &'static str = r#"const float* __restrict__ input,
                         const float* __restrict__ gamma,
                         const float* __restrict__ beta,
                         float* __restrict__ output,
                         int row_len) {
    __shared__ float shared_mean[32];
    __shared__ float shared_var[32];
    int row = blockIdx.x;
    int tid = threadIdx.x;
    int lane_id = tid % 32;
    int warp_id = tid / 32;
    int num_warps = blockDim.x / 32;
    const float* in_row = input + row * row_len;
    float* out_row = output + row * row_len;
    "#;

pub const LAYERNORM_4: &'static str = r#"
    // 第一遍：求 mean = sum(x) / N
    float local_sum = 0.0f;
    for (int i = tid; i < row_len; i += blockDim.x) {
        local_sum += in_row[i];
    }
    for (int s = 16; s > 0; s >>= 1) {
        local_sum += __shfl_xor_sync(0xffffffff, local_sum, s);
    }
    if (lane_id == 0) shared_mean[warp_id] = local_sum;
    __syncthreads();
    if (warp_id == 0) {
        float v = (lane_id < num_warps) ? shared_mean[lane_id] : 0.0f;
        for (int s = 16; s > 0; s >>= 1) {
            v += __shfl_xor_sync(0xffffffff, v, s);
        }
        if (lane_id == 0) shared_mean[0] = v / (float)row_len;
    }
    __syncthreads();
    float mean = shared_mean[0];
    // 第二遍：求 var = sum((x - mean)^2) / N
    float local_sq = 0.0f;
    for (int i = tid; i < row_len; i += blockDim.x) {
        float d = in_row[i] - mean;
        local_sq += d * d;
    }
    for (int s = 16; s > 0; s >>= 1) {
        local_sq += __shfl_xor_sync(0xffffffff, local_sq, s);
    }
    if (lane_id == 0) shared_var[warp_id] = local_sq;
    __syncthreads();
    if (warp_id == 0) {
        float v = (lane_id < num_warps) ? shared_var[lane_id] : 0.0f;
        for (int s = 16; s > 0; s >>= 1) {
            v += __shfl_xor_sync(0xffffffff, v, s);
        }
        if (lane_id == 0) shared_var[0] = v / (float)row_len;
    }
    __syncthreads();
    float var = shared_var[0];
    float inv_std = rsqrtf(var + epsilon);
    // 第三遍：normalize = (x - mean) * inv_std * gamma + beta
    for (int i = tid; i < row_len; i += blockDim.x) {
        float norm = (in_row[i] - mean) * inv_std;
        out_row[i] = norm * gamma[i] + beta[i];
    }
}
"#;

pub(crate) fn layernorm_source() -> (r: String)
    ensures
        r@ == layernorm_template(),
{
    let mut s = LAYERNORM_1.to_owned();
    push_slot(&mut s, "// axis=", "__AXIS__", ",");
    s.append(LAYERNORM_2);
    push_slot(&mut s, "void ", "__NAME__", "(");
    s.append(LAYERNORM_3);
    push_slot(&mut s, "float epsilon = ", "__EPSILON__", ";");
    s.append(LAYERNORM_4);
    s
}

/// A direct convolution with a thread for each output element.
pub open spec fn conv_template() -> Seq<char> {
    slot("// "@, "__NAME__"@, ":"@)
        + CONV_1@
        + slot("// stride="@, "__STRIDE__"@, ","@)
        + slot(" padding="@, "__PADDING__"@, ","@)
        + slot(" dilation="@, "__DILATION__"@, ","@)
        + slot(" groups="@, "__GROUPS__"@, "\n"@)
        + CONV_2@
        + slot("void "@, "__NAME__"@, "("@)
        + CONV_3@
        + slot("int groups = "@, "__GROUPS__"@, ";"@)
        + CONV_4@
        + slot("int stride = "@, "__STRIDE__"@, ";"@)
        + CONV_5@
        + slot("int padding = "@, "__PADDING__"@, ";"@)
        + CONV_6@
        + slot("int dilation = "@, "__DILATION__"@, ";"@)
        + CONV_7@
}

pub const CONV_1: &'static str = r#" Conv (直接卷积，每线程算一个输出元素，嵌套循环 KH/KW/C)
"#;

pub const CONV_2: &'static str = r#"// TEMPLATE: float
__global__ "#;

pub const CONV_3: &'static str = r#"const float* __restrict__ input,
                         const float* __restrict__ weight,
                         float* __restrict__ output,
                         int N, int C, int H, int W,    // input dims
                         int F, int KH, int KW,         // weight dims: out_channels, kernel_h, kernel_w
                         int OH, int OW) {              // output dims
    int n = blockIdx.z;
    int f = blockIdx.y;
    int hw = blockIdx.x;
    int oh = hw / OW;
    int ow = hw % OW;
    if (n >= N || f >= F || oh >= OH || ow >= OW) return;
    "#;

pub const CONV_4: &'static str = r#"
    int channels_per_group = C / groups;
    int f_per_group = F / groups;
    int g = f / f_per_group;
    int c_start = g * channels_per_group;
    int c_end = c_start + channels_per_group;
    float acc = 0.0f;
    "#;

pub const CONV_5: &'static str = r#"
    "#;

pub const CONV_6: &'static str = r#"
    "#;

pub const CONV_7: &'static str = r#"
    for (int c = c_start; c < c_end; ++c) {
        for (int kh = 0; kh < KH; ++kh) {
            for (int kw = 0; kw < KW; ++kw) {
                int ih = oh * stride - padding + kh * dilation;
                int iw = ow * stride - padding + kw * dilation;
                if (ih >= 0 && ih < H && iw >= 0 && iw < W) {
                    float in_val = input[n * C * H * W + c * H * W + ih * W + iw];
                    float w_val = weight[f * channels_per_group * KH * KW
                                         + (c - c_start) * KH * KW + kh * KW + kw];
                    acc += in_val * w_val;
                }
            }
        }
    }
    output[n * F * OH * OW + f * OH * OW + oh * OW + ow] = acc;
}
"#;

pub(crate) fn conv_source() -> (r: String)
    ensures
        r@ == conv_template(),
{
    let mut s = "// ".to_owned();
    s.append("__NAME__");
    s.append(":");
    s.append(CONV_1);
    push_slot(&mut s, "// stride=", "__STRIDE__", ",");
    push_slot(&mut s, " padding=", "__PADDING__", ",");
    push_slot(&mut s, " dilation=", "__DILATION__", ",");
    push_slot(&mut s, " groups=", "__GROUPS__", "\n");
    s.append(CONV_2);
    push_slot(&mut s, "void ", "__NAME__", "(");
    s.append(CONV_3);
    push_slot(&mut s, "int groups = ", "__GROUPS__", ";");
    s.append(CONV_4);
    push_slot(&mut s, "int stride = ", "__STRIDE__", ";");
    s.append(CONV_5);
    push_slot(&mut s, "int padding = ", "__PADDING__", ";");
    s.append(CONV_6);
    push_slot(&mut s, "int dilation = ", "__DILATION__", ";");
    s.append(CONV_7);
    s
}

/// Max pooling with a thread for each output element.
pub open spec fn pool_template() -> Seq<char> {
    slot("// "@, "__NAME__"@, ":"@)
        + POOL_1@
        + slot("// kernel_size="@, "__KERNEL__"@, ","@)
        + slot(" stride="@, "__STRIDE__"@, ","@)
        + slot(" padding="@, "__PADDING__"@, "\n"@)
        + POOL_2@
        + slot("void "@, "__NAME__"@, "("@)
        + POOL_3@
        + slot("int kernel = "@, "__KERNEL__"@, ";"@)
        + POOL_4@
        + slot("int stride = "@, "__STRIDE__"@, ";"@)
        + POOL_5@
        + slot("int padding = "@, "__PADDING__"@, ";"@)
        + POOL_6@
}

pub const POOL_1: &'static str = r#" Pool (max 池化，每线程算一个输出元素)
"#;

pub const POOL_2: &'static str = r#"// TEMPLATE: float
__global__ "#;

pub const POOL_3: &'static str = r#"const float* __restrict__ input,
                         float* __restrict__ output,
                         int N, int C, int H, int W,
                         int OH, int OW) {
    int idx = blockIdx.x * blockDim.x + threadIdx.x;
    int total = N * C * OH * OW;
    if (idx >= total) return;
    int ow = idx % OW;
    int oh = (idx / OW) % OH;
    int c = (idx / (OW * OH)) % C;
    int n = idx / (C * OH * OW);
    "#;

pub const POOL_4: &'static str = r#"
    "#;

pub const POOL_5: &'static str = r#"
    "#;

pub const POOL_6: &'static str = r#"
    // max pool（avg pool 在 host 端用 reduce_mean kernel 替代）
    float result = -INFINITY;
    for (int kh = 0; kh < kernel; ++kh) {
        for (int kw = 0; kw < kernel; ++kw) {
            int ih = oh * stride - padding + kh;
            int iw = ow * stride - padding + kw;
            if (ih >= 0 && ih < H && iw >= 0 && iw < W) {
                float v = input[n * C * H * W + c * H * W + ih * W + iw];
                result = fmaxf(result, v);
            }
        }
    }
    output[idx] = result;
}
"#;

pub(crate) fn pool_source() -> (r: String)
    ensures
        r@ == pool_template(),
{
    let mut s = "// ".to_owned();
    s.append("__NAME__");
    s.append(":");
    s.append(POOL_1);
    push_slot(&mut s, "// kernel_size=", "__KERNEL__", ",");
    push_slot(&mut s, " stride=", "__STRIDE__", ",");
    push_slot(&mut s, " padding=", "__PADDING__", "\n");
    s.append(POOL_2);
    push_slot(&mut s, "void ", "__NAME__", "(");
    s.append(POOL_3);
    push_slot(&mut s, "int kernel = ", "__KERNEL__", ";");
    s.append(POOL_4);
    push_slot(&mut s, "int stride = ", "__STRIDE__", ";");
    s.append(POOL_5);
    push_slot(&mut s, "int padding = ", "__PADDING__", ";");
    s.append(POOL_6);
    s
}

/// A copy.
pub open spec fn reshape_template() -> Seq<char> {
    RESHAPE_1@
        + slot("void "@, "__NAME__"@, "("@)
        + slot("const "@, "__T__"@, "*"@)
        + RESHAPE_2@
}

pub const RESHAPE_1: &'static str = r#"// __NAME__: Reshape (copy kernel，元素级，仅复制不改 shape 语义)
// shape 由 host 端 TensorSpec 维护，kernel 只做数据搬运
// TEMPLATE: __T__
__global__ "#;

pub const RESHAPE_2: &'static str = r#" __restrict__ input,
                         __T__* __restrict__ output,
                         int n) {
    int i = blockIdx.x * blockDim.x + threadIdx.x;
    if (i < n) {
        output[i] = input[i];
    }
}
"#;

pub(crate) fn reshape_source() -> (r: String)
    ensures
        r@ == reshape_template(),
{
    let mut s = RESHAPE_1.to_owned();
    push_slot(&mut s, "void ", "__NAME__", "(");
    push_slot(&mut s, "const ", "__T__", "*");
    s.append(RESHAPE_2);
    s
}

/// A transposition of tiles.
pub open spec fn transpose_template() -> Seq<char> {
    TRANSPOSE_1@
        + slot("void "@, "__NAME__"@, "("@)
        + slot("const "@, "__T__"@, "*"@)
        + TRANSPOSE_2@
}

pub const TRANSPOSE_1: &'static str = r#"// __NAME__: Transpose (2D block + shared memory + bank conflict padding +1 列)
// TEMPLATE: __T__
__global__ "#;

pub const TRANSPOSE_2: &'static str = r#" __restrict__ input,
                         __T__* __restrict__ output,
                         int M, int N) {
    // 32x32 tile + 1 列 padding 避免 shared memory bank conflict
    __shared__ __T__ tile[32][32 + 1];
    int x = blockIdx.x * 32 + threadIdx.x;
    int y = blockIdx.y * 32 + threadIdx.y;
    // load input to shared memory（coalesced read，按行读）
    for (int j = 0; j < 32; j += 8) {
        int row = y + j / 8;
        if (row < M && x < N) {
            tile[threadIdx.y + j / 8][threadIdx.x] = input[row * N + x];
        }
    }
    __syncthreads();
    // 转置索引：output (col, row) = input (row, col)
    int out_x = blockIdx.y * 32 + threadIdx.x;
    int out_y = blockIdx.x * 32 + threadIdx.y;
    for (int j = 0; j < 32; j += 8) {
        int row = out_y + j / 8;
        if (row < N && out_x < M) {
            output[row * M + out_x] = tile[threadIdx.x][threadIdx.y + j / 8];
        }
    }
}
"#;

pub(crate) fn transpose_source() -> (r: String)
    ensures
        r@ == transpose_template(),
{
    let mut s = TRANSPOSE_1.to_owned();
    push_slot(&mut s, "void ", "__NAME__", "(");
    push_slot(&mut s, "const ", "__T__", "*");
    s.append(TRANSPOSE_2);
    s
}

/// A concatenation.
pub open spec fn concat_template() -> Seq<char> {
    CONCAT_1@
        + slot(": Concat (按 axis="@, "__AXIS__"@, " "@)
        + CONCAT_2@
        + slot("void "@, "__NAME__"@, "("@)
        + slot("const "@, "__T__"@, "*"@)
        + CONCAT_3@
}

pub const CONCAT_1: &'static str = r#"// __NAME__"#;

pub const CONCAT_2: &'static str = r#"拼接，每线程拷一个元素)
// TEMPLATE: __T__
// 简化为两输入拼接；多输入时 host 端可链式调用或用 array of pointers
__global__ "#;

pub const CONCAT_3: &'static str = r#" __restrict__ in_a,
                         const __T__* __restrict__ in_b,
                         int a_axis_len,
                         __T__* __restrict__ output,
                         int total_n) {
    int i = blockIdx.x * blockDim.x + threadIdx.x;
    if (i >= total_n) return;
    // 按 axis=__AXIS__ 拼接：前 a_axis_len 个元素来自 in_a，其余来自 in_b
    if (i < a_axis_len) {
        output[i] = in_a[i];
    } else {
        output[i] = in_b[i - a_axis_len];
    }
}
"#;

pub(crate) fn concat_source() -> (r: String)
    ensures
        r@ == concat_template(),
{
    let mut s = CONCAT_1.to_owned();
    push_slot(&mut s, ": Concat (按 axis=", "__AXIS__", " ");
    s.append(CONCAT_2);
    push_slot(&mut s, "void ", "__NAME__", "(");
    push_slot(&mut s, "const ", "__T__", "*");
    s.append(CONCAT_3);
    s
}

/// A strided copy.
pub open spec fn slice_template() -> Seq<char> {
    SLICE_1@
        + slot("// starts=["@, "__STARTS__"@, "]"@)
        + slot(", ends=["@, "__ENDS__"@, "]"@)
        + slot(", steps=["@, "__STEPS__"@, "]"@)
        + SLICE_2@
        + slot("void "@, "__NAME__"@, "("@)
        + slot("const "@, "__T__"@, "*"@)
        + SLICE_3@
}

pub const SLICE_1: &'static str = r#"// __NAME__: Slice (按 starts/ends/axes/steps 拷贝)
"#;

pub const SLICE_2: &'static str = r#"
// TEMPLATE: __T__
// 简化为 1D slice；多维 slice 由 host 端按实际参数调整索引计算
__global__ "#;

pub const SLICE_3: &'static str = r#" __restrict__ input,
                         __T__* __restrict__ output,
                         int start, int step, int out_n) {
    int i = blockIdx.x * blockDim.x + threadIdx.x;
    if (i < out_n) {
        int src_idx = start + i * step;
        output[i] = input[src_idx];
    }
}
"#;

pub(crate) fn slice_source() -> (r: String)
    ensures
        r@ == slice_template(),
{
    let mut s = SLICE_1.to_owned();
    push_slot(&mut s, "// starts=[", "__STARTS__", "]");
    push_slot(&mut s, ", ends=[", "__ENDS__", "]");
    push_slot(&mut s, ", steps=[", "__STEPS__", "]");
    s.append(SLICE_2);
    push_slot(&mut s, "void ", "__NAME__", "(");
    push_slot(&mut s, "const ", "__T__", "*");
    s.append(SLICE_3);
    s
}

/// A kernel that fills its output with a value.
pub open spec fn constant_template() -> Seq<char> {
    CONSTANT_1@
        + slot(": Constant (把 value="@, "__VALUE__"@, " "@)
        + CONSTANT_2@
        + slot("void "@, "__NAME__"@, "("@)
        + CONSTANT_3@
        + slot("* out, "@, "__T__"@, " "@)
        + CONSTANT_4@
}

pub const CONSTANT_1: &'static str = r#"// __NAME__"#;

pub const CONSTANT_2: &'static str = r#"广播到 n 个元素)
// TEMPLATE: __T__
__TENSOR_INIT____global__ "#;

pub const CONSTANT_3: &'static str = r#"__T__"#;

pub const CONSTANT_4: &'static str = r#"value, int n) {
    int i = blockIdx.x * blockDim.x + threadIdx.x;
    if (i < n) {
        out[i] = value;
    }
}
"#;

pub(crate) fn constant_source() -> (r: String)
    ensures
        r@ == constant_template(),
{
    let mut s = CONSTANT_1.to_owned();
    push_slot(&mut s, ": Constant (把 value=", "__VALUE__", " ");
    s.append(CONSTANT_2);
    push_slot(&mut s, "void ", "__NAME__", "(");
    s.append(CONSTANT_3);
    push_slot(&mut s, "* out, ", "__T__", " ");
    s.append(CONSTANT_4);
    s
}

/// A chain of operators in one kernel.
pub open spec fn fused_template() -> Seq<char> {
    FUSED_1@
        + slot("// fused_ops: "@, "__OPS__"@, "\n"@)
        + FUSED_2@
        + slot("void "@, "__NAME__"@, "("@)
        + FUSED_3@
}

pub const FUSED_1: &'static str = r#"// __NAME__: Fused (串联 fused_ops 列表，按 op name 顺序应用变换，单 kernel 多 op)
"#;

pub const FUSED_2: &'static str = r#"// TEMPLATE: float
__global__ "#;

pub const FUSED_3: &'static str = r#"const float* __restrict__ in,
                         float* __restrict__ out,
                         int n) {
    int i = blockIdx.x * blockDim.x + threadIdx.x;
    if (i < n) {
        float x = in[i];
        // 按 fused_ops 顺序应用变换（避免中间结果写回 global memory）
__BODY__        out[i] = x;
    }
}
"#;

pub(crate) fn fused_source() -> (r: String)
    ensures
        r@ == fused_template(),
{
    let mut s = FUSED_1.to_owned();
    push_slot(&mut s, "// fused_ops: ", "__OPS__", "\n");
    s.append(FUSED_2);
    push_slot(&mut s, "void ", "__NAME__", "(");
    s.append(FUSED_3);
    s
}

/// The entry point of an operator that is linked from elsewhere.
pub open spec fn custom_template() -> Seq<char> {
    CUSTOM_1@
        + slot("// 原始 op_type: "@, "__CUSTOM_TYPE__"@, "\n"@)
        + CUSTOM_2@
        + slot("void "@, "__NAME__"@, "("@)
        + CUSTOM_3@
        + slot("* out, const "@, "__T__"@, "*"@)
        + CUSTOM_4@
}

pub const CUSTOM_1: &'static str = r#"// __NAME__: Custom (用户自定义算子入口点，extern "C" 链接)
"#;

pub const CUSTOM_2: &'static str = r#"// TEMPLATE: __T__
extern "C" __global__ "#;

pub const CUSTOM_3: &'static str = r#"__T__"#;

pub const CUSTOM_4: &'static str = r#" in, int n) {
    int i = blockIdx.x * blockDim.x + threadIdx.x;
    if (i < n) {
        // 用户应在此处填入自定义算子实现
        // 默认行为：identity copy（占位，确保 kernel 可链接）
        out[i] = in[i];
    }
}
"#;

pub(crate) fn custom_source() -> (r: String)
    ensures
        r@ == custom_template(),
{
    let mut s = CUSTOM_1.to_owned();
    push_slot(&mut s, "// 原始 op_type: ", "__CUSTOM_TYPE__", "\n");
    s.append(CUSTOM_2);
    push_slot(&mut s, "void ", "__NAME__", "(");
    s.append(CUSTOM_3);
    push_slot(&mut s, "* out, const ", "__T__", "*");
    s.append(CUSTOM_4);
    s
}

/// What a file begins with.
pub const HEADER: &'static str = r#"// ============================================================
// neutron — CUDA C++ kernel 源码
// 微架构: "#;

/// Remarks on an architecture.
pub const BLACKWELL_NOTES: &'static str = r#"// 微架构特性: Blackwell tensor memory accelerator + TC fusion + FP4/FP6 原生
//   - wgmma 扩展支持 FP4/FP6/FP8 输入
//   - tensor memory（on-chip SMEM 的替代）+ TMA bulk load
"#;

/// Remarks on an architecture.
pub const HOPPER_NOTES: &'static str = r#"// 微架构特性: Hopper wgmma.mma_async (warp group MMA 64x256) + TMA (Tensor Memory Accelerator) + cp.async.bulk
//   - wgmma 用 warp group (4 warps = 128 threads) 异步执行 64x256 MMA
//   - TMA 提供 bulk 异步 load/store，替代 cp.async
"#;

/// Remarks on an architecture.
pub const AMPERE_NOTES: &'static str = r#"// 微架构特性: Ampere mma.sync (nvcuda::wmma 16x16x16) + cp.async + __ldg
//   - 每个 warp 用 wmma fragment 执行 16x16x16 tensor core MMA
"#;

/// What stands before the kernels.
pub const PRELUDE: &'static str = r#"// ============================================================

#include <cuda_runtime.h>
#include <cuda_bf16.h>
#include <cuda_fp16.h>
#include <mma.h>
#if __CUDA_ARCH__ >= 900
  #include <cuda/barrier>
  #include <cuda/ptx_parallel_call_api.h>
#endif
using namespace nvcuda;

"#;

/// What stands before the launchers.
pub const LAUNCHERS: &'static str = r#"// ============================================================
// launch wrappers（host 端调用，每个 kernel 一个 launch helper）
// ============================================================

"#;

/// The parts around tokens stand in the template.
pub proof fn custom_holds_slots()
    ensures
        contains(custom_template(), slot("// 原始 op_type: "@, "__CUSTOM_TYPE__"@, "\n"@)),
        contains(custom_template(), slot("void "@, "__NAME__"@, "("@)),
        contains(custom_template(), slot("* out, const "@, "__T__"@, "*"@)),
{
    let t0 = CUSTOM_1@;
    end_is_part(t0, slot("// 原始 op_type: "@, "__CUSTOM_TYPE__"@, "\n"@));
    let t1 = t0 + slot("// 原始 op_type: "@, "__CUSTOM_TYPE__"@, "\n"@);
    part_stays(t1, CUSTOM_2@, slot("// 原始 op_type: "@, "__CUSTOM_TYPE__"@, "\n"@));
    let t2 = t1 + CUSTOM_2@;
    part_stays(t2, slot("void "@, "__NAME__"@, "("@), slot("// 原始 op_type: "@, "__CUSTOM_TYPE__"@, "\n"@));
    end_is_part(t2, slot("void "@, "__NAME__"@, "("@));
    let t3 = t2 + slot("void "@, "__NAME__"@, "("@);
    part_stays(t3, CUSTOM_3@, slot("// 原始 op_type: "@, "__CUSTOM_TYPE__"@, "\n"@));
    part_stays(t3, CUSTOM_3@, slot("void "@, "__NAME__"@, "("@));
    let t4 = t3 + CUSTOM_3@;
    part_stays(t4, slot("* out, const "@, "__T__"@, "*"@), slot("// 原始 op_type: "@, "__CUSTOM_TYPE__"@, "\n"@));
    part_stays(t4, slot("* out, const "@, "__T__"@, "*"@), slot("void "@, "__NAME__"@, "("@));
    end_is_part(t4, slot("* out, const "@, "__T__"@, "*"@));
    let t5 = t4 + slot("* out, const "@, "__T__"@, "*"@);
    part_stays(t5, CUSTOM_4@, slot("// 原始 op_type: "@, "__CUSTOM_TYPE__"@, "\n"@));
    part_stays(t5, CUSTOM_4@, slot("void "@, "__NAME__"@, "("@));
    part_stays(t5, CUSTOM_4@, slot("* out, const "@, "__T__"@, "*"@));
    let t6 = t5 + CUSTOM_4@;
}

/// The parts around tokens stand in the template.
pub proof fn fused_holds_slots()
    ensures
        contains(fused_template(), slot("// fused_ops: "@, "__OPS__"@, "\n"@)),
        contains(fused_template(), slot("void "@, "__NAME__"@, "("@)),
{
    let t0 = FUSED_1@;
    end_is_part(t0, slot("// fused_ops: "@, "__OPS__"@, "\n"@));
    let t1 = t0 + slot("// fused_ops: "@, "__OPS__"@, "\n"@);
    part_stays(t1, FUSED_2@, slot("// fused_ops: "@, "__OPS__"@, "\n"@));
    let t2 = t1 + FUSED_2@;
    part_stays(t2, slot("void "@, "__NAME__"@, "("@), slot("// fused_ops: "@, "__OPS__"@, "\n"@));
    end_is_part(t2, slot("void "@, "__NAME__"@, "("@));
    let t3 = t2 + slot("void "@, "__NAME__"@, "("@);
    part_stays(t3, FUSED_3@, slot("// fused_ops: "@, "__OPS__"@, "\n"@));
    part_stays(t3, FUSED_3@, slot("void "@, "__NAME__"@, "("@));
    let t4 = t3 + FUSED_3@;
}

/// The parts around tokens stand in the template.
pub proof fn constant_holds_slots()
    ensures
        contains(constant_template(), slot(": Constant (把 value="@, "__VALUE__"@, " "@)),
        contains(constant_template(), slot("void "@, "__NAME__"@, "("@)),
        contains(constant_template(), slot("* out, "@, "__T__"@, " "@)),
{
    let t0 = CONSTANT_1@;
    end_is_part(t0, slot(": Constant (把 value="@, "__VALUE__"@, " "@));
    let t1 = t0 + slot(": Constant (把 value="@, "__VALUE__"@, " "@);
    part_stays(t1, CONSTANT_2@, slot(": Constant (把 value="@, "__VALUE__"@, " "@));
    let t2 = t1 + CONSTANT_2@;
    part_stays(t2, slot("void "@, "__NAME__"@, "("@), slot(": Constant (把 value="@, "__VALUE__"@, " "@));
    end_is_part(t2, slot("void "@, "__NAME__"@, "("@));
    let t3 = t2 + slot("void "@, "__NAME__"@, "("@);
    part_stays(t3, CONSTANT_3@, slot(": Constant (把 value="@, "__VALUE__"@, " "@));
    part_stays(t3, CONSTANT_3@, slot("void "@, "__NAME__"@, "("@));
    let t4 = t3 + CONSTANT_3@;
    part_stays(t4, slot("* out, "@, "__T__"@, " "@), slot(": Constant (把 value="@, "__VALUE__"@, " "@));
    part_stays(t4, slot("* out, "@, "__T__"@, " "@), slot("void "@, "__NAME__"@, "("@));
    end_is_part(t4, slot("* out, "@, "__T__"@, " "@));
    let t5 = t4 + slot("* out, "@, "__T__"@, " "@);
    part_stays(t5, CONSTANT_4@, slot(": Constant (把 value="@, "__VALUE__"@, " "@));
    part_stays(t5, CONSTANT_4@, slot("void "@, "__NAME__"@, "("@));
    part_stays(t5, CONSTANT_4@, slot("* out, "@, "__T__"@, " "@));
    let t6 = t5 + CONSTANT_4@;
}

/// The parts around tokens stand in the template.
pub proof fn slice_holds_slots()
    ensures
        contains(slice_template(), slot("// starts=["@, "__STARTS__"@, "]"@)),
        contains(slice_template(), slot(", ends=["@, "__ENDS__"@, "]"@)),
        contains(slice_template(), slot(", steps=["@, "__STEPS__"@, "]"@)),
        contains(slice_template(), slot("void "@, "__NAME__"@, "("@)),
        contains(slice_template(), slot("const "@, "__T__"@, "*"@)),
{
    let t0 = SLICE_1@;
    end_is_part(t0, slot("// starts=["@, "__STARTS__"@, "]"@));
    let t1 = t0 + slot("// starts=["@, "__STARTS__"@, "]"@);
    part_stays(t1, slot(", ends=["@, "__ENDS__"@, "]"@), slot("// starts=["@, "__STARTS__"@, "]"@));
    end_is_part(t1, slot(", ends=["@, "__ENDS__"@, "]"@));
    let t2 = t1 + slot(", ends=["@, "__ENDS__"@, "]"@);
    part_stays(t2, slot(", steps=["@, "__STEPS__"@, "]"@), slot("// starts=["@, "__STARTS__"@, "]"@));
    part_stays(t2, slot(", steps=["@, "__STEPS__"@, "]"@), slot(", ends=["@, "__ENDS__"@, "]"@));
    end_is_part(t2, slot(", steps=["@, "__STEPS__"@, "]"@));
    let t3 = t2 + slot(", steps=["@, "__STEPS__"@, "]"@);
    part_stays(t3, SLICE_2@, slot("// starts=["@, "__STARTS__"@, "]"@));
    part_stays(t3, SLICE_2@, slot(", ends=["@, "__ENDS__"@, "]"@));
    part_stays(t3, SLICE_2@, slot(", steps=["@, "__STEPS__"@, "]"@));
    let t4 = t3 + SLICE_2@;
    part_stays(t4, slot("void "@, "__NAME__"@, "("@), slot("// starts=["@, "__STARTS__"@, "]"@));
    part_stays(t4, slot("void "@, "__NAME__"@, "("@), slot(", ends=["@, "__ENDS__"@, "]"@));
    part_stays(t4, slot("void "@, "__NAME__"@, "("@), slot(", steps=["@, "__STEPS__"@, "]"@));
    end_is_part(t4, slot("void "@, "__NAME__"@, "("@));
    let t5 = t4 + slot("void "@, "__NAME__"@, "("@);
    part_stays(t5, slot("const "@, "__T__"@, "*"@), slot("// starts=["@, "__STARTS__"@, "]"@));
    part_stays(t5, slot("const "@, "__T__"@, "*"@), slot(", ends=["@, "__ENDS__"@, "]"@));
    part_stays(t5, slot("const "@, "__T__"@, "*"@), slot(", steps=["@, "__STEPS__"@, "]"@));
    part_stays(t5, slot("const "@, "__T__"@, "*"@), slot("void "@, "__NAME__"@, "("@));
    end_is_part(t5, slot("const "@, "__T__"@, "*"@));
    let t6 = t5 + slot("const "@, "__T__"@, "*"@);
    part_stays(t6, SLICE_3@, slot("// starts=["@, "__STARTS__"@, "]"@));
    part_stays(t6, SLICE_3@, slot(", ends=["@, "__ENDS__"@, "]"@));
    part_stays(t6, SLICE_3@, slot(", steps=["@, "__STEPS__"@, "]"@));
    part_stays(t6, SLICE_3@, slot("void "@, "__NAME__"@, "("@));
    part_stays(t6, SLICE_3@, slot("const "@, "__T__"@, "*"@));
    let t7 = t6 + SLICE_3@;
}

/// The parts around tokens stand in the template.
pub proof fn concat_holds_slots()
    ensures
        contains(concat_template(), slot(": Concat (按 axis="@, "__AXIS__"@, " "@)),
        contains(concat_template(), slot("void "@, "__NAME__"@, "("@)),
        contains(concat_template(), slot("const "@, "__T__"@, "*"@)),
{
    let t0 = CONCAT_1@;
    end_is_part(t0, slot(": Concat (按 axis="@, "__AXIS__"@, " "@));
    let t1 = t0 + slot(": Concat (按 axis="@, "__AXIS__"@, " "@);
    part_stays(t1, CONCAT_2@, slot(": Concat (按 axis="@, "__AXIS__"@, " "@));
    let t2 = t1 + CONCAT_2@;
    part_stays(t2, slot("void "@, "__NAME__"@, "("@), slot(": Concat (按 axis="@, "__AXIS__"@, " "@));
    end_is_part(t2, slot("void "@, "__NAME__"@, "("@));
    let t3 = t2 + slot("void "@, "__NAME__"@, "("@);
    part_stays(t3, slot("const "@, "__T__"@, "*"@), slot(": Concat (按 axis="@, "__AXIS__"@, " "@));
    part_stays(t3, slot("const "@, "__T__"@, "*"@), slot("void "@, "__NAME__"@, "("@));
    end_is_part(t3, slot("const "@, "__T__"@, "*"@));
    let t4 = t3 + slot("const "@, "__T__"@, "*"@);
    part_stays(t4, CONCAT_3@, slot(": Concat (按 axis="@, "__AXIS__"@, " "@));
    part_stays(t4, CONCAT_3@, slot("void "@, "__NAME__"@, "("@));
    part_stays(t4, CONCAT_3@, slot("const "@, "__T__"@, "*"@));
    let t5 = t4 + CONCAT_3@;
}

/// The parts around tokens stand in the template.
pub proof fn transpose_holds_slots()
    ensures
        contains(transpose_template(), slot("void "@, "__NAME__"@, "("@)),
        contains(transpose_template(), slot("const "@, "__T__"@, "*"@)),
{
    let t0 = TRANSPOSE_1@;
    end_is_part(t0, slot("void "@, "__NAME__"@, "("@));
    let t1 = t0 + slot("void "@, "__NAME__"@, "("@);
    part_stays(t1, slot("const "@, "__T__"@, "*"@), slot("void "@, "__NAME__"@, "("@));
    end_is_part(t1, slot("const "@, "__T__"@, "*"@));
    let t2 = t1 + slot("const "@, "__T__"@, "*"@);
    part_stays(t2, TRANSPOSE_2@, slot("void "@, "__NAME__"@, "("@));
    part_stays(t2, TRANSPOSE_2@, slot("const "@, "__T__"@, "*"@));
    let t3 = t2 + TRANSPOSE_2@;
}

/// The parts around tokens stand in the template.
pub proof fn reshape_holds_slots()
    ensures
        contains(reshape_template(), slot("void "@, "__NAME__"@, "("@)),
        contains(reshape_template(), slot("const "@, "__T__"@, "*"@)),
{
    let t0 = RESHAPE_1@;
    end_is_part(t0, slot("void "@, "__NAME__"@, "("@));
    let t1 = t0 + slot("void "@, "__NAME__"@, "("@);
    part_stays(t1, slot("const "@, "__T__"@, "*"@), slot("void "@, "__NAME__"@, "("@));
    end_is_part(t1, slot("const "@, "__T__"@, "*"@));
    let t2 = t1 + slot("const "@, "__T__"@, "*"@);
    part_stays(t2, RESHAPE_2@, slot("void "@, "__NAME__"@, "("@));
    part_stays(t2, RESHAPE_2@, slot("const "@, "__T__"@, "*"@));
    let t3 = t2 + RESHAPE_2@;
}

/// The parts around tokens stand in the template.
pub proof fn pool_holds_slots()
    ensures
        contains(pool_template(), slot("// "@, "__NAME__"@, ":"@)),
        contains(pool_template(), slot("// kernel_size="@, "__KERNEL__"@, ","@)),
        contains(pool_template(), slot(" stride="@, "__STRIDE__"@, ","@)),
        contains(pool_template(), slot(" padding="@, "__PADDING__"@, "\n"@)),
        contains(pool_template(), slot("void "@, "__NAME__"@, "("@)),
        contains(pool_template(), slot("int kernel = "@, "__KERNEL__"@, ";"@)),
        contains(pool_template(), slot("int stride = "@, "__STRIDE__"@, ";"@)),
        contains(pool_template(), slot("int padding = "@, "__PADDING__"@, ";"@)),
{
    let t0 = slot("// "@, "__NAME__"@, ":"@);
    whole_is_part(t0);
    part_stays(t0, POOL_1@, slot("// "@, "__NAME__"@, ":"@));
    let t1 = t0 + POOL_1@;
    part_stays(t1, slot("// kernel_size="@, "__KERNEL__"@, ","@), slot("// "@, "__NAME__"@, ":"@));
    end_is_part(t1, slot("// kernel_size="@, "__KERNEL__"@, ","@));
    let t2 = t1 + slot("// kernel_size="@, "__KERNEL__"@, ","@);
    part_stays(t2, slot(" stride="@, "__STRIDE__"@, ","@), slot("// "@, "__NAME__"@, ":"@));
    part_stays(t2, slot(" stride="@, "__STRIDE__"@, ","@), slot("// kernel_size="@, "__KERNEL__"@, ","@));
    end_is_part(t2, slot(" stride="@, "__STRIDE__"@, ","@));
    let t3 = t2 + slot(" stride="@, "__STRIDE__"@, ","@);
    part_stays(t3, slot(" padding="@, "__PADDING__"@, "\n"@), slot("// "@, "__NAME__"@, ":"@));
    part_stays(t3, slot(" padding="@, "__PADDING__"@, "\n"@), slot("// kernel_size="@, "__KERNEL__"@, ","@));
    part_stays(t3, slot(" padding="@, "__PADDING__"@, "\n"@), slot(" stride="@, "__STRIDE__"@, ","@));
    end_is_part(t3, slot(" padding="@, "__PADDING__"@, "\n"@));
    let t4 = t3 + slot(" padding="@, "__PADDING__"@, "\n"@);
    part_stays(t4, POOL_2@, slot("// "@, "__NAME__"@, ":"@));
    part_stays(t4, POOL_2@, slot("// kernel_size="@, "__KERNEL__"@, ","@));
    part_stays(t4, POOL_2@, slot(" stride="@, "__STRIDE__"@, ","@));
    part_stays(t4, POOL_2@, slot(" padding="@, "__PADDING__"@, "\n"@));
    let t5 = t4 + POOL_2@;
    part_stays(t5, slot("void "@, "__NAME__"@, "("@), slot("// "@, "__NAME__"@, ":"@));
    part_stays(t5, slot("void "@, "__NAME__"@, "("@), slot("// kernel_size="@, "__KERNEL__"@, ","@));
    part_stays(t5, slot("void "@, "__NAME__"@, "("@), slot(" stride="@, "__STRIDE__"@, ","@));
    part_stays(t5, slot("void "@, "__NAME__"@, "("@), slot(" padding="@, "__PADDING__"@, "\n"@));
    end_is_part(t5, slot("void "@, "__NAME__"@, "("@));
    let t6 = t5 + slot("void "@, "__NAME__"@, "("@);
    part_stays(t6, POOL_3@, slot("// "@, "__NAME__"@, ":"@));
    part_stays(t6, POOL_3@, slot("// kernel_size="@, "__KERNEL__"@, ","@));
    part_stays(t6, POOL_3@, slot(" stride="@, "__STRIDE__"@, ","@));
    part_stays(t6, POOL_3@, slot(" padding="@, "__PADDING__"@, "\n"@));
    part_stays(t6, POOL_3@, slot("void "@, "__NAME__"@, "("@));
    let t7 = t6 + POOL_3@;
    part_stays(t7, slot("int kernel = "@, "__KERNEL__"@, ";"@), slot("// "@, "__NAME__"@, ":"@));
    part_stays(t7, slot("int kernel = "@, "__KERNEL__"@, ";"@), slot("// kernel_size="@, "__KERNEL__"@, ","@));
    part_stays(t7, slot("int kernel = "@, "__KERNEL__"@, ";"@), slot(" stride="@, "__STRIDE__"@, ","@));
    part_stays(t7, slot("int kernel = "@, "__KERNEL__"@, ";"@), slot(" padding="@, "__PADDING__"@, "\n"@));
    part_stays(t7, slot("int kernel = "@, "__KERNEL__"@, ";"@), slot("void "@, "__NAME__"@, "("@));
    end_is_part(t7, slot("int kernel = "@, "__KERNEL__"@, ";"@));
    let t8 = t7 + slot("int kernel = "@, "__KERNEL__"@, ";"@);
    part_stays(t8, POOL_4@, slot("// "@, "__NAME__"@, ":"@));
    part_stays(t8, POOL_4@, slot("// kernel_size="@, "__KERNEL__"@, ","@));
    part_stays(t8, POOL_4@, slot(" stride="@, "__STRIDE__"@, ","@));
    part_stays(t8, POOL_4@, slot(" padding="@, "__PADDING__"@, "\n"@));
    part_stays(t8, POOL_4@, slot("void "@, "__NAME__"@, "("@));
    part_stays(t8, POOL_4@, slot("int kernel = "@, "__KERNEL__"@, ";"@));
    let t9 = t8 + POOL_4@;
    part_stays(t9, slot("int stride = "@, "__STRIDE__"@, ";"@), slot("// "@, "__NAME__"@, ":"@));
    part_stays(t9, slot("int stride = "@, "__STRIDE__"@, ";"@), slot("// kernel_size="@, "__KERNEL__"@, ","@));
    part_stays(t9, slot("int stride = "@, "__STRIDE__"@, ";"@), slot(" stride="@, "__STRIDE__"@, ","@));
    part_stays(t9, slot("int stride = "@, "__STRIDE__"@, ";"@), slot(" padding="@, "__PADDING__"@, "\n"@));
    part_stays(t9, slot("int stride = "@, "__STRIDE__"@, ";"@), slot("void "@, "__NAME__"@, "("@));
    part_stays(t9, slot("int stride = "@, "__STRIDE__"@, ";"@), slot("int kernel = "@, "__KERNEL__"@, ";"@));
    end_is_part(t9, slot("int stride = "@, "__STRIDE__"@, ";"@));
    let t10 = t9 + slot("int stride = "@, "__STRIDE__"@, ";"@);
    part_stays(t10, POOL_5@, slot("// "@, "__NAME__"@, ":"@));
    part_stays(t10, POOL_5@, slot("// kernel_size="@, "__KERNEL__"@, ","@));
    part_stays(t10, POOL_5@, slot(" stride="@, "__STRIDE__"@, ","@));
    part_stays(t10, POOL_5@, slot(" padding="@, "__PADDING__"@, "\n"@));
    part_stays(t10, POOL_5@, slot("void "@, "__NAME__"@, "("@));
    part_stays(t10, POOL_5@, slot("int kernel = "@, "__KERNEL__"@, ";"@));
    part_stays(t10, POOL_5@, slot("int stride = "@, "__STRIDE__"@, ";"@));
    let t11 = t10 + POOL_5@;
    part_stays(t11, slot("int padding = "@, "__PADDING__"@, ";"@), slot("// "@, "__NAME__"@, ":"@));
    part_stays(t11, slot("int padding = "@, "__PADDING__"@, ";"@), slot("// kernel_size="@, "__KERNEL__"@, ","@));
    part_stays(t11, slot("int padding = "@, "__PADDING__"@, ";"@), slot(" stride="@, "__STRIDE__"@, ","@));
    part_stays(t11, slot("int padding = "@, "__PADDING__"@, ";"@), slot(" padding="@, "__PADDING__"@, "\n"@));
    part_stays(t11, slot("int padding = "@, "__PADDING__"@, ";"@), slot("void "@, "__NAME__"@, "("@));
    part_stays(t11, slot("int padding = "@, "__PADDING__"@, ";"@), slot("int kernel = "@, "__KERNEL__"@, ";"@));
    part_stays(t11, slot("int padding = "@, "__PADDING__"@, ";"@), slot("int stride = "@, "__STRIDE__"@, ";"@));
    end_is_part(t11, slot("int padding = "@, "__PADDING__"@, ";"@));
    let t12 = t11 + slot("int padding = "@, "__PADDING__"@, ";"@);
    part_stays(t12, POOL_6@, slot("// "@, "__NAME__"@, ":"@));
    part_stays(t12, POOL_6@, slot("// kernel_size="@, "__KERNEL__"@, ","@));
    part_stays(t12, POOL_6@, slot(" stride="@, "__STRIDE__"@, ","@));
    part_stays(t12, POOL_6@, slot(" padding="@, "__PADDING__"@, "\n"@));
    part_stays(t12, POOL_6@, slot("void "@, "__NAME__"@, "("@));
    part_stays(t12, POOL_6@, slot("int kernel = "@, "__KERNEL__"@, ";"@));
    part_stays(t12, POOL_6@, slot("int stride = "@, "__STRIDE__"@, ";"@));
    part_stays(t12, POOL_6@, slot("int padding = "@, "__PADDING__"@, ";"@));
    let t13 = t12 + POOL_6@;
}

/// The parts around tokens stand in the template.
pub proof fn conv_holds_slots()
    ensures
        contains(conv_template(), slot("// "@, "__NAME__"@, ":"@)),
        contains(conv_template(), slot("// stride="@, "__STRIDE__"@, ","@)),
        contains(conv_template(), slot(" padding="@, "__PADDING__"@, ","@)),
        contains(conv_template(), slot(" dilation="@, "__DILATION__"@, ","@)),
        contains(conv_template(), slot(" groups="@, "__GROUPS__"@, "\n"@)),
        contains(conv_template(), slot("void "@, "__NAME__"@, "("@)),
        contains(conv_template(), slot("int groups = "@, "__GROUPS__"@, ";"@)),
        contains(conv_template(), slot("int stride = "@, "__STRIDE__"@, ";"@)),
        contains(conv_template(), slot("int padding = "@, "__PADDING__"@, ";"@)),
        contains(conv_template(), slot("int dilation = "@, "__DILATION__"@, ";"@)),
{
    let t0 = slot("// "@, "__NAME__"@, ":"@);
    whole_is_part(t0);
    part_stays(t0, CONV_1@, slot("// "@, "__NAME__"@, ":"@));
    let t1 = t0 + CONV_1@;
    part_stays(t1, slot("// stride="@, "__STRIDE__"@, ","@), slot("// "@, "__NAME__"@, ":"@));
    end_is_part(t1, slot("// stride="@, "__STRIDE__"@, ","@));
    let t2 = t1 + slot("// stride="@, "__STRIDE__"@, ","@);
    part_stays(t2, slot(" padding="@, "__PADDING__"@, ","@), slot("// "@, "__NAME__"@, ":"@));
    part_stays(t2, slot(" padding="@, "__PADDING__"@, ","@), slot("// stride="@, "__STRIDE__"@, ","@));
    end_is_part(t2, slot(" padding="@, "__PADDING__"@, ","@));
    let t3 = t2 + slot(" padding="@, "__PADDING__"@, ","@);
    part_stays(t3, slot(" dilation="@, "__DILATION__"@, ","@), slot("// "@, "__NAME__"@, ":"@));
    part_stays(t3, slot(" dilation="@, "__DILATION__"@, ","@), slot("// stride="@, "__STRIDE__"@, ","@));
    part_stays(t3, slot(" dilation="@, "__DILATION__"@, ","@), slot(" padding="@, "__PADDING__"@, ","@));
    end_is_part(t3, slot(" dilation="@, "__DILATION__"@, ","@));
    let t4 = t3 + slot(" dilation="@, "__DILATION__"@, ","@);
    part_stays(t4, slot(" groups="@, "__GROUPS__"@, "\n"@), slot("// "@, "__NAME__"@, ":"@));
    part_stays(t4, slot(" groups="@, "__GROUPS__"@, "\n"@), slot("// stride="@, "__STRIDE__"@, ","@));
    part_stays(t4, slot(" groups="@, "__GROUPS__"@, "\n"@), slot(" padding="@, "__PADDING__"@, ","@));
    part_stays(t4, slot(" groups="@, "__GROUPS__"@, "\n"@), slot(" dilation="@, "__DILATION__"@, ","@));
    end_is_part(t4, slot(" groups="@, "__GROUPS__"@, "\n"@));
    let t5 = t4 + slot(" groups="@, "__GROUPS__"@, "\n"@);
    part_stays(t5, CONV_2@, slot("// "@, "__NAME__"@, ":"@));
    part_stays(t5, CONV_2@, slot("// stride="@, "__STRIDE__"@, ","@));
    part_stays(t5, CONV_2@, slot(" padding="@, "__PADDING__"@, ","@));
    part_stays(t5, CONV_2@, slot(" dilation="@, "__DILATION__"@, ","@));
    part_stays(t5, CONV_2@, slot(" groups="@, "__GROUPS__"@, "\n"@));
    let t6 = t5 + CONV_2@;
    part_stays(t6, slot("void "@, "__NAME__"@, "("@), slot("// "@, "__NAME__"@, ":"@));
    part_stays(t6, slot("void "@, "__NAME__"@, "("@), slot("// stride="@, "__STRIDE__"@, ","@));
    part_stays(t6, slot("void "@, "__NAME__"@, "("@), slot(" padding="@, "__PADDING__"@, ","@));
    part_stays(t6, slot("void "@, "__NAME__"@, "("@), slot(" dilation="@, "__DILATION__"@, ","@));
    part_stays(t6, slot("void "@, "__NAME__"@, "("@), slot(" groups="@, "__GROUPS__"@, "\n"@));
    end_is_part(t6, slot("void "@, "__NAME__"@, "("@));
    let t7 = t6 + slot("void "@, "__NAME__"@, "("@);
    part_stays(t7, CONV_3@, slot("// "@, "__NAME__"@, ":"@));
    part_stays(t7, CONV_3@, slot("// stride="@, "__STRIDE__"@, ","@));
    part_stays(t7, CONV_3@, slot(" padding="@, "__PADDING__"@, ","@));
    part_stays(t7, CONV_3@, slot(" dilation="@, "__DILATION__"@, ","@));
    part_stays(t7, CONV_3@, slot(" groups="@, "__GROUPS__"@, "\n"@));
    part_stays(t7, CONV_3@, slot("void "@, "__NAME__"@, "("@));
    let t8 = t7 + CONV_3@;
    part_stays(t8, slot("int groups = "@, "__GROUPS__"@, ";"@), slot("// "@, "__NAME__"@, ":"@));
    part_stays(t8, slot("int groups = "@, "__GROUPS__"@, ";"@), slot("// stride="@, "__STRIDE__"@, ","@));
    part_stays(t8, slot("int groups = "@, "__GROUPS__"@, ";"@), slot(" padding="@, "__PADDING__"@, ","@));
    part_stays(t8, slot("int groups = "@, "__GROUPS__"@, ";"@), slot(" dilation="@, "__DILATION__"@, ","@));
    part_stays(t8, slot("int groups = "@, "__GROUPS__"@, ";"@), slot(" groups="@, "__GROUPS__"@, "\n"@));
    part_stays(t8, slot("int groups = "@, "__GROUPS__"@, ";"@), slot("void "@, "__NAME__"@, "("@));
    end_is_part(t8, slot("int groups = "@, "__GROUPS__"@, ";"@));
    let t9 = t8 + slot("int groups = "@, "__GROUPS__"@, ";"@);
    part_stays(t9, CONV_4@, slot("// "@, "__NAME__"@, ":"@));
    part_stays(t9, CONV_4@, slot("// stride="@, "__STRIDE__"@, ","@));
    part_stays(t9, CONV_4@, slot(" padding="@, "__PADDING__"@, ","@));
    part_stays(t9, CONV_4@, slot(" dilation="@, "__DILATION__"@, ","@));
    part_stays(t9, CONV_4@, slot(" groups="@, "__GROUPS__"@, "\n"@));
    part_stays(t9, CONV_4@, slot("void "@, "__NAME__"@, "("@));
    part_stays(t9, CONV_4@, slot("int groups = "@, "__GROUPS__"@, ";"@));
    let t10 = t9 + CONV_4@;
    part_stays(t10, slot("int stride = "@, "__STRIDE__"@, ";"@), slot("// "@, "__NAME__"@, ":"@));
    part_stays(t10, slot("int stride = "@, "__STRIDE__"@, ";"@), slot("// stride="@, "__STRIDE__"@, ","@));
    part_stays(t10, slot("int stride = "@, "__STRIDE__"@, ";"@), slot(" padding="@, "__PADDING__"@, ","@));
    part_stays(t10, slot("int stride = "@, "__STRIDE__"@, ";"@), slot(" dilation="@, "__DILATION__"@, ","@));
    part_stays(t10, slot("int stride = "@, "__STRIDE__"@, ";"@), slot(" groups="@, "__GROUPS__"@, "\n"@));
    part_stays(t10, slot("int stride = "@, "__STRIDE__"@, ";"@), slot("void "@, "__NAME__"@, "("@));
    part_stays(t10, slot("int stride = "@, "__STRIDE__"@, ";"@), slot("int groups = "@, "__GROUPS__"@, ";"@));
    end_is_part(t10, slot("int stride = "@, "__STRIDE__"@, ";"@));
    let t11 = t10 + slot("int stride = "@, "__STRIDE__"@, ";"@);
    part_stays(t11, CONV_5@, slot("// "@, "__NAME__"@, ":"@));
    part_stays(t11, CONV_5@, slot("// stride="@, "__STRIDE__"@, ","@));
    part_stays(t11, CONV_5@, slot(" padding="@, "__PADDING__"@, ","@));
    part_stays(t11, CONV_5@, slot(" dilation="@, "__DILATION__"@, ","@));
    part_stays(t11, CONV_5@, slot(" groups="@, "__GROUPS__"@, "\n"@));
    part_stays(t11, CONV_5@, slot("void "@, "__NAME__"@, "("@));
    part_stays(t11, CONV_5@, slot("int groups = "@, "__GROUPS__"@, ";"@));
    part_stays(t11, CONV_5@, slot("int stride = "@, "__STRIDE__"@, ";"@));
    let t12 = t11 + CONV_5@;
    part_stays(t12, slot("int padding = "@, "__PADDING__"@, ";"@), slot("// "@, "__NAME__"@, ":"@));
    part_stays(t12, slot("int padding = "@, "__PADDING__"@, ";"@), slot("// stride="@, "__STRIDE__"@, ","@));
    part_stays(t12, slot("int padding = "@, "__PADDING__"@, ";"@), slot(" padding="@, "__PADDING__"@, ","@));
    part_stays(t12, slot("int padding = "@, "__PADDING__"@, ";"@), slot(" dilation="@, "__DILATION__"@, ","@));
    part_stays(t12, slot("int padding = "@, "__PADDING__"@, ";"@), slot(" groups="@, "__GROUPS__"@, "\n"@));
    part_stays(t12, slot("int padding = "@, "__PADDING__"@, ";"@), slot("void "@, "__NAME__"@, "("@));
    part_stays(t12, slot("int padding = "@, "__PADDING__"@, ";"@), slot("int groups = "@, "__GROUPS__"@, ";"@));
    part_stays(t12, slot("int padding = "@, "__PADDING__"@, ";"@), slot("int stride = "@, "__STRIDE__"@, ";"@));
    end_is_part(t12, slot("int padding = "@, "__PADDING__"@, ";"@));
    let t13 = t12 + slot("int padding = "@, "__PADDING__"@, ";"@);
    part_stays(t13, CONV_6@, slot("// "@, "__NAME__"@, ":"@));
    part_stays(t13, CONV_6@, slot("// stride="@, "__STRIDE__"@, ","@));
    part_stays(t13, CONV_6@, slot(" padding="@, "__PADDING__"@, ","@));
    part_stays(t13, CONV_6@, slot(" dilation="@, "__DILATION__"@, ","@));
    part_stays(t13, CONV_6@, slot(" groups="@, "__GROUPS__"@, "\n"@));
    part_stays(t13, CONV_6@, slot("void "@, "__NAME__"@, "("@));
    part_stays(t13, CONV_6@, slot("int groups = "@, "__GROUPS__"@, ";"@));
    part_stays(t13, CONV_6@, slot("int stride = "@, "__STRIDE__"@, ";"@));
    part_stays(t13, CONV_6@, slot("int padding = "@, "__PADDING__"@, ";"@));
    let t14 = t13 + CONV_6@;
    part_stays(t14, slot("int dilation = "@, "__DILATION__"@, ";"@), slot("// "@, "__NAME__"@, ":"@));
    part_stays(t14, slot("int dilation = "@, "__DILATION__"@, ";"@), slot("// stride="@, "__STRIDE__"@, ","@));
    part_stays(t14, slot("int dilation = "@, "__DILATION__"@, ";"@), slot(" padding="@, "__PADDING__"@, ","@));
    part_stays(t14, slot("int dilation = "@, "__DILATION__"@, ";"@), slot(" dilation="@, "__DILATION__"@, ","@));
    part_stays(t14, slot("int dilation = "@, "__DILATION__"@, ";"@), slot(" groups="@, "__GROUPS__"@, "\n"@));
    part_stays(t14, slot("int dilation = "@, "__DILATION__"@, ";"@), slot("void "@, "__NAME__"@, "("@));
    part_stays(t14, slot("int dilation = "@, "__DILATION__"@, ";"@), slot("int groups = "@, "__GROUPS__"@, ";"@));
    part_stays(t14, slot("int dilation = "@, "__DILATION__"@, ";"@), slot("int stride = "@, "__STRIDE__"@, ";"@));
    part_stays(t14, slot("int dilation = "@, "__DILATION__"@, ";"@), slot("int padding = "@, "__PADDING__"@, ";"@));
    end_is_part(t14, slot("int dilation = "@, "__DILATION__"@, ";"@));
    let t15 = t14 + slot("int dilation = "@, "__DILATION__"@, ";"@);
    part_stays(t15, CONV_7@, slot("// "@, "__NAME__"@, ":"@));
    part_stays(t15, CONV_7@, slot("// stride="@, "__STRIDE__"@, ","@));
    part_stays(t15, CONV_7@, slot(" padding="@, "__PADDING__"@, ","@));
    part_stays(t15, CONV_7@, slot(" dilation="@, "__DILATION__"@, ","@));
    part_stays(t15, CONV_7@, slot(" groups="@, "__GROUPS__"@, "\n"@));
    part_stays(t15, CONV_7@, slot("void "@, "__NAME__"@, "("@));
    part_stays(t15, CONV_7@, slot("int groups = "@, "__GROUPS__"@, ";"@));
    part_stays(t15, CONV_7@, slot("int stride = "@, "__STRIDE__"@, ";"@));
    part_stays(t15, CONV_7@, slot("int padding = "@, "__PADDING__"@, ";"@));
    part_stays(t15, CONV_7@, slot("int dilation = "@, "__DILATION__"@, ";"@));
    let t16 = t15 + CONV_7@;
}

/// The parts around tokens stand in the template.
pub proof fn layernorm_holds_slots()
    ensures
        contains(layernorm_template(), slot("// axis="@, "__AXIS__"@, ","@)),
        contains(layernorm_template(), slot("void "@, "__NAME__"@, "("@)),
        contains(layernorm_template(), slot("float epsilon = "@, "__EPSILON__"@, ";"@)),
{
    let t0 = LAYERNORM_1@;
    end_is_part(t0, slot("// axis="@, "__AXIS__"@, ","@));
    let t1 = t0 + slot("// axis="@, "__AXIS__"@, ","@);
    part_stays(t1, LAYERNORM_2@, slot("// axis="@, "__AXIS__"@, ","@));
    let t2 = t1 + LAYERNORM_2@;
    part_stays(t2, slot("void "@, "__NAME__"@, "("@), slot("// axis="@, "__AXIS__"@, ","@));
    end_is_part(t2, slot("void "@, "__NAME__"@, "("@));
    let t3 = t2 + slot("void "@, "__NAME__"@, "("@);
    part_stays(t3, LAYERNORM_3@, slot("// axis="@, "__AXIS__"@, ","@));
    part_stays(t3, LAYERNORM_3@, slot("void "@, "__NAME__"@, "("@));
    let t4 = t3 + LAYERNORM_3@;
    part_stays(t4, slot("float epsilon = "@, "__EPSILON__"@, ";"@), slot("// axis="@, "__AXIS__"@, ","@));
    part_stays(t4, slot("float epsilon = "@, "__EPSILON__"@, ";"@), slot("void "@, "__NAME__"@, "("@));
    end_is_part(t4, slot("float epsilon = "@, "__EPSILON__"@, ";"@));
    let t5 = t4 + slot("float epsilon = "@, "__EPSILON__"@, ";"@);
    part_stays(t5, LAYERNORM_4@, slot("// axis="@, "__AXIS__"@, ","@));
    part_stays(t5, LAYERNORM_4@, slot("void "@, "__NAME__"@, "("@));
    part_stays(t5, LAYERNORM_4@, slot("float epsilon = "@, "__EPSILON__"@, ";"@));
    let t6 = t5 + LAYERNORM_4@;
}

/// The parts around tokens stand in the template.
pub proof fn softmax_holds_slots()
    ensures
        contains(softmax_template(), slot("// axis="@, "__AXIS__"@, "\n"@)),
        contains(softmax_template(), slot("void "@, "__NAME__"@, "("@)),
{
    let t0 = SOFTMAX_1@;
    end_is_part(t0, slot("// axis="@, "__AXIS__"@, "\n"@));
    let t1 = t0 + slot("// axis="@, "__AXIS__"@, "\n"@);
    part_stays(t1, SOFTMAX_2@, slot("// axis="@, "__AXIS__"@, "\n"@));
    let t2 = t1 + SOFTMAX_2@;
    part_stays(t2, slot("void "@, "__NAME__"@, "("@), slot("// axis="@, "__AXIS__"@, "\n"@));
    end_is_part(t2, slot("void "@, "__NAME__"@, "("@));
    let t3 = t2 + slot("void "@, "__NAME__"@, "("@);
    part_stays(t3, SOFTMAX_3@, slot("// axis="@, "__AXIS__"@, "\n"@));
    part_stays(t3, SOFTMAX_3@, slot("void "@, "__NAME__"@, "("@));
    let t4 = t3 + SOFTMAX_3@;
}

/// The parts around tokens stand in the template.
pub proof fn matmul_blackwell_holds_slots()
    ensures
        contains(matmul_blackwell_template(), slot("void "@, "__NAME__"@, "("@)),
{
    let t0 = MATMUL_BLACKWELL_1@;
    end_is_part(t0, slot("void "@, "__NAME__"@, "("@));
    let t1 = t0 + slot("void "@, "__NAME__"@, "("@);
    part_stays(t1, MATMUL_BLACKWELL_2@, slot("void "@, "__NAME__"@, "("@));
    let t2 = t1 + MATMUL_BLACKWELL_2@;
}

/// The parts around tokens stand in the template.
pub proof fn matmul_hopper_holds_slots()
    ensures
        contains(matmul_hopper_template(), slot("void "@, "__NAME__"@, "("@)),
{
    let t0 = MATMUL_HOPPER_1@;
    end_is_part(t0, slot("void "@, "__NAME__"@, "("@));
    let t1 = t0 + slot("void "@, "__NAME__"@, "("@);
    part_stays(t1, MATMUL_HOPPER_2@, slot("void "@, "__NAME__"@, "("@));
    let t2 = t1 + MATMUL_HOPPER_2@;
}

/// The parts around tokens stand in the template.
pub proof fn matmul_ampere_holds_slots()
    ensures
        contains(matmul_ampere_template(), slot("void "@, "__NAME__"@, "("@)),
{
    let t0 = MATMUL_AMPERE_1@;
    end_is_part(t0, slot("void "@, "__NAME__"@, "("@));
    let t1 = t0 + slot("void "@, "__NAME__"@, "("@);
    part_stays(t1, MATMUL_AMPERE_2@, slot("void "@, "__NAME__"@, "("@));
    let t2 = t1 + MATMUL_AMPERE_2@;
}

/// The parts around tokens stand in the template.
pub proof fn reduce_holds_slots()
    ensures
        contains(reduce_template(), slot("void "@, "__NAME__"@, "("@)),
        contains(reduce_template(), slot("const "@, "__T__"@, "*"@)),
{
    let t0 = REDUCE_1@;
    end_is_part(t0, slot("void "@, "__NAME__"@, "("@));
    let t1 = t0 + slot("void "@, "__NAME__"@, "("@);
    part_stays(t1, slot("const "@, "__T__"@, "*"@), slot("void "@, "__NAME__"@, "("@));
    end_is_part(t1, slot("const "@, "__T__"@, "*"@));
    let t2 = t1 + slot("const "@, "__T__"@, "*"@);
    part_stays(t2, REDUCE_2@, slot("void "@, "__NAME__"@, "("@));
    part_stays(t2, REDUCE_2@, slot("const "@, "__T__"@, "*"@));
    let t3 = t2 + REDUCE_2@;
}

/// The parts around tokens stand in the template.
pub proof fn elem_unary_holds_slots()
    ensures
        contains(elem_unary_template(), slot("void "@, "__NAME__"@, "("@)),
        contains(elem_unary_template(), slot("const "@, "__T__"@, "*"@)),
{
    let t0 = ELEM_UNARY_1@;
    end_is_part(t0, slot("void "@, "__NAME__"@, "("@));
    let t1 = t0 + slot("void "@, "__NAME__"@, "("@);
    part_stays(t1, slot("const "@, "__T__"@, "*"@), slot("void "@, "__NAME__"@, "("@));
    end_is_part(t1, slot("const "@, "__T__"@, "*"@));
    let t2 = t1 + slot("const "@, "__T__"@, "*"@);
    part_stays(t2, ELEM_UNARY_2@, slot("void "@, "__NAME__"@, "("@));
    part_stays(t2, ELEM_UNARY_2@, slot("const "@, "__T__"@, "*"@));
    let t3 = t2 + ELEM_UNARY_2@;
}

/// The parts around tokens stand in the template.
pub proof fn elem_binary_holds_slots()
    ensures
        contains(elem_binary_template(), slot("void "@, "__NAME__"@, "("@)),
        contains(elem_binary_template(), slot("const "@, "__T__"@, "*"@)),
{
    let t0 = ELEM_BINARY_1@;
    end_is_part(t0, slot("void "@, "__NAME__"@, "("@));
    let t1 = t0 + slot("void "@, "__NAME__"@, "("@);
    part_stays(t1, slot("const "@, "__T__"@, "*"@), slot("void "@, "__NAME__"@, "("@));
    end_is_part(t1, slot("const "@, "__T__"@, "*"@));
    let t2 = t1 + slot("const "@, "__T__"@, "*"@);
    part_stays(t2, ELEM_BINARY_2@, slot("void "@, "__NAME__"@, "("@));
    part_stays(t2, ELEM_BINARY_2@, slot("const "@, "__T__"@, "*"@));
    let t3 = t2 + ELEM_BINARY_2@;
}

} // verus!
