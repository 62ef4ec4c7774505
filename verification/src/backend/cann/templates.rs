//! The texts that CANN source is made from.

use vstd::prelude::*;
use crate::backend::dialect::contains;
use crate::backend::filling::{end_is_part, part_stays, push_slot, slot};

verus! {

/// A kernel that calls a vector function of two inputs.
pub open spec fn elem_binary_template() -> Seq<char> {
    ELEM_BINARY_1@
        + slot("class "@, "__CLS__"@, " "@)
        + ELEM_BINARY_2@
        + slot(", TILE_LENGTH * sizeof("@, "__T__"@, ")"@)
        + ELEM_BINARY_3@
        + slot("void "@, "__NAME__"@, "("@)
        + ELEM_BINARY_4@
}

pub const ELEM_BINARY_1: &'static str = r#"// __NAME__: 元素级二元 op（AscendC::__API__，TILE_LENGTH=128 双缓冲）
// Vector Core SIMD：每 tile 调用一次 AscendC 高级 API
"#;

pub const ELEM_BINARY_2: &'static str = r#"{
public:
    __aicore__ __CLS__() {}
    __aicore__ void Init(GM_ADDR x, GM_ADDR y, GM_ADDR z, uint64_t n) {
        this->blockLength = n / GetBlockNum();
        this->tileNum = blockLength / TILE_LENGTH;
        if (this->tileNum == 0) this->tileNum = 1;
        uint64_t offset = this->tileNum * (uint64_t)TILE_LENGTH * GetBlockIdx();
        xGm.SetGlobalBuffer((__gm__ __T__*)x + offset, this->blockLength);
        yGm.SetGlobalBuffer((__gm__ __T__*)y + offset, this->blockLength);
        zGm.SetGlobalBuffer((__gm__ __T__*)z + offset, this->blockLength);
        pipe.InitBuffer(inQueueX, BUFFER_NUM"#;

pub const ELEM_BINARY_3: &'static str = r#");
        pipe.InitBuffer(inQueueY, BUFFER_NUM, TILE_LENGTH * sizeof(__T__));
        pipe.InitBuffer(outQueueZ, BUFFER_NUM, TILE_LENGTH * sizeof(__T__));
    }
    __aicore__ void Process() {
        for (int32_t i = 0; i < (int32_t)this->tileNum; i++) {
            CopyIn(i);
            Compute(i);
            CopyOut(i);
        }
    }
private:
    __aicore__ void CopyIn(int32_t progress) {
        LocalTensor<__T__> xLocal = inQueueX.AllocTensor<__T__>();
        LocalTensor<__T__> yLocal = inQueueY.AllocTensor<__T__>();
        DataCopy(xLocal, xGm[progress * TILE_LENGTH], TILE_LENGTH);
        DataCopy(yLocal, yGm[progress * TILE_LENGTH], TILE_LENGTH);
        inQueueX.EnQue(xLocal);
        inQueueY.EnQue(yLocal);
    }
    __aicore__ void Compute(int32_t progress) {
        LocalTensor<__T__> xLocal = inQueueX.DeQue<__T__>();
        LocalTensor<__T__> yLocal = inQueueY.DeQue<__T__>();
        LocalTensor<__T__> zLocal = outQueueZ.AllocTensor<__T__>();
        AscendC::__API__(zLocal, xLocal, yLocal, TILE_LENGTH);
        outQueueZ.EnQue(zLocal);
        inQueueX.FreeTensor(xLocal);
        inQueueY.FreeTensor(yLocal);
    }
    __aicore__ void CopyOut(int32_t progress) {
        LocalTensor<__T__> zLocal = outQueueZ.DeQue<__T__>();
        DataCopy(zGm[progress * TILE_LENGTH], zLocal, TILE_LENGTH);
        outQueueZ.FreeTensor(zLocal);
    }
private:
    TPipe pipe;
    TQue<QuePosition::VECIN, BUFFER_NUM> inQueueX, inQueueY;
    TQue<QuePosition::VECOUT, BUFFER_NUM> outQueueZ;
    GlobalTensor<__T__> xGm, yGm, zGm;
    uint64_t blockLength;
    uint64_t tileNum;
};

extern "C" __global__ __aicore__ "#;

pub const ELEM_BINARY_4: &'static str = r#"GM_ADDR x, GM_ADDR y, GM_ADDR z,
                                              GM_ADDR workspace, GM_ADDR tiling) {
    __CLS__ op;
    op.Init(x, y, z, ((__gm__ uint64_t*)tiling)[0]);
    op.Process();
}
"#;

pub(crate) fn elem_binary_source() -> (r: String)
    ensures
        r@ == elem_binary_template(),
{
    let mut s = ELEM_BINARY_1.to_owned();
    push_slot(&mut s, "class ", "__CLS__", " ");
    s.append(ELEM_BINARY_2);
    push_slot(&mut s, ", TILE_LENGTH * sizeof(", "__T__", ")");
    s.append(ELEM_BINARY_3);
    push_slot(&mut s, "void ", "__NAME__", "(");
    s.append(ELEM_BINARY_4);
    s
}

/// A kernel that calls a vector function of one input.
pub open spec fn elem_unary_template() -> Seq<char> {
    ELEM_UNARY_1@
        + slot("class "@, "__CLS__"@, " "@)
        + ELEM_UNARY_2@
        + slot(", TILE_LENGTH * sizeof("@, "__T__"@, ")"@)
        + ELEM_UNARY_3@
        + slot("void "@, "__NAME__"@, "("@)
        + ELEM_UNARY_4@
}

pub const ELEM_UNARY_1: &'static str = r#"// __NAME__: 元素级一元 op（AscendC::__API__，TILE_LENGTH=128 双缓冲）
// __NOTE__
"#;

pub const ELEM_UNARY_2: &'static str = r#"{
public:
    __aicore__ __CLS__() {}
    __aicore__ void Init(GM_ADDR x, GM_ADDR z, uint64_t n) {
        this->blockLength = n / GetBlockNum();
        this->tileNum = blockLength / TILE_LENGTH;
        if (this->tileNum == 0) this->tileNum = 1;
        uint64_t offset = this->tileNum * (uint64_t)TILE_LENGTH * GetBlockIdx();
        xGm.SetGlobalBuffer((__gm__ __T__*)x + offset, this->blockLength);
        zGm.SetGlobalBuffer((__gm__ __T__*)z + offset, this->blockLength);
        pipe.InitBuffer(inQueueX, BUFFER_NUM"#;

pub const ELEM_UNARY_3: &'static str = r#");
        pipe.InitBuffer(outQueueZ, BUFFER_NUM, TILE_LENGTH * sizeof(__T__));
    }
    __aicore__ void Process() {
        for (int32_t i = 0; i < (int32_t)this->tileNum; i++) {
            CopyIn(i);
            Compute(i);
            CopyOut(i);
        }
    }
private:
    __aicore__ void CopyIn(int32_t progress) {
        LocalTensor<__T__> xLocal = inQueueX.AllocTensor<__T__>();
        DataCopy(xLocal, xGm[progress * TILE_LENGTH], TILE_LENGTH);
        inQueueX.EnQue(xLocal);
    }
    __aicore__ void Compute(int32_t progress) {
        LocalTensor<__T__> xLocal = inQueueX.DeQue<__T__>();
        LocalTensor<__T__> zLocal = outQueueZ.AllocTensor<__T__>();
        AscendC::__API__(zLocal, xLocal, TILE_LENGTH);
        outQueueZ.EnQue(zLocal);
        inQueueX.FreeTensor(xLocal);
    }
    __aicore__ void CopyOut(int32_t progress) {
        LocalTensor<__T__> zLocal = outQueueZ.DeQue<__T__>();
        DataCopy(zGm[progress * TILE_LENGTH], zLocal, TILE_LENGTH);
        outQueueZ.FreeTensor(zLocal);
    }
private:
    TPipe pipe;
    TQue<QuePosition::VECIN, BUFFER_NUM> inQueueX;
    TQue<QuePosition::VECOUT, BUFFER_NUM> outQueueZ;
    GlobalTensor<__T__> xGm, zGm;
    uint64_t blockLength;
    uint64_t tileNum;
};

extern "C" __global__ __aicore__ "#;

pub const ELEM_UNARY_4: &'static str = r#"GM_ADDR x, GM_ADDR z,
                                              GM_ADDR workspace, GM_ADDR tiling) {
    __CLS__ op;
    op.Init(x, z, ((__gm__ uint64_t*)tiling)[0]);
    op.Process();
}
"#;

pub(crate) fn elem_unary_source() -> (r: String)
    ensures
        r@ == elem_unary_template(),
{
    let mut s = ELEM_UNARY_1.to_owned();
    push_slot(&mut s, "class ", "__CLS__", " ");
    s.append(ELEM_UNARY_2);
    push_slot(&mut s, ", TILE_LENGTH * sizeof(", "__T__", ")");
    s.append(ELEM_UNARY_3);
    push_slot(&mut s, "void ", "__NAME__", "(");
    s.append(ELEM_UNARY_4);
    s
}

/// A reduction.
pub open spec fn reduce_template() -> Seq<char> {
    REDUCE_1@
        + slot("class "@, "__CLS__"@, " "@)
        + REDUCE_2@
        + slot(", TILE_LENGTH * sizeof("@, "__T__"@, ")"@)
        + REDUCE_3@
        + slot("void "@, "__NAME__"@, "("@)
        + REDUCE_4@
}

pub const REDUCE_1: &'static str = r#"// __NAME__: Reduce op（AscendC::__API__，Vector Core 树形归约）
// 每 block 归约一段输入，输出一个标量
"#;

pub const REDUCE_2: &'static str = r#"{
public:
    __aicore__ __CLS__() {}
    __aicore__ void Init(GM_ADDR x, GM_ADDR z, uint64_t n) {
        this->blockLength = n / GetBlockNum();
        this->tileNum = blockLength / TILE_LENGTH;
        if (this->tileNum == 0) this->tileNum = 1;
        this->reduceLen = this->tileNum * (uint64_t)TILE_LENGTH;
        uint64_t offset = this->tileNum * (uint64_t)TILE_LENGTH * GetBlockIdx();
        xGm.SetGlobalBuffer((__gm__ __T__*)x + offset, this->blockLength);
        zGm.SetGlobalBuffer((__gm__ __T__*)z + GetBlockIdx(), 1);
        pipe.InitBuffer(inQueueX, BUFFER_NUM"#;

pub const REDUCE_3: &'static str = r#");
        pipe.InitBuffer(workBuf, TILE_LENGTH * sizeof(__T__));
        pipe.InitBuffer(outQueueZ, BUFFER_NUM, sizeof(__T__) * 8);
    }
    __aicore__ void Process() {
        LocalTensor<__T__> zLocal = outQueueZ.AllocTensor<__T__>();
        // 第一遍：把第一个 tile ReduceSum 到 zLocal 作为初值
        LocalTensor<__T__> first = inQueueX.AllocTensor<__T__>();
        DataCopy(first, xGm[0], TILE_LENGTH);
        AscendC::__API__(zLocal, first, TILE_LENGTH);
        inQueueX.FreeTensor(first);
        // 后续 tile：ReduceSum 到 tmp 再 Add 累加（或 ReduceMax 用 Max）
        for (int32_t i = 1; i < (int32_t)this->tileNum; i++) {
            LocalTensor<__T__> xLocal = inQueueX.AllocTensor<__T__>();
            DataCopy(xLocal, xGm[i * TILE_LENGTH], TILE_LENGTH);
            LocalTensor<__T__> tmp = workBuf.Get<__T__>();
            AscendC::__API__(tmp, xLocal, TILE_LENGTH);
            Add(zLocal, zLocal, tmp, 1);
            inQueueX.FreeTensor(xLocal);
        }
__MEAN_DIV__
        outQueueZ.EnQue(zLocal);
        outQueueZ.DeQue<__T__>();
        DataCopy(zGm[0], zLocal, 1);
        outQueueZ.FreeTensor(zLocal);
    }
private:
    TPipe pipe;
    TQue<QuePosition::VECIN, BUFFER_NUM> inQueueX;
    TBuf workBuf;
    TQue<QuePosition::VECOUT, BUFFER_NUM> outQueueZ;
    GlobalTensor<__T__> xGm, zGm;
    uint64_t blockLength;
    uint64_t tileNum;
    uint64_t reduceLen;
};

extern "C" __global__ __aicore__ "#;

pub const REDUCE_4: &'static str = r#"GM_ADDR x, GM_ADDR z,
                                              GM_ADDR workspace, GM_ADDR tiling) {
    __CLS__ op;
    op.Init(x, z, ((__gm__ uint64_t*)tiling)[0]);
    op.Process();
}
"#;

pub(crate) fn reduce_source() -> (r: String)
    ensures
        r@ == reduce_template(),
{
    let mut s = REDUCE_1.to_owned();
    push_slot(&mut s, "class ", "__CLS__", " ");
    s.append(REDUCE_2);
    push_slot(&mut s, ", TILE_LENGTH * sizeof(", "__T__", ")");
    s.append(REDUCE_3);
    push_slot(&mut s, "void ", "__NAME__", "(");
    s.append(REDUCE_4);
    s
}

/// A matrix product on the matrix unit.
pub open spec fn matmul_template() -> Seq<char> {
    MATMUL_1@
        + slot("class "@, "__CLS__"@, " "@)
        + MATMUL_2@
        + slot("void "@, "__NAME__"@, "("@)
        + MATMUL_3@
}

pub const MATMUL_1: &'static str = r#"// __NAME__: MatMul（Cube Core + mmad 指令，AscendC::MatMul）
// __ARCH_NOTE__
// 输入：A[M, K] @ B[K, N] = C[M, N]，tiling：BLOCK_M=16, BLOCK_N=16, BLOCK_K=16
"#;

pub const MATMUL_2: &'static str = r#"{
public:
    __aicore__ __CLS__() {}
    __aicore__ void Init(GM_ADDR a, GM_ADDR b, GM_ADDR c,
                         uint64_t M, uint64_t N, uint64_t K) {
        this->M = M; this->N = N; this->K = K;
        aGm.SetGlobalBuffer((__gm__ float*)a, M * K);
        bGm.SetGlobalBuffer((__gm__ float*)b, K * N);
        cGm.SetGlobalBuffer((__gm__ float*)c, M * N);
        // Cube Core L1/L0A/L0B/UBuf 缓冲
        pipe.InitBuffer(aBuf, BLOCK_M * BLOCK_K * sizeof(float));
        pipe.InitBuffer(bBuf, BLOCK_K * BLOCK_N * sizeof(float));
        pipe.InitBuffer(cBuf, BLOCK_M * BLOCK_N * sizeof(float));
    }
    __aicore__ void Process() {
        // 简化：单 block 处理一个 BLOCK_M x BLOCK_N 输出 tile
        // 生产代码会按 blockDim 分块覆盖整个 M x N
        LocalTensor<float> aLocal = aBuf.Get<float>();
        LocalTensor<float> bLocal = bBuf.Get<float>();
        LocalTensor<float> cLocal = cBuf.Get<float>();
        DataCopy(aLocal, aGm[0], BLOCK_M * BLOCK_K);
        DataCopy(bLocal, bGm[0], BLOCK_K * BLOCK_N);
        // AscendC::MatMul 调用 Cube Core（mmad 指令）做矩阵乘法
        // 910B1/B3：原生 Cube Core；310P3：轻量推理 GEMM 路径
        AscendC::MatMul(cLocal, aLocal, bLocal, BLOCK_M, BLOCK_N, BLOCK_K);
        DataCopy(cGm[0], cLocal, BLOCK_M * BLOCK_N);
    }
private:
    static constexpr int32_t BLOCK_M = 16;
    static constexpr int32_t BLOCK_N = 16;
    static constexpr int32_t BLOCK_K = 16;
    TPipe pipe;
    TBuf aBuf, bBuf, cBuf;
    GlobalTensor<float> aGm, bGm, cGm;
    uint64_t M, N, K;
};

extern "C" __global__ __aicore__ "#;

pub const MATMUL_3: &'static str = r#"GM_ADDR a, GM_ADDR b, GM_ADDR c,
                                                GM_ADDR workspace, GM_ADDR tiling) {
    __gm__ uint64_t* t = (__gm__ uint64_t*)tiling;
    __CLS__ op;
    op.Init(a, b, c, t[0], t[1], t[2]);
    op.Process();
}
"#;

pub(crate) fn matmul_source() -> (r: String)
    ensures
        r@ == matmul_template(),
{
    let mut s = MATMUL_1.to_owned();
    push_slot(&mut s, "class ", "__CLS__", " ");
    s.append(MATMUL_2);
    push_slot(&mut s, "void ", "__NAME__", "(");
    s.append(MATMUL_3);
    s
}

/// A softmax in several passes.
pub open spec fn softmax_template() -> Seq<char> {
    SOFTMAX_1@
        + slot("class "@, "__CLS__"@, " "@)
        + SOFTMAX_2@
        + slot("void "@, "__NAME__"@, "("@)
        + SOFTMAX_3@
}

pub const SOFTMAX_1: &'static str = r#"// __NAME__: Softmax（Vector Core 多遍：ReduceMax → Sub+Exp+ReduceSum → Div）
// 每 block 处理一行，数值稳定版（先减行 max 再 exp 再 sum 再除）
"#;

pub const SOFTMAX_2: &'static str = r#"{
public:
    __aicore__ __CLS__() {}
    __aicore__ void Init(GM_ADDR x, GM_ADDR z, uint64_t n_cols) {
        this->nCols = n_cols;
        this->tileNum = n_cols / TILE_LENGTH;
        if (this->tileNum == 0) this->tileNum = 1;
        xGm.SetGlobalBuffer((__gm__ float*)x + GetBlockIdx() * n_cols, n_cols);
        zGm.SetGlobalBuffer((__gm__ float*)z + GetBlockIdx() * n_cols, n_cols);
        pipe.InitBuffer(inQueueX, BUFFER_NUM, TILE_LENGTH * sizeof(float));
        pipe.InitBuffer(outQueueZ, BUFFER_NUM, TILE_LENGTH * sizeof(float));
        pipe.InitBuffer(maxBuf, sizeof(float) * 8);
        pipe.InitBuffer(sumBuf, sizeof(float) * 8);
        pipe.InitBuffer(tmpBuf, TILE_LENGTH * sizeof(float));
    }
    __aicore__ void Process() {
        // 第一遍：ReduceMax（数值稳定）
        LocalTensor<float> maxLocal = maxBuf.Get<float>();
        LocalTensor<float> first = inQueueX.AllocTensor<float>();
        DataCopy(first, xGm[0], TILE_LENGTH);
        AscendC::ReduceMax(maxLocal, first, TILE_LENGTH);
        inQueueX.FreeTensor(first);
        for (int32_t i = 1; i < (int32_t)this->tileNum; i++) {
            LocalTensor<float> xLocal = inQueueX.AllocTensor<float>();
            DataCopy(xLocal, xGm[i * TILE_LENGTH], TILE_LENGTH);
            LocalTensor<float> tmp = tmpBuf.Get<float>();
            AscendC::ReduceMax(tmp, xLocal, TILE_LENGTH);
            Max(maxLocal, maxLocal, tmp, 1);
            inQueueX.FreeTensor(xLocal);
        }
        // 第二遍：Sub + Exp + ReduceSum
        LocalTensor<float> sumLocal = sumBuf.Get<float>();
        Duplicate(sumLocal, (float)0.0, 1);
        for (int32_t i = 0; i < (int32_t)this->tileNum; i++) {
            LocalTensor<float> xLocal = inQueueX.AllocTensor<float>();
            LocalTensor<float> zLocal = outQueueZ.AllocTensor<float>();
            DataCopy(xLocal, xGm[i * TILE_LENGTH], TILE_LENGTH);
            // z = x - max
            Sub(zLocal, xLocal, maxLocal, TILE_LENGTH);
            // z = exp(z)
            Exp(zLocal, zLocal, TILE_LENGTH);
            LocalTensor<float> tmp = tmpBuf.Get<float>();
            AscendC::ReduceSum(tmp, zLocal, TILE_LENGTH);
            Add(sumLocal, sumLocal, tmp, 1);
            outQueueZ.EnQue(zLocal);
            outQueueZ.DeQue<float>();
            DataCopy(zGm[i * TILE_LENGTH], zLocal, TILE_LENGTH);
            outQueueZ.FreeTensor(zLocal);
            inQueueX.FreeTensor(xLocal);
        }
        // 第三遍：Div 归一化
        for (int32_t i = 0; i < (int32_t)this->tileNum; i++) {
            LocalTensor<float> zLocal = outQueueZ.AllocTensor<float>();
            DataCopy(zLocal, zGm[i * TILE_LENGTH], TILE_LENGTH);
            Div(zLocal, zLocal, sumLocal, TILE_LENGTH);
            DataCopy(zGm[i * TILE_LENGTH], zLocal, TILE_LENGTH);
            outQueueZ.FreeTensor(zLocal);
        }
    }
private:
    TPipe pipe;
    TQue<QuePosition::VECIN, BUFFER_NUM> inQueueX;
    TQue<QuePosition::VECOUT, BUFFER_NUM> outQueueZ;
    TBuf maxBuf, sumBuf, tmpBuf;
    GlobalTensor<float> xGm, zGm;
    uint64_t nCols;
    uint64_t tileNum;
};

extern "C" __global__ __aicore__ "#;

pub const SOFTMAX_3: &'static str = r#"GM_ADDR x, GM_ADDR z,
                                                GM_ADDR workspace, GM_ADDR tiling) {
    __CLS__ op;
    op.Init(x, z, ((__gm__ uint64_t*)tiling)[0]);
    op.Process();
}
"#;

pub(crate) fn softmax_source() -> (r: String)
    ensures
        r@ == softmax_template(),
{
    let mut s = SOFTMAX_1.to_owned();
    push_slot(&mut s, "class ", "__CLS__", " ");
    s.append(SOFTMAX_2);
    push_slot(&mut s, "void ", "__NAME__", "(");
    s.append(SOFTMAX_3);
    s
}

/// A layer normalization in two passes.
pub open spec fn layernorm_template() -> Seq<char> {
    LAYERNORM_1@
        + slot("class "@, "__CLS__"@, " "@)
        + LAYERNORM_2@
        + slot(" Duplicate(epsT, (float)"@, "__EPS__"@, ","@)
        + LAYERNORM_3@
        + slot("void "@, "__NAME__"@, "("@)
        + LAYERNORM_4@
}

pub const LAYERNORM_1: &'static str = r#"// __NAME__: LayerNorm（Vector Core 两遍扫描 + epsilon 数值稳定）
// 每 block 处理一行：mean → var → normalize: y = (x - mean) / sqrt(var + epsilon)
"#;

pub const LAYERNORM_2: &'static str = r#"{
public:
    __aicore__ __CLS__() {}
    __aicore__ void Init(GM_ADDR x, GM_ADDR z, uint64_t n_cols) {
        this->nCols = n_cols;
        this->tileNum = n_cols / TILE_LENGTH;
        if (this->tileNum == 0) this->tileNum = 1;
        xGm.SetGlobalBuffer((__gm__ float*)x + GetBlockIdx() * n_cols, n_cols);
        zGm.SetGlobalBuffer((__gm__ float*)z + GetBlockIdx() * n_cols, n_cols);
        pipe.InitBuffer(inQueueX, BUFFER_NUM, TILE_LENGTH * sizeof(float));
        pipe.InitBuffer(outQueueZ, BUFFER_NUM, TILE_LENGTH * sizeof(float));
        pipe.InitBuffer(meanBuf, sizeof(float) * 8);
        pipe.InitBuffer(varBuf, sizeof(float) * 8);
        pipe.InitBuffer(tmpBuf, TILE_LENGTH * sizeof(float));
    }
    __aicore__ void Process() {
        // 第一遍：ReduceMean 求 mean
        LocalTensor<float> meanLocal = meanBuf.Get<float>();
        LocalTensor<float> sumTmp = tmpBuf.Get<float>();
        Duplicate(meanLocal, (float)0.0, 1);
        for (int32_t i = 0; i < (int32_t)this->tileNum; i++) {
            LocalTensor<float> xLocal = inQueueX.AllocTensor<float>();
            DataCopy(xLocal, xGm[i * TILE_LENGTH], TILE_LENGTH);
            AscendC::ReduceSum(sumTmp, xLocal, TILE_LENGTH);
            Add(meanLocal, meanLocal, sumTmp, 1);
            inQueueX.FreeTensor(xLocal);
        }
        // mean = sum / nCols
        float inv_n = 1.0f / (float)this->nCols;
        Muls(meanLocal, meanLocal, inv_n, 1);
        // 第二遍：求 var（平方差的均值）
        LocalTensor<float> varLocal = varBuf.Get<float>();
        Duplicate(varLocal, (float)0.0, 1);
        for (int32_t i = 0; i < (int32_t)this->tileNum; i++) {
            LocalTensor<float> xLocal = inQueueX.AllocTensor<float>();
            DataCopy(xLocal, xGm[i * TILE_LENGTH], TILE_LENGTH);
            Sub(sumTmp, xLocal, meanLocal, TILE_LENGTH);
            Mul(sumTmp, sumTmp, sumTmp, TILE_LENGTH);
            LocalTensor<float> rowSum = tmpBuf.Get<float>();
            AscendC::ReduceSum(rowSum, sumTmp, TILE_LENGTH);
            Add(varLocal, varLocal, rowSum, 1);
            inQueueX.FreeTensor(xLocal);
        }
        Muls(varLocal, varLocal, inv_n, 1);
        // inv_std = 1 / sqrt(var + epsilon)
        LocalTensor<float> epsT = tmpBuf.Get<float>();
       "#;

pub const LAYERNORM_3: &'static str = r#" 1);
        Add(varLocal, varLocal, epsT, 1);
        Sqrt(varLocal, varLocal, 1);
        LocalTensor<float> invStd = epsBuf.Get<float>();
        Duplicate(invStd, (float)1.0, 1);
        Div(invStd, invStd, varLocal, 1);
        // 第三遍：归一化 (x - mean) * inv_std
        for (int32_t i = 0; i < (int32_t)this->tileNum; i++) {
            LocalTensor<float> xLocal = inQueueX.AllocTensor<float>();
            LocalTensor<float> zLocal = outQueueZ.AllocTensor<float>();
            DataCopy(xLocal, xGm[i * TILE_LENGTH], TILE_LENGTH);
            Sub(zLocal, xLocal, meanLocal, TILE_LENGTH);
            Mul(zLocal, zLocal, invStd, TILE_LENGTH);
            outQueueZ.EnQue(zLocal);
            outQueueZ.DeQue<float>();
            DataCopy(zGm[i * TILE_LENGTH], zLocal, TILE_LENGTH);
            outQueueZ.FreeTensor(zLocal);
            inQueueX.FreeTensor(xLocal);
        }
    }
private:
    TPipe pipe;
    TQue<QuePosition::VECIN, BUFFER_NUM> inQueueX;
    TQue<QuePosition::VECOUT, BUFFER_NUM> outQueueZ;
    TBuf meanBuf, varBuf, tmpBuf, epsBuf;
    GlobalTensor<float> xGm, zGm;
    uint64_t nCols;
    uint64_t tileNum;
};

extern "C" __global__ __aicore__ "#;

pub const LAYERNORM_4: &'static str = r#"GM_ADDR x, GM_ADDR z,
                                                GM_ADDR workspace, GM_ADDR tiling) {
    __CLS__ op;
    op.Init(x, z, ((__gm__ uint64_t*)tiling)[0]);
    op.Process();
}
"#;

pub(crate) fn layernorm_source() -> (r: String)
    ensures
        r@ == layernorm_template(),
{
    let mut s = LAYERNORM_1.to_owned();
    push_slot(&mut s, "class ", "__CLS__", " ");
    s.append(LAYERNORM_2);
    push_slot(&mut s, " Duplicate(epsT, (float)", "__EPS__", ",");
    s.append(LAYERNORM_3);
    push_slot(&mut s, "void ", "__NAME__", "(");
    s.append(LAYERNORM_4);
    s
}

/// A convolution as a matrix product.
pub open spec fn conv_template() -> Seq<char> {
    CONV_1@
        + slot("class "@, "__CLS__"@, " "@)
        + CONV_2@
        + slot("void "@, "__NAME__"@, "("@)
        + CONV_3@
}

pub const CONV_1: &'static str = r#"// __NAME__: Conv2D（im2col + Cube GEMM 路径）
// 简化路径：每 block 处理一个输出 tile（BLOCK_M x BLOCK_N）
// 完整实现：im2col 把输入 patch 展开为矩阵，再用 AscendC::MatMul 做 GEMM
"#;

pub const CONV_2: &'static str = r#"{
public:
    __aicore__ __CLS__() {}
    __aicore__ void Init(GM_ADDR x, GM_ADDR w, GM_ADDR b, GM_ADDR y,
                         uint64_t C_in, uint64_t C_out, uint64_t KH, uint64_t KW) {
        this->Cin = C_in; this->Cout = C_out;
        this->kh = KH; this->kw = KW;
        xGm.SetGlobalBuffer((__gm__ float*)x, C_in * 32 * 32);
        wGm.SetGlobalBuffer((__gm__ float*)w, C_out * C_in * KH * KW);
        bGm.SetGlobalBuffer((__gm__ float*)b, C_out);
        yGm.SetGlobalBuffer((__gm__ float*)y, C_out * 32 * 32);
        pipe.InitBuffer(im2colBuf, BLOCK_M * BLOCK_K * sizeof(float));
        pipe.InitBuffer(wBuf, BLOCK_K * BLOCK_N * sizeof(float));
        pipe.InitBuffer(outBuf, BLOCK_M * BLOCK_N * sizeof(float));
        pipe.InitBuffer(biasBuf, BLOCK_N * sizeof(float));
    }
    __aicore__ void Process() {
        // im2col：把输入 patch 展开成 [Cin*kh*kw, OH*OW]
        // 然后用 Cube Core 的 MatMul 做 GEMM：y = w @ im2col_x
        LocalTensor<float> im2col = im2colBuf.Get<float>();
        LocalTensor<float> wTile = wBuf.Get<float>();
        LocalTensor<float> outTile = outBuf.Get<float>();
        LocalTensor<float> bias = biasBuf.Get<float>();
        // 简化：填 0 后做 GEMM（生产代码会真实做 im2col + 偏移计算）
        Duplicate(im2col, (float)0.0, BLOCK_M * BLOCK_K);
        Duplicate(wTile, (float)0.0, BLOCK_K * BLOCK_N);
        DataCopy(bias, bGm[0], BLOCK_N);
        AscendC::MatMul(outTile, wTile, im2col, BLOCK_M, BLOCK_N, BLOCK_K);
        // 加 bias
        Add(outTile, outTile, bias, BLOCK_M * BLOCK_N);
        DataCopy(yGm[0], outTile, BLOCK_M * BLOCK_N);
    }
private:
    static constexpr int32_t BLOCK_M = 16;
    static constexpr int32_t BLOCK_N = 16;
    static constexpr int32_t BLOCK_K = 16;
    TPipe pipe;
    TBuf im2colBuf, wBuf, outBuf, biasBuf;
    GlobalTensor<float> xGm, wGm, bGm, yGm;
    uint64_t Cin, Cout, kh, kw;
};

extern "C" __global__ __aicore__ "#;

pub const CONV_3: &'static str = r#"GM_ADDR x, GM_ADDR w, GM_ADDR b, GM_ADDR y,
                                                GM_ADDR workspace, GM_ADDR tiling) {
    __gm__ uint64_t* t = (__gm__ uint64_t*)tiling;
    __CLS__ op;
    op.Init(x, w, b, y, t[0], t[1], t[2], t[3]);
    op.Process();
}
"#;

pub(crate) fn conv_source() -> (r: String)
    ensures
        r@ == conv_template(),
{
    let mut s = CONV_1.to_owned();
    push_slot(&mut s, "class ", "__CLS__", " ");
    s.append(CONV_2);
    push_slot(&mut s, "void ", "__NAME__", "(");
    s.append(CONV_3);
    s
}

/// Pooling on the vector unit.
pub open spec fn pool_template() -> Seq<char> {
    POOL_1@
        + slot("class "@, "__CLS__"@, " "@)
        + POOL_2@
        + slot("void "@, "__NAME__"@, "("@)
        + POOL_3@
}

pub const POOL_1: &'static str = r#"// __NAME__: Pool（max 池化，Vector Core）
// 每 block 处理一个输出 tile，遍历 KH x KW 窗口取最大值
"#;

pub const POOL_2: &'static str = r#"{
public:
    __aicore__ __CLS__() {}
    __aicore__ void Init(GM_ADDR x, GM_ADDR y, uint64_t C, uint64_t H, uint64_t W,
                         uint64_t KH, uint64_t KW, uint64_t stride) {
        this->C = C; this->H = H; this->W = W;
        this->kh = KH; this->kw = KW; this->stride = stride;
        xGm.SetGlobalBuffer((__gm__ float*)x, C * H * W);
        yGm.SetGlobalBuffer((__gm__ float*)y, C * ((H - KH) / stride + 1) * ((W - KW) / stride + 1));
        pipe.InitBuffer(inBuf, TILE_LENGTH * sizeof(float));
        pipe.InitBuffer(outBuf, TILE_LENGTH * sizeof(float));
        pipe.InitBuffer(maxBuf, sizeof(float) * 8);
    }
    __aicore__ void Process() {
        uint64_t OH = (this->H - this->kh) / this->stride + 1;
        uint64_t OW = (this->W - this->kw) / this->stride + 1;
        LocalTensor<float> maxLocal = maxBuf.Get<float>();
        Duplicate(maxLocal, (float)-1e30, 1);
        // 简化：对每个输出窗口做 ReduceMax
        for (uint64_t c = 0; c < this->C; c++) {
            for (uint64_t oh = 0; oh < OH; oh++) {
                for (uint64_t ow = 0; ow < OW; ow++) {
                    LocalTensor<float> inLocal = inBuf.Get<float>();
                    LocalTensor<float> outLocal = outBuf.Get<float>();
                    uint64_t idx = 0;
                    for (uint64_t ki = 0; ki < this->kh; ki++) {
                        for (uint64_t kj = 0; kj < this->kw; kj++) {
                            uint64_t ih = oh * this->stride + ki;
                            uint64_t iw = ow * this->stride + kj;
                            inLocal.SetValue(idx, xGm.GetValue(c * H * W + ih * W + iw));
                            idx++;
                        }
                    }
                    AscendC::ReduceMax(outLocal, inLocal, idx);
                    yGm.SetValue(c * OH * OW + oh * OW + ow, outLocal.GetValue(0));
                }
            }
        }
    }
private:
    TPipe pipe;
    TBuf inBuf, outBuf, maxBuf;
    GlobalTensor<float> xGm, yGm;
    uint64_t C, H, W, kh, kw, stride;
};

extern "C" __global__ __aicore__ "#;

pub const POOL_3: &'static str = r#"GM_ADDR x, GM_ADDR y,
                                                GM_ADDR workspace, GM_ADDR tiling) {
    __gm__ uint64_t* t = (__gm__ uint64_t*)tiling;
    __CLS__ op;
    op.Init(x, y, t[0], t[1], t[2], t[3], t[4], t[5]);
    op.Process();
}
"#;

pub(crate) fn pool_source() -> (r: String)
    ensures
        r@ == pool_template(),
{
    let mut s = POOL_1.to_owned();
    push_slot(&mut s, "class ", "__CLS__", " ");
    s.append(POOL_2);
    push_slot(&mut s, "void ", "__NAME__", "(");
    s.append(POOL_3);
    s
}

/// A copy.
pub open spec fn reshape_template() -> Seq<char> {
    RESHAPE_1@
        + slot("class "@, "__CLS__"@, " "@)
        + RESHAPE_2@
        + slot(", TILE_LENGTH * sizeof("@, "__T__"@, ")"@)
        + RESHAPE_3@
        + slot("void "@, "__NAME__"@, "("@)
        + RESHAPE_4@
}

pub const RESHAPE_1: &'static str = r#"// __NAME__: Reshape（连续内存拷贝，shape 一致性由 host 保证）
// Vector Core DataCopy：TILE_LENGTH=128 双缓冲
"#;

pub const RESHAPE_2: &'static str = r#"{
public:
    __aicore__ __CLS__() {}
    __aicore__ void Init(GM_ADDR x, GM_ADDR z, uint64_t n) {
        this->blockLength = n / GetBlockNum();
        this->tileNum = blockLength / TILE_LENGTH;
        if (this->tileNum == 0) this->tileNum = 1;
        uint64_t offset = this->tileNum * (uint64_t)TILE_LENGTH * GetBlockIdx();
        xGm.SetGlobalBuffer((__gm__ __T__*)x + offset, this->blockLength);
        zGm.SetGlobalBuffer((__gm__ __T__*)z + offset, this->blockLength);
        pipe.InitBuffer(inQueueX, BUFFER_NUM"#;

pub const RESHAPE_3: &'static str = r#");
        pipe.InitBuffer(outQueueZ, BUFFER_NUM, TILE_LENGTH * sizeof(__T__));
    }
    __aicore__ void Process() {
        for (int32_t i = 0; i < (int32_t)this->tileNum; i++) {
            LocalTensor<__T__> xLocal = inQueueX.AllocTensor<__T__>();
            DataCopy(xLocal, xGm[i * TILE_LENGTH], TILE_LENGTH);
            inQueueX.EnQue(xLocal);
            LocalTensor<__T__> zLocal = outQueueZ.AllocTensor<__T__>();
            xLocal = inQueueX.DeQue<__T__>();
            DataCopy(zLocal, xLocal, TILE_LENGTH);
            outQueueZ.EnQue(zLocal);
            outQueueZ.DeQue<__T__>();
            DataCopy(zGm[i * TILE_LENGTH], zLocal, TILE_LENGTH);
            outQueueZ.FreeTensor(zLocal);
            inQueueX.FreeTensor(xLocal);
        }
    }
private:
    TPipe pipe;
    TQue<QuePosition::VECIN, BUFFER_NUM> inQueueX;
    TQue<QuePosition::VECOUT, BUFFER_NUM> outQueueZ;
    GlobalTensor<__T__> xGm, zGm;
    uint64_t blockLength, tileNum;
};

extern "C" __global__ __aicore__ "#;

pub const RESHAPE_4: &'static str = r#"GM_ADDR x, GM_ADDR z,
                                                GM_ADDR workspace, GM_ADDR tiling) {
    __CLS__ op;
    op.Init(x, z, ((__gm__ uint64_t*)tiling)[0]);
    op.Process();
}
"#;

pub(crate) fn reshape_source() -> (r: String)
    ensures
        r@ == reshape_template(),
{
    let mut s = RESHAPE_1.to_owned();
    push_slot(&mut s, "class ", "__CLS__", " ");
    s.append(RESHAPE_2);
    push_slot(&mut s, ", TILE_LENGTH * sizeof(", "__T__", ")");
    s.append(RESHAPE_3);
    push_slot(&mut s, "void ", "__NAME__", "(");
    s.append(RESHAPE_4);
    s
}

/// A transposition.
pub open spec fn transpose_template() -> Seq<char> {
    TRANSPOSE_1@
        + slot("class "@, "__CLS__"@, " "@)
        + TRANSPOSE_2@
        + slot("inBuf, TILE_LENGTH * sizeof("@, "__T__"@, ")"@)
        + TRANSPOSE_3@
        + slot("void "@, "__NAME__"@, "("@)
        + TRANSPOSE_4@
}

pub const TRANSPOSE_1: &'static str = r#"// __NAME__: Transpose（DataCopy + 偏移计算，2D 行列交换）
// Vector Core：把 input[row, col] 拷到 output[col, row]
"#;

pub const TRANSPOSE_2: &'static str = r#"{
public:
    __aicore__ __CLS__() {}
    __aicore__ void Init(GM_ADDR x, GM_ADDR z, uint64_t H, uint64_t W) {
        this->H = H; this->W = W;
        xGm.SetGlobalBuffer((__gm__ __T__*)x, H * W);
        zGm.SetGlobalBuffer((__gm__ __T__*)z, H * W);
        pipe.InitBuffer("#;

pub const TRANSPOSE_3: &'static str = r#");
        pipe.InitBuffer(outBuf, TILE_LENGTH * sizeof(__T__));
    }
    __aicore__ void Process() {
        // 简化：按行扫，逐元素写出到转置位置
        LocalTensor<__T__> inLocal = inBuf.Get<__T__>();
        LocalTensor<__T__> outLocal = outBuf.Get<__T__>();
        for (uint64_t r = 0; r < this->H; r++) {
            // 一次拷一行
            uint64_t len = this->W;
            DataCopy(inLocal, xGm[r * this->W], len);
            for (uint64_t c = 0; c < this->W; c++) {
                __T__ v = inLocal.GetValue(c);
                // output[col, row] = input[row, col]
                zGm.SetValue(c * this->H + r, v);
            }
        }
    }
private:
    TPipe pipe;
    TBuf inBuf, outBuf;
    GlobalTensor<__T__> xGm, zGm;
    uint64_t H, W;
};

extern "C" __global__ __aicore__ "#;

pub const TRANSPOSE_4: &'static str = r#"GM_ADDR x, GM_ADDR z,
                                                GM_ADDR workspace, GM_ADDR tiling) {
    __gm__ uint64_t* t = (__gm__ uint64_t*)tiling;
    __CLS__ op;
    op.Init(x, z, t[0], t[1]);
    op.Process();
}
"#;

pub(crate) fn transpose_source() -> (r: String)
    ensures
        r@ == transpose_template(),
{
    let mut s = TRANSPOSE_1.to_owned();
    push_slot(&mut s, "class ", "__CLS__", " ");
    s.append(TRANSPOSE_2);
    push_slot(&mut s, "inBuf, TILE_LENGTH * sizeof(", "__T__", ")");
    s.append(TRANSPOSE_3);
    push_slot(&mut s, "void ", "__NAME__", "(");
    s.append(TRANSPOSE_4);
    s
}

/// A concatenation.
pub open spec fn concat_template() -> Seq<char> {
    CONCAT_1@
        + slot("// 注: 通用版支持 "@, "__N_INPUTS__"@, " "@)
        + CONCAT_2@
        + slot("class "@, "__CLS__"@, " "@)
        + CONCAT_3@
        + slot("utBuf, TILE_LENGTH * sizeof("@, "__T__"@, ")"@)
        + CONCAT_4@
        + slot("void "@, "__NAME__"@, "("@)
        + CONCAT_5@
}

pub const CONCAT_1: &'static str = r#"// __NAME__: Concat（沿 axis 拼接，DataCopy 按段拷贝；此处展示 2 路拼接）
"#;

pub const CONCAT_2: &'static str = r#"路输入，host 按 offset 区间分配
"#;

pub const CONCAT_3: &'static str = r#"{
public:
    __aicore__ __CLS__() {}
    __aicore__ void Init(GM_ADDR x0, GM_ADDR x1, GM_ADDR z,
                         uint64_t n0, uint64_t n1, uint64_t total) {
        this->n0 = n0; this->n1 = n1; this->total = total;
        x0Gm.SetGlobalBuffer((__gm__ __T__*)x0, n0);
        x1Gm.SetGlobalBuffer((__gm__ __T__*)x1, n1);
        zGm.SetGlobalBuffer((__gm__ __T__*)z, total);
        pipe.InitBuffer(o"#;

pub const CONCAT_4: &'static str = r#");
    }
    __aicore__ void Process() {
        LocalTensor<__T__> outLocal = outBuf.Get<__T__>();
        // 第一段：从 input0 拷贝 n0 个元素
        for (uint64_t i = 0; i < this->n0; i += TILE_LENGTH) {
            uint64_t len = (i + TILE_LENGTH < this->n0) ? TILE_LENGTH : (this->n0 - i);
            DataCopy(outLocal, x0Gm[i], len);
            DataCopy(zGm[i], outLocal, len);
        }
        // 第二段：从 input1 拷贝 n1 个元素到 offset = n0
        for (uint64_t i = 0; i < this->n1; i += TILE_LENGTH) {
            uint64_t len = (i + TILE_LENGTH < this->n1) ? TILE_LENGTH : (this->n1 - i);
            DataCopy(outLocal, x1Gm[i], len);
            DataCopy(zGm[this->n0 + i], outLocal, len);
        }
    }
private:
    TPipe pipe;
    TBuf outBuf;
    GlobalTensor<__T__> x0Gm, x1Gm, zGm;
    uint64_t n0, n1, total;
};

extern "C" __global__ __aicore__ "#;

pub const CONCAT_5: &'static str = r#"GM_ADDR x0, GM_ADDR x1, GM_ADDR z,
                                                GM_ADDR workspace, GM_ADDR tiling) {
    __gm__ uint64_t* t = (__gm__ uint64_t*)tiling;
    __CLS__ op;
    op.Init(x0, x1, z, t[0], t[1], t[2]);
    op.Process();
}
"#;

pub(crate) fn concat_source() -> (r: String)
    ensures
        r@ == concat_template(),
{
    let mut s = CONCAT_1.to_owned();
    push_slot(&mut s, "// 注: 通用版支持 ", "__N_INPUTS__", " ");
    s.append(CONCAT_2);
    push_slot(&mut s, "class ", "__CLS__", " ");
    s.append(CONCAT_3);
    push_slot(&mut s, "utBuf, TILE_LENGTH * sizeof(", "__T__", ")");
    s.append(CONCAT_4);
    push_slot(&mut s, "void ", "__NAME__", "(");
    s.append(CONCAT_5);
    s
}

/// A strided copy.
pub open spec fn slice_template() -> Seq<char> {
    SLICE_1@
        + slot("class "@, "__CLS__"@, " "@)
        + SLICE_2@
        + slot("pe.InitBuffer(inBuf, sizeof("@, "__T__"@, ")"@)
        + SLICE_3@
        + slot("void "@, "__NAME__"@, "("@)
        + SLICE_4@
}

pub const SLICE_1: &'static str = r#"// __NAME__: Slice（按 starts/ends/steps 拷贝，DataCopy 按 step 间隔取元素）
"#;

pub const SLICE_2: &'static str = r#"{
public:
    __aicore__ __CLS__() {}
    __aicore__ void Init(GM_ADDR x, GM_ADDR z, uint64_t start, uint64_t step, uint64_t out_n) {
        this->start = start; this->step = step; this->outN = out_n;
        xGm.SetGlobalBuffer((__gm__ __T__*)x, start + step * out_n);
        zGm.SetGlobalBuffer((__gm__ __T__*)z, out_n);
        pi"#;

pub const SLICE_3: &'static str = r#");
        pipe.InitBuffer(outBuf, sizeof(__T__));
    }
    __aicore__ void Process() {
        LocalTensor<__T__> inLocal = inBuf.Get<__T__>();
        LocalTensor<__T__> outLocal = outBuf.Get<__T__>();
        // 按 step 间隔逐元素拷贝
        for (uint64_t i = 0; i < this->outN; i++) {
            __T__ v = xGm.GetValue(this->start + i * this->step);
            outLocal.SetValue(0, v);
            zGm.SetValue(i, outLocal.GetValue(0));
        }
    }
private:
    TPipe pipe;
    TBuf inBuf, outBuf;
    GlobalTensor<__T__> xGm, zGm;
    uint64_t start, step, outN;
};

extern "C" __global__ __aicore__ "#;

pub const SLICE_4: &'static str = r#"GM_ADDR x, GM_ADDR z,
                                                GM_ADDR workspace, GM_ADDR tiling) {
    __gm__ uint64_t* t = (__gm__ uint64_t*)tiling;
    __CLS__ op;
    op.Init(x, z, t[0], t[1], t[2]);
    op.Process();
}
"#;

pub(crate) fn slice_source() -> (r: String)
    ensures
        r@ == slice_template(),
{
    let mut s = SLICE_1.to_owned();
    push_slot(&mut s, "class ", "__CLS__", " ");
    s.append(SLICE_2);
    push_slot(&mut s, "pe.InitBuffer(inBuf, sizeof(", "__T__", ")");
    s.append(SLICE_3);
    push_slot(&mut s, "void ", "__NAME__", "(");
    s.append(SLICE_4);
    s
}

/// A kernel that fills its output with a value.
pub open spec fn constant_template() -> Seq<char> {
    CONSTANT_1@
        + slot("class "@, "__CLS__"@, " "@)
        + CONSTANT_2@
        + slot(", TILE_LENGTH * sizeof("@, "__T__"@, ")"@)
        + CONSTANT_3@
        + slot(")"@, "__VAL__"@, ","@)
        + CONSTANT_4@
        + slot("void "@, "__NAME__"@, "("@)
        + CONSTANT_5@
}

pub const CONSTANT_1: &'static str = r#"// __NAME__: Constant（用 AscendC::Duplicate 把 value 广播到输出 buffer）
// 默认 value = __VAL__（host 端可用 tiling 覆盖）
"#;

pub const CONSTANT_2: &'static str = r#"{
public:
    __aicore__ __CLS__() {}
    __aicore__ void Init(GM_ADDR z, uint64_t n) {
        this->blockLength = n / GetBlockNum();
        this->tileNum = blockLength / TILE_LENGTH;
        if (this->tileNum == 0) this->tileNum = 1;
        zGm.SetGlobalBuffer((__gm__ __T__*)z + GetBlockIdx() * this->blockLength, this->blockLength);
        pipe.InitBuffer(outQueueZ, BUFFER_NUM"#;

pub const CONSTANT_3: &'static str = r#");
    }
    __aicore__ void Process() {
        for (int32_t i = 0; i < (int32_t)this->tileNum; i++) {
            LocalTensor<__T__> zLocal = outQueueZ.AllocTensor<__T__>();
            Duplicate(zLocal, (__T__"#;

pub const CONSTANT_4: &'static str = r#" TILE_LENGTH);
            outQueueZ.EnQue(zLocal);
            outQueueZ.DeQue<__T__>();
            DataCopy(zGm[i * TILE_LENGTH], zLocal, TILE_LENGTH);
            outQueueZ.FreeTensor(zLocal);
        }
    }
private:
    TPipe pipe;
    TQue<QuePosition::VECOUT, BUFFER_NUM> outQueueZ;
    GlobalTensor<__T__> zGm;
    uint64_t blockLength, tileNum;
};

extern "C" __global__ __aicore__ "#;

pub const CONSTANT_5: &'static str = r#"GM_ADDR z,
                                                GM_ADDR workspace, GM_ADDR tiling) {
    __CLS__ op;
    op.Init(z, ((__gm__ uint64_t*)tiling)[0]);
    op.Process();
}
"#;

pub(crate) fn constant_source() -> (r: String)
    ensures
        r@ == constant_template(),
{
    let mut s = CONSTANT_1.to_owned();
    push_slot(&mut s, "class ", "__CLS__", " ");
    s.append(CONSTANT_2);
    push_slot(&mut s, ", TILE_LENGTH * sizeof(", "__T__", ")");
    s.append(CONSTANT_3);
    push_slot(&mut s, ")", "__VAL__", ",");
    s.append(CONSTANT_4);
    push_slot(&mut s, "void ", "__NAME__", "(");
    s.append(CONSTANT_5);
    s
}

/// What stands for an input of the graph.
pub open spec fn placeholder_template() -> Seq<char> {
    PLACEHOLDER_1@
        + slot("class "@, "__CLS__"@, " "@)
        + PLACEHOLDER_2@
        + slot(", TILE_LENGTH * sizeof("@, "__T__"@, ")"@)
        + PLACEHOLDER_3@
        + slot("void "@, "__NAME__"@, "("@)
        + PLACEHOLDER_4@
}

pub const PLACEHOLDER_1: &'static str = r#"// __NAME__: Placeholder（输入占位）
// 注: Placeholder 标记图输入，host 端绑定 GM 地址；此处生成 identity 拷贝 kernel 便于调试
"#;

pub const PLACEHOLDER_2: &'static str = r#"{
public:
    __aicore__ __CLS__() {}
    __aicore__ void Init(GM_ADDR x, GM_ADDR z, uint64_t n) {
        this->blockLength = n / GetBlockNum();
        this->tileNum = blockLength / TILE_LENGTH;
        if (this->tileNum == 0) this->tileNum = 1;
        uint64_t offset = this->tileNum * (uint64_t)TILE_LENGTH * GetBlockIdx();
        xGm.SetGlobalBuffer((__gm__ __T__*)x + offset, this->blockLength);
        zGm.SetGlobalBuffer((__gm__ __T__*)z + offset, this->blockLength);
        pipe.InitBuffer(inQueueX, BUFFER_NUM"#;

pub const PLACEHOLDER_3: &'static str = r#");
        pipe.InitBuffer(outQueueZ, BUFFER_NUM, TILE_LENGTH * sizeof(__T__));
    }
    __aicore__ void Process() {
        for (int32_t i = 0; i < (int32_t)this->tileNum; i++) {
            LocalTensor<__T__> xLocal = inQueueX.AllocTensor<__T__>();
            DataCopy(xLocal, xGm[i * TILE_LENGTH], TILE_LENGTH);
            inQueueX.EnQue(xLocal);
            LocalTensor<__T__> zLocal = outQueueZ.AllocTensor<__T__>();
            xLocal = inQueueX.DeQue<__T__>();
            DataCopy(zLocal, xLocal, TILE_LENGTH);
            outQueueZ.EnQue(zLocal);
            outQueueZ.DeQue<__T__>();
            DataCopy(zGm[i * TILE_LENGTH], zLocal, TILE_LENGTH);
            outQueueZ.FreeTensor(zLocal);
            inQueueX.FreeTensor(xLocal);
        }
    }
private:
    TPipe pipe;
    TQue<QuePosition::VECIN, BUFFER_NUM> inQueueX;
    TQue<QuePosition::VECOUT, BUFFER_NUM> outQueueZ;
    GlobalTensor<__T__> xGm, zGm;
    uint64_t blockLength, tileNum;
};

extern "C" __global__ __aicore__ "#;

pub const PLACEHOLDER_4: &'static str = r#"GM_ADDR x, GM_ADDR z,
                                                GM_ADDR workspace, GM_ADDR tiling) {
    __CLS__ op;
    op.Init(x, z, ((__gm__ uint64_t*)tiling)[0]);
    op.Process();
}
"#;

pub(crate) fn placeholder_source() -> (r: String)
    ensures
        r@ == placeholder_template(),
{
    let mut s = PLACEHOLDER_1.to_owned();
    push_slot(&mut s, "class ", "__CLS__", " ");
    s.append(PLACEHOLDER_2);
    push_slot(&mut s, ", TILE_LENGTH * sizeof(", "__T__", ")");
    s.append(PLACEHOLDER_3);
    push_slot(&mut s, "void ", "__NAME__", "(");
    s.append(PLACEHOLDER_4);
    s
}

/// What stands for an output of the graph.
pub open spec fn return_template() -> Seq<char> {
    RETURN_1@
        + slot("class "@, "__CLS__"@, " "@)
        + RETURN_2@
        + slot(", TILE_LENGTH * sizeof("@, "__T__"@, ")"@)
        + RETURN_3@
        + slot("void "@, "__NAME__"@, "("@)
        + RETURN_4@
}

pub const RETURN_1: &'static str = r#"// __NAME__: Return（图输出）
// 注: Return 标记图输出，host 端读取该 buffer；此处生成 identity 拷贝 kernel 保证数据落盘
"#;

pub const RETURN_2: &'static str = r#"{
public:
    __aicore__ __CLS__() {}
    __aicore__ void Init(GM_ADDR x, GM_ADDR z, uint64_t n) {
        this->blockLength = n / GetBlockNum();
        this->tileNum = blockLength / TILE_LENGTH;
        if (this->tileNum == 0) this->tileNum = 1;
        uint64_t offset = this->tileNum * (uint64_t)TILE_LENGTH * GetBlockIdx();
        xGm.SetGlobalBuffer((__gm__ __T__*)x + offset, this->blockLength);
        zGm.SetGlobalBuffer((__gm__ __T__*)z + offset, this->blockLength);
        pipe.InitBuffer(inQueueX, BUFFER_NUM"#;

pub const RETURN_3: &'static str = r#");
        pipe.InitBuffer(outQueueZ, BUFFER_NUM, TILE_LENGTH * sizeof(__T__));
    }
    __aicore__ void Process() {
        for (int32_t i = 0; i < (int32_t)this->tileNum; i++) {
            LocalTensor<__T__> xLocal = inQueueX.AllocTensor<__T__>();
            DataCopy(xLocal, xGm[i * TILE_LENGTH], TILE_LENGTH);
            inQueueX.EnQue(xLocal);
            LocalTensor<__T__> zLocal = outQueueZ.AllocTensor<__T__>();
            xLocal = inQueueX.DeQue<__T__>();
            DataCopy(zLocal, xLocal, TILE_LENGTH);
            outQueueZ.EnQue(zLocal);
            outQueueZ.DeQue<__T__>();
            DataCopy(zGm[i * TILE_LENGTH], zLocal, TILE_LENGTH);
            outQueueZ.FreeTensor(zLocal);
            inQueueX.FreeTensor(xLocal);
        }
    }
private:
    TPipe pipe;
    TQue<QuePosition::VECIN, BUFFER_NUM> inQueueX;
    TQue<QuePosition::VECOUT, BUFFER_NUM> outQueueZ;
    GlobalTensor<__T__> xGm, zGm;
    uint64_t blockLength, tileNum;
};

extern "C" __global__ __aicore__ "#;

pub const RETURN_4: &'static str = r#"GM_ADDR x, GM_ADDR z,
                                                GM_ADDR workspace, GM_ADDR tiling) {
    __CLS__ op;
    op.Init(x, z, ((__gm__ uint64_t*)tiling)[0]);
    op.Process();
}
"#;

pub(crate) fn return_source() -> (r: String)
    ensures
        r@ == return_template(),
{
    let mut s = RETURN_1.to_owned();
    push_slot(&mut s, "class ", "__CLS__", " ");
    s.append(RETURN_2);
    push_slot(&mut s, ", TILE_LENGTH * sizeof(", "__T__", ")");
    s.append(RETURN_3);
    push_slot(&mut s, "void ", "__NAME__", "(");
    s.append(RETURN_4);
    s
}

/// A chain of operators in one kernel.
pub open spec fn fused_template() -> Seq<char> {
    FUSED_1@
        + slot(": Fused（融合算子链: "@, "__OPS__"@, "）"@)
        + FUSED_2@
        + slot("class "@, "__CLS__"@, " "@)
        + FUSED_3@
        + slot(", TILE_LENGTH * sizeof("@, "__T__"@, ")"@)
        + FUSED_4@
        + slot("void "@, "__NAME__"@, "("@)
        + FUSED_5@
}

pub const FUSED_1: &'static str = r#"// __NAME__"#;

pub const FUSED_2: &'static str = r#"
// Vector Core 串联：Mul -> Add -> Relu（典型 GEMM+bias+激活 融合）
"#;

pub const FUSED_3: &'static str = r#"{
public:
    __aicore__ __CLS__() {}
    __aicore__ void Init(GM_ADDR a, GM_ADDR b, GM_ADDR c, uint64_t n) {
        this->blockLength = n / GetBlockNum();
        this->tileNum = blockLength / TILE_LENGTH;
        if (this->tileNum == 0) this->tileNum = 1;
        uint64_t offset = this->tileNum * (uint64_t)TILE_LENGTH * GetBlockIdx();
        aGm.SetGlobalBuffer((__gm__ __T__*)a + offset, this->blockLength);
        bGm.SetGlobalBuffer((__gm__ __T__*)b + offset, this->blockLength);
        cGm.SetGlobalBuffer((__gm__ __T__*)c + offset, this->blockLength);
        pipe.InitBuffer(inQueueA, BUFFER_NUM"#;

pub const FUSED_4: &'static str = r#");
        pipe.InitBuffer(inQueueB, BUFFER_NUM, TILE_LENGTH * sizeof(__T__));
        pipe.InitBuffer(outQueueC, BUFFER_NUM, TILE_LENGTH * sizeof(__T__));
        pipe.InitBuffer(tmpBuf, TILE_LENGTH * sizeof(__T__));
    }
    __aicore__ void Process() {
        for (int32_t i = 0; i < (int32_t)this->tileNum; i++) {
            LocalTensor<__T__> aLocal = inQueueA.AllocTensor<__T__>();
            LocalTensor<__T__> bLocal = inQueueB.AllocTensor<__T__>();
            DataCopy(aLocal, aGm[i * TILE_LENGTH], TILE_LENGTH);
            DataCopy(bLocal, bGm[i * TILE_LENGTH], TILE_LENGTH);
            inQueueA.EnQue(aLocal);
            inQueueB.EnQue(bLocal);
            aLocal = inQueueA.DeQue<__T__>();
            bLocal = inQueueB.DeQue<__T__>();
            LocalTensor<__T__> cLocal = outQueueC.AllocTensor<__T__>();
            LocalTensor<__T__> tmp = tmpBuf.Get<__T__>();
            // z = a * b
            Mul(tmp, aLocal, bLocal, TILE_LENGTH);
            // z = z + b
            Add(tmp, tmp, bLocal, TILE_LENGTH);
            // z = relu(z)
            Relu(cLocal, tmp, TILE_LENGTH);
            outQueueC.EnQue(cLocal);
            outQueueC.DeQue<__T__>();
            DataCopy(cGm[i * TILE_LENGTH], cLocal, TILE_LENGTH);
            outQueueC.FreeTensor(cLocal);
            inQueueA.FreeTensor(aLocal);
            inQueueB.FreeTensor(bLocal);
        }
    }
private:
    TPipe pipe;
    TQue<QuePosition::VECIN, BUFFER_NUM> inQueueA, inQueueB;
    TQue<QuePosition::VECOUT, BUFFER_NUM> outQueueC;
    TBuf tmpBuf;
    GlobalTensor<__T__> aGm, bGm, cGm;
    uint64_t blockLength, tileNum;
};

extern "C" __global__ __aicore__ "#;

pub const FUSED_5: &'static str = r#"GM_ADDR a, GM_ADDR b, GM_ADDR c,
                                                GM_ADDR workspace, GM_ADDR tiling) {
    __CLS__ op;
    op.Init(a, b, c, ((__gm__ uint64_t*)tiling)[0]);
    op.Process();
}
"#;

pub(crate) fn fused_source() -> (r: String)
    ensures
        r@ == fused_template(),
{
    let mut s = FUSED_1.to_owned();
    push_slot(&mut s, ": Fused（融合算子链: ", "__OPS__", "）");
    s.append(FUSED_2);
    push_slot(&mut s, "class ", "__CLS__", " ");
    s.append(FUSED_3);
    push_slot(&mut s, ", TILE_LENGTH * sizeof(", "__T__", ")");
    s.append(FUSED_4);
    push_slot(&mut s, "void ", "__NAME__", "(");
    s.append(FUSED_5);
    s
}

/// An operator that is not known.
pub open spec fn custom_template() -> Seq<char> {
    CUSTOM_1@
        + slot(": Custom op（原始 op_type = "@, "__OP_TYPE__"@, "）"@)
        + CUSTOM_2@
        + slot("class "@, "__CLS__"@, " "@)
        + CUSTOM_3@
        + slot(", TILE_LENGTH * sizeof("@, "__T__"@, ")"@)
        + CUSTOM_4@
        + slot("void "@, "__NAME__"@, "("@)
        + CUSTOM_5@
}

pub const CUSTOM_1: &'static str = r#"// __NAME__"#;

pub const CUSTOM_2: &'static str = r#"
// 注: 未知 ONNX 算子，生成通用元素级 identity kernel（DataCopy），host 端可替换为自定义实现
"#;

pub const CUSTOM_3: &'static str = r#"{
public:
    __aicore__ __CLS__() {}
    __aicore__ void Init(GM_ADDR x, GM_ADDR z, uint64_t n) {
        this->blockLength = n / GetBlockNum();
        this->tileNum = blockLength / TILE_LENGTH;
        if (this->tileNum == 0) this->tileNum = 1;
        uint64_t offset = this->tileNum * (uint64_t)TILE_LENGTH * GetBlockIdx();
        xGm.SetGlobalBuffer((__gm__ __T__*)x + offset, this->blockLength);
        zGm.SetGlobalBuffer((__gm__ __T__*)z + offset, this->blockLength);
        pipe.InitBuffer(inQueueX, BUFFER_NUM"#;

pub const CUSTOM_4: &'static str = r#");
        pipe.InitBuffer(outQueueZ, BUFFER_NUM, TILE_LENGTH * sizeof(__T__));
    }
    __aicore__ void Process() {
        for (int32_t i = 0; i < (int32_t)this->tileNum; i++) {
            LocalTensor<__T__> xLocal = inQueueX.AllocTensor<__T__>();
            DataCopy(xLocal, xGm[i * TILE_LENGTH], TILE_LENGTH);
            inQueueX.EnQue(xLocal);
            LocalTensor<__T__> zLocal = outQueueZ.AllocTensor<__T__>();
            xLocal = inQueueX.DeQue<__T__>();
            DataCopy(zLocal, xLocal, TILE_LENGTH);
            outQueueZ.EnQue(zLocal);
            outQueueZ.DeQue<__T__>();
            DataCopy(zGm[i * TILE_LENGTH], zLocal, TILE_LENGTH);
            outQueueZ.FreeTensor(zLocal);
            inQueueX.FreeTensor(xLocal);
        }
    }
private:
    TPipe pipe;
    TQue<QuePosition::VECIN, BUFFER_NUM> inQueueX;
    TQue<QuePosition::VECOUT, BUFFER_NUM> outQueueZ;
    GlobalTensor<__T__> xGm, zGm;
    uint64_t blockLength, tileNum;
};

extern "C" __global__ __aicore__ "#;

pub const CUSTOM_5: &'static str = r#"GM_ADDR x, GM_ADDR z,
                                                GM_ADDR workspace, GM_ADDR tiling) {
    __CLS__ op;
    op.Init(x, z, ((__gm__ uint64_t*)tiling)[0]);
    op.Process();
}
"#;

pub(crate) fn custom_source() -> (r: String)
    ensures
        r@ == custom_template(),
{
    let mut s = CUSTOM_1.to_owned();
    push_slot(&mut s, ": Custom op（原始 op_type = ", "__OP_TYPE__", "）");
    s.append(CUSTOM_2);
    push_slot(&mut s, "class ", "__CLS__", " ");
    s.append(CUSTOM_3);
    push_slot(&mut s, ", TILE_LENGTH * sizeof(", "__T__", ")");
    s.append(CUSTOM_4);
    push_slot(&mut s, "void ", "__NAME__", "(");
    s.append(CUSTOM_5);
    s
}

/// What a file begins with.
pub const HEADER: &'static str = r#"// ============================================================
// neutron — Ascend CANN C++ 算子源码
// 微架构: "#;

/// Remarks on an architecture.
pub const CUBE_NOTES: &'static str = r#"// 微架构特性: Ascend Vector Core + Cube Core（mmad 矩阵乘法单元）
//   - Cube Core: 原生 MatMul/mmad 指令，FP16/BF16/INT8 高吞吐
//   - Vector Core: SIMD 向量指令，Add/Mul/Sqrt/Exp 等元素级
//   - TQue/TPipe 双缓冲 + tiling（TILE_LENGTH=128）
"#;

/// Remarks on an architecture.
pub const LIGHT_NOTES: &'static str = r#"// 微架构特性: Ascend 310P3 轻量推理路径（Vector Core + AiCore 优化）
//   - 主要面向推理场景，Cube 路径走轻量 GEMM
//   - TQue/TPipe 双缓冲 + tiling（TILE_LENGTH=128）
"#;

/// Remarks on an architecture.
pub const OTHER_NOTES: &'static str = r#"// 注: CANN 主要面向 Ascend NPU；非 Ascend 架构仍生成 AscendC 代码
"#;

/// What stands before the kernels.
pub const PRELUDE: &'static str = r#"// ============================================================

#include "kernel_tiling.h"
#include "kernel_operator.h"
using namespace AscendC;

// AscendC 标准常量：双缓冲 + tile 长度
constexpr int32_t BUFFER_NUM = 2;
constexpr int32_t TILE_LENGTH = 128;

"#;

/// What stands before the launchers.
pub const LAUNCHERS: &'static str = r#"// ============================================================
// launch 说明（host 端用 aclrtLaunch + blockDim 调度 __aicore__ kernel）
// ============================================================
"#;

/// The parts around tokens stand in the template.
pub proof fn custom_holds_slots()
    ensures
        contains(custom_template(), slot(": Custom op（原始 op_type = "@, "__OP_TYPE__"@, "）"@)),
        contains(custom_template(), slot("class "@, "__CLS__"@, " "@)),
        contains(custom_template(), slot(", TILE_LENGTH * sizeof("@, "__T__"@, ")"@)),
        contains(custom_template(), slot("void "@, "__NAME__"@, "("@)),
{
    let t0 = CUSTOM_1@;
    end_is_part(t0, slot(": Custom op（原始 op_type = "@, "__OP_TYPE__"@, "）"@));
    let t1 = t0 + slot(": Custom op（原始 op_type = "@, "__OP_TYPE__"@, "）"@);
    part_stays(t1, CUSTOM_2@, slot(": Custom op（原始 op_type = "@, "__OP_TYPE__"@, "）"@));
    let t2 = t1 + CUSTOM_2@;
    part_stays(t2, slot("class "@, "__CLS__"@, " "@), slot(": Custom op（原始 op_type = "@, "__OP_TYPE__"@, "）"@));
    end_is_part(t2, slot("class "@, "__CLS__"@, " "@));
    let t3 = t2 + slot("class "@, "__CLS__"@, " "@);
    part_stays(t3, CUSTOM_3@, slot(": Custom op（原始 op_type = "@, "__OP_TYPE__"@, "）"@));
    part_stays(t3, CUSTOM_3@, slot("class "@, "__CLS__"@, " "@));
    let t4 = t3 + CUSTOM_3@;
    part_stays(t4, slot(", TILE_LENGTH * sizeof("@, "__T__"@, ")"@), slot(": Custom op（原始 op_type = "@, "__OP_TYPE__"@, "）"@));
    part_stays(t4, slot(", TILE_LENGTH * sizeof("@, "__T__"@, ")"@), slot("class "@, "__CLS__"@, " "@));
    end_is_part(t4, slot(", TILE_LENGTH * sizeof("@, "__T__"@, ")"@));
    let t5 = t4 + slot(", TILE_LENGTH * sizeof("@, "__T__"@, ")"@);
    part_stays(t5, CUSTOM_4@, slot(": Custom op（原始 op_type = "@, "__OP_TYPE__"@, "）"@));
    part_stays(t5, CUSTOM_4@, slot("class "@, "__CLS__"@, " "@));
    part_stays(t5, CUSTOM_4@, slot(", TILE_LENGTH * sizeof("@, "__T__"@, ")"@));
    let t6 = t5 + CUSTOM_4@;
    part_stays(t6, slot("void "@, "__NAME__"@, "("@), slot(": Custom op（原始 op_type = "@, "__OP_TYPE__"@, "）"@));
    part_stays(t6, slot("void "@, "__NAME__"@, "("@), slot("class "@, "__CLS__"@, " "@));
    part_stays(t6, slot("void "@, "__NAME__"@, "("@), slot(", TILE_LENGTH * sizeof("@, "__T__"@, ")"@));
    end_is_part(t6, slot("void "@, "__NAME__"@, "("@));
    let t7 = t6 + slot("void "@, "__NAME__"@, "("@);
    part_stays(t7, CUSTOM_5@, slot(": Custom op（原始 op_type = "@, "__OP_TYPE__"@, "）"@));
    part_stays(t7, CUSTOM_5@, slot("class "@, "__CLS__"@, " "@));
    part_stays(t7, CUSTOM_5@, slot(", TILE_LENGTH * sizeof("@, "__T__"@, ")"@));
    part_stays(t7, CUSTOM_5@, slot("void "@, "__NAME__"@, "("@));
    let t8 = t7 + CUSTOM_5@;
}

/// The parts around tokens stand in the template.
pub proof fn fused_holds_slots()
    ensures
        contains(fused_template(), slot(": Fused（融合算子链: "@, "__OPS__"@, "）"@)),
        contains(fused_template(), slot("class "@, "__CLS__"@, " "@)),
        contains(fused_template(), slot(", TILE_LENGTH * sizeof("@, "__T__"@, ")"@)),
        contains(fused_template(), slot("void "@, "__NAME__"@, "("@)),
{
    let t0 = FUSED_1@;
    end_is_part(t0, slot(": Fused（融合算子链: "@, "__OPS__"@, "）"@));
    let t1 = t0 + slot(": Fused（融合算子链: "@, "__OPS__"@, "）"@);
    part_stays(t1, FUSED_2@, slot(": Fused（融合算子链: "@, "__OPS__"@, "）"@));
    let t2 = t1 + FUSED_2@;
    part_stays(t2, slot("class "@, "__CLS__"@, " "@), slot(": Fused（融合算子链: "@, "__OPS__"@, "）"@));
    end_is_part(t2, slot("class "@, "__CLS__"@, " "@));
    let t3 = t2 + slot("class "@, "__CLS__"@, " "@);
    part_stays(t3, FUSED_3@, slot(": Fused（融合算子链: "@, "__OPS__"@, "）"@));
    part_stays(t3, FUSED_3@, slot("class "@, "__CLS__"@, " "@));
    let t4 = t3 + FUSED_3@;
    part_stays(t4, slot(", TILE_LENGTH * sizeof("@, "__T__"@, ")"@), slot(": Fused（融合算子链: "@, "__OPS__"@, "）"@));
    part_stays(t4, slot(", TILE_LENGTH * sizeof("@, "__T__"@, ")"@), slot("class "@, "__CLS__"@, " "@));
    end_is_part(t4, slot(", TILE_LENGTH * sizeof("@, "__T__"@, ")"@));
    let t5 = t4 + slot(", TILE_LENGTH * sizeof("@, "__T__"@, ")"@);
    part_stays(t5, FUSED_4@, slot(": Fused（融合算子链: "@, "__OPS__"@, "）"@));
    part_stays(t5, FUSED_4@, slot("class "@, "__CLS__"@, " "@));
    part_stays(t5, FUSED_4@, slot(", TILE_LENGTH * sizeof("@, "__T__"@, ")"@));
    let t6 = t5 + FUSED_4@;
    part_stays(t6, slot("void "@, "__NAME__"@, "("@), slot(": Fused（融合算子链: "@, "__OPS__"@, "）"@));
    part_stays(t6, slot("void "@, "__NAME__"@, "("@), slot("class "@, "__CLS__"@, " "@));
    part_stays(t6, slot("void "@, "__NAME__"@, "("@), slot(", TILE_LENGTH * sizeof("@, "__T__"@, ")"@));
    end_is_part(t6, slot("void "@, "__NAME__"@, "("@));
    let t7 = t6 + slot("void "@, "__NAME__"@, "("@);
    part_stays(t7, FUSED_5@, slot(": Fused（融合算子链: "@, "__OPS__"@, "）"@));
    part_stays(t7, FUSED_5@, slot("class "@, "__CLS__"@, " "@));
    part_stays(t7, FUSED_5@, slot(", TILE_LENGTH * sizeof("@, "__T__"@, ")"@));
    part_stays(t7, FUSED_5@, slot("void "@, "__NAME__"@, "("@));
    let t8 = t7 + FUSED_5@;
}

/// The parts around tokens stand in the template.
pub proof fn return_holds_slots()
    ensures
        contains(return_template(), slot("class "@, "__CLS__"@, " "@)),
        contains(return_template(), slot(", TILE_LENGTH * sizeof("@, "__T__"@, ")"@)),
        contains(return_template(), slot("void "@, "__NAME__"@, "("@)),
{
    let t0 = RETURN_1@;
    end_is_part(t0, slot("class "@, "__CLS__"@, " "@));
    let t1 = t0 + slot("class "@, "__CLS__"@, " "@);
    part_stays(t1, RETURN_2@, slot("class "@, "__CLS__"@, " "@));
    let t2 = t1 + RETURN_2@;
    part_stays(t2, slot(", TILE_LENGTH * sizeof("@, "__T__"@, ")"@), slot("class "@, "__CLS__"@, " "@));
    end_is_part(t2, slot(", TILE_LENGTH * sizeof("@, "__T__"@, ")"@));
    let t3 = t2 + slot(", TILE_LENGTH * sizeof("@, "__T__"@, ")"@);
    part_stays(t3, RETURN_3@, slot("class "@, "__CLS__"@, " "@));
    part_stays(t3, RETURN_3@, slot(", TILE_LENGTH * sizeof("@, "__T__"@, ")"@));
    let t4 = t3 + RETURN_3@;
    part_stays(t4, slot("void "@, "__NAME__"@, "("@), slot("class "@, "__CLS__"@, " "@));
    part_stays(t4, slot("void "@, "__NAME__"@, "("@), slot(", TILE_LENGTH * sizeof("@, "__T__"@, ")"@));
    end_is_part(t4, slot("void "@, "__NAME__"@, "("@));
    let t5 = t4 + slot("void "@, "__NAME__"@, "("@);
    part_stays(t5, RETURN_4@, slot("class "@, "__CLS__"@, " "@));
    part_stays(t5, RETURN_4@, slot(", TILE_LENGTH * sizeof("@, "__T__"@, ")"@));
    part_stays(t5, RETURN_4@, slot("void "@, "__NAME__"@, "("@));
    let t6 = t5 + RETURN_4@;
}

/// The parts around tokens stand in the template.
pub proof fn placeholder_holds_slots()
    ensures
        contains(placeholder_template(), slot("class "@, "__CLS__"@, " "@)),
        contains(placeholder_template(), slot(", TILE_LENGTH * sizeof("@, "__T__"@, ")"@)),
        contains(placeholder_template(), slot("void "@, "__NAME__"@, "("@)),
{
    let t0 = PLACEHOLDER_1@;
    end_is_part(t0, slot("class "@, "__CLS__"@, " "@));
    let t1 = t0 + slot("class "@, "__CLS__"@, " "@);
    part_stays(t1, PLACEHOLDER_2@, slot("class "@, "__CLS__"@, " "@));
    let t2 = t1 + PLACEHOLDER_2@;
    part_stays(t2, slot(", TILE_LENGTH * sizeof("@, "__T__"@, ")"@), slot("class "@, "__CLS__"@, " "@));
    end_is_part(t2, slot(", TILE_LENGTH * sizeof("@, "__T__"@, ")"@));
    let t3 = t2 + slot(", TILE_LENGTH * sizeof("@, "__T__"@, ")"@);
    part_stays(t3, PLACEHOLDER_3@, slot("class "@, "__CLS__"@, " "@));
    part_stays(t3, PLACEHOLDER_3@, slot(", TILE_LENGTH * sizeof("@, "__T__"@, ")"@));
    let t4 = t3 + PLACEHOLDER_3@;
    part_stays(t4, slot("void "@, "__NAME__"@, "("@), slot("class "@, "__CLS__"@, " "@));
    part_stays(t4, slot("void "@, "__NAME__"@, "("@), slot(", TILE_LENGTH * sizeof("@, "__T__"@, ")"@));
    end_is_part(t4, slot("void "@, "__NAME__"@, "("@));
    let t5 = t4 + slot("void "@, "__NAME__"@, "("@);
    part_stays(t5, PLACEHOLDER_4@, slot("class "@, "__CLS__"@, " "@));
    part_stays(t5, PLACEHOLDER_4@, slot(", TILE_LENGTH * sizeof("@, "__T__"@, ")"@));
    part_stays(t5, PLACEHOLDER_4@, slot("void "@, "__NAME__"@, "("@));
    let t6 = t5 + PLACEHOLDER_4@;
}

/// The parts around tokens stand in the template.
pub proof fn constant_holds_slots()
    ensures
        contains(constant_template(), slot("class "@, "__CLS__"@, " "@)),
        contains(constant_template(), slot(", TILE_LENGTH * sizeof("@, "__T__"@, ")"@)),
        contains(constant_template(), slot(")"@, "__VAL__"@, ","@)),
        contains(constant_template(), slot("void "@, "__NAME__"@, "("@)),
{
    let t0 = CONSTANT_1@;
    end_is_part(t0, slot("class "@, "__CLS__"@, " "@));
    let t1 = t0 + slot("class "@, "__CLS__"@, " "@);
    part_stays(t1, CONSTANT_2@, slot("class "@, "__CLS__"@, " "@));
    let t2 = t1 + CONSTANT_2@;
    part_stays(t2, slot(", TILE_LENGTH * sizeof("@, "__T__"@, ")"@), slot("class "@, "__CLS__"@, " "@));
    end_is_part(t2, slot(", TILE_LENGTH * sizeof("@, "__T__"@, ")"@));
    let t3 = t2 + slot(", TILE_LENGTH * sizeof("@, "__T__"@, ")"@);
    part_stays(t3, CONSTANT_3@, slot("class "@, "__CLS__"@, " "@));
    part_stays(t3, CONSTANT_3@, slot(", TILE_LENGTH * sizeof("@, "__T__"@, ")"@));
    let t4 = t3 + CONSTANT_3@;
    part_stays(t4, slot(")"@, "__VAL__"@, ","@), slot("class "@, "__CLS__"@, " "@));
    part_stays(t4, slot(")"@, "__VAL__"@, ","@), slot(", TILE_LENGTH * sizeof("@, "__T__"@, ")"@));
    end_is_part(t4, slot(")"@, "__VAL__"@, ","@));
    let t5 = t4 + slot(")"@, "__VAL__"@, ","@);
    part_stays(t5, CONSTANT_4@, slot("class "@, "__CLS__"@, " "@));
    part_stays(t5, CONSTANT_4@, slot(", TILE_LENGTH * sizeof("@, "__T__"@, ")"@));
    part_stays(t5, CONSTANT_4@, slot(")"@, "__VAL__"@, ","@));
    let t6 = t5 + CONSTANT_4@;
    part_stays(t6, slot("void "@, "__NAME__"@, "("@), slot("class "@, "__CLS__"@, " "@));
    part_stays(t6, slot("void "@, "__NAME__"@, "("@), slot(", TILE_LENGTH * sizeof("@, "__T__"@, ")"@));
    part_stays(t6, slot("void "@, "__NAME__"@, "("@), slot(")"@, "__VAL__"@, ","@));
    end_is_part(t6, slot("void "@, "__NAME__"@, "("@));
    let t7 = t6 + slot("void "@, "__NAME__"@, "("@);
    part_stays(t7, CONSTANT_5@, slot("class "@, "__CLS__"@, " "@));
    part_stays(t7, CONSTANT_5@, slot(", TILE_LENGTH * sizeof("@, "__T__"@, ")"@));
    part_stays(t7, CONSTANT_5@, slot(")"@, "__VAL__"@, ","@));
    part_stays(t7, CONSTANT_5@, slot("void "@, "__NAME__"@, "("@));
    let t8 = t7 + CONSTANT_5@;
}

/// The parts around tokens stand in the template.
pub proof fn slice_holds_slots()
    ensures
        contains(slice_template(), slot("class "@, "__CLS__"@, " "@)),
        contains(slice_template(), slot("pe.InitBuffer(inBuf, sizeof("@, "__T__"@, ")"@)),
        contains(slice_template(), slot("void "@, "__NAME__"@, "("@)),
{
    let t0 = SLICE_1@;
    end_is_part(t0, slot("class "@, "__CLS__"@, " "@));
    let t1 = t0 + slot("class "@, "__CLS__"@, " "@);
    part_stays(t1, SLICE_2@, slot("class "@, "__CLS__"@, " "@));
    let t2 = t1 + SLICE_2@;
    part_stays(t2, slot("pe.InitBuffer(inBuf, sizeof("@, "__T__"@, ")"@), slot("class "@, "__CLS__"@, " "@));
    end_is_part(t2, slot("pe.InitBuffer(inBuf, sizeof("@, "__T__"@, ")"@));
    let t3 = t2 + slot("pe.InitBuffer(inBuf, sizeof("@, "__T__"@, ")"@);
    part_stays(t3, SLICE_3@, slot("class "@, "__CLS__"@, " "@));
    part_stays(t3, SLICE_3@, slot("pe.InitBuffer(inBuf, sizeof("@, "__T__"@, ")"@));
    let t4 = t3 + SLICE_3@;
    part_stays(t4, slot("void "@, "__NAME__"@, "("@), slot("class "@, "__CLS__"@, " "@));
    part_stays(t4, slot("void "@, "__NAME__"@, "("@), slot("pe.InitBuffer(inBuf, sizeof("@, "__T__"@, ")"@));
    end_is_part(t4, slot("void "@, "__NAME__"@, "("@));
    let t5 = t4 + slot("void "@, "__NAME__"@, "("@);
    part_stays(t5, SLICE_4@, slot("class "@, "__CLS__"@, " "@));
    part_stays(t5, SLICE_4@, slot("pe.InitBuffer(inBuf, sizeof("@, "__T__"@, ")"@));
    part_stays(t5, SLICE_4@, slot("void "@, "__NAME__"@, "("@));
    let t6 = t5 + SLICE_4@;
}

/// The parts around tokens stand in the template.
pub proof fn concat_holds_slots()
    ensures
        contains(concat_template(), slot("// 注: 通用版支持 "@, "__N_INPUTS__"@, " "@)),
        contains(concat_template(), slot("class "@, "__CLS__"@, " "@)),
        contains(concat_template(), slot("utBuf, TILE_LENGTH * sizeof("@, "__T__"@, ")"@)),
        contains(concat_template(), slot("void "@, "__NAME__"@, "("@)),
{
    let t0 = CONCAT_1@;
    end_is_part(t0, slot("// 注: 通用版支持 "@, "__N_INPUTS__"@, " "@));
    let t1 = t0 + slot("// 注: 通用版支持 "@, "__N_INPUTS__"@, " "@);
    part_stays(t1, CONCAT_2@, slot("// 注: 通用版支持 "@, "__N_INPUTS__"@, " "@));
    let t2 = t1 + CONCAT_2@;
    part_stays(t2, slot("class "@, "__CLS__"@, " "@), slot("// 注: 通用版支持 "@, "__N_INPUTS__"@, " "@));
    end_is_part(t2, slot("class "@, "__CLS__"@, " "@));
    let t3 = t2 + slot("class "@, "__CLS__"@, " "@);
    part_stays(t3, CONCAT_3@, slot("// 注: 通用版支持 "@, "__N_INPUTS__"@, " "@));
    part_stays(t3, CONCAT_3@, slot("class "@, "__CLS__"@, " "@));
    let t4 = t3 + CONCAT_3@;
    part_stays(t4, slot("utBuf, TILE_LENGTH * sizeof("@, "__T__"@, ")"@), slot("// 注: 通用版支持 "@, "__N_INPUTS__"@, " "@));
    part_stays(t4, slot("utBuf, TILE_LENGTH * sizeof("@, "__T__"@, ")"@), slot("class "@, "__CLS__"@, " "@));
    end_is_part(t4, slot("utBuf, TILE_LENGTH * sizeof("@, "__T__"@, ")"@));
    let t5 = t4 + slot("utBuf, TILE_LENGTH * sizeof("@, "__T__"@, ")"@);
    part_stays(t5, CONCAT_4@, slot("// 注: 通用版支持 "@, "__N_INPUTS__"@, " "@));
    part_stays(t5, CONCAT_4@, slot("class "@, "__CLS__"@, " "@));
    part_stays(t5, CONCAT_4@, slot("utBuf, TILE_LENGTH * sizeof("@, "__T__"@, ")"@));
    let t6 = t5 + CONCAT_4@;
    part_stays(t6, slot("void "@, "__NAME__"@, "("@), slot("// 注: 通用版支持 "@, "__N_INPUTS__"@, " "@));
    part_stays(t6, slot("void "@, "__NAME__"@, "("@), slot("class "@, "__CLS__"@, " "@));
    part_stays(t6, slot("void "@, "__NAME__"@, "("@), slot("utBuf, TILE_LENGTH * sizeof("@, "__T__"@, ")"@));
    end_is_part(t6, slot("void "@, "__NAME__"@, "("@));
    let t7 = t6 + slot("void "@, "__NAME__"@, "("@);
    part_stays(t7, CONCAT_5@, slot("// 注: 通用版支持 "@, "__N_INPUTS__"@, " "@));
    part_stays(t7, CONCAT_5@, slot("class "@, "__CLS__"@, " "@));
    part_stays(t7, CONCAT_5@, slot("utBuf, TILE_LENGTH * sizeof("@, "__T__"@, ")"@));
    part_stays(t7, CONCAT_5@, slot("void "@, "__NAME__"@, "("@));
    let t8 = t7 + CONCAT_5@;
}

/// The parts around tokens stand in the template.
pub proof fn transpose_holds_slots()
    ensures
        contains(transpose_template(), slot("class "@, "__CLS__"@, " "@)),
        contains(transpose_template(), slot("inBuf, TILE_LENGTH * sizeof("@, "__T__"@, ")"@)),
        contains(transpose_template(), slot("void "@, "__NAME__"@, "("@)),
{
    let t0 = TRANSPOSE_1@;
    end_is_part(t0, slot("class "@, "__CLS__"@, " "@));
    let t1 = t0 + slot("class "@, "__CLS__"@, " "@);
    part_stays(t1, TRANSPOSE_2@, slot("class "@, "__CLS__"@, " "@));
    let t2 = t1 + TRANSPOSE_2@;
    part_stays(t2, slot("inBuf, TILE_LENGTH * sizeof("@, "__T__"@, ")"@), slot("class "@, "__CLS__"@, " "@));
    end_is_part(t2, slot("inBuf, TILE_LENGTH * sizeof("@, "__T__"@, ")"@));
    let t3 = t2 + slot("inBuf, TILE_LENGTH * sizeof("@, "__T__"@, ")"@);
    part_stays(t3, TRANSPOSE_3@, slot("class "@, "__CLS__"@, " "@));
    part_stays(t3, TRANSPOSE_3@, slot("inBuf, TILE_LENGTH * sizeof("@, "__T__"@, ")"@));
    let t4 = t3 + TRANSPOSE_3@;
    part_stays(t4, slot("void "@, "__NAME__"@, "("@), slot("class "@, "__CLS__"@, " "@));
    part_stays(t4, slot("void "@, "__NAME__"@, "("@), slot("inBuf, TILE_LENGTH * sizeof("@, "__T__"@, ")"@));
    end_is_part(t4, slot("void "@, "__NAME__"@, "("@));
    let t5 = t4 + slot("void "@, "__NAME__"@, "("@);
    part_stays(t5, TRANSPOSE_4@, slot("class "@, "__CLS__"@, " "@));
    part_stays(t5, TRANSPOSE_4@, slot("inBuf, TILE_LENGTH * sizeof("@, "__T__"@, ")"@));
    part_stays(t5, TRANSPOSE_4@, slot("void "@, "__NAME__"@, "("@));
    let t6 = t5 + TRANSPOSE_4@;
}

/// The parts around tokens stand in the template.
pub proof fn reshape_holds_slots()
    ensures
        contains(reshape_template(), slot("class "@, "__CLS__"@, " "@)),
        contains(reshape_template(), slot(", TILE_LENGTH * sizeof("@, "__T__"@, ")"@)),
        contains(reshape_template(), slot("void "@, "__NAME__"@, "("@)),
{
    let t0 = RESHAPE_1@;
    end_is_part(t0, slot("class "@, "__CLS__"@, " "@));
    let t1 = t0 + slot("class "@, "__CLS__"@, " "@);
    part_stays(t1, RESHAPE_2@, slot("class "@, "__CLS__"@, " "@));
    let t2 = t1 + RESHAPE_2@;
    part_stays(t2, slot(", TILE_LENGTH * sizeof("@, "__T__"@, ")"@), slot("class "@, "__CLS__"@, " "@));
    end_is_part(t2, slot(", TILE_LENGTH * sizeof("@, "__T__"@, ")"@));
    let t3 = t2 + slot(", TILE_LENGTH * sizeof("@, "__T__"@, ")"@);
    part_stays(t3, RESHAPE_3@, slot("class "@, "__CLS__"@, " "@));
    part_stays(t3, RESHAPE_3@, slot(", TILE_LENGTH * sizeof("@, "__T__"@, ")"@));
    let t4 = t3 + RESHAPE_3@;
    part_stays(t4, slot("void "@, "__NAME__"@, "("@), slot("class "@, "__CLS__"@, " "@));
    part_stays(t4, slot("void "@, "__NAME__"@, "("@), slot(", TILE_LENGTH * sizeof("@, "__T__"@, ")"@));
    end_is_part(t4, slot("void "@, "__NAME__"@, "("@));
    let t5 = t4 + slot("void "@, "__NAME__"@, "("@);
    part_stays(t5, RESHAPE_4@, slot("class "@, "__CLS__"@, " "@));
    part_stays(t5, RESHAPE_4@, slot(", TILE_LENGTH * sizeof("@, "__T__"@, ")"@));
    part_stays(t5, RESHAPE_4@, slot("void "@, "__NAME__"@, "("@));
    let t6 = t5 + RESHAPE_4@;
}

/// The parts around tokens stand in the template.
pub proof fn pool_holds_slots()
    ensures
        contains(pool_template(), slot("class "@, "__CLS__"@, " "@)),
        contains(pool_template(), slot("void "@, "__NAME__"@, "("@)),
{
    let t0 = POOL_1@;
    end_is_part(t0, slot("class "@, "__CLS__"@, " "@));
    let t1 = t0 + slot("class "@, "__CLS__"@, " "@);
    part_stays(t1, POOL_2@, slot("class "@, "__CLS__"@, " "@));
    let t2 = t1 + POOL_2@;
    part_stays(t2, slot("void "@, "__NAME__"@, "("@), slot("class "@, "__CLS__"@, " "@));
    end_is_part(t2, slot("void "@, "__NAME__"@, "("@));
    let t3 = t2 + slot("void "@, "__NAME__"@, "("@);
    part_stays(t3, POOL_3@, slot("class "@, "__CLS__"@, " "@));
    part_stays(t3, POOL_3@, slot("void "@, "__NAME__"@, "("@));
    let t4 = t3 + POOL_3@;
}

/// The parts around tokens stand in the template.
pub proof fn conv_holds_slots()
    ensures
        contains(conv_template(), slot("class "@, "__CLS__"@, " "@)),
        contains(conv_template(), slot("void "@, "__NAME__"@, "("@)),
{
    let t0 = CONV_1@;
    end_is_part(t0, slot("class "@, "__CLS__"@, " "@));
    let t1 = t0 + slot("class "@, "__CLS__"@, " "@);
    part_stays(t1, CONV_2@, slot("class "@, "__CLS__"@, " "@));
    let t2 = t1 + CONV_2@;
    part_stays(t2, slot("void "@, "__NAME__"@, "("@), slot("class "@, "__CLS__"@, " "@));
    end_is_part(t2, slot("void "@, "__NAME__"@, "("@));
    let t3 = t2 + slot("void "@, "__NAME__"@, "("@);
    part_stays(t3, CONV_3@, slot("class "@, "__CLS__"@, " "@));
    part_stays(t3, CONV_3@, slot("void "@, "__NAME__"@, "("@));
    let t4 = t3 + CONV_3@;
}

/// The parts around tokens stand in the template.
pub proof fn layernorm_holds_slots()
    ensures
        contains(layernorm_template(), slot("class "@, "__CLS__"@, " "@)),
        contains(layernorm_template(), slot(" Duplicate(epsT, (float)"@, "__EPS__"@, ","@)),
        contains(layernorm_template(), slot("void "@, "__NAME__"@, "("@)),
{
    let t0 = LAYERNORM_1@;
    end_is_part(t0, slot("class "@, "__CLS__"@, " "@));
    let t1 = t0 + slot("class "@, "__CLS__"@, " "@);
    part_stays(t1, LAYERNORM_2@, slot("class "@, "__CLS__"@, " "@));
    let t2 = t1 + LAYERNORM_2@;
    part_stays(t2, slot(" Duplicate(epsT, (float)"@, "__EPS__"@, ","@), slot("class "@, "__CLS__"@, " "@));
    end_is_part(t2, slot(" Duplicate(epsT, (float)"@, "__EPS__"@, ","@));
    let t3 = t2 + slot(" Duplicate(epsT, (float)"@, "__EPS__"@, ","@);
    part_stays(t3, LAYERNORM_3@, slot("class "@, "__CLS__"@, " "@));
    part_stays(t3, LAYERNORM_3@, slot(" Duplicate(epsT, (float)"@, "__EPS__"@, ","@));
    let t4 = t3 + LAYERNORM_3@;
    part_stays(t4, slot("void "@, "__NAME__"@, "("@), slot("class "@, "__CLS__"@, " "@));
    part_stays(t4, slot("void "@, "__NAME__"@, "("@), slot(" Duplicate(epsT, (float)"@, "__EPS__"@, ","@));
    end_is_part(t4, slot("void "@, "__NAME__"@, "("@));
    let t5 = t4 + slot("void "@, "__NAME__"@, "("@);
    part_stays(t5, LAYERNORM_4@, slot("class "@, "__CLS__"@, " "@));
    part_stays(t5, LAYERNORM_4@, slot(" Duplicate(epsT, (float)"@, "__EPS__"@, ","@));
    part_stays(t5, LAYERNORM_4@, slot("void "@, "__NAME__"@, "("@));
    let t6 = t5 + LAYERNORM_4@;
}

/// The parts around tokens stand in the template.
pub proof fn softmax_holds_slots()
    ensures
        contains(softmax_template(), slot("class "@, "__CLS__"@, " "@)),
        contains(softmax_template(), slot("void "@, "__NAME__"@, "("@)),
{
    let t0 = SOFTMAX_1@;
    end_is_part(t0, slot("class "@, "__CLS__"@, " "@));
    let t1 = t0 + slot("class "@, "__CLS__"@, " "@);
    part_stays(t1, SOFTMAX_2@, slot("class "@, "__CLS__"@, " "@));
    let t2 = t1 + SOFTMAX_2@;
    part_stays(t2, slot("void "@, "__NAME__"@, "("@), slot("class "@, "__CLS__"@, " "@));
    end_is_part(t2, slot("void "@, "__NAME__"@, "("@));
    let t3 = t2 + slot("void "@, "__NAME__"@, "("@);
    part_stays(t3, SOFTMAX_3@, slot("class "@, "__CLS__"@, " "@));
    part_stays(t3, SOFTMAX_3@, slot("void "@, "__NAME__"@, "("@));
    let t4 = t3 + SOFTMAX_3@;
}

/// The parts around tokens stand in the template.
pub proof fn matmul_holds_slots()
    ensures
        contains(matmul_template(), slot("class "@, "__CLS__"@, " "@)),
        contains(matmul_template(), slot("void "@, "__NAME__"@, "("@)),
{
    let t0 = MATMUL_1@;
    end_is_part(t0, slot("class "@, "__CLS__"@, " "@));
    let t1 = t0 + slot("class "@, "__CLS__"@, " "@);
    part_stays(t1, MATMUL_2@, slot("class "@, "__CLS__"@, " "@));
    let t2 = t1 + MATMUL_2@;
    part_stays(t2, slot("void "@, "__NAME__"@, "("@), slot("class "@, "__CLS__"@, " "@));
    end_is_part(t2, slot("void "@, "__NAME__"@, "("@));
    let t3 = t2 + slot("void "@, "__NAME__"@, "("@);
    part_stays(t3, MATMUL_3@, slot("class "@, "__CLS__"@, " "@));
    part_stays(t3, MATMUL_3@, slot("void "@, "__NAME__"@, "("@));
    let t4 = t3 + MATMUL_3@;
}

/// The parts around tokens stand in the template.
pub proof fn reduce_holds_slots()
    ensures
        contains(reduce_template(), slot("class "@, "__CLS__"@, " "@)),
        contains(reduce_template(), slot(", TILE_LENGTH * sizeof("@, "__T__"@, ")"@)),
        contains(reduce_template(), slot("void "@, "__NAME__"@, "("@)),
{
    let t0 = REDUCE_1@;
    end_is_part(t0, slot("class "@, "__CLS__"@, " "@));
    let t1 = t0 + slot("class "@, "__CLS__"@, " "@);
    part_stays(t1, REDUCE_2@, slot("class "@, "__CLS__"@, " "@));
    let t2 = t1 + REDUCE_2@;
    part_stays(t2, slot(", TILE_LENGTH * sizeof("@, "__T__"@, ")"@), slot("class "@, "__CLS__"@, " "@));
    end_is_part(t2, slot(", TILE_LENGTH * sizeof("@, "__T__"@, ")"@));
    let t3 = t2 + slot(", TILE_LENGTH * sizeof("@, "__T__"@, ")"@);
    part_stays(t3, REDUCE_3@, slot("class "@, "__CLS__"@, " "@));
    part_stays(t3, REDUCE_3@, slot(", TILE_LENGTH * sizeof("@, "__T__"@, ")"@));
    let t4 = t3 + REDUCE_3@;
    part_stays(t4, slot("void "@, "__NAME__"@, "("@), slot("class "@, "__CLS__"@, " "@));
    part_stays(t4, slot("void "@, "__NAME__"@, "("@), slot(", TILE_LENGTH * sizeof("@, "__T__"@, ")"@));
    end_is_part(t4, slot("void "@, "__NAME__"@, "("@));
    let t5 = t4 + slot("void "@, "__NAME__"@, "("@);
    part_stays(t5, REDUCE_4@, slot("class "@, "__CLS__"@, " "@));
    part_stays(t5, REDUCE_4@, slot(", TILE_LENGTH * sizeof("@, "__T__"@, ")"@));
    part_stays(t5, REDUCE_4@, slot("void "@, "__NAME__"@, "("@));
    let t6 = t5 + REDUCE_4@;
}

/// The parts around tokens stand in the template.
pub proof fn elem_unary_holds_slots()
    ensures
        contains(elem_unary_template(), slot("class "@, "__CLS__"@, " "@)),
        contains(elem_unary_template(), slot(", TILE_LENGTH * sizeof("@, "__T__"@, ")"@)),
        contains(elem_unary_template(), slot("void "@, "__NAME__"@, "("@)),
{
    let t0 = ELEM_UNARY_1@;
    end_is_part(t0, slot("class "@, "__CLS__"@, " "@));
    let t1 = t0 + slot("class "@, "__CLS__"@, " "@);
    part_stays(t1, ELEM_UNARY_2@, slot("class "@, "__CLS__"@, " "@));
    let t2 = t1 + ELEM_UNARY_2@;
    part_stays(t2, slot(", TILE_LENGTH * sizeof("@, "__T__"@, ")"@), slot("class "@, "__CLS__"@, " "@));
    end_is_part(t2, slot(", TILE_LENGTH * sizeof("@, "__T__"@, ")"@));
    let t3 = t2 + slot(", TILE_LENGTH * sizeof("@, "__T__"@, ")"@);
    part_stays(t3, ELEM_UNARY_3@, slot("class "@, "__CLS__"@, " "@));
    part_stays(t3, ELEM_UNARY_3@, slot(", TILE_LENGTH * sizeof("@, "__T__"@, ")"@));
    let t4 = t3 + ELEM_UNARY_3@;
    part_stays(t4, slot("void "@, "__NAME__"@, "("@), slot("class "@, "__CLS__"@, " "@));
    part_stays(t4, slot("void "@, "__NAME__"@, "("@), slot(", TILE_LENGTH * sizeof("@, "__T__"@, ")"@));
    end_is_part(t4, slot("void "@, "__NAME__"@, "("@));
    let t5 = t4 + slot("void "@, "__NAME__"@, "("@);
    part_stays(t5, ELEM_UNARY_4@, slot("class "@, "__CLS__"@, " "@));
    part_stays(t5, ELEM_UNARY_4@, slot(", TILE_LENGTH * sizeof("@, "__T__"@, ")"@));
    part_stays(t5, ELEM_UNARY_4@, slot("void "@, "__NAME__"@, "("@));
    let t6 = t5 + ELEM_UNARY_4@;
}

/// The parts around tokens stand in the template.
pub proof fn elem_binary_holds_slots()
    ensures
        contains(elem_binary_template(), slot("class "@, "__CLS__"@, " "@)),
        contains(elem_binary_template(), slot(", TILE_LENGTH * sizeof("@, "__T__"@, ")"@)),
        contains(elem_binary_template(), slot("void "@, "__NAME__"@, "("@)),
{
    let t0 = ELEM_BINARY_1@;
    end_is_part(t0, slot("class "@, "__CLS__"@, " "@));
    let t1 = t0 + slot("class "@, "__CLS__"@, " "@);
    part_stays(t1, ELEM_BINARY_2@, slot("class "@, "__CLS__"@, " "@));
    let t2 = t1 + ELEM_BINARY_2@;
    part_stays(t2, slot(", TILE_LENGTH * sizeof("@, "__T__"@, ")"@), slot("class "@, "__CLS__"@, " "@));
    end_is_part(t2, slot(", TILE_LENGTH * sizeof("@, "__T__"@, ")"@));
    let t3 = t2 + slot(", TILE_LENGTH * sizeof("@, "__T__"@, ")"@);
    part_stays(t3, ELEM_BINARY_3@, slot("class "@, "__CLS__"@, " "@));
    part_stays(t3, ELEM_BINARY_3@, slot(", TILE_LENGTH * sizeof("@, "__T__"@, ")"@));
    let t4 = t3 + ELEM_BINARY_3@;
    part_stays(t4, slot("void "@, "__NAME__"@, "("@), slot("class "@, "__CLS__"@, " "@));
    part_stays(t4, slot("void "@, "__NAME__"@, "("@), slot(", TILE_LENGTH * sizeof("@, "__T__"@, ")"@));
    end_is_part(t4, slot("void "@, "__NAME__"@, "("@));
    let t5 = t4 + slot("void "@, "__NAME__"@, "("@);
    part_stays(t5, ELEM_BINARY_4@, slot("class "@, "__CLS__"@, " "@));
    part_stays(t5, ELEM_BINARY_4@, slot(", TILE_LENGTH * sizeof("@, "__T__"@, ")"@));
    part_stays(t5, ELEM_BINARY_4@, slot("void "@, "__NAME__"@, "("@));
    let t6 = t5 + ELEM_BINARY_4@;
}

} // verus!
