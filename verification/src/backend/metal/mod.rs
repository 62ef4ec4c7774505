//! Metal Shading Language source.

pub mod laws;
pub mod templates;

use vstd::prelude::*;
use crate::base::{NeutronError, OpKind};
use crate::lisp::{Floats, Outcome};
use crate::backend::dialect::{
    Dialect, Template, all_accepted, at_least_two, chain, chain_of, emit_in, emitted, name_or_unknown,
    named_or_unknown,
};
use crate::backend::spec::{
    BackendOutput, DTypeExt, GpuArch, KernelModel, KernelSpec, SourceLang, kernel_models,
};
use crate::text::{dec, dec_string, push_dec, replace_all};
use self::templates::{
    APPLE_NOTES, HEADER, LAUNCHERS, OTHER_NOTES, PRELUDE, concat_source, concat_template,
    constant_source, constant_template, conv_source, conv_template, custom_source,
    custom_template, elem_binary_source, elem_binary_template, elem_unary_source,
    elem_unary_template, fused_source, fused_template, layernorm_source, layernorm_template,
    matmul_source, matmul_template, placeholder_source, placeholder_template, pool_source,
    pool_template, reduce_source, reduce_template, reshape_source, reshape_template,
    return_source, return_template, slice_source, slice_template, softmax_source,
    softmax_template, transpose_source, transpose_template,
};

verus! {

/// Generates Metal source: a kernel for each node, and how it is launched.
pub fn emit(kernels: &[KernelSpec], arch: GpuArch, floats: &mut Floats) -> (r: Outcome<
    BackendOutput,
    NeutronError,
>)
    requires
        all_accepted::<Metal>(kernel_models(kernels@)),
    ensures
        (r@, final(floats)@) == emitted::<Metal>(kernel_models(kernels@), arch, old(floats)@),
{
    emit_in::<Metal>(kernels, arch, floats)
}

/// Metal Shading Language.
pub struct Metal;

impl Dialect for Metal {
    open spec fn language() -> SourceLang {
        SourceLang::Metal
    }

    open spec fn epsilon_digits() -> Option<u32> {
        None
    }

    open spec fn accepts(k: KernelModel) -> bool {
        k.fits()
    }

    open spec fn opening(arch: GpuArch, count: nat) -> Seq<char> {
        header_text(arch, count)
    }

    open spec fn kernel(k: KernelModel, scalar: Seq<char>, arch: GpuArch) -> Seq<char> {
        kernel_text(k, scalar, arch)
    }

    open spec fn launch_opening() -> Seq<char> {
        LAUNCHERS@
    }

    open spec fn launcher(k: KernelModel, scalar: Seq<char>, arch: GpuArch) -> Seq<char> {
        launcher_text(k, scalar, arch)
    }

    proof fn accepted_fits(k: KernelModel) {
    }

    fn lang() -> (r: SourceLang) {
        SourceLang::Metal
    }

    fn digits() -> (r: Option<u32>) {
        None
    }

    fn make_header(arch: GpuArch, count: usize) -> (r: String) {
        make_header(arch, count)
    }

    fn make_kernel(k: &KernelSpec, scalar: &str, arch: GpuArch) -> (r: String) {
        make_kernel(k, scalar, arch)
    }

    fn make_launch_header() -> (r: String) {
        LAUNCHERS.to_owned()
    }

    fn make_launcher(k: &KernelSpec, scalar: &str, arch: GpuArch) -> (r: String) {
        make_launcher(k, arch)
    }
}

/// What a file begins with.
pub open spec fn header_text(arch: GpuArch, count: nat) -> Seq<char> {
    HEADER@
        + arch.label()
        + " ("@
        + dec(count)
        + " 个 kernel)\n// 生成器: backend::metal::emit\n"@
        + (if arch.apple() {
        APPLE_NOTES@
    } else {
        OTHER_NOTES@
    }) + PRELUDE@
}

fn make_header(arch: GpuArch, count: usize) -> (r: String)
    ensures
        r@ == header_text(arch, count as nat),
{
    let mut s = HEADER.to_owned();
    s.append(arch.name());
    s.append(" (");
    push_dec(&mut s, count as u64);
    s.append(" 个 kernel)\n// 生成器: backend::metal::emit\n");
    if arch.has_simdgroup() {
        s.append(APPLE_NOTES);
    } else {
        s.append(OTHER_NOTES);
    }
    s.append(PRELUDE);
    s
}

/// How a kernel is launched.
pub open spec fn launcher_text(k: KernelModel, scalar: Seq<char>, arch: GpuArch) -> Seq<char> {
    "// launch_"@
        + k.name
        + ": grid=("@
        + dec(k.launched(arch).grid.0 as nat)
        + ", "@
        + dec(k.launched(arch).grid.1 as nat)
        + ", "@
        + dec(k.launched(arch).grid.2 as nat)
        + "), block=("@
        + dec(k.launched(arch).block.0 as nat)
        + ", "@
        + dec(k.launched(arch).block.1 as nat)
        + ", "@
        + dec(k.launched(arch).block.2 as nat)
        + "), threadgroup memory="@
        + dec(k.launched(arch).shared_mem as nat)
        + " bytes\n"@
}

fn make_launcher(k: &KernelSpec, arch: GpuArch) -> (r: String)
    requires
        k@.fits(),
    ensures
        forall|scalar: Seq<char>| r@ == #[trigger] launcher_text(k@, scalar, arch),
{
    let l = k.launch(arch);
    let mut s = "// launch_".to_owned();
    s.append(k.name.as_str());
    s.append(": grid=(");
    push_dec(&mut s, l.grid.0 as u64);
    s.append(", ");
    push_dec(&mut s, l.grid.1 as u64);
    s.append(", ");
    push_dec(&mut s, l.grid.2 as u64);
    s.append("), block=(");
    push_dec(&mut s, l.block.0 as u64);
    s.append(", ");
    push_dec(&mut s, l.block.1 as u64);
    s.append(", ");
    push_dec(&mut s, l.block.2 as u64);
    s.append("), threadgroup memory=");
    push_dec(&mut s, l.shared_mem as u64);
    s.append(" bytes\n");
    s
}

/// The source of a kernel.
pub open spec fn kernel_text(k: KernelModel, scalar: Seq<char>, arch: GpuArch) -> Seq<char> {
    match k.op {
        OpKind::Add => elem_binary_text(k, "c[tid] = a[tid] + b[tid];"@),
        OpKind::Sub => elem_binary_text(k, "c[tid] = a[tid] - b[tid];"@),
        OpKind::Mul => elem_binary_text(k, "c[tid] = a[tid] * b[tid];"@),
        OpKind::Div => elem_binary_text(k, "c[tid] = a[tid] / b[tid];"@),
        OpKind::Pow => elem_binary_text(k, "c[tid] = pow(a[tid], b[tid]);"@),
        OpKind::Relu => elem_unary_text(k, "max(x, 0.0f)"@),
        OpKind::Gelu => elem_unary_text(
            k,
            "0.5f * x * (1.0f + tanh(0.7978845608f * (x + 0.044715f * x*x*x)))"@,
        ),
        OpKind::Sigmoid => elem_unary_text(k, "1.0f / (1.0f + exp(-x))"@),
        OpKind::Tanh => elem_unary_text(k, "tanh(x)"@),
        OpKind::Sqrt => elem_unary_text(k, "sqrt(x)"@),
        OpKind::Exp => elem_unary_text(k, "exp(x)"@),
        OpKind::Log => elem_unary_text(k, "log(x)"@),
        OpKind::Rsqrt => elem_unary_text(k, "rsqrt(x)"@),
        OpKind::Reciprocal => elem_unary_text(k, "1.0f / x"@),
        OpKind::Abs => elem_unary_text(k, "abs(x)"@),
        OpKind::ReduceSum => reduce_kernel_text(
            k,
            "0.0f"@,
            "shared[tid] = shared[tid] + shared[tid + s];"@,
            "if (tid == 0) output[bid] = shared[0];\n"@,
        ),
        OpKind::ReduceMean => reduce_kernel_text(
            k,
            "0.0f"@,
            "shared[tid] = shared[tid] + shared[tid + s];"@,
            "if (tid == 0) output[bid] = shared[0] / (float)N;\n"@,
        ),
        OpKind::ReduceMax => reduce_kernel_text(
            k,
            "-INFINITY"@,
            "shared[tid] = max(shared[tid], shared[tid + s]);"@,
            "if (tid == 0) output[bid] = shared[0];\n"@,
        ),
        OpKind::MatMul => matmul_kernel_text(k, arch),
        OpKind::Softmax => softmax_kernel_text(k),
        OpKind::LayerNorm => layernorm_kernel_text(k, scalar),
        OpKind::Conv => conv_kernel_text(k),
        OpKind::Pool => pool_kernel_text(k),
        OpKind::Reshape => reshape_kernel_text(k),
        OpKind::Transpose => transpose_kernel_text(k),
        OpKind::Concat => concat_kernel_text(k),
        OpKind::Slice => slice_kernel_text(k),
        OpKind::Constant => constant_kernel_text(k, scalar),
        OpKind::Placeholder => placeholder_kernel_text(k),
        OpKind::Return => return_kernel_text(k),
        OpKind::Fused => fused_kernel_text(k),
        OpKind::Custom => custom_kernel_text(k),
    }
}

fn make_kernel(k: &KernelSpec, scalar: &str, arch: GpuArch) -> (r: String)
    ensures
        r@ == kernel_text(k@, scalar@, arch),
{
    match k.op {
        OpKind::Add => elem_binary(k, "c[tid] = a[tid] + b[tid];"),
        OpKind::Sub => elem_binary(k, "c[tid] = a[tid] - b[tid];"),
        OpKind::Mul => elem_binary(k, "c[tid] = a[tid] * b[tid];"),
        OpKind::Div => elem_binary(k, "c[tid] = a[tid] / b[tid];"),
        OpKind::Pow => elem_binary(k, "c[tid] = pow(a[tid], b[tid]);"),
        OpKind::Relu => elem_unary(k, "max(x, 0.0f)"),
        OpKind::Gelu => elem_unary(
            k,
            "0.5f * x * (1.0f + tanh(0.7978845608f * (x + 0.044715f * x*x*x)))",
        ),
        OpKind::Sigmoid => elem_unary(k, "1.0f / (1.0f + exp(-x))"),
        OpKind::Tanh => elem_unary(k, "tanh(x)"),
        OpKind::Sqrt => elem_unary(k, "sqrt(x)"),
        OpKind::Exp => elem_unary(k, "exp(x)"),
        OpKind::Log => elem_unary(k, "log(x)"),
        OpKind::Rsqrt => elem_unary(k, "rsqrt(x)"),
        OpKind::Reciprocal => elem_unary(k, "1.0f / x"),
        OpKind::Abs => elem_unary(k, "abs(x)"),
        OpKind::ReduceSum => reduce_kernel(
            k,
            "0.0f",
            "shared[tid] = shared[tid] + shared[tid + s];",
            "if (tid == 0) output[bid] = shared[0];\n",
        ),
        OpKind::ReduceMean => reduce_kernel(
            k,
            "0.0f",
            "shared[tid] = shared[tid] + shared[tid + s];",
            "if (tid == 0) output[bid] = shared[0] / (float)N;\n",
        ),
        OpKind::ReduceMax => reduce_kernel(
            k,
            "-INFINITY",
            "shared[tid] = max(shared[tid], shared[tid + s]);",
            "if (tid == 0) output[bid] = shared[0];\n",
        ),
        OpKind::MatMul => matmul_kernel(k, arch),
        OpKind::Softmax => softmax_kernel(k),
        OpKind::LayerNorm => layernorm_kernel(k, scalar),
        OpKind::Conv => conv_kernel(k),
        OpKind::Pool => pool_kernel(k),
        OpKind::Reshape => reshape_kernel(k),
        OpKind::Transpose => transpose_kernel(k),
        OpKind::Concat => concat_kernel(k),
        OpKind::Slice => slice_kernel(k),
        OpKind::Constant => constant_kernel(k, scalar),
        OpKind::Placeholder => placeholder_kernel(k),
        OpKind::Return => return_kernel(k),
        OpKind::Fused => fused_kernel(k),
        OpKind::Custom => custom_kernel(k),
    }
}

/// A remark on the architecture.
pub open spec fn matmul_note(arch: GpuArch) -> Seq<char> {
    if arch.apple() {
        "// "@ + arch.label() + " — Apple GPU simdgroup_matrix 8x8 矩阵乘法单元"@
    } else {
        "// "@ + arch.label() + " — Metal 主要面向 Apple GPU，仍使用 simdgroup 8x8 矩阵乘法"@
    }
}

fn make_matmul_note(arch: GpuArch) -> (r: String)
    ensures
        r@ == matmul_note(arch),
{
    let mut s = "// ".to_owned();
    s.append(arch.name());
    if arch.has_simdgroup() {
        s.append(" — Apple GPU simdgroup_matrix 8x8 矩阵乘法单元");
    } else {
        s.append(" — Metal 主要面向 Apple GPU，仍使用 simdgroup 8x8 矩阵乘法");
    }
    s
}

/// A kernel that applies a statement to two inputs, element by element.
pub open spec fn elem_binary_text(k: KernelModel, body: Seq<char>) -> Seq<char> {
    elem_binary_template()
        .put("__NAME__"@, k.name)
        .put("__T__"@, k.dtype.msl_text())
        .put("__BODY__"@, body)
}

fn elem_binary(k: &KernelSpec, body: &str) -> (r: String)
    ensures
        r@ == elem_binary_text(k@, body@),
{
    let whole = elem_binary_source();
    let s = replace_all(whole.as_str(), "__NAME__", k.name.as_str());
    let s = replace_all(s.as_str(), "__T__", k.dtype.msl_type());
    replace_all(s.as_str(), "__BODY__", body)
}

/// A kernel that applies an expression to each element.
pub open spec fn elem_unary_text(k: KernelModel, expr: Seq<char>) -> Seq<char> {
    elem_unary_template()
        .put("__NAME__"@, k.name)
        .put("__T__"@, k.dtype.msl_text())
        .put("__EXPR__"@, expr)
}

fn elem_unary(k: &KernelSpec, expr: &str) -> (r: String)
    ensures
        r@ == elem_unary_text(k@, expr@),
{
    let whole = elem_unary_source();
    let s = replace_all(whole.as_str(), "__NAME__", k.name.as_str());
    let s = replace_all(s.as_str(), "__T__", k.dtype.msl_type());
    replace_all(s.as_str(), "__EXPR__", expr)
}

/// A reduction in threadgroup memory.
pub open spec fn reduce_kernel_text(
    k: KernelModel,
    identity: Seq<char>,
    combine: Seq<char>,
    finalize: Seq<char>,
) -> Seq<char> {
    reduce_template()
        .put("__NAME__"@, k.name)
        .put("__T__"@, k.dtype.msl_text())
        .put("__IDENT__"@, identity)
        .put("__COMBINE__"@, combine)
        .put("__FINALIZE__"@, finalize)
}

fn reduce_kernel(k: &KernelSpec, identity: &str, combine: &str, finalize: &str) -> (r: String)
    ensures
        r@ == reduce_kernel_text(k@, identity@, combine@, finalize@),
{
    let whole = reduce_source();
    let s = replace_all(whole.as_str(), "__NAME__", k.name.as_str());
    let s = replace_all(s.as_str(), "__T__", k.dtype.msl_type());
    let s = replace_all(s.as_str(), "__IDENT__", identity);
    let s = replace_all(s.as_str(), "__COMBINE__", combine);
    replace_all(s.as_str(), "__FINALIZE__", finalize)
}

/// A matrix product on SIMD groups.
pub open spec fn matmul_kernel_text(k: KernelModel, arch: GpuArch) -> Seq<char> {
    matmul_template().put("__NAME__"@, k.name).put("__ARCH_NOTE__"@, matmul_note(arch))
}

fn matmul_kernel(k: &KernelSpec, arch: GpuArch) -> (r: String)
    ensures
        r@ == matmul_kernel_text(k@, arch),
{
    let note = make_matmul_note(arch);
    let whole = matmul_source();
    let s = replace_all(whole.as_str(), "__NAME__", k.name.as_str());
    replace_all(s.as_str(), "__ARCH_NOTE__", note.as_str())
}

/// A softmax with a threadgroup for each row.
pub open spec fn softmax_kernel_text(k: KernelModel) -> Seq<char> {
    softmax_template().put("__NAME__"@, k.name)
}

fn softmax_kernel(k: &KernelSpec) -> (r: String)
    ensures
        r@ == softmax_kernel_text(k@),
{
    let whole = softmax_source();
    replace_all(whole.as_str(), "__NAME__", k.name.as_str())
}

/// A layer normalization with a threadgroup for each row.
pub open spec fn layernorm_kernel_text(k: KernelModel, epsilon: Seq<char>) -> Seq<char> {
    layernorm_template().put("__NAME__"@, k.name).put("__EPS__"@, epsilon)
}

fn layernorm_kernel(k: &KernelSpec, epsilon: &str) -> (r: String)
    ensures
        r@ == layernorm_kernel_text(k@, epsilon@),
{
    let whole = layernorm_source();
    let s = replace_all(whole.as_str(), "__NAME__", k.name.as_str());
    replace_all(s.as_str(), "__EPS__", epsilon)
}

/// A direct convolution with a thread for each output element.
pub open spec fn conv_kernel_text(k: KernelModel) -> Seq<char> {
    conv_template().put("__NAME__"@, k.name)
}

fn conv_kernel(k: &KernelSpec) -> (r: String)
    ensures
        r@ == conv_kernel_text(k@),
{
    let whole = conv_source();
    replace_all(whole.as_str(), "__NAME__", k.name.as_str())
}

/// Pooling with a thread for each output element.
pub open spec fn pool_kernel_text(k: KernelModel) -> Seq<char> {
    pool_template().put("__NAME__"@, k.name)
}

fn pool_kernel(k: &KernelSpec) -> (r: String)
    ensures
        r@ == pool_kernel_text(k@),
{
    let whole = pool_source();
    replace_all(whole.as_str(), "__NAME__", k.name.as_str())
}

/// A copy.
pub open spec fn reshape_kernel_text(k: KernelModel) -> Seq<char> {
    reshape_template().put("__NAME__"@, k.name).put("__T__"@, k.dtype.msl_text())
}

fn reshape_kernel(k: &KernelSpec) -> (r: String)
    ensures
        r@ == reshape_kernel_text(k@),
{
    let whole = reshape_source();
    let s = replace_all(whole.as_str(), "__NAME__", k.name.as_str());
    replace_all(s.as_str(), "__T__", k.dtype.msl_type())
}

/// A transposition of tiles.
pub open spec fn transpose_kernel_text(k: KernelModel) -> Seq<char> {
    transpose_template().put("__NAME__"@, k.name).put("__T__"@, k.dtype.msl_text())
}

fn transpose_kernel(k: &KernelSpec) -> (r: String)
    ensures
        r@ == transpose_kernel_text(k@),
{
    let whole = transpose_source();
    let s = replace_all(whole.as_str(), "__NAME__", k.name.as_str());
    replace_all(s.as_str(), "__T__", k.dtype.msl_type())
}

/// A concatenation.
pub open spec fn concat_kernel_text(k: KernelModel) -> Seq<char> {
    concat_template()
        .put("__NAME__"@, k.name)
        .put("__T__"@, k.dtype.msl_text())
        .put("__N_INPUTS__"@, dec(at_least_two(k.inputs.len())))
}

fn concat_kernel(k: &KernelSpec) -> (r: String)
    ensures
        r@ == concat_kernel_text(k@),
{
    let n: usize = k.inputs.len();
    let count = dec_string(if n < 2 { 2 } else { n as u64 });
    let whole = concat_source();
    let s = replace_all(whole.as_str(), "__NAME__", k.name.as_str());
    let s = replace_all(s.as_str(), "__T__", k.dtype.msl_type());
    replace_all(s.as_str(), "__N_INPUTS__", count.as_str())
}

/// A strided copy.
pub open spec fn slice_kernel_text(k: KernelModel) -> Seq<char> {
    slice_template().put("__NAME__"@, k.name).put("__T__"@, k.dtype.msl_text())
}

fn slice_kernel(k: &KernelSpec) -> (r: String)
    ensures
        r@ == slice_kernel_text(k@),
{
    let whole = slice_source();
    let s = replace_all(whole.as_str(), "__NAME__", k.name.as_str());
    replace_all(s.as_str(), "__T__", k.dtype.msl_type())
}

/// A kernel that fills its output with a value.
pub open spec fn constant_kernel_text(k: KernelModel, value: Seq<char>) -> Seq<char> {
    constant_template().put("__NAME__"@, k.name).put("__T__"@, k.dtype.msl_text()).put("__VAL__"@, value)
}

fn constant_kernel(k: &KernelSpec, value: &str) -> (r: String)
    ensures
        r@ == constant_kernel_text(k@, value@),
{
    let whole = constant_source();
    let s = replace_all(whole.as_str(), "__NAME__", k.name.as_str());
    let s = replace_all(s.as_str(), "__T__", k.dtype.msl_type());
    replace_all(s.as_str(), "__VAL__", value)
}

/// What stands for an input of the graph.
pub open spec fn placeholder_kernel_text(k: KernelModel) -> Seq<char> {
    placeholder_template().put("__NAME__"@, k.name).put("__T__"@, k.dtype.msl_text())
}

fn placeholder_kernel(k: &KernelSpec) -> (r: String)
    ensures
        r@ == placeholder_kernel_text(k@),
{
    let whole = placeholder_source();
    let s = replace_all(whole.as_str(), "__NAME__", k.name.as_str());
    replace_all(s.as_str(), "__T__", k.dtype.msl_type())
}

/// What stands for an output of the graph.
pub open spec fn return_kernel_text(k: KernelModel) -> Seq<char> {
    return_template().put("__NAME__"@, k.name).put("__T__"@, k.dtype.msl_text())
}

fn return_kernel(k: &KernelSpec) -> (r: String)
    ensures
        r@ == return_kernel_text(k@),
{
    let whole = return_source();
    let s = replace_all(whole.as_str(), "__NAME__", k.name.as_str());
    replace_all(s.as_str(), "__T__", k.dtype.msl_type())
}

/// A chain of operators in one kernel.
pub open spec fn fused_kernel_text(k: KernelModel) -> Seq<char> {
    fused_template()
        .put("__NAME__"@, k.name)
        .put("__T__"@, k.dtype.msl_text())
        .put("__OPS__"@, chain(k.attrs.fused_ops))
}

fn fused_kernel(k: &KernelSpec) -> (r: String)
    ensures
        r@ == fused_kernel_text(k@),
{
    let ops = chain_of(&k.attrs.fused_ops);
    let whole = fused_source();
    let s = replace_all(whole.as_str(), "__NAME__", k.name.as_str());
    let s = replace_all(s.as_str(), "__T__", k.dtype.msl_type());
    replace_all(s.as_str(), "__OPS__", ops.as_str())
}

/// An operator that is not known.
pub open spec fn custom_kernel_text(k: KernelModel) -> Seq<char> {
    custom_template()
        .put("__NAME__"@, k.name)
        .put("__T__"@, k.dtype.msl_text())
        .put("__OP_TYPE__"@, named_or_unknown(k.attrs.custom_op_type))
}

fn custom_kernel(k: &KernelSpec) -> (r: String)
    ensures
        r@ == custom_kernel_text(k@),
{
    let custom = name_or_unknown(&k.attrs.custom_op_type);
    let whole = custom_source();
    let s = replace_all(whole.as_str(), "__NAME__", k.name.as_str());
    let s = replace_all(s.as_str(), "__T__", k.dtype.msl_type());
    replace_all(s.as_str(), "__OP_TYPE__", custom.as_str())
}

} // verus!
