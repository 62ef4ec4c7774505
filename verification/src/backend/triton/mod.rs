//! Triton source, a dialect of Python.

pub mod laws;
pub mod templates;

use vstd::prelude::*;
use crate::base::{NeutronError, OpKind};
use crate::lisp::{Floats, Outcome};
use crate::backend::dialect::{
    Dialect, Template, all_accepted, at_least_two, chain, chain_of, emit_in, emitted, name_or_unknown,
    named_or_unknown,
};
use crate::backend::spec::{
    BackendOutput, DTypeExt, GpuArch, KernelModel, KernelSpec, SourceLang, kernel_models,
};
use crate::text::{dec, dec_string, push_dec, replace_all};
use self::templates::{
    AMPERE_NOTES, HEADER, LAUNCHERS, LAUNCH_BINARY, LAUNCH_CONCAT, LAUNCH_CONSTANT, LAUNCH_CONV,
    LAUNCH_COPY, LAUNCH_CUSTOM, LAUNCH_FUSED, LAUNCH_LAYERNORM, LAUNCH_MARKER, LAUNCH_MATMUL,
    LAUNCH_POOL, LAUNCH_REDUCE, LAUNCH_SOFTMAX, LAUNCH_TRANSPOSE, LAUNCH_UNARY, OTHER_NOTES,
    PRELUDE, TMA_NOTES, concat_source, concat_template, constant_source, constant_template,
    conv_source, conv_template, custom_source, custom_template, elem_binary_source,
    elem_binary_template, elem_unary_source, elem_unary_template, fused_source, fused_template,
    layernorm_source, layernorm_template, matmul_ampere_source, matmul_ampere_template,
    matmul_blackwell_source, matmul_blackwell_template, matmul_generic_source,
    matmul_generic_template, matmul_hopper_source, matmul_hopper_template, placeholder_source,
    placeholder_template, pool_source, pool_template, reduce_source, reduce_template,
    reshape_source, reshape_template, return_source, return_template, slice_source,
    slice_template, softmax_source, softmax_template, transpose_source, transpose_template,
};

verus! {

/// Generates Triton source: a kernel and a function that launches it for each node.
pub fn emit(kernels: &[KernelSpec], arch: GpuArch, floats: &mut Floats) -> (r: Outcome<
    BackendOutput,
    NeutronError,
>)
    requires
        all_accepted::<Triton>(kernel_models(kernels@)),
    ensures
        (r@, final(floats)@) == emitted::<Triton>(kernel_models(kernels@), arch, old(floats)@),
{
    emit_in::<Triton>(kernels, arch, floats)
}

/// Triton.
pub struct Triton;

impl Dialect for Triton {
    open spec fn language() -> SourceLang {
        SourceLang::Triton
    }

    open spec fn epsilon_digits() -> Option<u32> {
        None
    }

    open spec fn accepts(k: KernelModel) -> bool {
        k.fits()
    }

    open spec fn opening(arch: GpuArch, count: nat) -> Seq<char> {
        header_text(arch, count)
    }

    open spec fn kernel(k: KernelModel, scalar: Seq<char>, arch: GpuArch) -> Seq<char> {
        kernel_text(k, scalar, arch)
    }

    open spec fn launch_opening() -> Seq<char> {
        LAUNCHERS@
    }

    open spec fn launcher(k: KernelModel, scalar: Seq<char>, arch: GpuArch) -> Seq<char> {
        launcher_text(k, scalar, arch)
    }

    proof fn accepted_fits(k: KernelModel) {
    }

    fn lang() -> (r: SourceLang) {
        SourceLang::Triton
    }

    fn digits() -> (r: Option<u32>) {
        None
    }

    fn make_header(arch: GpuArch, count: usize) -> (r: String) {
        make_header(arch, count)
    }

    fn make_kernel(k: &KernelSpec, scalar: &str, arch: GpuArch) -> (r: String) {
        make_kernel(k, scalar, arch)
    }

    fn make_launch_header() -> (r: String) {
        LAUNCHERS.to_owned()
    }

    fn make_launcher(k: &KernelSpec, scalar: &str, arch: GpuArch) -> (r: String) {
        make_launcher(k)
    }
}

/// What a file begins with.
pub open spec fn header_text(arch: GpuArch, count: nat) -> Seq<char> {
    HEADER@
        + arch.label()
        + " (SM"@
        + dec(arch.capability().0 as nat)
        + "."@
        + dec(arch.capability().1 as nat)
        + ") — "@
        + dec(count)
        + " 个 kernel\n# 生成器: backend::triton::emit\n"@
        + (if arch.since_hopper() {
        TMA_NOTES@
    } else if arch == GpuArch::Ampere80 {
        AMPERE_NOTES@
    } else {
        OTHER_NOTES@
    }) + PRELUDE@
}

fn make_header(arch: GpuArch, count: usize) -> (r: String)
    ensures
        r@ == header_text(arch, count as nat),
{
    let mut s = HEADER.to_owned();
    s.append(arch.name());
    s.append(" (SM");
    push_dec(&mut s, arch.sm_version().0 as u64);
    s.append(".");
    push_dec(&mut s, arch.sm_version().1 as u64);
    s.append(") — ");
    push_dec(&mut s, count as u64);
    s.append(" 个 kernel\n# 生成器: backend::triton::emit\n");
    if arch.has_tma() {
        s.append(TMA_NOTES);
    } else if arch == GpuArch::Ampere80 {
        s.append(AMPERE_NOTES);
    } else {
        s.append(OTHER_NOTES);
    }
    s.append(PRELUDE);
    s
}

/// The template of the function that launches a kernel.
pub open spec fn launcher_template(op: OpKind) -> Seq<char> {
    match op {
        OpKind::Add | OpKind::Sub | OpKind::Mul | OpKind::Div | OpKind::Pow => LAUNCH_BINARY@,
        OpKind::Relu
        | OpKind::Gelu
        | OpKind::Sigmoid
        | OpKind::Tanh
        | OpKind::Sqrt
        | OpKind::Exp
        | OpKind::Log
        | OpKind::Rsqrt
        | OpKind::Reciprocal
        | OpKind::Abs => LAUNCH_UNARY@,
        OpKind::ReduceSum | OpKind::ReduceMean | OpKind::ReduceMax => LAUNCH_REDUCE@,
        OpKind::MatMul => LAUNCH_MATMUL@,
        OpKind::Softmax => LAUNCH_SOFTMAX@,
        OpKind::LayerNorm => LAUNCH_LAYERNORM@,
        OpKind::Conv => LAUNCH_CONV@,
        OpKind::Pool => LAUNCH_POOL@,
        OpKind::Reshape | OpKind::Slice => LAUNCH_COPY@,
        OpKind::Transpose => LAUNCH_TRANSPOSE@,
        OpKind::Concat => LAUNCH_CONCAT@,
        OpKind::Constant => LAUNCH_CONSTANT@,
        OpKind::Placeholder | OpKind::Return => LAUNCH_MARKER@,
        OpKind::Fused => LAUNCH_FUSED@,
        OpKind::Custom => LAUNCH_CUSTOM@,
    }
}

/// The host function that launches a kernel. Its parameters depend on the
/// operator.
pub open spec fn launcher_text(k: KernelModel, scalar: Seq<char>, arch: GpuArch) -> Seq<char> {
    launcher_template(k.op).put("__NAME__"@, k.name) + "\n"@
}

fn make_launcher(k: &KernelSpec) -> (r: String)
    ensures
        forall|scalar: Seq<char>, arch: GpuArch| r@ == #[trigger] launcher_text(k@, scalar, arch),
{
    let template = match k.op {
        OpKind::Add | OpKind::Sub | OpKind::Mul | OpKind::Div | OpKind::Pow => LAUNCH_BINARY,
        OpKind::Relu
        | OpKind::Gelu
        | OpKind::Sigmoid
        | OpKind::Tanh
        | OpKind::Sqrt
        | OpKind::Exp
        | OpKind::Log
        | OpKind::Rsqrt
        | OpKind::Reciprocal
        | OpKind::Abs => LAUNCH_UNARY,
        OpKind::ReduceSum | OpKind::ReduceMean | OpKind::ReduceMax => LAUNCH_REDUCE,
        OpKind::MatMul => LAUNCH_MATMUL,
        OpKind::Softmax => LAUNCH_SOFTMAX,
        OpKind::LayerNorm => LAUNCH_LAYERNORM,
        OpKind::Conv => LAUNCH_CONV,
        OpKind::Pool => LAUNCH_POOL,
        OpKind::Reshape | OpKind::Slice => LAUNCH_COPY,
        OpKind::Transpose => LAUNCH_TRANSPOSE,
        OpKind::Concat => LAUNCH_CONCAT,
        OpKind::Constant => LAUNCH_CONSTANT,
        OpKind::Placeholder | OpKind::Return => LAUNCH_MARKER,
        OpKind::Fused => LAUNCH_FUSED,
        OpKind::Custom => LAUNCH_CUSTOM,
    };
    let mut s = replace_all(template, "__NAME__", k.name.as_str());
    s.append("\n");
    s
}

/// The source of a kernel.
pub open spec fn kernel_text(k: KernelModel, scalar: Seq<char>, arch: GpuArch) -> Seq<char> {
    match k.op {
        OpKind::Add => elem_binary_text(k, "x + y"@),
        OpKind::Sub => elem_binary_text(k, "x - y"@),
        OpKind::Mul => elem_binary_text(k, "x * y"@),
        OpKind::Div => elem_binary_text(k, "x / y"@),
        OpKind::Pow => elem_binary_text(k, "tl.math.pow(x, y)"@),
        OpKind::Relu => elem_unary_text(k, "tl.where(x > 0, x, 0.0)"@),
        OpKind::Gelu => elem_unary_text(
            k,
            "0.5 * x * (1.0 + tl.tanh(0.7978845608 * (x + 0.044715 * x * x * x)))"@,
        ),
        OpKind::Sigmoid => elem_unary_text(k, "1.0 / (1.0 + tl.exp(-x))"@),
        OpKind::Tanh => elem_unary_text(k, "tl.tanh(x)"@),
        OpKind::Sqrt => elem_unary_text(k, "tl.sqrt(x)"@),
        OpKind::Exp => elem_unary_text(k, "tl.exp(x)"@),
        OpKind::Log => elem_unary_text(k, "tl.log(x)"@),
        OpKind::Rsqrt => elem_unary_text(k, "1.0 / tl.sqrt(x)"@),
        OpKind::Reciprocal => elem_unary_text(k, "1.0 / x"@),
        OpKind::Abs => elem_unary_text(k, "tl.abs(x)"@),
        OpKind::ReduceSum => reduce_kernel_text(k, "0.0"@, "tl.sum(x, axis=0)"@),
        OpKind::ReduceMean => reduce_kernel_text(k, "0.0"@, "tl.sum(x, axis=0) / N"@),
        OpKind::ReduceMax => reduce_kernel_text(k, "-float('inf')"@, "tl.max(x, axis=0)"@),
        OpKind::MatMul => matmul_kernel_text(k, arch),
        OpKind::Softmax => softmax_kernel_text(k),
        OpKind::LayerNorm => layernorm_kernel_text(k, scalar),
        OpKind::Conv => conv_kernel_text(k),
        OpKind::Pool => pool_kernel_text(k),
        OpKind::Reshape => reshape_kernel_text(k),
        OpKind::Transpose => transpose_kernel_text(k),
        OpKind::Concat => concat_kernel_text(k),
        OpKind::Slice => slice_kernel_text(k),
        OpKind::Constant => constant_kernel_text(k, scalar),
        OpKind::Placeholder => placeholder_kernel_text(k),
        OpKind::Return => return_kernel_text(k),
        OpKind::Fused => fused_kernel_text(k),
        OpKind::Custom => custom_kernel_text(k),
    }
}

fn make_kernel(k: &KernelSpec, scalar: &str, arch: GpuArch) -> (r: String)
    ensures
        r@ == kernel_text(k@, scalar@, arch),
{
    match k.op {
        OpKind::Add => elem_binary(k, "x + y"),
        OpKind::Sub => elem_binary(k, "x - y"),
        OpKind::Mul => elem_binary(k, "x * y"),
        OpKind::Div => elem_binary(k, "x / y"),
        OpKind::Pow => elem_binary(k, "tl.math.pow(x, y)"),
        OpKind::Relu => elem_unary(k, "tl.where(x > 0, x, 0.0)"),
        OpKind::Gelu => elem_unary(
            k,
            "0.5 * x * (1.0 + tl.tanh(0.7978845608 * (x + 0.044715 * x * x * x)))",
        ),
        OpKind::Sigmoid => elem_unary(k, "1.0 / (1.0 + tl.exp(-x))"),
        OpKind::Tanh => elem_unary(k, "tl.tanh(x)"),
        OpKind::Sqrt => elem_unary(k, "tl.sqrt(x)"),
        OpKind::Exp => elem_unary(k, "tl.exp(x)"),
        OpKind::Log => elem_unary(k, "tl.log(x)"),
        OpKind::Rsqrt => elem_unary(k, "1.0 / tl.sqrt(x)"),
        OpKind::Reciprocal => elem_unary(k, "1.0 / x"),
        OpKind::Abs => elem_unary(k, "tl.abs(x)"),
        OpKind::ReduceSum => reduce_kernel(k, "0.0", "tl.sum(x, axis=0)"),
        OpKind::ReduceMean => reduce_kernel(k, "0.0", "tl.sum(x, axis=0) / N"),
        OpKind::ReduceMax => reduce_kernel(k, "-float('inf')", "tl.max(x, axis=0)"),
        OpKind::MatMul => matmul_kernel(k, arch),
        OpKind::Softmax => softmax_kernel(k),
        OpKind::LayerNorm => layernorm_kernel(k, scalar),
        OpKind::Conv => conv_kernel(k),
        OpKind::Pool => pool_kernel(k),
        OpKind::Reshape => reshape_kernel(k),
        OpKind::Transpose => transpose_kernel(k),
        OpKind::Concat => concat_kernel(k),
        OpKind::Slice => slice_kernel(k),
        OpKind::Constant => constant_kernel(k, scalar),
        OpKind::Placeholder => placeholder_kernel(k),
        OpKind::Return => return_kernel(k),
        OpKind::Fused => fused_kernel(k),
        OpKind::Custom => custom_kernel(k),
    }
}

/// The kernel that an architecture multiplies matrices with.
pub open spec fn matmul_kernel_text(k: KernelModel, arch: GpuArch) -> Seq<char> {
    match arch {
        GpuArch::Hopper90 => matmul_hopper_text(k),
        GpuArch::Ampere80 => matmul_ampere_text(k),
        GpuArch::Blackwell100 => matmul_blackwell_text(k),
        _ => matmul_generic_text(k, arch),
    }
}

fn matmul_kernel(k: &KernelSpec, arch: GpuArch) -> (r: String)
    ensures
        r@ == matmul_kernel_text(k@, arch),
{
    match arch {
        GpuArch::Hopper90 => matmul_hopper(k),
        GpuArch::Ampere80 => matmul_ampere(k),
        GpuArch::Blackwell100 => matmul_blackwell(k),
        _ => matmul_generic(k, arch),
    }
}

/// A kernel that applies an expression to two inputs, block by block.
pub open spec fn elem_binary_text(k: KernelModel, expr: Seq<char>) -> Seq<char> {
    elem_binary_template()
        .put("__NAME__"@, k.name)
        .put("__DT__"@, k.dtype.triton_text())
        .put("__EXPR__"@, expr)
}

fn elem_binary(k: &KernelSpec, expr: &str) -> (r: String)
    ensures
        r@ == elem_binary_text(k@, expr@),
{
    let whole = elem_binary_source();
    let s = replace_all(whole.as_str(), "__NAME__", k.name.as_str());
    let s = replace_all(s.as_str(), "__DT__", k.dtype.triton_type());
    replace_all(s.as_str(), "__EXPR__", expr)
}

/// A kernel that applies an expression to its input, block by block.
pub open spec fn elem_unary_text(k: KernelModel, expr: Seq<char>) -> Seq<char> {
    elem_unary_template()
        .put("__NAME__"@, k.name)
        .put("__DT__"@, k.dtype.triton_text())
        .put("__EXPR__"@, expr)
}

fn elem_unary(k: &KernelSpec, expr: &str) -> (r: String)
    ensures
        r@ == elem_unary_text(k@, expr@),
{
    let whole = elem_unary_source();
    let s = replace_all(whole.as_str(), "__NAME__", k.name.as_str());
    let s = replace_all(s.as_str(), "__DT__", k.dtype.triton_type());
    replace_all(s.as_str(), "__EXPR__", expr)
}

/// A reduction in one program.
pub open spec fn reduce_kernel_text(
    k: KernelModel,
    identity: Seq<char>,
    expr: Seq<char>,
) -> Seq<char> {
    reduce_template()
        .put("__NAME__"@, k.name)
        .put("__DT__"@, k.dtype.triton_text())
        .put("__IDENT__"@, identity)
        .put("__EXPR__"@, expr)
}

fn reduce_kernel(k: &KernelSpec, identity: &str, expr: &str) -> (r: String)
    ensures
        r@ == reduce_kernel_text(k@, identity@, expr@),
{
    let whole = reduce_source();
    let s = replace_all(whole.as_str(), "__NAME__", k.name.as_str());
    let s = replace_all(s.as_str(), "__DT__", k.dtype.triton_type());
    let s = replace_all(s.as_str(), "__IDENT__", identity);
    replace_all(s.as_str(), "__EXPR__", expr)
}

/// A matrix product on Hopper.
pub open spec fn matmul_hopper_text(k: KernelModel) -> Seq<char> {
    matmul_hopper_template().put("__NAME__"@, k.name)
}

fn matmul_hopper(k: &KernelSpec) -> (r: String)
    ensures
        r@ == matmul_hopper_text(k@),
{
    let whole = matmul_hopper_source();
    replace_all(whole.as_str(), "__NAME__", k.name.as_str())
}

/// A matrix product on Ampere.
pub open spec fn matmul_ampere_text(k: KernelModel) -> Seq<char> {
    matmul_ampere_template().put("__NAME__"@, k.name)
}

fn matmul_ampere(k: &KernelSpec) -> (r: String)
    ensures
        r@ == matmul_ampere_text(k@),
{
    let whole = matmul_ampere_source();
    replace_all(whole.as_str(), "__NAME__", k.name.as_str())
}

/// A matrix product on Blackwell.
pub open spec fn matmul_blackwell_text(k: KernelModel) -> Seq<char> {
    matmul_blackwell_template().put("__NAME__"@, k.name)
}

fn matmul_blackwell(k: &KernelSpec) -> (r: String)
    ensures
        r@ == matmul_blackwell_text(k@),
{
    let whole = matmul_blackwell_source();
    replace_all(whole.as_str(), "__NAME__", k.name.as_str())
}

/// A matrix product on any other architecture.
pub open spec fn matmul_generic_text(k: KernelModel, arch: GpuArch) -> Seq<char> {
    matmul_generic_template().put("__NAME__"@, k.name).put("__ARCH__"@, arch.label())
}

fn matmul_generic(k: &KernelSpec, arch: GpuArch) -> (r: String)
    ensures
        r@ == matmul_generic_text(k@, arch),
{
    let whole = matmul_generic_source();
    let s = replace_all(whole.as_str(), "__NAME__", k.name.as_str());
    replace_all(s.as_str(), "__ARCH__", arch.name())
}

/// A softmax with a program for each row.
pub open spec fn softmax_kernel_text(k: KernelModel) -> Seq<char> {
    softmax_template().put("__NAME__"@, k.name)
}

fn softmax_kernel(k: &KernelSpec) -> (r: String)
    ensures
        r@ == softmax_kernel_text(k@),
{
    let whole = softmax_source();
    replace_all(whole.as_str(), "__NAME__", k.name.as_str())
}

/// A layer normalization with a program for each row.
pub open spec fn layernorm_kernel_text(k: KernelModel, epsilon: Seq<char>) -> Seq<char> {
    layernorm_template()
        .put("__NAME__"@, k.name)
        .put("__DT__"@, k.dtype.triton_text())
        .put("__EPS__"@, epsilon)
}

fn layernorm_kernel(k: &KernelSpec, epsilon: &str) -> (r: String)
    ensures
        r@ == layernorm_kernel_text(k@, epsilon@),
{
    let whole = layernorm_source();
    let s = replace_all(whole.as_str(), "__NAME__", k.name.as_str());
    let s = replace_all(s.as_str(), "__DT__", k.dtype.triton_type());
    replace_all(s.as_str(), "__EPS__", epsilon)
}

/// A direct convolution with a program for each output element.
pub open spec fn conv_kernel_text(k: KernelModel) -> Seq<char> {
    conv_template().put("__NAME__"@, k.name)
}

fn conv_kernel(k: &KernelSpec) -> (r: String)
    ensures
        r@ == conv_kernel_text(k@),
{
    let whole = conv_source();
    replace_all(whole.as_str(), "__NAME__", k.name.as_str())
}

/// Max pooling with a program for each output element.
pub open spec fn pool_kernel_text(k: KernelModel) -> Seq<char> {
    pool_template().put("__NAME__"@, k.name)
}

fn pool_kernel(k: &KernelSpec) -> (r: String)
    ensures
        r@ == pool_kernel_text(k@),
{
    let whole = pool_source();
    replace_all(whole.as_str(), "__NAME__", k.name.as_str())
}

/// A copy.
pub open spec fn reshape_kernel_text(k: KernelModel) -> Seq<char> {
    reshape_template().put("__NAME__"@, k.name).put("__DT__"@, k.dtype.triton_text())
}

fn reshape_kernel(k: &KernelSpec) -> (r: String)
    ensures
        r@ == reshape_kernel_text(k@),
{
    let whole = reshape_source();
    let s = replace_all(whole.as_str(), "__NAME__", k.name.as_str());
    replace_all(s.as_str(), "__DT__", k.dtype.triton_type())
}

/// A transposition of tiles.
pub open spec fn transpose_kernel_text(k: KernelModel) -> Seq<char> {
    transpose_template().put("__NAME__"@, k.name).put("__DT__"@, k.dtype.triton_text())
}

fn transpose_kernel(k: &KernelSpec) -> (r: String)
    ensures
        r@ == transpose_kernel_text(k@),
{
    let whole = transpose_source();
    let s = replace_all(whole.as_str(), "__NAME__", k.name.as_str());
    replace_all(s.as_str(), "__DT__", k.dtype.triton_type())
}

/// A concatenation.
pub open spec fn concat_kernel_text(k: KernelModel) -> Seq<char> {
    concat_template()
        .put("__NAME__"@, k.name)
        .put("__DT__"@, k.dtype.triton_text())
        .put("__N_INPUTS__"@, dec(at_least_two(k.inputs.len())))
}

fn concat_kernel(k: &KernelSpec) -> (r: String)
    ensures
        r@ == concat_kernel_text(k@),
{
    let n: usize = k.inputs.len();
    let count = dec_string(if n < 2 { 2 } else { n as u64 });
    let whole = concat_source();
    let s = replace_all(whole.as_str(), "__NAME__", k.name.as_str());
    let s = replace_all(s.as_str(), "__DT__", k.dtype.triton_type());
    replace_all(s.as_str(), "__N_INPUTS__", count.as_str())
}

/// A strided copy.
pub open spec fn slice_kernel_text(k: KernelModel) -> Seq<char> {
    slice_template().put("__NAME__"@, k.name).put("__DT__"@, k.dtype.triton_text())
}

fn slice_kernel(k: &KernelSpec) -> (r: String)
    ensures
        r@ == slice_kernel_text(k@),
{
    let whole = slice_source();
    let s = replace_all(whole.as_str(), "__NAME__", k.name.as_str());
    replace_all(s.as_str(), "__DT__", k.dtype.triton_type())
}

/// A kernel that fills its output with a value.
pub open spec fn constant_kernel_text(k: KernelModel, value: Seq<char>) -> Seq<char> {
    constant_template()
        .put("__NAME__"@, k.name)
        .put("__DT__"@, k.dtype.triton_text())
        .put("__VAL__"@, value)
}

fn constant_kernel(k: &KernelSpec, value: &str) -> (r: String)
    ensures
        r@ == constant_kernel_text(k@, value@),
{
    let whole = constant_source();
    let s = replace_all(whole.as_str(), "__NAME__", k.name.as_str());
    let s = replace_all(s.as_str(), "__DT__", k.dtype.triton_type());
    replace_all(s.as_str(), "__VAL__", value)
}

/// What stands for an input of the graph.
pub open spec fn placeholder_kernel_text(k: KernelModel) -> Seq<char> {
    placeholder_template().put("__NAME__"@, k.name).put("__DT__"@, k.dtype.triton_text())
}

fn placeholder_kernel(k: &KernelSpec) -> (r: String)
    ensures
        r@ == placeholder_kernel_text(k@),
{
    let whole = placeholder_source();
    let s = replace_all(whole.as_str(), "__NAME__", k.name.as_str());
    replace_all(s.as_str(), "__DT__", k.dtype.triton_type())
}

/// What stands for an output of the graph.
pub open spec fn return_kernel_text(k: KernelModel) -> Seq<char> {
    return_template().put("__NAME__"@, k.name).put("__DT__"@, k.dtype.triton_text())
}

fn return_kernel(k: &KernelSpec) -> (r: String)
    ensures
        r@ == return_kernel_text(k@),
{
    let whole = return_source();
    let s = replace_all(whole.as_str(), "__NAME__", k.name.as_str());
    replace_all(s.as_str(), "__DT__", k.dtype.triton_type())
}

/// A chain of operators in one kernel.
pub open spec fn fused_kernel_text(k: KernelModel) -> Seq<char> {
    fused_template()
        .put("__NAME__"@, k.name)
        .put("__DT__"@, k.dtype.triton_text())
        .put("__OPS__"@, chain(k.attrs.fused_ops))
}

fn fused_kernel(k: &KernelSpec) -> (r: String)
    ensures
        r@ == fused_kernel_text(k@),
{
    let ops = chain_of(&k.attrs.fused_ops);
    let whole = fused_source();
    let s = replace_all(whole.as_str(), "__NAME__", k.name.as_str());
    let s = replace_all(s.as_str(), "__DT__", k.dtype.triton_type());
    replace_all(s.as_str(), "__OPS__", ops.as_str())
}

/// An operator that is not known.
pub open spec fn custom_kernel_text(k: KernelModel) -> Seq<char> {
    custom_template()
        .put("__NAME__"@, k.name)
        .put("__DT__"@, k.dtype.triton_text())
        .put("__OP_TYPE__"@, named_or_unknown(k.attrs.custom_op_type))
}

fn custom_kernel(k: &KernelSpec) -> (r: String)
    ensures
        r@ == custom_kernel_text(k@),
{
    let custom = name_or_unknown(&k.attrs.custom_op_type);
    let whole = custom_source();
    let s = replace_all(whole.as_str(), "__NAME__", k.name.as_str());
    let s = replace_all(s.as_str(), "__DT__", k.dtype.triton_type());
    replace_all(s.as_str(), "__OP_TYPE__", custom.as_str())
}

} // verus!
