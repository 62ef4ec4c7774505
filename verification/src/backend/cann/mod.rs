//! Ascend CANN C++ source.

pub mod laws;
pub mod templates;

use vstd::prelude::*;
use crate::base::{NeutronError, OpKind};
use crate::lisp::{Floats, Outcome};
use crate::backend::dialect::{
    Dialect, Template, all_accepted, at_least_two, chain, chain_of, emit_in, emitted, name_or_unknown,
    named_or_unknown,
};
use crate::backend::spec::{
    BackendOutput, DTypeExt, GpuArch, KernelModel, KernelSpec, SourceLang, kernel_models,
};
use crate::text::{chars_of, dec, dec_string, push_dec, replace_all};
use self::templates::{
    CUBE_NOTES, HEADER, LAUNCHERS, LIGHT_NOTES, OTHER_NOTES, PRELUDE, concat_source,
    concat_template, constant_source, constant_template, conv_source, conv_template,
    custom_source, custom_template, elem_binary_source, elem_binary_template, elem_unary_source,
    elem_unary_template, fused_source, fused_template, layernorm_source, layernorm_template,
    matmul_source, matmul_template, placeholder_source, placeholder_template, pool_source,
    pool_template, reduce_source, reduce_template, reshape_source, reshape_template,
    return_source, return_template, slice_source, slice_template, softmax_source,
    softmax_template, transpose_source, transpose_template,
};

verus! {

/// Generates CANN source: a kernel for each node, and how it is launched.
pub fn emit(kernels: &[KernelSpec], arch: GpuArch, floats: &mut Floats) -> (r: Outcome<
    BackendOutput,
    NeutronError,
>)
    requires
        all_accepted::<Cann>(kernel_models(kernels@)),
    ensures
        (r@, final(floats)@) == emitted::<Cann>(kernel_models(kernels@), arch, old(floats)@),
{
    emit_in::<Cann>(kernels, arch, floats)
}

/// Ascend CANN C++.
pub struct Cann;

impl Dialect for Cann {
    open spec fn language() -> SourceLang {
        SourceLang::Cann
    }

    open spec fn epsilon_digits() -> Option<u32> {
        Some(10)
    }

    open spec fn accepts(k: KernelModel) -> bool {
        k.fits()
    }

    open spec fn opening(arch: GpuArch, count: nat) -> Seq<char> {
        header_text(arch, count)
    }

    open spec fn kernel(k: KernelModel, scalar: Seq<char>, arch: GpuArch) -> Seq<char> {
        kernel_text(k, scalar, arch)
    }

    open spec fn launch_opening() -> Seq<char> {
        LAUNCHERS@
    }

    open spec fn launcher(k: KernelModel, scalar: Seq<char>, arch: GpuArch) -> Seq<char> {
        launcher_text(k, scalar, arch)
    }

    proof fn accepted_fits(k: KernelModel) {
    }

    fn lang() -> (r: SourceLang) {
        SourceLang::Cann
    }

    fn digits() -> (r: Option<u32>) {
        Some(10)
    }

    fn make_header(arch: GpuArch, count: usize) -> (r: String) {
        make_header(arch, count)
    }

    fn make_kernel(k: &KernelSpec, scalar: &str, arch: GpuArch) -> (r: String) {
        make_kernel(k, scalar, arch)
    }

    fn make_launch_header() -> (r: String) {
        LAUNCHERS.to_owned()
    }

    fn make_launcher(k: &KernelSpec, scalar: &str, arch: GpuArch) -> (r: String) {
        make_launcher(k, arch)
    }
}

/// What a file begins with.
pub open spec fn header_text(arch: GpuArch, count: nat) -> Seq<char> {
    HEADER@
        + arch.label()
        + " ("@
        + dec(count)
        + " 个 kernel)\n// 生成器: backend::cann::emit\n"@
        + (if arch.cubic() {
        CUBE_NOTES@
    } else if arch == GpuArch::Ascend310P3 {
        LIGHT_NOTES@
    } else {
        OTHER_NOTES@
    }) + PRELUDE@
}

fn make_header(arch: GpuArch, count: usize) -> (r: String)
    ensures
        r@ == header_text(arch, count as nat),
{
    let mut s = HEADER.to_owned();
    s.append(arch.name());
    s.append(" (");
    push_dec(&mut s, count as u64);
    s.append(" 个 kernel)\n// 生成器: backend::cann::emit\n");
    if arch.has_cube_core() {
        s.append(CUBE_NOTES);
    } else if arch == GpuArch::Ascend310P3 {
        s.append(LIGHT_NOTES);
    } else {
        s.append(OTHER_NOTES);
    }
    s.append(PRELUDE);
    s
}

/// How a kernel is launched.
pub open spec fn launcher_text(k: KernelModel, scalar: Seq<char>, arch: GpuArch) -> Seq<char> {
    "// launch_"@
        + k.name
        + ": grid=("@
        + dec(k.launched(arch).grid.0 as nat)
        + ", "@
        + dec(k.launched(arch).grid.1 as nat)
        + ", "@
        + dec(k.launched(arch).grid.2 as nat)
        + "), block=("@
        + dec(k.launched(arch).block.0 as nat)
        + ", "@
        + dec(k.launched(arch).block.1 as nat)
        + ", "@
        + dec(k.launched(arch).block.2 as nat)
        + "), unified buffer~="@
        + dec(k.launched(arch).shared_mem as nat)
        + " bytes\n//   aclrtSetDevice(0); "@
        + k.name
        + "<<<blocks, &tiling>>>(x, y, z, workspace, tiling);\n"@
}

fn make_launcher(k: &KernelSpec, arch: GpuArch) -> (r: String)
    requires
        k@.fits(),
    ensures
        forall|scalar: Seq<char>| r@ == #[trigger] launcher_text(k@, scalar, arch),
{
    let l = k.launch(arch);
    let mut s = "// launch_".to_owned();
    s.append(k.name.as_str());
    s.append(": grid=(");
    push_dec(&mut s, l.grid.0 as u64);
    s.append(", ");
    push_dec(&mut s, l.grid.1 as u64);
    s.append(", ");
    push_dec(&mut s, l.grid.2 as u64);
    s.append("), block=(");
    push_dec(&mut s, l.block.0 as u64);
    s.append(", ");
    push_dec(&mut s, l.block.1 as u64);
    s.append(", ");
    push_dec(&mut s, l.block.2 as u64);
    s.append("), unified buffer~=");
    push_dec(&mut s, l.shared_mem as u64);
    s.append(" bytes\n//   aclrtSetDevice(0); ");
    s.append(k.name.as_str());
    s.append("<<<blocks, &tiling>>>(x, y, z, workspace, tiling);\n");
    s
}

/// The source of a kernel.
pub open spec fn kernel_text(k: KernelModel, scalar: Seq<char>, arch: GpuArch) -> Seq<char> {
    match k.op {
        OpKind::Add => elem_binary_text(k, "Add"@),
        OpKind::Sub => elem_binary_text(k, "Sub"@),
        OpKind::Mul => elem_binary_text(k, "Mul"@),
        OpKind::Div => elem_binary_text(k, "Div"@),
        OpKind::Pow => elem_binary_text(k, "Pow"@),
        OpKind::Relu => elem_unary_text(k, "Relu"@, "// AscendC::Relu 等价 Maxs(x, 0)"@),
        OpKind::Gelu => elem_unary_text(k, "Gelu"@, "// AscendC::Gelu 超越函数"@),
        OpKind::Sigmoid => elem_unary_text(k, "Sigmoid"@, "// AscendC::Sigmoid"@),
        OpKind::Tanh => elem_unary_text(k, "Tanh"@, "// AscendC::Tanh"@),
        OpKind::Sqrt => elem_unary_text(k, "Sqrt"@, "// AscendC::Sqrt"@),
        OpKind::Exp => elem_unary_text(k, "Exp"@, "// AscendC::Exp"@),
        OpKind::Log => elem_unary_text(k, "Log"@, "// AscendC::Log"@),
        OpKind::Rsqrt => elem_unary_text(k, "Rsqrt"@, "// AscendC::Rsqrt"@),
        OpKind::Reciprocal => elem_unary_text(k, "Reciprocal"@, "// AscendC::Reciprocal"@),
        OpKind::Abs => elem_unary_text(k, "Abs"@, "// AscendC::Abs"@),
        OpKind::ReduceSum => reduce_kernel_text(
            k,
            "ReduceSum"@,
            "        // ReduceSum/ReduceMax：直接输出累加/最大值\n"@,
        ),
        OpKind::ReduceMean => reduce_kernel_text(
            k,
            "ReduceMean"@,
            "        // ReduceMean：除以 N 得均值\n        __T__ inv_n = (__T__)(1.0) / (__T__)reduceLen;\n        Muls(zLocal, zLocal, inv_n, 1);\n"@,
        ),
        OpKind::ReduceMax => reduce_kernel_text(
            k,
            "ReduceMax"@,
            "        // ReduceSum/ReduceMax：直接输出累加/最大值\n"@,
        ),
        OpKind::MatMul => matmul_kernel_text(k, arch),
        OpKind::Softmax => softmax_kernel_text(k),
        OpKind::LayerNorm => layernorm_kernel_text(k, scalar),
        OpKind::Conv => conv_kernel_text(k),
        OpKind::Pool => pool_kernel_text(k),
        OpKind::Reshape => reshape_kernel_text(k),
        OpKind::Transpose => transpose_kernel_text(k),
        OpKind::Concat => concat_kernel_text(k),
        OpKind::Slice => slice_kernel_text(k),
        OpKind::Constant => constant_kernel_text(k, scalar),
        OpKind::Placeholder => placeholder_kernel_text(k),
        OpKind::Return => return_kernel_text(k),
        OpKind::Fused => fused_kernel_text(k),
        OpKind::Custom => custom_kernel_text(k),
    }
}

fn make_kernel(k: &KernelSpec, scalar: &str, arch: GpuArch) -> (r: String)
    ensures
        r@ == kernel_text(k@, scalar@, arch),
{
    match k.op {
        OpKind::Add => elem_binary(k, "Add"),
        OpKind::Sub => elem_binary(k, "Sub"),
        OpKind::Mul => elem_binary(k, "Mul"),
        OpKind::Div => elem_binary(k, "Div"),
        OpKind::Pow => elem_binary(k, "Pow"),
        OpKind::Relu => elem_unary(k, "Relu", "// AscendC::Relu 等价 Maxs(x, 0)"),
        OpKind::Gelu => elem_unary(k, "Gelu", "// AscendC::Gelu 超越函数"),
        OpKind::Sigmoid => elem_unary(k, "Sigmoid", "// AscendC::Sigmoid"),
        OpKind::Tanh => elem_unary(k, "Tanh", "// AscendC::Tanh"),
        OpKind::Sqrt => elem_unary(k, "Sqrt", "// AscendC::Sqrt"),
        OpKind::Exp => elem_unary(k, "Exp", "// AscendC::Exp"),
        OpKind::Log => elem_unary(k, "Log", "// AscendC::Log"),
        OpKind::Rsqrt => elem_unary(k, "Rsqrt", "// AscendC::Rsqrt"),
        OpKind::Reciprocal => elem_unary(k, "Reciprocal", "// AscendC::Reciprocal"),
        OpKind::Abs => elem_unary(k, "Abs", "// AscendC::Abs"),
        OpKind::ReduceSum => reduce_kernel(
            k,
            "ReduceSum",
            "        // ReduceSum/ReduceMax：直接输出累加/最大值\n",
        ),
        OpKind::ReduceMean => reduce_kernel(
            k,
            "ReduceMean",
            "        // ReduceMean：除以 N 得均值\n        __T__ inv_n = (__T__)(1.0) / (__T__)reduceLen;\n        Muls(zLocal, zLocal, inv_n, 1);\n",
        ),
        OpKind::ReduceMax => reduce_kernel(
            k,
            "ReduceMax",
            "        // ReduceSum/ReduceMax：直接输出累加/最大值\n",
        ),
        OpKind::MatMul => matmul_kernel(k, arch),
        OpKind::Softmax => softmax_kernel(k),
        OpKind::LayerNorm => layernorm_kernel(k, scalar),
        OpKind::Conv => conv_kernel(k),
        OpKind::Pool => pool_kernel(k),
        OpKind::Reshape => reshape_kernel(k),
        OpKind::Transpose => transpose_kernel(k),
        OpKind::Concat => concat_kernel(k),
        OpKind::Slice => slice_kernel(k),
        OpKind::Constant => constant_kernel(k, scalar),
        OpKind::Placeholder => placeholder_kernel(k),
        OpKind::Return => return_kernel(k),
        OpKind::Fused => fused_kernel(k),
        OpKind::Custom => custom_kernel(k),
    }
}

/// A remark on the architecture.
pub open spec fn matmul_note(arch: GpuArch) -> Seq<char> {
    match arch {
        GpuArch::Ascend910B1 => "// Ascend 910B1: Cube Core（mmad 指令）+ Vector Core，原生生支持 FP16/BF16 GEMM"@,
        GpuArch::Ascend910B3 => "// Ascend 910B3: 增强 Cube Core + Vector Core，吞吐更高的 mmad 指令"@,
        GpuArch::Ascend310P3 => "// Ascend 310P3: 轻量推理路径，Cube 走轻量 GEMM，Vector 仍处理累加"@,
        _ => "// 非 Ascend 架构：CANN 主要面向 Ascend NPU，仍生成 Cube Core + mmad 路径"@,
    }
}

fn make_matmul_note(arch: GpuArch) -> (r: &'static str)
    ensures
        r@ == matmul_note(arch),
{
    match arch {
        GpuArch::Ascend910B1 => "// Ascend 910B1: Cube Core（mmad 指令）+ Vector Core，原生生支持 FP16/BF16 GEMM",
        GpuArch::Ascend910B3 => "// Ascend 910B3: 增强 Cube Core + Vector Core，吞吐更高的 mmad 指令",
        GpuArch::Ascend310P3 => "// Ascend 310P3: 轻量推理路径，Cube 走轻量 GEMM，Vector 仍处理累加",
        _ => "// 非 Ascend 架构：CANN 主要面向 Ascend NPU，仍生成 Cube Core + mmad 路径",
    }
}

/// An ASCII letter in upper case; any other character as it is.
pub open spec fn upper(c: char) -> char {
    if 'a' <= c && c <= 'z' {
        ((c as u32) - 32) as char
    } else {
        c
    }
}

fn upper_of(c: char) -> (r: char)
    ensures
        r == upper(c),
{
    if 'a' <= c && c <= 'z' {
        ((c as u8) - 32) as char
    } else {
        c
    }
}

/// A text from position `i` on without underscores, and with upper case letters
/// behind them; `after` tells whether one stood just before.
pub open spec fn camel(s: Seq<char>, i: int, after: bool) -> Seq<char>
    decreases s.len() - i,
{
    if i < 0 || i >= s.len() {
        Seq::empty()
    } else if s[i] == '_' {
        camel(s, i + 1, true)
    } else if after {
        seq![upper(s[i])] + camel(s, i + 1, false)
    } else {
        seq![s[i]] + camel(s, i + 1, false)
    }
}

/// The name of the class of a kernel: the name of the kernel without
/// underscores, its first letter and those behind underscores in upper case.
pub open spec fn class_text(name: Seq<char>) -> Seq<char> {
    camel(name, 0, true)
}

fn class_name(k: &KernelSpec) -> (r: String)
    ensures
        r@ == class_text(k@.name),
{
    let name = chars_of(k.name.as_str());
    let mut out = String::new();
    let mut after: bool = true;
    let mut i: usize = 0;
    while i < name.len()
        invariant
            i <= name@.len(),
            name@ == k@.name,
            out@ + camel(name@, i as int, after) == class_text(k@.name),
        decreases name@.len() - i,
    {
        let ghost before = out@;
        let c: char = name[i];
        if c == '_' {
            after = true;
        } else {
            let d: char = if after {
                upper_of(c)
            } else {
                c
            };
            out.push(d);
            assert(before + (seq![d] + camel(name@, i + 1, false)) == before.push(d) + camel(
                name@,
                i + 1,
                false,
            ));
            after = false;
        }
        i += 1;
    }
    assert(out@ + Seq::<char>::empty() == out@);
    out
}

/// A kernel that calls a vector function of two inputs.
pub open spec fn elem_binary_text(k: KernelModel, api: Seq<char>) -> Seq<char> {
    elem_binary_template()
        .put("__NAME__"@, k.name)
        .put("__CLS__"@, class_text(k.name))
        .put("__T__"@, k.dtype.cann_text())
        .put("__API__"@, api)
}

fn elem_binary(k: &KernelSpec, api: &str) -> (r: String)
    ensures
        r@ == elem_binary_text(k@, api@),
{
    let class = class_name(k);
    let whole = elem_binary_source();
    let s = replace_all(whole.as_str(), "__NAME__", k.name.as_str());
    let s = replace_all(s.as_str(), "__CLS__", class.as_str());
    let s = replace_all(s.as_str(), "__T__", k.dtype.cann_type());
    replace_all(s.as_str(), "__API__", api)
}

/// A kernel that calls a vector function of one input.
pub open spec fn elem_unary_text(k: KernelModel, api: Seq<char>, note: Seq<char>) -> Seq<char> {
    elem_unary_template()
        .put("__NAME__"@, k.name)
        .put("__CLS__"@, class_text(k.name))
        .put("__T__"@, k.dtype.cann_text())
        .put("__API__"@, api)
        .put("__NOTE__"@, note)
}

fn elem_unary(k: &KernelSpec, api: &str, note: &str) -> (r: String)
    ensures
        r@ == elem_unary_text(k@, api@, note@),
{
    let class = class_name(k);
    let whole = elem_unary_source();
    let s = replace_all(whole.as_str(), "__NAME__", k.name.as_str());
    let s = replace_all(s.as_str(), "__CLS__", class.as_str());
    let s = replace_all(s.as_str(), "__T__", k.dtype.cann_type());
    let s = replace_all(s.as_str(), "__API__", api);
    replace_all(s.as_str(), "__NOTE__", note)
}

/// A reduction.
pub open spec fn reduce_kernel_text(
    k: KernelModel,
    api: Seq<char>,
    mean_div: Seq<char>,
) -> Seq<char> {
    reduce_template()
        .put("__NAME__"@, k.name)
        .put("__CLS__"@, class_text(k.name))
        .put("__T__"@, k.dtype.cann_text())
        .put("__API__"@, api)
        .put("__MEAN_DIV__"@, mean_div)
}

fn reduce_kernel(k: &KernelSpec, api: &str, mean_div: &str) -> (r: String)
    ensures
        r@ == reduce_kernel_text(k@, api@, mean_div@),
{
    let class = class_name(k);
    let whole = reduce_source();
    let s = replace_all(whole.as_str(), "__NAME__", k.name.as_str());
    let s = replace_all(s.as_str(), "__CLS__", class.as_str());
    let s = replace_all(s.as_str(), "__T__", k.dtype.cann_type());
    let s = replace_all(s.as_str(), "__API__", api);
    replace_all(s.as_str(), "__MEAN_DIV__", mean_div)
}

/// A matrix product on the matrix unit.
pub open spec fn matmul_kernel_text(k: KernelModel, arch: GpuArch) -> Seq<char> {
    matmul_template()
        .put("__NAME__"@, k.name)
        .put("__CLS__"@, class_text(k.name))
        .put("__ARCH_NOTE__"@, matmul_note(arch))
}

fn matmul_kernel(k: &KernelSpec, arch: GpuArch) -> (r: String)
    ensures
        r@ == matmul_kernel_text(k@, arch),
{
    let class = class_name(k);
    let whole = matmul_source();
    let s = replace_all(whole.as_str(), "__NAME__", k.name.as_str());
    let s = replace_all(s.as_str(), "__CLS__", class.as_str());
    replace_all(s.as_str(), "__ARCH_NOTE__", make_matmul_note(arch))
}

/// A softmax in several passes.
pub open spec fn softmax_kernel_text(k: KernelModel) -> Seq<char> {
    softmax_template().put("__NAME__"@, k.name).put("__CLS__"@, class_text(k.name))
}

fn softmax_kernel(k: &KernelSpec) -> (r: String)
    ensures
        r@ == softmax_kernel_text(k@),
{
    let class = class_name(k);
    let whole = softmax_source();
    let s = replace_all(whole.as_str(), "__NAME__", k.name.as_str());
    replace_all(s.as_str(), "__CLS__", class.as_str())
}

/// A layer normalization in two passes.
pub open spec fn layernorm_kernel_text(k: KernelModel, epsilon: Seq<char>) -> Seq<char> {
    layernorm_template()
        .put("__NAME__"@, k.name)
        .put("__CLS__"@, class_text(k.name))
        .put("__EPS__"@, epsilon)
}

fn layernorm_kernel(k: &KernelSpec, epsilon: &str) -> (r: String)
    ensures
        r@ == layernorm_kernel_text(k@, epsilon@),
{
    let class = class_name(k);
    let whole = layernorm_source();
    let s = replace_all(whole.as_str(), "__NAME__", k.name.as_str());
    let s = replace_all(s.as_str(), "__CLS__", class.as_str());
    replace_all(s.as_str(), "__EPS__", epsilon)
}

/// A convolution as a matrix product.
pub open spec fn conv_kernel_text(k: KernelModel) -> Seq<char> {
    conv_template().put("__NAME__"@, k.name).put("__CLS__"@, class_text(k.name))
}

fn conv_kernel(k: &KernelSpec) -> (r: String)
    ensures
        r@ == conv_kernel_text(k@),
{
    let class = class_name(k);
    let whole = conv_source();
    let s = replace_all(whole.as_str(), "__NAME__", k.name.as_str());
    replace_all(s.as_str(), "__CLS__", class.as_str())
}

/// Pooling on the vector unit.
pub open spec fn pool_kernel_text(k: KernelModel) -> Seq<char> {
    pool_template().put("__NAME__"@, k.name).put("__CLS__"@, class_text(k.name))
}

fn pool_kernel(k: &KernelSpec) -> (r: String)
    ensures
        r@ == pool_kernel_text(k@),
{
    let class = class_name(k);
    let whole = pool_source();
    let s = replace_all(whole.as_str(), "__NAME__", k.name.as_str());
    replace_all(s.as_str(), "__CLS__", class.as_str())
}

/// A copy.
pub open spec fn reshape_kernel_text(k: KernelModel) -> Seq<char> {
    reshape_template()
        .put("__NAME__"@, k.name)
        .put("__CLS__"@, class_text(k.name))
        .put("__T__"@, k.dtype.cann_text())
}

fn reshape_kernel(k: &KernelSpec) -> (r: String)
    ensures
        r@ == reshape_kernel_text(k@),
{
    let class = class_name(k);
    let whole = reshape_source();
    let s = replace_all(whole.as_str(), "__NAME__", k.name.as_str());
    let s = replace_all(s.as_str(), "__CLS__", class.as_str());
    replace_all(s.as_str(), "__T__", k.dtype.cann_type())
}

/// A transposition.
pub open spec fn transpose_kernel_text(k: KernelModel) -> Seq<char> {
    transpose_template()
        .put("__NAME__"@, k.name)
        .put("__CLS__"@, class_text(k.name))
        .put("__T__"@, k.dtype.cann_text())
}

fn transpose_kernel(k: &KernelSpec) -> (r: String)
    ensures
        r@ == transpose_kernel_text(k@),
{
    let class = class_name(k);
    let whole = transpose_source();
    let s = replace_all(whole.as_str(), "__NAME__", k.name.as_str());
    let s = replace_all(s.as_str(), "__CLS__", class.as_str());
    replace_all(s.as_str(), "__T__", k.dtype.cann_type())
}

/// A concatenation.
pub open spec fn concat_kernel_text(k: KernelModel) -> Seq<char> {
    concat_template()
        .put("__NAME__"@, k.name)
        .put("__CLS__"@, class_text(k.name))
        .put("__T__"@, k.dtype.cann_text())
        .put("__N_INPUTS__"@, dec(at_least_two(k.inputs.len())))
}

fn concat_kernel(k: &KernelSpec) -> (r: String)
    ensures
        r@ == concat_kernel_text(k@),
{
    let class = class_name(k);
    let n: usize = k.inputs.len();
    let count = dec_string(if n < 2 { 2 } else { n as u64 });
    let whole = concat_source();
    let s = replace_all(whole.as_str(), "__NAME__", k.name.as_str());
    let s = replace_all(s.as_str(), "__CLS__", class.as_str());
    let s = replace_all(s.as_str(), "__T__", k.dtype.cann_type());
    replace_all(s.as_str(), "__N_INPUTS__", count.as_str())
}

/// A strided copy.
pub open spec fn slice_kernel_text(k: KernelModel) -> Seq<char> {
    slice_template()
        .put("__NAME__"@, k.name)
        .put("__CLS__"@, class_text(k.name))
        .put("__T__"@, k.dtype.cann_text())
}

fn slice_kernel(k: &KernelSpec) -> (r: String)
    ensures
        r@ == slice_kernel_text(k@),
{
    let class = class_name(k);
    let whole = slice_source();
    let s = replace_all(whole.as_str(), "__NAME__", k.name.as_str());
    let s = replace_all(s.as_str(), "__CLS__", class.as_str());
    replace_all(s.as_str(), "__T__", k.dtype.cann_type())
}

/// A kernel that fills its output with a value.
pub open spec fn constant_kernel_text(k: KernelModel, value: Seq<char>) -> Seq<char> {
    constant_template()
        .put("__NAME__"@, k.name)
        .put("__CLS__"@, class_text(k.name))
        .put("__T__"@, k.dtype.cann_text())
        .put("__VAL__"@, value)
}

fn constant_kernel(k: &KernelSpec, value: &str) -> (r: String)
    ensures
        r@ == constant_kernel_text(k@, value@),
{
    let class = class_name(k);
    let whole = constant_source();
    let s = replace_all(whole.as_str(), "__NAME__", k.name.as_str());
    let s = replace_all(s.as_str(), "__CLS__", class.as_str());
    let s = replace_all(s.as_str(), "__T__", k.dtype.cann_type());
    replace_all(s.as_str(), "__VAL__", value)
}

/// What stands for an input of the graph.
pub open spec fn placeholder_kernel_text(k: KernelModel) -> Seq<char> {
    placeholder_template()
        .put("__NAME__"@, k.name)
        .put("__CLS__"@, class_text(k.name))
        .put("__T__"@, k.dtype.cann_text())
}

fn placeholder_kernel(k: &KernelSpec) -> (r: String)
    ensures
        r@ == placeholder_kernel_text(k@),
{
    let class = class_name(k);
    let whole = placeholder_source();
    let s = replace_all(whole.as_str(), "__NAME__", k.name.as_str());
    let s = replace_all(s.as_str(), "__CLS__", class.as_str());
    replace_all(s.as_str(), "__T__", k.dtype.cann_type())
}

/// What stands for an output of the graph.
pub open spec fn return_kernel_text(k: KernelModel) -> Seq<char> {
    return_template()
        .put("__NAME__"@, k.name)
        .put("__CLS__"@, class_text(k.name))
        .put("__T__"@, k.dtype.cann_text())
}

fn return_kernel(k: &KernelSpec) -> (r: String)
    ensures
        r@ == return_kernel_text(k@),
{
    let class = class_name(k);
    let whole = return_source();
    let s = replace_all(whole.as_str(), "__NAME__", k.name.as_str());
    let s = replace_all(s.as_str(), "__CLS__", class.as_str());
    replace_all(s.as_str(), "__T__", k.dtype.cann_type())
}

/// A chain of operators in one kernel.
pub open spec fn fused_kernel_text(k: KernelModel) -> Seq<char> {
    fused_template()
        .put("__NAME__"@, k.name)
        .put("__CLS__"@, class_text(k.name))
        .put("__T__"@, k.dtype.cann_text())
        .put("__OPS__"@, chain(k.attrs.fused_ops))
}

fn fused_kernel(k: &KernelSpec) -> (r: String)
    ensures
        r@ == fused_kernel_text(k@),
{
    let class = class_name(k);
    let ops = chain_of(&k.attrs.fused_ops);
    let whole = fused_source();
    let s = replace_all(whole.as_str(), "__NAME__", k.name.as_str());
    let s = replace_all(s.as_str(), "__CLS__", class.as_str());
    let s = replace_all(s.as_str(), "__T__", k.dtype.cann_type());
    replace_all(s.as_str(), "__OPS__", ops.as_str())
}

/// An operator that is not known.
pub open spec fn custom_kernel_text(k: KernelModel) -> Seq<char> {
    custom_template()
        .put("__NAME__"@, k.name)
        .put("__CLS__"@, class_text(k.name))
        .put("__T__"@, k.dtype.cann_text())
        .put("__OP_TYPE__"@, named_or_unknown(k.attrs.custom_op_type))
}

fn custom_kernel(k: &KernelSpec) -> (r: String)
    ensures
        r@ == custom_kernel_text(k@),
{
    let class = class_name(k);
    let custom = name_or_unknown(&k.attrs.custom_op_type);
    let whole = custom_source();
    let s = replace_all(whole.as_str(), "__NAME__", k.name.as_str());
    let s = replace_all(s.as_str(), "__CLS__", class.as_str());
    let s = replace_all(s.as_str(), "__T__", k.dtype.cann_type());
    replace_all(s.as_str(), "__OP_TYPE__", custom.as_str())
}

} // verus!
