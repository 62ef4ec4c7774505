//! CUDA C++ source.

pub mod laws;
pub mod sizes;
pub mod templates;

use vstd::prelude::*;
use crate::base::{NeutronError, OpKind};
use crate::lisp::{Floats, Outcome};
use crate::backend::dialect::{
    Dialect, Template, all_accepted, emit_in, emitted, first_of, first_or, join, joined, name_or_unknown,
    named_or_unknown,
};
use crate::backend::spec::{
    BackendOutput, DTypeExt, GpuArch, KernelModel, KernelSpec, SourceLang, dim3, kernel_models, list_ints,
    listed,
};
use crate::text::{dec, dec_int, dec_int_string, push_dec, push_dec_int, replace_all, str_eq, texts};
use self::templates::{
    AMPERE_NOTES, BLACKWELL_NOTES, HEADER, HOPPER_NOTES, LAUNCHERS, PRELUDE, concat_source,
    concat_template, constant_source, constant_template, conv_source, conv_template,
    custom_source, custom_template, elem_binary_source, elem_binary_template, elem_unary_source,
    elem_unary_template, fused_source, fused_template, layernorm_source, layernorm_template,
    matmul_ampere_source, matmul_ampere_template, matmul_blackwell_source,
    matmul_blackwell_template, matmul_hopper_source, matmul_hopper_template, pool_source,
    pool_template, reduce_source, reduce_template, reshape_source, reshape_template, slice_source,
    slice_template, softmax_source, softmax_template, transpose_source, transpose_template,
};

verus! {

/// Generates CUDA source.
pub fn emit(kernels: &[KernelSpec], arch: GpuArch, floats: &mut Floats) -> (r: Outcome<
    BackendOutput,
    NeutronError,
>)
    requires
        all_accepted::<Cuda>(kernel_models(kernels@)),
    ensures
        (r@, final(floats)@) == emitted::<Cuda>(kernel_models(kernels@), arch, old(floats)@),
{
    generate(kernels, arch, floats)
}

/// Generates CUDA source: a kernel and a host function that launches it for each node.
pub fn generate(kernels: &[KernelSpec], arch: GpuArch, floats: &mut Floats) -> (r: Outcome<
    BackendOutput,
    NeutronError,
>)
    requires
        all_accepted::<Cuda>(kernel_models(kernels@)),
    ensures
        (r@, final(floats)@) == emitted::<Cuda>(kernel_models(kernels@), arch, old(floats)@),
{
    emit_in::<Cuda>(kernels, arch, floats)
}

/// CUDA C++.
pub struct Cuda;

impl Dialect for Cuda {
    open spec fn language() -> SourceLang {
        SourceLang::Cuda
    }

    open spec fn epsilon_digits() -> Option<u32> {
        Some(6)
    }

    open spec fn accepts(k: KernelModel) -> bool {
        k.fits() && (k.op == OpKind::Constant ==> k.out_len() <= usize::MAX)
    }

    open spec fn opening(arch: GpuArch, count: nat) -> Seq<char> {
        header_text(arch, count)
    }

    open spec fn kernel(k: KernelModel, scalar: Seq<char>, arch: GpuArch) -> Seq<char> {
        kernel_text(k, scalar, arch)
    }

    open spec fn launch_opening() -> Seq<char> {
        LAUNCHERS@
    }

    open spec fn launcher(k: KernelModel, scalar: Seq<char>, arch: GpuArch) -> Seq<char> {
        launcher_text(k, scalar, arch)
    }

    proof fn accepted_fits(k: KernelModel) {
    }

    fn lang() -> (r: SourceLang) {
        SourceLang::Cuda
    }

    fn digits() -> (r: Option<u32>) {
        Some(6)
    }

    fn make_header(arch: GpuArch, count: usize) -> (r: String) {
        make_header(arch, count)
    }

    fn make_kernel(k: &KernelSpec, scalar: &str, arch: GpuArch) -> (r: String) {
        make_kernel(k, scalar, arch)
    }

    fn make_launch_header() -> (r: String) {
        LAUNCHERS.to_owned()
    }

    fn make_launcher(k: &KernelSpec, scalar: &str, arch: GpuArch) -> (r: String) {
        make_launcher(k, scalar, arch)
    }
}

/// What a file begins with.
pub open spec fn header_text(arch: GpuArch, count: nat) -> Seq<char> {
    HEADER@
        + arch.label()
        + " (SM"@
        + dec(arch.capability().0 as nat)
        + dec(arch.capability().1 as nat)
        + ")\n// kernel 数量: "@
        + dec(count)
        + "\n// 生成器: backend::cuda::kernels\n"@
        + (if arch == GpuArch::Blackwell100 {
        BLACKWELL_NOTES@
    } else if arch.since_hopper() {
        HOPPER_NOTES@
    } else {
        AMPERE_NOTES@
    }) + PRELUDE@
}

fn make_header(arch: GpuArch, count: usize) -> (r: String)
    ensures
        r@ == header_text(arch, count as nat),
{
    let mut s = HEADER.to_owned();
    s.append(arch.name());
    s.append(" (SM");
    push_dec(&mut s, arch.sm_version().0 as u64);
    push_dec(&mut s, arch.sm_version().1 as u64);
    s.append(")\n// kernel 数量: ");
    push_dec(&mut s, count as u64);
    s.append("\n// 生成器: backend::cuda::kernels\n");
    if arch == GpuArch::Blackwell100 {
        s.append(BLACKWELL_NOTES);
    } else if arch.has_tma() && arch.has_wgmma() {
        s.append(HOPPER_NOTES);
    } else {
        s.append(AMPERE_NOTES);
    }
    s.append(PRELUDE);
    s
}

/// How many elements a constant has, as a 32 bit number.
pub open spec fn constant_len(k: KernelModel) -> i32 {
    if k.outputs.len() == 0 {
        1
    } else {
        k.out_len() as i32
    }
}

/// The host function that launches a kernel.
pub open spec fn launcher_text(k: KernelModel, scalar: Seq<char>, arch: GpuArch) -> Seq<char> {
    match k.op {
        OpKind::Placeholder | OpKind::Return => "// launch_"@
        + k.name
        + ": no kernel launch needed (data flow marker)\n\n"@,
        OpKind::Constant => "void launch_"@
        + k.name
        + "(float* out, cudaStream_t stream) {\n    // Constant: init_constant value="@
        + scalar
        + " n="@
        + dec_int(constant_len(k) as int)
        + "\n    "@
        + k.name
        + "<<<"@
        + dim3(k.launched(arch).grid)
        + ", "@
        + dim3(k.launched(arch).block)
        + ", "@
        + dec(k.launched(arch).shared_mem as nat)
        + ", stream>>>(out, "@
        + scalar
        + "f, "@
        + dec_int(constant_len(k) as int)
        + ");\n}\n\n"@,
        _ => "void launch_"@
        + k.name
        + "(void* out, const void* in, int n, cudaStream_t stream) {\n    // grid="@
        + dim3(k.launched(arch).grid)
        + ", block="@
        + dim3(k.launched(arch).block)
        + ", shared_mem="@
        + dec(k.launched(arch).shared_mem as nat)
        + " bytes\n    "@
        + k.name
        + "<<<"@
        + dim3(k.launched(arch).grid)
        + ", "@
        + dim3(k.launched(arch).block)
        + ", "@
        + dec(k.launched(arch).shared_mem as nat)
        + ", stream>>>(static_cast<float*>(out), static_cast<const float*>(in), n);\n}\n\n"@,
    }
}

fn make_launcher(k: &KernelSpec, scalar: &str, arch: GpuArch) -> (r: String)
    requires
        Cuda::accepts(k@),
    ensures
        r@ == launcher_text(k@, scalar@, arch),
{
    let l = k.launch(arch);
    let grid = l.grid_str();
    let block = l.block_str();
    match k.op {
        OpKind::Placeholder | OpKind::Return => {
            let mut s = "// launch_".to_owned();
            s.append(k.name.as_str());
            s.append(": no kernel launch needed (data flow marker)\n\n");
            s
        },
        OpKind::Constant => {
            let n: i32 = if k.outputs.len() == 0 {
                1
            } else {
                #[verifier::truncate]
                (k.outputs[0].element_count() as i32)
            };
            let mut s = "void launch_".to_owned();
            s.append(k.name.as_str());
            s.append("(float* out, cudaStream_t stream) {\n    // Constant: init_constant value=");
            s.append(scalar);
            s.append(" n=");
            push_dec_int(&mut s, n as i64);
            s.append("\n    ");
            s.append(k.name.as_str());
            s.append("<<<");
            s.append(grid.as_str());
            s.append(", ");
            s.append(block.as_str());
            s.append(", ");
            push_dec(&mut s, l.shared_mem as u64);
            s.append(", stream>>>(out, ");
            s.append(scalar);
            s.append("f, ");
            push_dec_int(&mut s, n as i64);
            s.append(");\n}\n\n");
            s
        },
        _ => {
            let mut s = "void launch_".to_owned();
            s.append(k.name.as_str());
            s.append("(void* out, const void* in, int n, cudaStream_t stream) {\n    // grid=");
            s.append(grid.as_str());
            s.append(", block=");
            s.append(block.as_str());
            s.append(", shared_mem=");
            push_dec(&mut s, l.shared_mem as u64);
            s.append(" bytes\n    ");
            s.append(k.name.as_str());
            s.append("<<<");
            s.append(grid.as_str());
            s.append(", ");
            s.append(block.as_str());
            s.append(", ");
            push_dec(&mut s, l.shared_mem as u64);
            s.append(", stream>>>(static_cast<float*>(out), static_cast<const float*>(in), n);\n}\n\n");
            s
        },
    }
}

/// The source of a kernel.
pub open spec fn kernel_text(k: KernelModel, scalar: Seq<char>, arch: GpuArch) -> Seq<char> {
    match k.op {
        OpKind::Add => elem_binary_text(k, "c[i] = a[i] + b[i];"@),
        OpKind::Sub => elem_binary_text(k, "c[i] = a[i] - b[i];"@),
        OpKind::Mul => elem_binary_text(k, "c[i] = a[i] * b[i];"@),
        OpKind::Div => elem_binary_text(k, "c[i] = a[i] / b[i];"@),
        OpKind::Pow => elem_binary_text(k, "c[i] = powf(a[i], b[i]);"@),
        OpKind::Relu => elem_unary_text(k, "fmaxf(a[i], 0.0f)"@),
        OpKind::Gelu => elem_unary_text(
            k,
            "0.5f * a[i] * (1.0f + tanhf(0.7978845608f * (a[i] + 0.044715f * a[i]*a[i]*a[i])))"@,
        ),
        OpKind::Sigmoid => elem_unary_text(k, "1.0f / (1.0f + expf(-a[i]))"@),
        OpKind::Tanh => elem_unary_text(k, "tanhf(a[i])"@),
        OpKind::Sqrt => elem_unary_text(k, "sqrtf(a[i])"@),
        OpKind::Exp => elem_unary_text(k, "expf(a[i])"@),
        OpKind::Log => elem_unary_text(k, "logf(a[i])"@),
        OpKind::Rsqrt => elem_unary_text(k, "rsqrtf(a[i])"@),
        OpKind::Reciprocal => elem_unary_text(k, "1.0f / a[i]"@),
        OpKind::Abs => elem_unary_text(k, "fabsf(a[i])"@),
        OpKind::ReduceSum => reduce_kernel_text(
            k,
            "ReduceSum"@,
            "0.0f"@,
            "acc = acc + v;"@,
            "shared[tid] = shared[tid] + shared[tid + s];"@,
            "if (tid == 0) output[bid] = shared[0];"@,
        ),
        OpKind::ReduceMean => reduce_kernel_text(
            k,
            "ReduceMean"@,
            "0.0f"@,
            "acc = acc + v;"@,
            "shared[tid] = shared[tid] + shared[tid + s];"@,
            "if (tid == 0) output[bid] = shared[0] / (float)N;"@,
        ),
        OpKind::ReduceMax => reduce_kernel_text(
            k,
            "ReduceMax"@,
            "-INFINITY"@,
            "acc = fmaxf(acc, v);"@,
            "shared[tid] = fmaxf(shared[tid], shared[tid + s]);"@,
            "if (tid == 0) output[bid] = shared[0];"@,
        ),
        OpKind::MatMul => matmul_kernel_text(k, arch),
        OpKind::Softmax => softmax_kernel_text(k),
        OpKind::LayerNorm => layernorm_kernel_text(k, scalar),
        OpKind::Conv => conv_kernel_text(k),
        OpKind::Pool => pool_kernel_text(k),
        OpKind::Reshape => reshape_kernel_text(k),
        OpKind::Transpose => transpose_kernel_text(k),
        OpKind::Concat => concat_kernel_text(k),
        OpKind::Slice => slice_kernel_text(k),
        OpKind::Constant => constant_kernel_text(k, scalar),
        OpKind::Placeholder => placeholder_kernel_text(k),
        OpKind::Return => return_kernel_text(k),
        OpKind::Fused => fused_kernel_text(k),
        OpKind::Custom => custom_kernel_text(k),
    }
}

fn make_kernel(k: &KernelSpec, scalar: &str, arch: GpuArch) -> (r: String)
    ensures
        r@ == kernel_text(k@, scalar@, arch),
{
    match k.op {
        OpKind::Add => elem_binary(k, "c[i] = a[i] + b[i];"),
        OpKind::Sub => elem_binary(k, "c[i] = a[i] - b[i];"),
        OpKind::Mul => elem_binary(k, "c[i] = a[i] * b[i];"),
        OpKind::Div => elem_binary(k, "c[i] = a[i] / b[i];"),
        OpKind::Pow => elem_binary(k, "c[i] = powf(a[i], b[i]);"),
        OpKind::Relu => elem_unary(k, "fmaxf(a[i], 0.0f)"),
        OpKind::Gelu => elem_unary(
            k,
            "0.5f * a[i] * (1.0f + tanhf(0.7978845608f * (a[i] + 0.044715f * a[i]*a[i]*a[i])))",
        ),
        OpKind::Sigmoid => elem_unary(k, "1.0f / (1.0f + expf(-a[i]))"),
        OpKind::Tanh => elem_unary(k, "tanhf(a[i])"),
        OpKind::Sqrt => elem_unary(k, "sqrtf(a[i])"),
        OpKind::Exp => elem_unary(k, "expf(a[i])"),
        OpKind::Log => elem_unary(k, "logf(a[i])"),
        OpKind::Rsqrt => elem_unary(k, "rsqrtf(a[i])"),
        OpKind::Reciprocal => elem_unary(k, "1.0f / a[i]"),
        OpKind::Abs => elem_unary(k, "fabsf(a[i])"),
        OpKind::ReduceSum => reduce_kernel(
            k,
            "ReduceSum",
            "0.0f",
            "acc = acc + v;",
            "shared[tid] = shared[tid] + shared[tid + s];",
            "if (tid == 0) output[bid] = shared[0];",
        ),
        OpKind::ReduceMean => reduce_kernel(
            k,
            "ReduceMean",
            "0.0f",
            "acc = acc + v;",
            "shared[tid] = shared[tid] + shared[tid + s];",
            "if (tid == 0) output[bid] = shared[0] / (float)N;",
        ),
        OpKind::ReduceMax => reduce_kernel(
            k,
            "ReduceMax",
            "-INFINITY",
            "acc = fmaxf(acc, v);",
            "shared[tid] = fmaxf(shared[tid], shared[tid + s]);",
            "if (tid == 0) output[bid] = shared[0];",
        ),
        OpKind::MatMul => matmul_kernel(k, arch),
        OpKind::Softmax => softmax_kernel(k),
        OpKind::LayerNorm => layernorm_kernel(k, scalar),
        OpKind::Conv => conv_kernel(k),
        OpKind::Pool => pool_kernel(k),
        OpKind::Reshape => reshape_kernel(k),
        OpKind::Transpose => transpose_kernel(k),
        OpKind::Concat => concat_kernel(k),
        OpKind::Slice => slice_kernel(k),
        OpKind::Constant => constant_kernel(k, scalar),
        OpKind::Placeholder => placeholder_kernel(k),
        OpKind::Return => return_kernel(k),
        OpKind::Fused => fused_kernel(k),
        OpKind::Custom => custom_kernel(k),
    }
}

/// The axis of a kernel, or a default.
pub open spec fn axis_or(axis: Option<i64>, default: i64) -> i64 {
    match axis {
        Some(a) => a,
        None => default,
    }
}

fn axis_of(axis: Option<i64>, default: i64) -> (r: i64)
    ensures
        r == axis_or(axis, default),
{
    match axis {
        Some(a) => a,
        None => default,
    }
}

/// Numbers with commas between them, or a default if there are none.
pub open spec fn list_or(v: Seq<i64>, default: Seq<char>) -> Seq<char> {
    if v.len() == 0 {
        default
    } else {
        listed(v, ", "@)
    }
}

fn list_of(v: &Vec<i64>, default: &str) -> (r: String)
    ensures
        r@ == list_or(v@, default@),
{
    if v.len() == 0 {
        default.to_owned()
    } else {
        list_ints(v, ", ")
    }
}

/// The declaration of the data of a constant with many elements.
pub open spec fn tensor_init(count: nat) -> Seq<char> {
    if count == 0 {
        Seq::empty()
    } else {
        "// 多元素常量：用 __constant__ 数组初始化（"@ + dec(count)
            + " 个元素，由 host 端填入）\n__constant__ float const_data["@ + dec(count)
            + "] = { /* filled by host */ };\n"@
    }
}

fn make_tensor_init(count: usize) -> (r: String)
    ensures
        r@ == tensor_init(count as nat),
{
    if count == 0 {
        let none = String::new();
        assert(none@ == Seq::<char>::empty());
        return none;
    }
    let mut s = "// 多元素常量：用 __constant__ 数组初始化（".to_owned();
    push_dec(&mut s, count as u64);
    s.append(" 个元素，由 host 端填入）\n__constant__ float const_data[");
    push_dec(&mut s, count as u64);
    s.append("] = { /* filled by host */ };\n");
    s
}

/// The operators of a fused kernel; without any it does nothing.
pub open spec fn fused(ops: Seq<Seq<char>>) -> Seq<Seq<char>> {
    if ops.len() == 0 {
        seq!["identity"@]
    } else {
        ops
    }
}

fn make_fused(ops: &Vec<String>) -> (r: Vec<String>)
    ensures
        texts(r@) == fused(texts(ops@)),
{
    let mut out: Vec<String> = Vec::new();
    if ops.len() == 0 {
        out.push("identity".to_owned());
        assert(texts(out@) == seq!["identity"@]);
        return out;
    }
    let mut k: usize = 0;
    while k < ops.len()
        invariant
            k <= ops@.len(),
            out@.len() == k,
            forall|i: int| 0 <= i < k ==> (#[trigger] out@[i])@ == ops@[i]@,
        decreases ops@.len() - k,
    {
        out.push(ops[k].clone());
        k += 1;
    }
    assert(texts(out@) == texts(ops@));
    out
}

/// The statement that applies an operator to `x`.
pub open spec fn fused_line(op: Seq<char>) -> Seq<char> {
    if op == "relu"@ {
        "        x = fmaxf(x, 0.0f);\n"@
    } else if op == "sigmoid"@ {
        "        x = 1.0f / (1.0f + expf(-x));\n"@
    } else if op == "tanh"@ {
        "        x = tanhf(x);\n"@
    } else if op == "exp"@ {
        "        x = expf(x);\n"@
    } else if op == "log"@ {
        "        x = logf(x);\n"@
    } else if op == "sqrt"@ {
        "        x = sqrtf(x);\n"@
    } else if op == "rsqrt"@ {
        "        x = rsqrtf(x);\n"@
    } else if op == "reciprocal"@ {
        "        x = 1.0f / x;\n"@
    } else if op == "abs"@ {
        "        x = fabsf(x);\n"@
    } else if op == "gelu"@ {
        "        x = 0.5f * x * (1.0f + tanhf(0.7978845608f * (x + 0.044715f * x*x*x)));\n"@
    } else if op == "identity"@ {
        "        /* identity: no-op */\n"@
    } else {
        "        /* unknown op: "@ + op + " */\n"@
    }
}

fn make_fused_line(op: &String) -> (r: String)
    ensures
        r@ == fused_line(op@),
{
    let op = op.as_str();
    if str_eq(op, "relu") {
        return "        x = fmaxf(x, 0.0f);\n".to_owned();
    }
    if str_eq(op, "sigmoid") {
        return "        x = 1.0f / (1.0f + expf(-x));\n".to_owned();
    }
    if str_eq(op, "tanh") {
        return "        x = tanhf(x);\n".to_owned();
    }
    if str_eq(op, "exp") {
        return "        x = expf(x);\n".to_owned();
    }
    if str_eq(op, "log") {
        return "        x = logf(x);\n".to_owned();
    }
    if str_eq(op, "sqrt") {
        return "        x = sqrtf(x);\n".to_owned();
    }
    if str_eq(op, "rsqrt") {
        return "        x = rsqrtf(x);\n".to_owned();
    }
    if str_eq(op, "reciprocal") {
        return "        x = 1.0f / x;\n".to_owned();
    }
    if str_eq(op, "abs") {
        return "        x = fabsf(x);\n".to_owned();
    }
    if str_eq(op, "gelu") {
        return "        x = 0.5f * x * (1.0f + tanhf(0.7978845608f * (x + 0.044715f * x*x*x)));\n".to_owned();
    }
    if str_eq(op, "identity") {
        return "        /* identity: no-op */\n".to_owned();
    }
    let mut s = "        /* unknown op: ".to_owned();
    s.append(op);
    s.append(" */\n");
    s
}

/// The statements that apply operators to `x`, one after the other.
pub open spec fn fused_lines(ops: Seq<Seq<char>>) -> Seq<char>
    decreases ops.len(),
{
    if ops.len() == 0 {
        Seq::empty()
    } else {
        fused_lines(ops.drop_last()) + fused_line(ops.last())
    }
}

fn make_fused_lines(ops: &Vec<String>) -> (r: String)
    ensures
        r@ == fused_lines(texts(ops@)),
{
    let mut s = String::new();
    let mut k: usize = 0;
    while k < ops.len()
        invariant
            k <= ops@.len(),
            s@ == fused_lines(texts(ops@).take(k as int)),
        decreases ops@.len() - k,
    {
        s.append(make_fused_line(&ops[k]).as_str());
        k += 1;
        assert(texts(ops@).take(k as int).drop_last() == texts(ops@).take(k - 1));
    }
    assert(texts(ops@).take(k as int) == texts(ops@));
    s
}

/// The kernel that an architecture multiplies matrices with.
pub open spec fn matmul_kernel_text(k: KernelModel, arch: GpuArch) -> Seq<char> {
    if arch == GpuArch::Blackwell100 {
        matmul_blackwell_text(k)
    } else if arch.since_hopper() {
        matmul_hopper_text(k)
    } else {
        matmul_ampere_text(k)
    }
}

fn matmul_kernel(k: &KernelSpec, arch: GpuArch) -> (r: String)
    ensures
        r@ == matmul_kernel_text(k@, arch),
{
    if arch == GpuArch::Blackwell100 {
        matmul_blackwell(k)
    } else if arch.has_wgmma() && arch.has_tma() {
        matmul_hopper(k)
    } else {
        matmul_ampere(k)
    }
}

/// What stands for an input of the graph.
pub open spec fn placeholder_kernel_text(k: KernelModel) -> Seq<char> {
    "// placeholder: "@ + k.name + "\n// (输入数据由外部提供，不需要 kernel)\n"@
}

fn placeholder_kernel(k: &KernelSpec) -> (r: String)
    ensures
        r@ == placeholder_kernel_text(k@),
{
    let mut s = "// placeholder: ".to_owned();
    s.append(k.name.as_str());
    s.append("\n// (输入数据由外部提供，不需要 kernel)\n");
    s
}

/// What stands for an output of the graph.
pub open spec fn return_kernel_text(k: KernelModel) -> Seq<char> {
    "// return: "@ + k.name + "\n// (输出数据直接转发，不需要 kernel)\n"@
}

fn return_kernel(k: &KernelSpec) -> (r: String)
    ensures
        r@ == return_kernel_text(k@),
{
    let mut s = "// return: ".to_owned();
    s.append(k.name.as_str());
    s.append("\n// (输出数据直接转发，不需要 kernel)\n");
    s
}

/// A kernel that applies a statement to two inputs, element by element.
pub open spec fn elem_binary_text(k: KernelModel, body: Seq<char>) -> Seq<char> {
    elem_binary_template()
        .put("__NAME__"@, k.name)
        .put("__T__"@, k.dtype.c_text())
        .put("__BODY__"@, body)
}

fn elem_binary(k: &KernelSpec, body: &str) -> (r: String)
    ensures
        r@ == elem_binary_text(k@, body@),
{
    let whole = elem_binary_source();
    let s = replace_all(whole.as_str(), "__NAME__", k.name.as_str());
    let s = replace_all(s.as_str(), "__T__", k.dtype.c_type());
    replace_all(s.as_str(), "__BODY__", body)
}

/// A kernel that applies an expression to each element.
pub open spec fn elem_unary_text(k: KernelModel, expr: Seq<char>) -> Seq<char> {
    elem_unary_template().put("__NAME__"@, k.name).put("__T__"@, k.dtype.c_text()).put("__EXPR__"@, expr)
}

fn elem_unary(k: &KernelSpec, expr: &str) -> (r: String)
    ensures
        r@ == elem_unary_text(k@, expr@),
{
    let whole = elem_unary_source();
    let s = replace_all(whole.as_str(), "__NAME__", k.name.as_str());
    let s = replace_all(s.as_str(), "__T__", k.dtype.c_type());
    replace_all(s.as_str(), "__EXPR__", expr)
}

/// A reduction in shared memory.
pub open spec fn reduce_kernel_text(
    k: KernelModel,
    label: Seq<char>,
    identity: Seq<char>,
    combine_raw: Seq<char>,
    combine_tree: Seq<char>,
    finalize: Seq<char>,
) -> Seq<char> {
    reduce_template()
        .put("__NAME__"@, k.name)
        .put("__LABEL__"@, label)
        .put("__T__"@, k.dtype.c_text())
        .put("__IDENT__"@, identity)
        .put("__COMBINE_RAW__"@, combine_raw)
        .put("__COMBINE_TREE__"@, combine_tree)
        .put("__FINALIZE__"@, finalize)
}

fn reduce_kernel(
    k: &KernelSpec,
    label: &str,
    identity: &str,
    combine_raw: &str,
    combine_tree: &str,
    finalize: &str,
) -> (r: String)
    ensures
        r@ == reduce_kernel_text(k@, label@, identity@, combine_raw@, combine_tree@, finalize@),
{
    let whole = reduce_source();
    let s = replace_all(whole.as_str(), "__NAME__", k.name.as_str());
    let s = replace_all(s.as_str(), "__LABEL__", label);
    let s = replace_all(s.as_str(), "__T__", k.dtype.c_type());
    let s = replace_all(s.as_str(), "__IDENT__", identity);
    let s = replace_all(s.as_str(), "__COMBINE_RAW__", combine_raw);
    let s = replace_all(s.as_str(), "__COMBINE_TREE__", combine_tree);
    replace_all(s.as_str(), "__FINALIZE__", finalize)
}

/// A matrix product on Ampere.
pub open spec fn matmul_ampere_text(k: KernelModel) -> Seq<char> {
    matmul_ampere_template().put("__NAME__"@, k.name)
}

fn matmul_ampere(k: &KernelSpec) -> (r: String)
    ensures
        r@ == matmul_ampere_text(k@),
{
    let whole = matmul_ampere_source();
    replace_all(whole.as_str(), "__NAME__", k.name.as_str())
}

/// A matrix product on Hopper.
pub open spec fn matmul_hopper_text(k: KernelModel) -> Seq<char> {
    matmul_hopper_template().put("__NAME__"@, k.name)
}

fn matmul_hopper(k: &KernelSpec) -> (r: String)
    ensures
        r@ == matmul_hopper_text(k@),
{
    let whole = matmul_hopper_source();
    replace_all(whole.as_str(), "__NAME__", k.name.as_str())
}

/// A matrix product on Blackwell.
pub open spec fn matmul_blackwell_text(k: KernelModel) -> Seq<char> {
    matmul_blackwell_template().put("__NAME__"@, k.name)
}

fn matmul_blackwell(k: &KernelSpec) -> (r: String)
    ensures
        r@ == matmul_blackwell_text(k@),
{
    let whole = matmul_blackwell_source();
    replace_all(whole.as_str(), "__NAME__", k.name.as_str())
}

/// A softmax with a block for each row.
pub open spec fn softmax_kernel_text(k: KernelModel) -> Seq<char> {
    softmax_template()
        .put("__NAME__"@, k.name)
        .put("__AXIS__"@, dec_int(axis_or(k.attrs.axis, -1i64) as int))
}

fn softmax_kernel(k: &KernelSpec) -> (r: String)
    ensures
        r@ == softmax_kernel_text(k@),
{
    let axis = dec_int_string(axis_of(k.attrs.axis, -1));
    let whole = softmax_source();
    let s = replace_all(whole.as_str(), "__NAME__", k.name.as_str());
    replace_all(s.as_str(), "__AXIS__", axis.as_str())
}

/// A layer normalization with a block for each row.
pub open spec fn layernorm_kernel_text(k: KernelModel, epsilon: Seq<char>) -> Seq<char> {
    layernorm_template()
        .put("__NAME__"@, k.name)
        .put("__AXIS__"@, dec_int(axis_or(k.attrs.axis, -1i64) as int))
        .put("__EPSILON__"@, epsilon)
}

fn layernorm_kernel(k: &KernelSpec, epsilon: &str) -> (r: String)
    ensures
        r@ == layernorm_kernel_text(k@, epsilon@),
{
    let axis = dec_int_string(axis_of(k.attrs.axis, -1));
    let whole = layernorm_source();
    let s = replace_all(whole.as_str(), "__NAME__", k.name.as_str());
    let s = replace_all(s.as_str(), "__AXIS__", axis.as_str());
    replace_all(s.as_str(), "__EPSILON__", epsilon)
}

/// A direct convolution with a thread for each output element.
pub open spec fn conv_kernel_text(k: KernelModel) -> Seq<char> {
    conv_template()
        .put("__NAME__"@, k.name)
        .put("__STRIDE__"@, dec_int(first_or(k.attrs.conv_stride, 1) as int))
        .put("__PADDING__"@, dec_int(first_or(k.attrs.conv_padding, 0) as int))
        .put("__DILATION__"@, dec_int(first_or(k.attrs.conv_dilation, 1) as int))
        .put("__GROUPS__"@, dec_int(axis_or(k.attrs.conv_groups, 1) as i32 as int))
}

fn conv_kernel(k: &KernelSpec) -> (r: String)
    ensures
        r@ == conv_kernel_text(k@),
{
    let stride = dec_int_string(first_of(&k.attrs.conv_stride, 1) as i64);
    let padding = dec_int_string(first_of(&k.attrs.conv_padding, 0) as i64);
    let dilation = dec_int_string(first_of(&k.attrs.conv_dilation, 1) as i64);
    let g: i32 = #[verifier::truncate]
    (axis_of(k.attrs.conv_groups, 1) as i32);
    let groups = dec_int_string(g as i64);
    let whole = conv_source();
    let s = replace_all(whole.as_str(), "__NAME__", k.name.as_str());
    let s = replace_all(s.as_str(), "__STRIDE__", stride.as_str());
    let s = replace_all(s.as_str(), "__PADDING__", padding.as_str());
    let s = replace_all(s.as_str(), "__DILATION__", dilation.as_str());
    replace_all(s.as_str(), "__GROUPS__", groups.as_str())
}

/// Max pooling with a thread for each output element.
pub open spec fn pool_kernel_text(k: KernelModel) -> Seq<char> {
    pool_template()
        .put("__NAME__"@, k.name)
        .put("__KERNEL__"@, dec_int(first_or(k.attrs.pool_kernel, 2) as int))
        .put("__STRIDE__"@, dec_int(first_or(k.attrs.pool_stride, 1) as int))
        .put("__PADDING__"@, dec_int(first_or(k.attrs.pool_padding, 0) as int))
}

fn pool_kernel(k: &KernelSpec) -> (r: String)
    ensures
        r@ == pool_kernel_text(k@),
{
    let kernel = dec_int_string(first_of(&k.attrs.pool_kernel, 2) as i64);
    let stride = dec_int_string(first_of(&k.attrs.pool_stride, 1) as i64);
    let padding = dec_int_string(first_of(&k.attrs.pool_padding, 0) as i64);
    let whole = pool_source();
    let s = replace_all(whole.as_str(), "__NAME__", k.name.as_str());
    let s = replace_all(s.as_str(), "__KERNEL__", kernel.as_str());
    let s = replace_all(s.as_str(), "__STRIDE__", stride.as_str());
    replace_all(s.as_str(), "__PADDING__", padding.as_str())
}

/// A copy.
pub open spec fn reshape_kernel_text(k: KernelModel) -> Seq<char> {
    reshape_template().put("__NAME__"@, k.name).put("__T__"@, k.dtype.c_text())
}

fn reshape_kernel(k: &KernelSpec) -> (r: String)
    ensures
        r@ == reshape_kernel_text(k@),
{
    let whole = reshape_source();
    let s = replace_all(whole.as_str(), "__NAME__", k.name.as_str());
    replace_all(s.as_str(), "__T__", k.dtype.c_type())
}

/// A transposition of tiles.
pub open spec fn transpose_kernel_text(k: KernelModel) -> Seq<char> {
    transpose_template().put("__NAME__"@, k.name).put("__T__"@, k.dtype.c_text())
}

fn transpose_kernel(k: &KernelSpec) -> (r: String)
    ensures
        r@ == transpose_kernel_text(k@),
{
    let whole = transpose_source();
    let s = replace_all(whole.as_str(), "__NAME__", k.name.as_str());
    replace_all(s.as_str(), "__T__", k.dtype.c_type())
}

/// A concatenation.
pub open spec fn concat_kernel_text(k: KernelModel) -> Seq<char> {
    concat_template()
        .put("__NAME__"@, k.name)
        .put("__AXIS__"@, dec_int(axis_or(k.attrs.axis, 0) as int))
        .put("__T__"@, k.dtype.c_text())
}

fn concat_kernel(k: &KernelSpec) -> (r: String)
    ensures
        r@ == concat_kernel_text(k@),
{
    let axis = dec_int_string(axis_of(k.attrs.axis, 0));
    let whole = concat_source();
    let s = replace_all(whole.as_str(), "__NAME__", k.name.as_str());
    let s = replace_all(s.as_str(), "__AXIS__", axis.as_str());
    replace_all(s.as_str(), "__T__", k.dtype.c_type())
}

/// A strided copy.
pub open spec fn slice_kernel_text(k: KernelModel) -> Seq<char> {
    slice_template()
        .put("__NAME__"@, k.name)
        .put("__STARTS__"@, list_or(k.attrs.slice_starts, "0"@))
        .put("__ENDS__"@, list_or(k.attrs.slice_ends, "-1"@))
        .put("__STEPS__"@, list_or(k.attrs.slice_steps, "1"@))
        .put("__T__"@, k.dtype.c_text())
}

fn slice_kernel(k: &KernelSpec) -> (r: String)
    ensures
        r@ == slice_kernel_text(k@),
{
    let starts = list_of(&k.attrs.slice_starts, "0");
    let ends = list_of(&k.attrs.slice_ends, "-1");
    let steps = list_of(&k.attrs.slice_steps, "1");
    let whole = slice_source();
    let s = replace_all(whole.as_str(), "__NAME__", k.name.as_str());
    let s = replace_all(s.as_str(), "__STARTS__", starts.as_str());
    let s = replace_all(s.as_str(), "__ENDS__", ends.as_str());
    let s = replace_all(s.as_str(), "__STEPS__", steps.as_str());
    replace_all(s.as_str(), "__T__", k.dtype.c_type())
}

/// A kernel that fills its output with a value.
pub open spec fn constant_kernel_text(k: KernelModel, value: Seq<char>) -> Seq<char> {
    constant_template()
        .put("__NAME__"@, k.name)
        .put("__T__"@, k.dtype.c_text())
        .put("__VALUE__"@, value)
        .put("__TENSOR_INIT__"@, tensor_init(k.attrs.tensor_data.len()))
}

fn constant_kernel(k: &KernelSpec, value: &str) -> (r: String)
    ensures
        r@ == constant_kernel_text(k@, value@),
{
    let init = make_tensor_init(k.attrs.tensor_data.len());
    let whole = constant_source();
    let s = replace_all(whole.as_str(), "__NAME__", k.name.as_str());
    let s = replace_all(s.as_str(), "__T__", k.dtype.c_type());
    let s = replace_all(s.as_str(), "__VALUE__", value);
    replace_all(s.as_str(), "__TENSOR_INIT__", init.as_str())
}

/// A chain of operators in one kernel.
pub open spec fn fused_kernel_text(k: KernelModel) -> Seq<char> {
    fused_template()
        .put("__NAME__"@, k.name)
        .put("__OPS__"@, joined(fused(k.attrs.fused_ops), ", "@))
        .put("__BODY__"@, fused_lines(fused(k.attrs.fused_ops)))
}

fn fused_kernel(k: &KernelSpec) -> (r: String)
    ensures
        r@ == fused_kernel_text(k@),
{
    let ops = make_fused(&k.attrs.fused_ops);
    let names = join(&ops, ", ");
    let body = make_fused_lines(&ops);
    let whole = fused_source();
    let s = replace_all(whole.as_str(), "__NAME__", k.name.as_str());
    let s = replace_all(s.as_str(), "__OPS__", names.as_str());
    replace_all(s.as_str(), "__BODY__", body.as_str())
}

/// The entry point of an operator that is linked from elsewhere.
pub open spec fn custom_kernel_text(k: KernelModel) -> Seq<char> {
    custom_template()
        .put("__NAME__"@, k.name)
        .put("__CUSTOM_TYPE__"@, named_or_unknown(k.attrs.custom_op_type))
        .put("__T__"@, k.dtype.c_text())
}

fn custom_kernel(k: &KernelSpec) -> (r: String)
    ensures
        r@ == custom_kernel_text(k@),
{
    let custom = name_or_unknown(&k.attrs.custom_op_type);
    let whole = custom_source();
    let s = replace_all(whole.as_str(), "__NAME__", k.name.as_str());
    let s = replace_all(s.as_str(), "__CUSTOM_TYPE__", custom.as_str());
    replace_all(s.as_str(), "__T__", k.dtype.c_type())
}

} // verus!
