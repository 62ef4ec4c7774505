//! What types, architectures and fused operators are called and written as.

use vstd::prelude::*;
use crate::backend::cuda::{fused_line, fused_lines};
use crate::backend::language_of;
use crate::backend::spec::{DTypeExt, GpuArch, SourceLang};
use crate::base::DType;
use crate::common::Target;
use crate::operator_laws::told;

verus! {

/// How an element type is written in each language, and how many bytes it takes.
pub open spec fn written(
    d: DType,
    c: Seq<char>,
    metal: Seq<char>,
    triton: Seq<char>,
    cann: Seq<char>,
    width: nat,
) -> bool {
    &&& d.c_text() == c
    &&& d.msl_text() == metal
    &&& d.triton_text() == triton
    &&& d.cann_text() == cann
    &&& d.width() == width
}

/// How every element type is written.
pub proof fn element_types_are_written(d: DType)
    ensures
        match d {
            DType::F32 => written(d, "float"@, "float"@, "tl.float32"@, "float"@, 4),
            DType::F16 => written(d, "__half"@, "half"@, "tl.float16"@, "__fp16"@, 2),
            DType::BF16 => written(d, "__nv_bfloat16"@, "bfloat"@, "tl.bfloat16"@, "__bf16"@, 2),
            DType::I64 => written(d, "long long"@, "long"@, "tl.int64"@, "int64_t"@, 8),
            DType::I32 => written(d, "int"@, "int"@, "tl.int32"@, "int32_t"@, 4),
            DType::Bool => written(d, "bool"@, "bool"@, "tl.int1"@, "bool"@, 2),
        },
{
}

/// What an architecture has.
pub open spec fn has(
    a: GpuArch,
    label: Seq<char>,
    capability: (u32, u32),
    shared: u32,
    nvidia: bool,
    apple: bool,
) -> bool {
    &&& a.label() == label
    &&& a.capability() == capability
    &&& a.shared_kilobytes() == shared
    &&& a.nvidia() == nvidia
    &&& a.apple() == apple
}

/// What every architecture has. Those from Hopper on are those of NVIDIA with a
/// compute capability of at least nine, and those with units for matrices are of
/// neither NVIDIA nor Apple.
pub proof fn architectures_have(a: GpuArch)
    ensures
        match a {
            GpuArch::Ampere80 => has(a, "Ampere SM80"@, (8, 0), 164, true, false),
            GpuArch::Hopper90 => has(a, "Hopper SM90"@, (9, 0), 228, true, false),
            GpuArch::Blackwell100 => has(a, "Blackwell SM100"@, (10, 0), 228, true, false),
            GpuArch::Apple6 => has(a, "Apple M1"@, (8, 0), 32, false, true),
            GpuArch::Apple7 => has(a, "Apple M2"@, (8, 0), 32, false, true),
            GpuArch::Apple8 => has(a, "Apple M3"@, (8, 0), 32, false, true),
            GpuArch::Ascend910B1 => has(a, "Ascend 910B1"@, (8, 0), 192, false, false),
            GpuArch::Ascend910B3 => has(a, "Ascend 910B3"@, (8, 0), 192, false, false),
            GpuArch::Ascend310P3 => has(a, "Ascend 310P3"@, (8, 0), 64, false, false),
        },
        a.since_hopper() <==> a.nvidia() && a.capability().0 >= 9,
        a.cubic() ==> !a.nvidia() && !a.apple(),
{
}

/// The languages of the targets, and what their files end with.
pub proof fn targets_have_languages()
    ensures
        language_of(Target::Cuda) == SourceLang::Cuda,
        language_of(Target::Npu) == SourceLang::Cann,
        language_of(Target::Cpu) == SourceLang::Cpu,
        SourceLang::Cuda.suffix() == "cu"@,
        SourceLang::Triton.suffix() == "py"@,
        SourceLang::Metal.suffix() == "metal"@,
        SourceLang::Cann.suffix() == "cpp"@,
        SourceLang::Cpu.suffix() == "c"@,
{
}

/// A fused kernel applies all its operators, in order: the statements for operators
/// in two parts are those for the one and then those for the other, and those for a
/// single operator are its statement.
pub proof fn fused_operators_apply_in_order(a: Seq<Seq<char>>, b: Seq<Seq<char>>, op: Seq<char>)
    ensures
        fused_lines(a + b) == fused_lines(a) + fused_lines(b),
        fused_lines(seq![op]) == fused_line(op),
    decreases b.len(),
{
    let one = seq![op];
    assert(one.drop_last() == Seq::<Seq<char>>::empty());
    assert(fused_lines(Seq::<Seq<char>>::empty()) == Seq::<char>::empty());
    assert(fused_lines(one) == fused_line(op));
    if b.len() == 0 {
        assert(a + b == a);
        assert(fused_lines(a) + fused_lines(b) == fused_lines(a));
    } else {
        fused_operators_apply_in_order(a, b.drop_last(), op);
        assert((a + b).drop_last() == a + b.drop_last());
        assert((a + b).last() == b.last());
        assert(fused_lines(a) + fused_lines(b.drop_last()) + fused_line(b.last()) == fused_lines(a) + (
        fused_lines(b.drop_last()) + fused_line(b.last())));
    }
}

/// What the statements of the operators that can be fused are.
pub proof fn fused_operators_have_statements()
    ensures
        fused_line("relu"@) == "        x = fmaxf(x, 0.0f);\n"@,
        fused_line("sigmoid"@) == "        x = 1.0f / (1.0f + expf(-x));\n"@,
        fused_line("tanh"@) == "        x = tanhf(x);\n"@,
        fused_line("exp"@) == "        x = expf(x);\n"@,
        fused_line("log"@) == "        x = logf(x);\n"@,
        fused_line("sqrt"@) == "        x = sqrtf(x);\n"@,
        fused_line("rsqrt"@) == "        x = rsqrtf(x);\n"@,
        fused_line("reciprocal"@) == "        x = 1.0f / x;\n"@,
        fused_line("abs"@) == "        x = fabsf(x);\n"@,
        fused_line("gelu"@) == "        x = 0.5f * x * (1.0f + tanhf(0.7978845608f * (x + 0.044715f * x*x*x)));\n"@,
        fused_line("identity"@) == "        /* identity: no-op */\n"@,
{
    reveal_strlit("relu");
    reveal_strlit("sigmoid");
    reveal_strlit("tanh");
    reveal_strlit("exp");
    reveal_strlit("log");
    reveal_strlit("sqrt");
    reveal_strlit("rsqrt");
    reveal_strlit("reciprocal");
    reveal_strlit("abs");
    reveal_strlit("gelu");
    reveal_strlit("identity");
    assert(told("relu"@) == ('r', 'e', 'u', 4nat));
    assert(told("sigmoid"@) == ('s', 'i', 'd', 7nat));
    assert(told("tanh"@) == ('t', 'a', 'h', 4nat));
    assert(told("exp"@) == ('e', 'x', 'p', 3nat));
    assert(told("log"@) == ('l', 'o', 'g', 3nat));
    assert(told("sqrt"@) == ('s', 'q', 't', 4nat));
    assert(told("rsqrt"@) == ('r', 's', 't', 5nat));
    assert(told("reciprocal"@) == ('r', 'e', 'l', 10nat));
    assert(told("abs"@) == ('a', 'b', 's', 3nat));
    assert(told("gelu"@) == ('g', 'e', 'u', 4nat));
    assert(told("identity"@) == ('i', 'd', 'y', 8nat));
}

} // verus!
