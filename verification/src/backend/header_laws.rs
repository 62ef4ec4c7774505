//! What generated files begin with.

use vstd::prelude::*;
use crate::backend::cann::Cann;
use crate::backend::cuda::Cuda;
use crate::backend::dialect::{Dialect, contains, generated, launchers, sources};
use crate::backend::filling::{end_is_part, part_stays};
use crate::backend::metal::Metal;
use crate::backend::spec::{GpuArch, KernelModel};
use crate::backend::triton::Triton;
use crate::text::dec;

verus! {

/// What a file begins with stands in it.
proof fn beginning_stands<D: Dialect>(
    ks: Seq<KernelModel>,
    scalars: Seq<Seq<char>>,
    arch: GpuArch,
    n: nat,
    p: Seq<char>,
)
    requires
        contains(D::opening(arch, ks.len()), p),
    ensures
        contains(sources::<D>(ks, scalars, arch, n), p),
    decreases n,
{
    if n > 0 {
        let before = sources::<D>(ks, scalars, arch, (n - 1) as nat);
        let kernel = D::kernel(ks[n - 1], scalars[n - 1], arch);
        beginning_stands::<D>(ks, scalars, arch, (n - 1) as nat, p);
        part_stays(before, kernel, p);
        part_stays(before + kernel, "\n"@, p);
    }
}

proof fn beginning_is_generated<D: Dialect>(
    ks: Seq<KernelModel>,
    scalars: Seq<Seq<char>>,
    arch: GpuArch,
    p: Seq<char>,
)
    requires
        contains(D::opening(arch, ks.len()), p),
    ensures
        contains(generated::<D>(ks, scalars, arch).source, p),
{
    beginning_stands::<D>(ks, scalars, arch, ks.len(), p);
    part_stays(
        sources::<D>(ks, scalars, arch, ks.len()),
        launchers::<D>(ks, scalars, arch, ks.len()),
        p,
    );
}

/// Three texts behind another, with two more behind them.
proof fn three_are_part(
    p: Seq<char>,
    a: Seq<char>,
    b: Seq<char>,
    c: Seq<char>,
    d: Seq<char>,
    e: Seq<char>,
)
    ensures
        contains(p + a + b + c + d + e, a + b + c),
{
    assert(p + a + b == p + (a + b));
    assert(p + (a + b) + c == p + (a + b + c));
    end_is_part(p, a + b + c);
    part_stays(p + a + b + c, d, a + b + c);
    part_stays(p + a + b + c + d, e, a + b + c);
}

/// A file tells how many kernels it is for.
pub proof fn files_tell_how_many_kernels(ks: Seq<KernelModel>, scalars: Seq<Seq<char>>, arch: GpuArch)
    ensures
        contains(
            generated::<Cuda>(ks, scalars, arch).source,
            ")\n// kernel 数量: "@ + dec(ks.len()) + "\n// 生成器: backend::cuda::kernels\n"@,
        ),
        contains(
            generated::<Metal>(ks, scalars, arch).source,
            " ("@ + dec(ks.len()) + " 个 kernel)\n// 生成器: backend::metal::emit\n"@,
        ),
        contains(
            generated::<Triton>(ks, scalars, arch).source,
            ") — "@ + dec(ks.len()) + " 个 kernel\n# 生成器: backend::triton::emit\n"@,
        ),
        contains(
            generated::<Cann>(ks, scalars, arch).source,
            " ("@ + dec(ks.len()) + " 个 kernel)\n// 生成器: backend::cann::emit\n"@,
        ),
{
    cuda_header(arch, ks.len());
    metal_header(arch, ks.len());
    triton_header(arch, ks.len());
    cann_header(arch, ks.len());
    beginning_is_generated::<Cuda>(
        ks,
        scalars,
        arch,
        ")\n// kernel 数量: "@ + dec(ks.len()) + "\n// 生成器: backend::cuda::kernels\n"@,
    );
    beginning_is_generated::<Metal>(
        ks,
        scalars,
        arch,
        " ("@ + dec(ks.len()) + " 个 kernel)\n// 生成器: backend::metal::emit\n"@,
    );
    beginning_is_generated::<Triton>(
        ks,
        scalars,
        arch,
        ") — "@ + dec(ks.len()) + " 个 kernel\n# 生成器: backend::triton::emit\n"@,
    );
    beginning_is_generated::<Cann>(
        ks,
        scalars,
        arch,
        " ("@ + dec(ks.len()) + " 个 kernel)\n// 生成器: backend::cann::emit\n"@,
    );
}

proof fn cuda_header(arch: GpuArch, n: nat)
    ensures
        contains(
            Cuda::opening(arch, n),
            ")\n// kernel 数量: "@ + dec(n) + "\n// 生成器: backend::cuda::kernels\n"@,
        ),
{
    let p = crate::backend::cuda::templates::HEADER@ + arch.label() + " (SM"@ + dec(
        arch.capability().0 as nat,
    ) + dec(arch.capability().1 as nat);
    let notes = if arch == GpuArch::Blackwell100 {
        crate::backend::cuda::templates::BLACKWELL_NOTES@
    } else if arch.since_hopper() {
        crate::backend::cuda::templates::HOPPER_NOTES@
    } else {
        crate::backend::cuda::templates::AMPERE_NOTES@
    };
    three_are_part(
        p,
        ")\n// kernel 数量: "@,
        dec(n),
        "\n// 生成器: backend::cuda::kernels\n"@,
        notes,
        crate::backend::cuda::templates::PRELUDE@,
    );
}

proof fn metal_header(arch: GpuArch, n: nat)
    ensures
        contains(
            Metal::opening(arch, n),
            " ("@ + dec(n) + " 个 kernel)\n// 生成器: backend::metal::emit\n"@,
        ),
{
    let notes = if arch.apple() {
        crate::backend::metal::templates::APPLE_NOTES@
    } else {
        crate::backend::metal::templates::OTHER_NOTES@
    };
    three_are_part(
        crate::backend::metal::templates::HEADER@ + arch.label(),
        " ("@,
        dec(n),
        " 个 kernel)\n// 生成器: backend::metal::emit\n"@,
        notes,
        crate::backend::metal::templates::PRELUDE@,
    );
}

proof fn triton_header(arch: GpuArch, n: nat)
    ensures
        contains(
            Triton::opening(arch, n),
            ") — "@ + dec(n) + " 个 kernel\n# 生成器: backend::triton::emit\n"@,
        ),
{
    let p = crate::backend::triton::templates::HEADER@ + arch.label() + " (SM"@ + dec(
        arch.capability().0 as nat,
    ) + "."@ + dec(arch.capability().1 as nat);
    let notes = if arch.since_hopper() {
        crate::backend::triton::templates::TMA_NOTES@
    } else if arch == GpuArch::Ampere80 {
        crate::backend::triton::templates::AMPERE_NOTES@
    } else {
        crate::backend::triton::templates::OTHER_NOTES@
    };
    three_are_part(
        p,
        ") — "@,
        dec(n),
        " 个 kernel\n# 生成器: backend::triton::emit\n"@,
        notes,
        crate::backend::triton::templates::PRELUDE@,
    );
}

proof fn cann_header(arch: GpuArch, n: nat)
    ensures
        contains(
            Cann::opening(arch, n),
            " ("@ + dec(n) + " 个 kernel)\n// 生成器: backend::cann::emit\n"@,
        ),
{
    let notes = if arch.cubic() {
        crate::backend::cann::templates::CUBE_NOTES@
    } else if arch == GpuArch::Ascend310P3 {
        crate::backend::cann::templates::LIGHT_NOTES@
    } else {
        crate::backend::cann::templates::OTHER_NOTES@
    };
    three_are_part(
        crate::backend::cann::templates::HEADER@ + arch.label(),
        " ("@,
        dec(n),
        " 个 kernel)\n// 生成器: backend::cann::emit\n"@,
        notes,
        crate::backend::cann::templates::PRELUDE@,
    );
}

} // verus!
