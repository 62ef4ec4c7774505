//! What the functions that launch kernels say.

use vstd::prelude::*;
use crate::backend::dialect::contains;
use crate::backend::filling::{end_is_part, part_stays};
use crate::backend::spec::{GpuArch, KernelModel};
use crate::base::OpKind;
use crate::text::{dec, dec_int};

verus! {

/// Three numbers with commas between them.
pub open spec fn three(v: (u32, u32, u32)) -> Seq<char> {
    dec(v.0 as nat) + ", "@ + dec(v.1 as nat) + ", "@ + dec(v.2 as nat)
}

/// Seven texts behind another are a part of them all.
proof fn seven_are_part(
    p: Seq<char>,
    a: Seq<char>,
    b: Seq<char>,
    c: Seq<char>,
    d: Seq<char>,
    e: Seq<char>,
    f: Seq<char>,
    g: Seq<char>,
)
    ensures
        contains(p + a + b + c + d + e + f + g, a + (b + c + d + e + f) + g),
{
    assert(p + a + b + c == p + a + (b + c));
    assert(p + a + b + c + d == p + a + (b + c + d));
    assert(p + a + b + c + d + e == p + a + (b + c + d + e));
    assert(p + a + b + c + d + e + f == p + a + (b + c + d + e + f));
    let m = b + c + d + e + f;
    assert(p + a + m == p + (a + m));
    assert(p + a + m + g == p + (a + m + g));
    end_is_part(p, a + m + g);
}

/// What is launched, in Metal: the blocks, the threads of each, and the memory.
pub proof fn metal_launch_says(k: KernelModel, scalar: Seq<char>, arch: GpuArch)
    ensures
        ({
            let t = crate::backend::metal::launcher_text(k, scalar, arch);
            let l = k.launched(arch);
            &&& contains(t, ": grid=("@ + three(l.grid) + "), block=("@)
            &&& contains(t, "), block=("@ + three(l.block) + "), threadgroup memory="@)
            &&& contains(t, "), threadgroup memory="@ + dec(l.shared_mem as nat) + " bytes\n"@)
        }),
{
    let l = k.launched(arch);
    let p = "// launch_"@ + k.name;
    let gx = dec(l.grid.0 as nat);
    let gy = dec(l.grid.1 as nat);
    let gz = dec(l.grid.2 as nat);
    let bx = dec(l.block.0 as nat);
    let by = dec(l.block.1 as nat);
    let bz = dec(l.block.2 as nat);
    let m = "), threadgroup memory="@;
    launch_parts(p, gx, gy, gz, bx, by, bz, m, dec(l.shared_mem as nat), " bytes\n"@);
}

/// The parts of the text of a launch.
proof fn launch_parts(
    p: Seq<char>,
    gx: Seq<char>,
    gy: Seq<char>,
    gz: Seq<char>,
    bx: Seq<char>,
    by: Seq<char>,
    bz: Seq<char>,
    m: Seq<char>,
    s: Seq<char>,
    e: Seq<char>,
)
    ensures
        ({
            let q = p + ": grid=("@ + gx + ", "@ + gy + ", "@ + gz;
            let r = q + "), block=("@ + bx + ", "@ + by + ", "@ + bz;
            let t = r + m + s + e;
            &&& contains(t, ": grid=("@ + (gx + ", "@ + gy + ", "@ + gz) + "), block=("@)
            &&& contains(t, "), block=("@ + (bx + ", "@ + by + ", "@ + bz) + m)
            &&& contains(t, m + s + e)
        }),
{
    let q = p + ": grid=("@ + gx + ", "@ + gy + ", "@ + gz;
    let u = q + "), block=("@;
    let r = u + bx + ", "@ + by + ", "@ + bz;
    let grid = ": grid=("@ + (gx + ", "@ + gy + ", "@ + gz) + "), block=("@;
    let block = "), block=("@ + (bx + ", "@ + by + ", "@ + bz) + m;
    seven_are_part(p, ": grid=("@, gx, ", "@, gy, ", "@, gz, "), block=("@);
    part_stays(u, bx, grid);
    part_stays(u + bx, ", "@, grid);
    part_stays(u + bx + ", "@, by, grid);
    part_stays(u + bx + ", "@ + by, ", "@, grid);
    part_stays(u + bx + ", "@ + by + ", "@, bz, grid);
    part_stays(r, m, grid);
    part_stays(r + m, s, grid);
    part_stays(r + m + s, e, grid);
    seven_are_part(q, "), block=("@, bx, ", "@, by, ", "@, bz, m);
    part_stays(r + m, s, block);
    part_stays(r + m + s, e, block);
    assert(r + m + s == r + (m + s));
    assert(r + (m + s) + e == r + (m + s + e));
    end_is_part(r, m + s + e);
}

/// What is launched, in Ascend C: the blocks, the threads of each, and the memory.
pub proof fn cann_launch_says(k: KernelModel, scalar: Seq<char>, arch: GpuArch)
    ensures
        ({
            let t = crate::backend::cann::launcher_text(k, scalar, arch);
            let l = k.launched(arch);
            &&& contains(t, ": grid=("@ + three(l.grid) + "), block=("@)
            &&& contains(t, "), block=("@ + three(l.block) + "), unified buffer~="@)
            &&& contains(
                t,
                "), unified buffer~="@ + dec(l.shared_mem as nat)
                    + " bytes\n//   aclrtSetDevice(0); "@,
            )
        }),
{
    let l = k.launched(arch);
    let p = "// launch_"@ + k.name;
    let gx = dec(l.grid.0 as nat);
    let gy = dec(l.grid.1 as nat);
    let gz = dec(l.grid.2 as nat);
    let bx = dec(l.block.0 as nat);
    let by = dec(l.block.1 as nat);
    let bz = dec(l.block.2 as nat);
    let s = dec(l.shared_mem as nat);
    let m = "), unified buffer~="@;
    let e = " bytes\n//   aclrtSetDevice(0); "@;
    let end = "<<<blocks, &tiling>>>(x, y, z, workspace, tiling);\n"@;
    launch_parts(p, gx, gy, gz, bx, by, bz, m, s, e);
    let q = p + ": grid=("@ + gx + ", "@ + gy + ", "@ + gz;
    let r = q + "), block=("@ + bx + ", "@ + by + ", "@ + bz;
    let t = r + m + s + e;
    let grid = ": grid=("@ + (gx + ", "@ + gy + ", "@ + gz) + "), block=("@;
    let block = "), block=("@ + (bx + ", "@ + by + ", "@ + bz) + m;
    part_stays(t, k.name, grid);
    part_stays(t + k.name, end, grid);
    part_stays(t, k.name, block);
    part_stays(t + k.name, end, block);
    part_stays(t, k.name, m + s + e);
    part_stays(t + k.name, end, m + s + e);
}

/// What is launched, in CUDA: the kernel, with its blocks, the threads of each, and
/// the memory.
pub proof fn cuda_launch_says(k: KernelModel, scalar: Seq<char>, arch: GpuArch)
    requires
        k.op != OpKind::Placeholder,
        k.op != OpKind::Return,
    ensures
        ({
            let l = k.launched(arch);
            contains(
                crate::backend::cuda::launcher_text(k, scalar, arch),
                k.name + ("<<<"@ + ("dim3("@ + three(l.grid) + ")"@) + ", "@ + ("dim3("@ + three(
                    l.block,
                ) + ")"@) + ", "@) + dec(l.shared_mem as nat),
            )
        }),
{
    let l = k.launched(arch);
    dim3_is_three(l.grid);
    dim3_is_three(l.block);
    let g = crate::backend::spec::dim3(l.grid);
    let b = crate::backend::spec::dim3(l.block);
    let s = dec(l.shared_mem as nat);
    let call = k.name + ("<<<"@ + g + ", "@ + b + ", "@) + s;
    if k.op == OpKind::Constant {
        let n = dec_int(crate::backend::cuda::constant_len(k) as int);
        let p = "void launch_"@ + k.name
            + "(float* out, cudaStream_t stream) {\n    // Constant: init_constant value="@ + scalar
            + " n="@ + n + "\n    "@;
        let t = p + k.name + "<<<"@ + g + ", "@ + b + ", "@ + s;
        seven_are_part(p, k.name, "<<<"@, g, ", "@, b, ", "@, s);
        part_stays(t, ", stream>>>(out, "@, call);
        part_stays(t + ", stream>>>(out, "@, scalar, call);
        part_stays(t + ", stream>>>(out, "@ + scalar, "f, "@, call);
        part_stays(t + ", stream>>>(out, "@ + scalar + "f, "@, n, call);
        part_stays(t + ", stream>>>(out, "@ + scalar + "f, "@ + n, ");\n}\n\n"@, call);
    } else {
        let p = "void launch_"@ + k.name
            + "(void* out, const void* in, int n, cudaStream_t stream) {\n    // grid="@ + g
            + ", block="@ + b + ", shared_mem="@ + s + " bytes\n    "@;
        let t = p + k.name + "<<<"@ + g + ", "@ + b + ", "@ + s;
        seven_are_part(p, k.name, "<<<"@, g, ", "@, b, ", "@, s);
        part_stays(
            t,
            ", stream>>>(static_cast<float*>(out), static_cast<const float*>(in), n);\n}\n\n"@,
            call,
        );
    }
}

/// The launch of a constant, in CUDA, tells its value and how many elements it has.
pub proof fn cuda_constant_launch_says(k: KernelModel, scalar: Seq<char>, arch: GpuArch)
    requires
        k.op == OpKind::Constant,
    ensures
        ({
            let n = if k.outputs.len() > 0 {
                k.outputs[0].count() as i32 as int
            } else {
                1
            };
            contains(
                crate::backend::cuda::launcher_text(k, scalar, arch),
                "(float* out, cudaStream_t stream) {\n    // Constant: init_constant value="@ + (scalar
                    + " n="@ + dec_int(n) + "\n    "@ + k.name) + "<<<"@,
            )
        }),
{
    let l = k.launched(arch);
    let g = crate::backend::spec::dim3(l.grid);
    let b = crate::backend::spec::dim3(l.block);
    let s = dec(l.shared_mem as nat);
    let n = dec_int(crate::backend::cuda::constant_len(k) as int);
    let h = "(float* out, cudaStream_t stream) {\n    // Constant: init_constant value="@;
    let said = h + (scalar + " n="@ + n + "\n    "@ + k.name) + "<<<"@;
    let p = "void launch_"@ + k.name;
    seven_are_part(p, h, scalar, " n="@, n, "\n    "@, k.name, "<<<"@);
    let t0 = p + h + scalar + " n="@ + n + "\n    "@ + k.name + "<<<"@;
    let t1 = t0 + g;
    let t2 = t1 + ", "@;
    let t3 = t2 + b;
    let t4 = t3 + ", "@;
    let t5 = t4 + s;
    let t6 = t5 + ", stream>>>(out, "@;
    let t7 = t6 + scalar;
    let t8 = t7 + "f, "@;
    let t9 = t8 + n;
    part_stays(t0, g, said);
    part_stays(t1, ", "@, said);
    part_stays(t2, b, said);
    part_stays(t3, ", "@, said);
    part_stays(t4, s, said);
    part_stays(t5, ", stream>>>(out, "@, said);
    part_stays(t6, scalar, said);
    part_stays(t7, "f, "@, said);
    part_stays(t8, n, said);
    part_stays(t9, ");\n}\n\n"@, said);
}

proof fn dim3_is_three(v: (u32, u32, u32))
    ensures
        crate::backend::spec::dim3(v) == "dim3("@ + three(v) + ")"@,
{
    let a = dec(v.0 as nat);
    let b = dec(v.1 as nat);
    let c = dec(v.2 as nat);
    let h = "dim3("@;
    assert(h + a + ", "@ == h + (a + ", "@));
    assert(h + (a + ", "@) + b == h + (a + ", "@ + b));
    assert(h + (a + ", "@ + b) + ", "@ == h + (a + ", "@ + b + ", "@));
    assert(h + (a + ", "@ + b + ", "@) + c == h + (a + ", "@ + b + ", "@ + c));
}

} // verus!
