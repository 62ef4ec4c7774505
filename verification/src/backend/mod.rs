//! Kernel source generation for CUDA, Triton, Metal and Ascend CANN.

pub mod spec;
pub mod extract;
pub mod dialect;
pub mod filling;
pub mod kernel_laws;
pub mod launch_laws;
pub mod header_laws;
pub mod scalar_laws;
pub mod table_laws;
pub mod cuda;
pub mod triton;
pub mod metal;
pub mod cann;

use vstd::prelude::*;
use crate::base::{ErrorModel, NeutronError};
use crate::common::Target;
use crate::graph::{Graph, GraphModel};
use crate::lisp::replay::repeats;
use crate::lisp::{AnswerModel, Floats, FloatsModel, Outcome, OutcomeModel};
use self::cann::Cann;
use self::cuda::Cuda;
use self::dialect::{all_accepted, emitted, generation_repeats};
use self::extract::extract_kernels;
use self::metal::Metal;
use self::spec::{BackendOutput, GpuArch, InfoModel, KernelInfo, KernelModel, OutputModel, SourceLang};
use self::triton::Triton;

verus! {

/// The language that is generated for a target.
pub open spec fn language_of(target: Target) -> SourceLang {
    match target {
        Target::Cuda => SourceLang::Cuda,
        Target::Npu => SourceLang::Cann,
        Target::Cpu => SourceLang::Cpu,
    }
}

/// What is generated where there is nothing to generate.
pub open spec fn placeholder(arch: GpuArch) -> OutputModel {
    OutputModel {
        source: "// CPU backend not implemented in this round\n"@,
        lang: SourceLang::Cpu,
        kernels: Seq::empty(),
        arch,
    }
}

/// What is generated for kernels.
pub open spec fn emitted_as(ks: Seq<KernelModel>, lang: SourceLang, arch: GpuArch, f: FloatsModel) -> (
    OutcomeModel<OutputModel, ErrorModel>,
    FloatsModel,
) {
    match lang {
        SourceLang::Cuda => emitted::<Cuda>(ks, arch, f),
        SourceLang::Triton => emitted::<Triton>(ks, arch, f),
        SourceLang::Metal => emitted::<Metal>(ks, arch, f),
        SourceLang::Cann => emitted::<Cann>(ks, arch, f),
        SourceLang::Cpu => (OutcomeModel::Done(placeholder(arch)), f),
    }
}

/// Whether the numbers that generation computes fit their types.
pub open spec fn accepted_as(ks: Seq<KernelModel>, lang: SourceLang) -> bool {
    match lang {
        SourceLang::Cuda => all_accepted::<Cuda>(ks),
        SourceLang::Triton => all_accepted::<Triton>(ks),
        SourceLang::Metal => all_accepted::<Metal>(ks),
        SourceLang::Cann => all_accepted::<Cann>(ks),
        SourceLang::Cpu => true,
    }
}

/// Whether source can be generated for a graph: its kernels can be made, and the
/// numbers that generation computes fit their types.
pub open spec fn emittable(g: GraphModel, lang: SourceLang) -> bool {
    g.extractable() && accepted_as(g.all_kernels(), lang)
}

fn make_placeholder(arch: GpuArch) -> (r: BackendOutput)
    ensures
        r@ == placeholder(arch),
{
    let kernels: Vec<KernelInfo> = Vec::new();
    let r = BackendOutput {
        source: "// CPU backend not implemented in this round\n".to_owned(),
        lang: SourceLang::Cpu,
        kernels,
        arch,
    };
    assert(r@.kernels == Seq::<InfoModel>::empty());
    r
}

/// Generates the source of a graph for a target.
pub fn emit(graph: &Graph, target: Target, arch: GpuArch, floats: &mut Floats) -> (r: Outcome<
    BackendOutput,
    NeutronError,
>)
    requires
        emittable(graph@, language_of(target)),
    ensures
        (r@, final(floats)@) == emitted_as(
            graph@.all_kernels(),
            language_of(target),
            arch,
            old(floats)@,
        ),
{
    match target {
        Target::Cuda => emit_for(graph, SourceLang::Cuda, arch, floats),
        Target::Npu => emit_for(graph, SourceLang::Cann, arch, floats),
        Target::Cpu => emit_for(graph, SourceLang::Cpu, arch, floats),
    }
}

/// Generates the source of a graph in a language.
pub fn emit_for(graph: &Graph, lang: SourceLang, arch: GpuArch, floats: &mut Floats) -> (r: Outcome<
    BackendOutput,
    NeutronError,
>)
    requires
        emittable(graph@, lang),
    ensures
        (r@, final(floats)@) == emitted_as(graph@.all_kernels(), lang, arch, old(floats)@),
{
    let kernels = extract_kernels(graph);
    match lang {
        SourceLang::Cuda => cuda::emit(kernels.as_slice(), arch, floats),
        SourceLang::Triton => triton::emit(kernels.as_slice(), arch, floats),
        SourceLang::Metal => metal::emit(kernels.as_slice(), arch, floats),
        SourceLang::Cann => cann::emit(kernels.as_slice(), arch, floats),
        SourceLang::Cpu => Outcome::Done(make_placeholder(arch)),
    }
}

/// Whatever is generated tells the language and the architecture that were
/// asked for, and lists one kernel for each node, except on a CPU.
pub proof fn emission_keeps_request(ks: Seq<KernelModel>, lang: SourceLang, arch: GpuArch, f: FloatsModel)
    requires
        emitted_as(ks, lang, arch, f).0 is Done,
    ensures
        ({
            let out = emitted_as(ks, lang, arch, f).0->Done_0;
            &&& out.lang == lang
            &&& out.arch == arch
            &&& out.kernels.len() == if lang == SourceLang::Cpu {
                0
            } else {
                ks.len()
            }
        }),
{
}

/// What is generated for a graph stays as it is when more answers follow.
pub proof fn emission_repeats(
    ks: Seq<KernelModel>,
    lang: SourceLang,
    arch: GpuArch,
    f: FloatsModel,
    more: Seq<AnswerModel>,
)
    ensures
        repeats(emitted_as(ks, lang, arch, f), emitted_as(ks, lang, arch, f.followed_by(more)), more),
{
    match lang {
        SourceLang::Cuda => generation_repeats::<Cuda>(ks, arch, f, more),
        SourceLang::Triton => generation_repeats::<Triton>(ks, arch, f, more),
        SourceLang::Metal => generation_repeats::<Metal>(ks, arch, f, more),
        SourceLang::Cann => generation_repeats::<Cann>(ks, arch, f, more),
        SourceLang::Cpu => {},
    }
}

} // verus!
