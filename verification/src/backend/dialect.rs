//! What the source generators share: filling templates, asking for the text of
//! floats, and the frame of a source file.

use vstd::prelude::*;
use crate::base::{ErrorModel, NeutronError, OpKind};
use crate::float_bits::{TEN_TO_MINUS_FIVE, ZERO};
use crate::lisp::replay::{repeats, requests_repeat};
use crate::lisp::{AnswerModel, FloatRequest, Floats, FloatsModel, Outcome, OutcomeModel, RequestModel};
use crate::backend::spec::{
    BackendOutput, GpuArch, KernelInfo, KernelModel, KernelSpec, OutputModel, SourceLang,
    kernel_models,
};
use crate::text::{occurs_at, replaced, texts};

verus! {

/// Text with tokens in it.
pub trait Template: Sized {
    /// With every occurrence of a token replaced.
    spec fn put(self, token: Seq<char>, with: Seq<char>) -> Self;
}

impl Template for Seq<char> {
    open spec fn put(self, token: Seq<char>, with: Seq<char>) -> Self {
        replaced(self, token, with)
    }
}

/// Texts, with a separator between them.
pub open spec fn joined(v: Seq<Seq<char>>, sep: Seq<char>) -> Seq<char>
    decreases v.len(),
{
    if v.len() == 0 {
        Seq::empty()
    } else if v.len() == 1 {
        v[0]
    } else {
        joined(v.drop_last(), sep) + sep + v.last()
    }
}

pub(crate) fn join(v: &Vec<String>, sep: &str) -> (r: String)
    ensures
        r@ == joined(texts(v@), sep@),
{
    let mut s = String::new();
    let mut k: usize = 0;
    while k < v.len()
        invariant
            k <= v@.len(),
            s@ == joined(texts(v@).take(k as int), sep@),
        decreases v@.len() - k,
    {
        if k > 0 {
            s.append(sep);
        }
        s.append(v[k].as_str());
        k += 1;
        assert(texts(v@).take(k as int).drop_last() == texts(v@).take(k - 1));
        assert(Seq::<char>::empty() + v@[0]@ == v@[0]@);
    }
    assert(texts(v@).take(k as int) == texts(v@));
    s
}

/// The first of some numbers as a 32 bit number, or a default if there is none.
pub open spec fn first_or(v: Seq<i64>, default: i32) -> i32 {
    if v.len() == 0 {
        default
    } else {
        v[0] as i32
    }
}

pub(crate) fn first_of(v: &Vec<i64>, default: i32) -> (r: i32)
    ensures
        r == first_or(v@, default),
{
    if v.len() == 0 {
        default
    } else {
        #[verifier::truncate]
        (v[0] as i32)
    }
}

/// The operators of a fused kernel with arrows between them, or a common chain.
pub open spec fn chain(ops: Seq<Seq<char>>) -> Seq<char> {
    if ops.len() == 0 {
        "mul -> add -> relu"@
    } else {
        joined(ops, " -> "@)
    }
}

pub(crate) fn chain_of(ops: &Vec<String>) -> (r: String)
    ensures
        r@ == chain(texts(ops@)),
{
    if ops.len() == 0 {
        "mul -> add -> relu".to_owned()
    } else {
        join(ops, " -> ")
    }
}

/// The name of a custom operator.
pub open spec fn named_or_unknown(name: Seq<char>) -> Seq<char> {
    if name.len() == 0 {
        "unknown"@
    } else {
        name
    }
}

pub(crate) fn name_or_unknown(name: &String) -> (r: String)
    ensures
        r@ == named_or_unknown(name@),
{
    if name.as_str().unicode_len() == 0 {
        "unknown".to_owned()
    } else {
        name.clone()
    }
}

/// How many inputs a concatenation is written for.
pub open spec fn at_least_two(n: nat) -> nat {
    if n < 2 {
        2
    } else {
        n
    }
}

/// A target language.
pub trait Dialect: Sized {
    spec fn language() -> SourceLang;

    /// With how many fractional digits an epsilon is written, if not with as
    /// few as possible.
    spec fn epsilon_digits() -> Option<u32>;

    /// Whether the numbers that generation computes for a kernel fit their types.
    spec fn accepts(k: KernelModel) -> bool;

    /// The text that a file with the given number of kernels begins with.
    spec fn opening(arch: GpuArch, count: nat) -> Seq<char>;

    /// The source of a kernel, given the text of its float.
    spec fn kernel(k: KernelModel, scalar: Seq<char>, arch: GpuArch) -> Seq<char>;

    /// The text before the launchers.
    spec fn launch_opening() -> Seq<char>;

    /// How a kernel is launched, given the text of its float.
    spec fn launcher(k: KernelModel, scalar: Seq<char>, arch: GpuArch) -> Seq<char>;

    proof fn accepted_fits(k: KernelModel)
        requires
            Self::accepts(k),
        ensures
            k.fits(),
    ;

    fn lang() -> (r: SourceLang)
        ensures
            r == Self::language(),
    ;

    fn digits() -> (r: Option<u32>)
        ensures
            r == Self::epsilon_digits(),
    ;

    fn make_header(arch: GpuArch, count: usize) -> (r: String)
        ensures
            r@ == Self::opening(arch, count as nat),
    ;

    fn make_kernel(k: &KernelSpec, scalar: &str, arch: GpuArch) -> (r: String)
        ensures
            r@ == Self::kernel(k@, scalar@, arch),
    ;

    fn make_launch_header() -> (r: String)
        ensures
            r@ == Self::launch_opening(),
    ;

    fn make_launcher(k: &KernelSpec, scalar: &str, arch: GpuArch) -> (r: String)
        requires
            Self::accepts(k@),
        ensures
            r@ == Self::launcher(k@, scalar@, arch),
    ;
}

/// The float whose text the source of a kernel holds: the epsilon of a layer
/// normalization, 1e-5 if it has none, and the value of a constant, zero if it
/// has none.
pub open spec fn scalar_request(k: KernelModel, digits: Option<u32>) -> Option<RequestModel> {
    match k.op {
        OpKind::LayerNorm => {
            let e = match k.attrs.epsilon {
                Some(e) => e,
                None => TEN_TO_MINUS_FIVE,
            };
            match digits {
                Some(d) => Some(RequestModel::Fixed(e, d)),
                None => Some(RequestModel::Show(e)),
            }
        },
        OpKind::Constant => match k.attrs.value {
            Some(v) => Some(RequestModel::Show(v)),
            None => Some(RequestModel::Show(ZERO)),
        },
        _ => None,
    }
}

/// The text of the float of a kernel; empty for a kernel without one.
pub open spec fn scalar_of(k: KernelModel, digits: Option<u32>, f: FloatsModel) -> (OutcomeModel<
    Seq<char>,
>, FloatsModel) {
    match scalar_request(k, digits) {
        Some(q) => f.text_for(q),
        None => (OutcomeModel::Done(Seq::empty()), f),
    }
}

/// The texts of the floats of kernels.
pub open spec fn scalars_of(ks: Seq<KernelModel>, digits: Option<u32>, f: FloatsModel) -> (OutcomeModel<
    Seq<Seq<char>>,
    ErrorModel,
>, FloatsModel)
    decreases ks.len(),
{
    if ks.len() == 0 {
        (OutcomeModel::Done(Seq::empty()), f)
    } else {
        match scalars_of(ks.drop_last(), digits, f) {
            (OutcomeModel::Done(ts), g) => match scalar_of(ks.last(), digits, g) {
                (OutcomeModel::Done(t), h) => (OutcomeModel::Done(ts.push(t)), h),
                (OutcomeModel::Needs(q), h) => (OutcomeModel::Needs(q), h),
                (_, h) => (OutcomeModel::Stuck, h),
            },
            o => o,
        }
    }
}

fn find_scalar(k: &KernelSpec, digits: Option<u32>, floats: &mut Floats) -> (r: Outcome<String>)
    ensures
        (r@, final(floats)@) == scalar_of(k@, digits, old(floats)@),
{
    match k.op {
        OpKind::LayerNorm => {
            let e: u64 = match k.attrs.epsilon {
                Some(e) => e,
                None => TEN_TO_MINUS_FIVE,
            };
            match digits {
                Some(d) => floats.text(FloatRequest::Fixed(e, d)),
                None => floats.text(FloatRequest::Show(e)),
            }
        },
        OpKind::Constant => {
            let v: u64 = match k.attrs.value {
                Some(v) => v,
                None => ZERO,
            };
            floats.text(FloatRequest::Show(v))
        },
        _ => {
            let none = String::new();
            assert(none@ == Seq::<char>::empty());
            Outcome::Done(none)
        },
    }
}

/// The source of the first `n` kernels, after the beginning of the file.
pub open spec fn sources<D: Dialect>(
    ks: Seq<KernelModel>,
    scalars: Seq<Seq<char>>,
    arch: GpuArch,
    n: nat,
) -> Seq<char>
    decreases n,
{
    if n == 0 {
        D::opening(arch, ks.len())
    } else {
        sources::<D>(ks, scalars, arch, (n - 1) as nat) + D::kernel(ks[n - 1], scalars[n - 1], arch)
            + "\n"@
    }
}

/// The launchers of the first `n` kernels, after the text before them.
pub open spec fn launchers<D: Dialect>(
    ks: Seq<KernelModel>,
    scalars: Seq<Seq<char>>,
    arch: GpuArch,
    n: nat,
) -> Seq<char>
    decreases n,
{
    if n == 0 {
        D::launch_opening()
    } else {
        launchers::<D>(ks, scalars, arch, (n - 1) as nat) + D::launcher(
            ks[n - 1],
            scalars[n - 1],
            arch,
        )
    }
}

/// What is generated for kernels, given the texts of their floats.
pub open spec fn generated<D: Dialect>(
    ks: Seq<KernelModel>,
    scalars: Seq<Seq<char>>,
    arch: GpuArch,
) -> OutputModel {
    OutputModel {
        source: sources::<D>(ks, scalars, arch, ks.len()) + launchers::<D>(
            ks,
            scalars,
            arch,
            ks.len(),
        ),
        lang: D::language(),
        kernels: Seq::new(ks.len(), |i: int| ks[i].info(arch)),
        arch,
    }
}

/// What is generated for kernels.
pub open spec fn emitted<D: Dialect>(ks: Seq<KernelModel>, arch: GpuArch, f: FloatsModel) -> (OutcomeModel<
    OutputModel,
    ErrorModel,
>, FloatsModel) {
    match scalars_of(ks, D::epsilon_digits(), f) {
        (OutcomeModel::Done(ts), g) => (OutcomeModel::Done(generated::<D>(ks, ts, arch)), g),
        (o, g) => (o.passed_on(), g),
    }
}

/// Whether the numbers that generation computes fit their types.
pub open spec fn all_accepted<D: Dialect>(ks: Seq<KernelModel>) -> bool {
    forall|i: int| 0 <= i < ks.len() ==> D::accepts(#[trigger] ks[i])
}

/// Generates source, given the texts of the floats of the kernels.
pub fn generate_with<D: Dialect>(kernels: &[KernelSpec], scalars: &Vec<String>, arch: GpuArch) -> (r:
    BackendOutput)
    requires
        all_accepted::<D>(kernel_models(kernels@)),
        scalars@.len() == kernels@.len(),
    ensures
        r@ == generated::<D>(kernel_models(kernels@), texts(scalars@), arch),
{
    let ghost ks = kernel_models(kernels@);
    let ghost ts = texts(scalars@);
    let mut source = D::make_header(arch, kernels.len());
    let mut infos: Vec<KernelInfo> = Vec::new();
    let mut k: usize = 0;
    while k < kernels.len()
        invariant
            k <= kernels@.len(),
            scalars@.len() == kernels@.len(),
            ks == kernel_models(kernels@),
            ts == texts(scalars@),
            all_accepted::<D>(ks),
            source@ == sources::<D>(ks, ts, arch, k as nat),
            infos@.len() == k,
            forall|i: int| 0 <= i < k ==> (#[trigger] infos@[i])@ == ks[i].info(arch),
        decreases kernels@.len() - k,
    {
        assert(ks[k as int] == kernels@[k as int]@);
        proof {
            D::accepted_fits(ks[k as int]);
        }
        let launch = kernels[k].launch(arch);
        infos.push(
            KernelInfo { name: kernels[k].name.clone(), launch, shared_mem: launch.shared_mem },
        );
        source.append(D::make_kernel(&kernels[k], scalars[k].as_str(), arch).as_str());
        source.append("\n");
        k += 1;
    }
    let mut launches = D::make_launch_header();
    let mut k: usize = 0;
    while k < kernels.len()
        invariant
            k <= kernels@.len(),
            scalars@.len() == kernels@.len(),
            ks == kernel_models(kernels@),
            ts == texts(scalars@),
            all_accepted::<D>(ks),
            launches@ == launchers::<D>(ks, ts, arch, k as nat),
        decreases kernels@.len() - k,
    {
        assert(ks[k as int] == kernels@[k as int]@);
        launches.append(D::make_launcher(&kernels[k], scalars[k].as_str(), arch).as_str());
        k += 1;
    }
    source.append(launches.as_str());
    let r = BackendOutput { source, lang: D::lang(), kernels: infos, arch };
    assert(r@.kernels == generated::<D>(ks, ts, arch).kernels);
    r
}

/// Generates source.
pub(crate) fn emit_in<D: Dialect>(kernels: &[KernelSpec], arch: GpuArch, floats: &mut Floats) -> (r: Outcome<
    BackendOutput,
    NeutronError,
>)
    requires
        all_accepted::<D>(kernel_models(kernels@)),
    ensures
        (r@, final(floats)@) == emitted::<D>(kernel_models(kernels@), arch, old(floats)@),
{
    let ghost ks = kernel_models(kernels@);
    let digits: Option<u32> = D::digits();
    let mut scalars: Vec<String> = Vec::new();
    let mut k: usize = 0;
    assert(texts(scalars@) == Seq::<Seq<char>>::empty());
    assert(ks.take(0) == Seq::<KernelModel>::empty());
    while k < kernels.len()
        invariant
            k <= kernels@.len(),
            ks == kernel_models(kernels@),
            digits == D::epsilon_digits(),
            scalars@.len() == k,
            scalars_of(ks.take(k as int), digits, old(floats)@) == (
                OutcomeModel::<Seq<Seq<char>>, ErrorModel>::Done(texts(scalars@)),
                floats@,
            ),
        decreases kernels@.len() - k,
    {
        assert(ks.take(k + 1).drop_last() == ks.take(k as int));
        assert(ks[k as int] == kernels@[k as int]@);
        match find_scalar(&kernels[k], digits, floats) {
            Outcome::Done(t) => {
                let ghost before = texts(scalars@);
                scalars.push(t);
                assert(texts(scalars@) == before.push(t@));
            },
            Outcome::Needs(q) => {
                proof {
                    stays_without_result(ks, digits, old(floats)@, k + 1);
                }
                return Outcome::Needs(q);
            },
            _ => {
                proof {
                    stays_without_result(ks, digits, old(floats)@, k + 1);
                }
                return Outcome::Stuck;
            },
        }
        k += 1;
    }
    assert(ks.take(k as int) == ks);
    Outcome::Done(generate_with::<D>(kernels, &scalars, arch))
}

/// Where the texts of the first floats are missing, so are those of all.
proof fn stays_without_result(ks: Seq<KernelModel>, digits: Option<u32>, f: FloatsModel, n: int)
    requires
        0 <= n <= ks.len(),
        !(scalars_of(ks.take(n), digits, f).0 is Done),
    ensures
        scalars_of(ks, digits, f) == scalars_of(ks.take(n), digits, f),
    decreases ks.len(),
{
    if n == ks.len() {
        assert(ks.take(n) == ks);
    } else {
        assert(ks.drop_last().take(n) == ks.take(n));
        stays_without_result(ks.drop_last(), digits, f, n);
    }
}

/// Generation asks for the texts of floats and for nothing else: it has a
/// result as soon as there are enough answers, whatever they are.
pub proof fn generation_never_fails<D: Dialect>(ks: Seq<KernelModel>, arch: GpuArch, f: FloatsModel)
    ensures
        emitted::<D>(ks, arch, f).0 is Done || emitted::<D>(ks, arch, f).0 is Needs,
{
    scalars_never_fail(ks, D::epsilon_digits(), f);
}

proof fn scalars_never_fail(ks: Seq<KernelModel>, digits: Option<u32>, f: FloatsModel)
    ensures
        scalars_of(ks, digits, f).0 is Done || scalars_of(ks, digits, f).0 is Needs,
    decreases ks.len(),
{
    if ks.len() > 0 {
        scalars_never_fail(ks.drop_last(), digits, f);
    }
}

/// What is generated stays as it is when more answers follow.
pub proof fn generation_repeats<D: Dialect>(
    ks: Seq<KernelModel>,
    arch: GpuArch,
    f: FloatsModel,
    more: Seq<AnswerModel>,
)
    ensures
        repeats(emitted::<D>(ks, arch, f), emitted::<D>(ks, arch, f.followed_by(more)), more),
{
    scalars_repeat(ks, D::epsilon_digits(), f, more);
}

proof fn scalars_repeat(
    ks: Seq<KernelModel>,
    digits: Option<u32>,
    f: FloatsModel,
    more: Seq<AnswerModel>,
)
    ensures
        repeats(scalars_of(ks, digits, f), scalars_of(ks, digits, f.followed_by(more)), more),
    decreases ks.len(),
{
    if ks.len() > 0 {
        scalars_repeat(ks.drop_last(), digits, f, more);
        if let (OutcomeModel::Done(_), g) = scalars_of(ks.drop_last(), digits, f) {
            if let Some(q) = scalar_request(ks.last(), digits) {
                requests_repeat(q, g, more);
            }
        }
    }
}

/// Whatever is generated tells its language and architecture, and of every
/// kernel, in order, its name and launch.
pub proof fn generation_keeps_kernels<D: Dialect>(ks: Seq<KernelModel>, arch: GpuArch, f: FloatsModel)
    requires
        emitted::<D>(ks, arch, f).0 is Done,
    ensures
        ({
            let out = emitted::<D>(ks, arch, f).0->Done_0;
            &&& out.lang == D::language()
            &&& out.arch == arch
            &&& out.kernels.len() == ks.len()
            &&& forall|i: int|
                0 <= i < ks.len() ==> (#[trigger] out.kernels[i]).name == ks[i].name
                    && out.kernels[i].launch == ks[i].launched(arch) && out.kernels[i].shared_mem
                    == ks[i].launched(arch).shared_mem
        }),
{
}

/// Whether `part` stands somewhere in `s`.
pub open spec fn contains(s: Seq<char>, part: Seq<char>) -> bool {
    exists|i: int| #[trigger] occurs_at(s, part, i)
}

/// The generated source holds the source and the launcher of every kernel.
pub proof fn generation_holds_every_kernel<D: Dialect>(
    ks: Seq<KernelModel>,
    scalars: Seq<Seq<char>>,
    arch: GpuArch,
    i: int,
)
    requires
        0 <= i < ks.len(),
        scalars.len() == ks.len(),
    ensures
        contains(generated::<D>(ks, scalars, arch).source, D::kernel(ks[i], scalars[i], arch)),
        contains(generated::<D>(ks, scalars, arch).source, D::launcher(ks[i], scalars[i], arch)),
{
    let n = ks.len();
    let a = sources::<D>(ks, scalars, arch, n);
    let b = launchers::<D>(ks, scalars, arch, n);
    source_stands::<D>(ks, scalars, arch, n, i);
    launcher_stands::<D>(ks, scalars, arch, n, i);
    let p = D::kernel(ks[i], scalars[i], arch);
    let q = D::launcher(ks[i], scalars[i], arch);
    let x = choose|x: int| #[trigger] occurs_at(a, p, x);
    assert((a + b).subrange(x, x + p.len()) == a.subrange(x, x + p.len()));
    assert(occurs_at(a + b, p, x));
    let y = choose|y: int| #[trigger] occurs_at(b, q, y);
    assert((a + b).subrange(a.len() + y, a.len() + y + q.len()) == b.subrange(y, y + q.len()));
    assert(occurs_at(a + b, q, a.len() + y));
}

proof fn source_stands<D: Dialect>(
    ks: Seq<KernelModel>,
    scalars: Seq<Seq<char>>,
    arch: GpuArch,
    n: nat,
    i: int,
)
    requires
        0 <= i < n <= ks.len(),
    ensures
        contains(sources::<D>(ks, scalars, arch, n), D::kernel(ks[i], scalars[i], arch)),
    decreases n,
{
    let p = D::kernel(ks[i], scalars[i], arch);
    let all = sources::<D>(ks, scalars, arch, n);
    let before = sources::<D>(ks, scalars, arch, (n - 1) as nat);
    if i == n - 1 {
        assert(all.subrange(before.len() as int, before.len() as int + p.len()) == p);
        assert(occurs_at(all, p, before.len() as int));
    } else {
        source_stands::<D>(ks, scalars, arch, (n - 1) as nat, i);
        let x = choose|x: int| #[trigger] occurs_at(before, p, x);
        assert(all.subrange(x, x + p.len()) == before.subrange(x, x + p.len()));
        assert(occurs_at(all, p, x));
    }
}

proof fn launcher_stands<D: Dialect>(
    ks: Seq<KernelModel>,
    scalars: Seq<Seq<char>>,
    arch: GpuArch,
    n: nat,
    i: int,
)
    requires
        0 <= i < n <= ks.len(),
    ensures
        contains(launchers::<D>(ks, scalars, arch, n), D::launcher(ks[i], scalars[i], arch)),
    decreases n,
{
    let p = D::launcher(ks[i], scalars[i], arch);
    let all = launchers::<D>(ks, scalars, arch, n);
    let before = launchers::<D>(ks, scalars, arch, (n - 1) as nat);
    if i == n - 1 {
        assert(all.subrange(before.len() as int, before.len() as int + p.len()) == p);
        assert(occurs_at(all, p, before.len() as int));
    } else {
        launcher_stands::<D>(ks, scalars, arch, (n - 1) as nat, i);
        let x = choose|x: int| #[trigger] occurs_at(before, p, x);
        assert(all.subrange(x, x + p.len()) == before.subrange(x, x + p.len()));
        assert(occurs_at(all, p, x));
    }
}

} // verus!
