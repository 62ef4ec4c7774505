//! Which floats generation asks for, and where their texts go.

use vstd::prelude::*;
use crate::backend::cann::Cann;
use crate::backend::cuda::Cuda;
use crate::backend::dialect::{emitted, scalar_request, scalars_of};
use crate::backend::metal::Metal;
use crate::backend::spec::{GpuArch, KernelModel, OutputModel};
use crate::backend::triton::Triton;
use crate::base::{ErrorModel, OpKind};
use crate::float_bits::{TEN_TO_MINUS_FIVE, ZERO};
use crate::lisp::{FloatsModel, OutcomeModel, RequestModel};

verus! {

/// What generation for one kernel asks for first. The epsilon of a normalization is
/// written with as many digits as the language has, the value of a constant with as
/// few as possible, and other kernels need no floats.
pub proof fn floats_are_asked_for(k: KernelModel, arch: GpuArch)
    ensures
        ({
            let f = FloatsModel::none();
            let cuda = emitted::<Cuda>(seq![k], arch, f).0;
            let cann = emitted::<Cann>(seq![k], arch, f).0;
            let metal = emitted::<Metal>(seq![k], arch, f).0;
            let triton = emitted::<Triton>(seq![k], arch, f).0;
            let e = if k.attrs.epsilon is Some {
                k.attrs.epsilon->0
            } else {
                TEN_TO_MINUS_FIVE
            };
            let v = if k.attrs.value is Some {
                k.attrs.value->0
            } else {
                ZERO
            };
            &&& k.op == OpKind::LayerNorm ==> {
                &&& cuda == OutcomeModel::<OutputModel, ErrorModel>::Needs(RequestModel::Fixed(e, 6))
                &&& cann == OutcomeModel::<OutputModel, ErrorModel>::Needs(RequestModel::Fixed(e, 10))
                &&& metal == OutcomeModel::<OutputModel, ErrorModel>::Needs(RequestModel::Show(e))
                &&& triton == OutcomeModel::<OutputModel, ErrorModel>::Needs(RequestModel::Show(e))
            }
            &&& k.op == OpKind::Constant ==> {
                &&& cuda == OutcomeModel::<OutputModel, ErrorModel>::Needs(RequestModel::Show(v))
                &&& cann == OutcomeModel::<OutputModel, ErrorModel>::Needs(RequestModel::Show(v))
                &&& metal == OutcomeModel::<OutputModel, ErrorModel>::Needs(RequestModel::Show(v))
                &&& triton == OutcomeModel::<OutputModel, ErrorModel>::Needs(RequestModel::Show(v))
            }
            &&& k.op != OpKind::LayerNorm && k.op != OpKind::Constant ==> cuda is Done && cann is Done
                && metal is Done && triton is Done
        }),
{
    let ks = seq![k];
    assert(ks.drop_last() == Seq::<KernelModel>::empty());
    assert(ks.last() == k);
    reveal_with_fuel(scalars_of, 2);
}

/// Whether a kernel needs a float.
pub open spec fn needs_float(k: KernelModel) -> bool {
    k.op == OpKind::LayerNorm || k.op == OpKind::Constant
}

/// How many of the first `n` kernels need a float.
pub open spec fn floats_before(ks: Seq<KernelModel>, n: nat) -> nat
    decreases n,
{
    if n == 0 {
        0
    } else {
        floats_before(ks, (n - 1) as nat) + if needs_float(ks[n - 1]) {
            1nat
        } else {
            0nat
        }
    }
}

proof fn before_in_front(ks: Seq<KernelModel>, n: nat)
    requires
        n < ks.len(),
    ensures
        floats_before(ks.drop_last(), n) == floats_before(ks, n),
    decreases n,
{
    if n > 0 {
        before_in_front(ks, (n - 1) as nat);
        assert(ks.drop_last()[n - 1] == ks[n - 1]);
    }
}

/// The texts of floats go to the kernels that need them, in order: each such kernel
/// gets the next answer, and the others get none.
pub proof fn texts_go_to_their_kernels(ks: Seq<KernelModel>, digits: Option<u32>, f: FloatsModel)
    requires
        f.next + floats_before(ks, ks.len()) <= f.answers.len(),
        forall|i: int| f.next <= i < f.answers.len() ==> #[trigger] f.answers[i] is Text,
    ensures
        ({
            let (o, g) = scalars_of(ks, digits, f);
            &&& g.answers == f.answers
            &&& g.next == f.next + floats_before(ks, ks.len())
            &&& o matches OutcomeModel::Done(ts) && {
                &&& ts.len() == ks.len()
                &&& forall|i: int|
                    0 <= i < ks.len() ==> #[trigger] ts[i] == if needs_float(ks[i]) {
                        f.answers[(f.next + floats_before(ks, i as nat)) as int]->Text_0
                    } else {
                        Seq::empty()
                    }
            }
        }),
    decreases ks.len(),
{
    if ks.len() > 0 {
        let front = ks.drop_last();
        let n = (ks.len() - 1) as nat;
        before_in_front(ks, n);
        texts_go_to_their_kernels(front, digits, f);
        let (o, g) = scalars_of(front, digits, f);
        let ts = o->Done_0;
        assert(needs_float(ks.last()) <==> scalar_request(ks.last(), digits) is Some);
        if needs_float(ks.last()) {
            assert(g.next < f.answers.len());
            assert(f.answers[g.next as int] is Text);
        }
        let all = scalars_of(ks, digits, f).0->Done_0;
        assert forall|i: int| 0 <= i < ks.len() implies #[trigger] all[i] == if needs_float(ks[i]) {
            f.answers[(f.next + floats_before(ks, i as nat)) as int]->Text_0
        } else {
            Seq::empty()
        } by {
            if i < n {
                assert(all[i] == ts[i]);
                assert(front[i] == ks[i]);
                before_in_front(ks, i as nat);
            }
        }
    }
}

} // verus!
