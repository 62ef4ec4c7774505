//! Whether a graph is fit for what is to be done with it.

use vstd::prelude::*;
use crate::arch::{ArchGraph, ArchOp, ArchOpModel, kinds_known, lowerable, op_models};
use crate::backend::dialect::{Dialect, all_accepted};
use crate::backend::cann::Cann;
use crate::backend::cuda::Cuda;
use crate::backend::extract::{
    entries_readable, entry_readable, extract_kernels, tensor_readable, tensors_readable,
};
use crate::backend::metal::Metal;
use crate::backend::spec::{KernelModel, KernelSpec, SourceLang, kernel_models};
use crate::backend::triton::Triton;
use crate::backend::emittable;
use crate::base::OpKind;
use crate::common::dumpable;
use crate::graph::Graph;
use crate::isel::select::{op_inputs, op_outputs, operand_total};
use crate::storage::{AttrEntry, AttrKey, AttrTag, StorageGraph, StorageModel};

verus! {

fn is_within(off: u32, len: u32, pool: usize) -> (r: bool)
    ensures
        r == StorageModel::within(off, len, pool as nat),
{
    let end: u64 = off as u64 + len as u64;
    end <= pool as u64 && end <= u32::MAX as u64
}

impl StorageGraph {
    fn nodes_ok(&self) -> (r: bool)
        ensures
            r == forall|i: int| 0 <= i < self@.nodes.len() ==> #[trigger] self@.node_ok(i),
    {
        let mut i: usize = 0;
        while i < self.node_hdr.len()
            invariant
                i <= self.node_hdr@.len(),
                forall|k: int| 0 <= k < i ==> #[trigger] self@.node_ok(k),
            decreases self.node_hdr@.len() - i,
        {
            let h = self.node_hdr[i];
            if !(is_within(h.inputs_off, h.inputs_len, self.edges.len()) && is_within(
                h.outputs_off,
                h.outputs_len,
                self.edges.len(),
            ) && is_within(h.attrs_off, h.attrs_len, self.attrs.len())) {
                assert(!self@.node_ok(i as int));
                return false;
            }
            i += 1;
        }
        true
    }

    fn values_ok(&self) -> (r: bool)
        ensures
            r == forall|i: int| 0 <= i < self@.values.len() ==> #[trigger] self@.value_ok(i),
    {
        let mut i: usize = 0;
        while i < self.value_hdr.len()
            invariant
                i <= self.value_hdr@.len(),
                forall|k: int| 0 <= k < i ==> #[trigger] self@.value_ok(k),
            decreases self.value_hdr@.len() - i,
        {
            let h = self.value_hdr[i];
            if !(is_within(h.shape_off, h.rank as u32, self.shape_data.len()) && (h.name_off == u32::MAX
                || h.name_off as u64 <= self.name_data.len() as u64)) {
                assert(!self@.value_ok(i as int));
                return false;
            }
            i += 1;
        }
        true
    }

    fn entries_ok(&self) -> (r: bool)
        ensures
            r == forall|i: int| 0 <= i < self@.attrs.len() ==> self@.entry_ok(#[trigger] self@.attrs[i]),
    {
        let mut i: usize = 0;
        while i < self.attrs.len()
            invariant
                i <= self.attrs@.len(),
                forall|k: int| 0 <= k < i ==> self@.entry_ok(#[trigger] self@.attrs[k]),
            decreases self.attrs@.len() - i,
        {
            let e = self.attrs[i];
            let end: u64 = e.data_off as u64 + e.data_len as u64;
            let number: bool = e.tag == AttrTag::Int.code() || e.tag == AttrTag::Float.code();
            if !(end <= self.attr_data.len() as u64 && (!number || (e.data_len == 8 && e.data_off as u64
                + 8 <= u32::MAX as u64)) && (e.tag != AttrTag::Bool.code() || e.data_len == 1)) {
                assert(!self@.entry_ok(self@.attrs[i as int]));
                return false;
            }
            i += 1;
        }
        true
    }

    /// Whether every header refers to what is there.
    pub fn is_well_formed(&self) -> (r: bool)
        ensures
            r == self@.wf(),
    {
        self.node_hdr.len() as u64 <= u32::MAX as u64 && self.value_hdr.len() as u64 <= u32::MAX as u64
            && self.nodes_ok() && self.values_ok() && self.entries_ok()
    }
}

impl StorageGraph {
    fn is_operands_readable(&self, i: u32) -> (r: bool)
        requires
            i < self@.nodes.len(),
        ensures
            r == (self@.inputs_ok(i as int) && self@.outputs_ok(i as int)),
    {
        let h = self.node_hdr[i as usize];
        is_within(h.inputs_off, h.inputs_len, self.edges.len()) && is_within(
            h.outputs_off,
            h.outputs_len,
            self.edges.len(),
        )
    }

    fn are_tensors_readable(&self, vs: &[u32]) -> (r: bool)
        ensures
            r == tensors_readable(self@, vs@),
    {
        let mut i: usize = 0;
        while i < vs.len()
            invariant
                i <= vs@.len(),
                forall|k: int| 0 <= k < i ==> tensor_readable(self@, #[trigger] vs@[k]),
            decreases vs@.len() - i,
        {
            let v = vs[i];
            let mut there: bool = false;
            if (v as u64) < self.value_hdr.len() as u64 {
                let h = self.value_hdr[v as usize];
                there = is_within(h.shape_off, h.rank as u32, self.shape_data.len()) && (h.name_off
                    == u32::MAX || h.name_off as u64 <= self.name_data.len() as u64);
            }
            if !there {
                assert(!tensor_readable(self@, vs@[i as int]));
                return false;
            }
            i += 1;
        }
        true
    }

    fn is_entry_readable(&self, e: &AttrEntry) -> (r: bool)
        ensures
            r == entry_readable(self@, *e),
    {
        let number: bool = e.data_off as u64 + 8 <= self.attr_data.len() as u64 && e.data_off as u64 + 8
            <= u32::MAX as u64;
        let array: bool = e.data_off as u64 + e.data_len as u64 <= self.attr_data.len() as u64;
        if e.tag == AttrTag::Int.code() && (e.key == AttrKey::Axis.code() || e.key
            == AttrKey::Groups.code()) {
            number
        } else if e.tag == AttrTag::Float.code() && (e.key == AttrKey::Epsilon.code() || e.key
            == AttrKey::Value.code()) {
            number
        } else if e.tag == AttrTag::FloatArray.code() && e.key == AttrKey::Value.code() {
            array
        } else if e.tag == AttrTag::IntArray.code() && (e.key == AttrKey::Perm.code() || e.key
            == AttrKey::Shape.code() || e.key == AttrKey::Strides.code() || e.key
            == AttrKey::Padding.code() || e.key == AttrKey::Dilation.code()) {
            array
        } else {
            true
        }
    }

    fn are_entries_readable(&self, es: &[AttrEntry]) -> (r: bool)
        ensures
            r == entries_readable(self@, es@),
    {
        let mut i: usize = 0;
        while i < es.len()
            invariant
                i <= es@.len(),
                forall|k: int| 0 <= k < i ==> entry_readable(self@, #[trigger] es@[k]),
            decreases es@.len() - i,
        {
            if !self.is_entry_readable(&es[i]) {
                assert(!entry_readable(self@, es@[i as int]));
                return false;
            }
            i += 1;
        }
        true
    }
}

impl Graph {
    /// Whether the storage is well formed.
    pub fn is_well_formed(&self) -> (r: bool)
        ensures
            r == self.wf(),
    {
        self.storage.is_well_formed()
    }

    fn is_kernel_readable(&self, i: u32) -> (r: bool)
        requires
            i < self@.storage.nodes.len(),
        ensures
            r == self@.kernel_readable(i as int),
    {
        let h = self.storage.node_hdr[i as usize];
        self.storage.is_operands_readable(i) && is_within(
            h.attrs_off,
            h.attrs_len,
            self.storage.attrs.len(),
        ) && self.storage.are_tensors_readable(self.storage.node_inputs(i))
            && self.storage.are_tensors_readable(self.storage.node_outputs(i))
            && self.storage.are_entries_readable(self.storage.node_attrs(i))
    }

    /// Whether the kernels of the graph can be made.
    pub fn is_extractable(&self) -> (r: bool)
        ensures
            r == self@.extractable(),
    {
        if self.node_count() as u64 > u32::MAX as u64 {
            return false;
        }
        let n = self.node_count() as u32;
        let mut i: u32 = 0;
        while i < n
            invariant
                i <= n,
                n == self@.storage.nodes.len(),
                forall|k: int|
                    0 <= k < i && self@.kind(k) is Some ==> #[trigger] self@.kernel_readable(k),
            decreases n - i,
        {
            if self.node(i).is_ok() && !self.is_kernel_readable(i) {
                assert(self@.kind(i as int) is Some && !self@.kernel_readable(i as int));
                return false;
            }
            i += 1;
        }
        true
    }

    /// Whether the graph can be shown.
    pub fn is_dumpable(&self) -> (r: bool)
        ensures
            r == dumpable(self@),
    {
        if self.node_count() as u64 > u32::MAX as u64 {
            return false;
        }
        let n = self.node_count() as u32;
        let mut i: u32 = 0;
        while i < n
            invariant
                i <= n,
                n == self@.storage.nodes.len(),
                forall|k: int|
                    0 <= k < i && self@.kind(k) is Some ==> #[trigger] self@.operands_readable(k),
            decreases n - i,
        {
            if self.node(i).is_ok() && !self.storage.is_operands_readable(i) {
                assert(self@.kind(i as int) is Some && !self@.operands_readable(i as int));
                return false;
            }
            i += 1;
        }
        true
    }

    /// Whether the graph can be lowered.
    pub fn is_lowerable(&self) -> (r: bool)
        ensures
            r == lowerable(self@),
    {
        if self.node_count() as u64 > u32::MAX as u64 {
            return false;
        }
        let n = self.node_count() as u32;
        let mut i: u32 = 0;
        while i < n
            invariant
                i <= n,
                n == self@.storage.nodes.len(),
                kinds_known(self@, i as nat),
                forall|k: int| 0 <= k < i ==> #[trigger] self@.operands_readable(k),
            decreases n - i,
        {
            if self.node(i).is_err() {
                assert(self@.kind(i as int) is None);
                return true;
            }
            assert(kinds_known(self@, (i + 1) as nat));
            if !self.storage.is_operands_readable(i) {
                assert(!self@.operands_readable(i as int));
                return false;
            }
            i += 1;
        }
        true
    }
}

/// Whether the count of elements of a kernel fits its type, where it is needed;
/// `constants` tells whether it is needed for constants.
pub open spec fn fits_with(k: KernelModel, constants: bool) -> bool {
    k.fits() && (constants && k.op == OpKind::Constant ==> k.out_len() <= usize::MAX)
}

fn accepted_by<D: Dialect>(kernels: &Vec<KernelSpec>, constants: bool) -> (r: bool)
    requires
        forall|k: KernelModel| D::accepts(k) == #[trigger] fits_with(k, constants),
    ensures
        r == all_accepted::<D>(kernel_models(kernels@)),
{
    let ghost ks = kernel_models(kernels@);
    let mut i: usize = 0;
    while i < kernels.len()
        invariant
            i <= kernels@.len(),
            ks == kernel_models(kernels@),
            forall|k: KernelModel| D::accepts(k) == #[trigger] fits_with(k, constants),
            forall|k: int| 0 <= k < i ==> D::accepts(#[trigger] ks[k]),
        decreases kernels@.len() - i,
    {
        let k = &kernels[i];
        assert(ks[i as int] == k@);
        assert(D::accepts(ks[i as int]) == fits_with(ks[i as int], constants));
        if (k.is_counted() || (constants && k.op == OpKind::Constant)) && !k.count_fits() {
            return false;
        }
        i += 1;
    }
    true
}

/// Whether source can be generated for a graph.
pub fn is_emittable(graph: &Graph, lang: SourceLang) -> (r: bool)
    ensures
        r == emittable(graph@, lang),
{
    if !graph.is_extractable() {
        return false;
    }
    let kernels = extract_kernels(graph);
    match lang {
        SourceLang::Cuda => accepted_by::<Cuda>(&kernels, true),
        SourceLang::Triton => accepted_by::<Triton>(&kernels, false),
        SourceLang::Metal => accepted_by::<Metal>(&kernels, false),
        SourceLang::Cann => accepted_by::<Cann>(&kernels, false),
        SourceLang::Cpu => true,
    }
}

/// Whether there are enough registers for the operands of the operations.
pub fn has_registers(ag: &ArchGraph) -> (r: bool)
    ensures
        r == (operand_total(ag@) <= u32::MAX),
{
    let ghost ops = ag@;
    let mut total: u64 = 0;
    let mut i: usize = 0;
    while i < ag.ops.len()
        invariant
            i <= ag.ops@.len(),
            ops == op_models(ag.ops@),
            total == operand_total(ops.take(i as int)),
            total <= u32::MAX,
        decreases ag.ops@.len() - i,
    {
        assert(ops.take(i + 1).drop_last() == ops.take(i as int));
        assert(ops[i as int] == ag.ops@[i as int]@);
        let n: u64 = match &ag.ops[i] {
            ArchOp::KernelCall { inputs, outputs, .. } => {
                if inputs.len() as u64 > u32::MAX as u64 || outputs.len() as u64 > u32::MAX as u64 {
                    proof {
                        total_grows(ops, i + 1);
                    }
                    return false;
                }
                inputs.len() as u64 + outputs.len() as u64
            },
            _ => 2,
        };
        assert(n == op_inputs(ops[i as int]).len() + op_outputs(ops[i as int]).len());
        total = total + n;
        if total > u32::MAX as u64 {
            proof {
                total_grows(ops, i + 1);
            }
            return false;
        }
        i += 1;
    }
    assert(ops.take(i as int) == ops);
    true
}

/// The first operations have no more operands than all.
proof fn total_grows(ops: Seq<ArchOpModel>, k: int)
    requires
        0 <= k <= ops.len(),
    ensures
        operand_total(ops.take(k)) <= operand_total(ops),
    decreases ops.len(),
{
    if k < ops.len() {
        assert(ops.drop_last().take(k) == ops.take(k));
        total_grows(ops.drop_last(), k);
    } else {
        assert(ops.take(k) == ops);
    }
}

} // verus!
