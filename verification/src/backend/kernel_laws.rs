//! What holds of the kernels that are made from a graph, and of their launches.

use vstd::prelude::*;
use crate::backend::extract::kernel_of;
use crate::backend::spec::{AttrsModel, GpuArch, KernelModel, TensorModel, count_of};
use crate::base::{DType, OpKind, TypeTag};
use crate::graph::{AttrModel, GraphModel};
use crate::storage::{AttrEntry, AttrKey, AttrTag, StorageModel, pack_words};
use crate::storage_laws::{attr_data_holds_value, attr_read_back, attrs_open};
use crate::text::dec;

verus! {

/// Whether a tensor is the one that a value is: it has its name, or is named after
/// its number, and has its shape and the type of its elements.
pub open spec fn is_tensor_of(t: TensorModel, m: StorageModel, v: u32) -> bool {
    &&& m.value_name(v as int) is Some ==> t.name == m.value_name(v as int)->0
    &&& m.value_name(v as int) is None ==> t.name == "t"@ + dec(v as nat)
    &&& t.dims == m.value_shape(v as int)
    &&& TypeTag::of_tag(m.values[v as int].type_tag) is Some ==> t.dtype == TypeTag::of_tag(
        m.values[v as int].type_tag,
    )->0.elem()
    &&& TypeTag::of_tag(m.values[v as int].type_tag) is None ==> t.dtype == DType::F32
}

/// The kernel of a node has the operator of the node and its number. Its k-th
/// input is the tensor that the k-th input of the node is, and its k-th output the
/// one that the k-th output is, with as many of them as the node has; and its
/// elements are those of its first output.
pub proof fn kernel_follows_node(m: StorageModel, node: u32, kind: OpKind)
    requires
        node < m.nodes.len(),
        m.inputs_ok(node as int),
        m.outputs_ok(node as int),
    ensures
        ({
            let k = kernel_of(m, node, kind);
            let h = m.nodes[node as int];
            &&& k.op == kind
            &&& k.node_idx == node
            &&& k.inputs.len() == h.inputs_len
            &&& k.outputs.len() == h.outputs_len
            &&& forall|j: int|
                0 <= j < h.inputs_len ==> is_tensor_of(
                    #[trigger] k.inputs[j],
                    m,
                    m.edges[h.inputs_off + j],
                ) && k.inputs[j].is_input
            &&& forall|j: int|
                0 <= j < h.outputs_len ==> is_tensor_of(
                    #[trigger] k.outputs[j],
                    m,
                    m.edges[h.outputs_off + j],
                ) && !k.outputs[j].is_input
            &&& k.outputs.len() > 0 ==> k.dtype == k.outputs[0].dtype
        }),
{
}

/// An attribute that is set on a node is an attribute of its kernel, with the
/// value that was set, and strides and paddings are those of both windows.
pub proof fn attribute_reaches_kernel(g: GraphModel, node: u32, kind: OpKind, key: AttrKey, value: AttrModel)
    requires
        g.storage.wf(),
        node < g.storage.nodes.len(),
        g.storage.attrs.len() < u32::MAX,
        g.storage.attr_data.len() + value.data().len() <= u32::MAX,
        attrs_open(g.storage, node as int),
    ensures
        ({
            let a = kernel_of(g.with_attr(node as int, key, value).storage, node, kind).attrs;
            match (key, value) {
                (AttrKey::Axis, AttrModel::Int(v)) => a.axis == Some(v),
                (AttrKey::Groups, AttrModel::Int(v)) => a.conv_groups == Some(v),
                (AttrKey::Epsilon, AttrModel::Float(v)) => a.epsilon == Some(v),
                (AttrKey::Value, AttrModel::Float(v)) => a.value == Some(v),
                (AttrKey::Perm, AttrModel::IntArray(v)) => a.perm == v,
                (AttrKey::Shape, AttrModel::IntArray(v)) => a.shape == v,
                (AttrKey::Strides, AttrModel::IntArray(v)) => a.strides == v && a.conv_stride == v
                    && a.pool_stride == v,
                (AttrKey::Padding, AttrModel::IntArray(v)) => a.conv_padding == v && a.pool_padding
                    == v,
                (AttrKey::Dilation, AttrModel::IntArray(v)) => a.conv_dilation == v,
                _ => true,
            }
        }),
{
    let m = g.storage;
    let n = g.with_attr(node as int, key, value).storage;
    let data = value.data();
    let e = m.entry_for(key, value.layout(), data);
    data_has_its_length(value);
    attr_read_back(m, node as int, key, value.layout(), data);
    assert(n.node_attrs(node as int).drop_last() == m.node_attrs(node as int));
    let before = AttrsModel::read(n, m.node_attrs(node as int));
    assert(AttrsModel::read(n, n.node_attrs(node as int)) == before.reading(n, e));
    match value {
        AttrModel::Int(v) => attr_data_holds_value(v, 0, Seq::empty(), Seq::empty()),
        AttrModel::Float(v) => attr_data_holds_value(0, v, Seq::empty(), Seq::empty()),
        AttrModel::IntArray(v) => attr_data_holds_value(0, 0, v, Seq::empty()),
        AttrModel::Bool(_) => {},
    }
}

/// The elements that are set on a constant are those of its kernel.
pub proof fn elements_reach_kernel(m: StorageModel, node: u32, kind: OpKind, values: Seq<u64>)
    requires
        m.wf(),
        node < m.nodes.len(),
        m.attrs.len() < u32::MAX,
        m.attr_data.len() + pack_words(values).len() <= u32::MAX,
        attrs_open(m, node as int),
    ensures
        kernel_of(
            m.with_attr(node as int, AttrKey::Value, AttrTag::FloatArray, pack_words(values)),
            node,
            kind,
        ).attrs.tensor_data == values,
{
    let data = pack_words(values);
    let n = m.with_attr(node as int, AttrKey::Value, AttrTag::FloatArray, data);
    let e = m.entry_for(AttrKey::Value, AttrTag::FloatArray, data);
    attr_read_back(m, node as int, AttrKey::Value, AttrTag::FloatArray, data);
    assert(n.node_attrs(node as int).drop_last() == m.node_attrs(node as int));
    let before = AttrsModel::read(n, m.node_attrs(node as int));
    assert(AttrsModel::read(n, n.node_attrs(node as int)) == before.reading(n, e));
    attr_data_holds_value(0, 0, Seq::empty(), values);
}

proof fn le_bytes_len(v: nat, n: nat)
    ensures
        crate::bytes::le_bytes(v, n).len() == n,
    decreases n,
{
    if n > 0 {
        le_bytes_len(v / 256, (n - 1) as nat);
    }
}

proof fn data_has_its_length(value: AttrModel)
    ensures
        crate::storage_laws::data_fits(value.layout(), value.data()),
{
    match value {
        AttrModel::Int(v) => le_bytes_len(crate::bytes::unsigned(v) as nat, 8),
        AttrModel::Float(v) => le_bytes_len(v as nat, 8),
        _ => {},
    }
}

/// Of two attributes of a node that say the same, the one that was set last
/// counts: an entry for something else changes nothing of the axis, the epsilon,
/// the value and the elements.
pub proof fn other_entries_change_nothing(m: StorageModel, entries: Seq<AttrEntry>, e: AttrEntry)
    ensures
        ({
            let before = AttrsModel::read(m, entries);
            let after = AttrsModel::read(m, entries.push(e));
            &&& e.key != AttrKey::Axis.tag() ==> after.axis == before.axis
            &&& e.key != AttrKey::Epsilon.tag() ==> after.epsilon == before.epsilon
            &&& e.key != AttrKey::Value.tag() ==> after.value == before.value && after.tensor_data
                == before.tensor_data
            &&& e.key != AttrKey::Perm.tag() ==> after.perm == before.perm
            &&& e.key != AttrKey::Shape.tag() ==> after.shape == before.shape
            &&& e.key != AttrKey::Groups.tag() ==> after.conv_groups == before.conv_groups
            &&& e.key != AttrKey::Dilation.tag() ==> after.conv_dilation == before.conv_dilation
            &&& e.key != AttrKey::Padding.tag() ==> after.conv_padding == before.conv_padding
                && after.pool_padding == before.pool_padding
            &&& e.key != AttrKey::Strides.tag() ==> after.strides == before.strides
                && after.conv_stride == before.conv_stride && after.pool_stride == before.pool_stride
        }),
{
    assert(entries.push(e).drop_last() == entries);
}

/// The number of elements of a shape is the product of its dimensions: that of a
/// shape in two parts is the product of those of the parts, a single dimension
/// counts as itself if it is positive, and not at all otherwise.
pub proof fn elements_are_multiplied(a: Seq<i64>, b: Seq<i64>, d: i64)
    ensures
        count_of(a + b) == count_of(a) * count_of(b),
        count_of(seq![d]) == if d > 0 {
            d as nat
        } else {
            1
        },
        count_of(Seq::<i64>::empty()) == 1,
    decreases b.len(),
{
    let one = seq![d];
    assert(one.drop_last() == Seq::<i64>::empty());
    assert(count_of(Seq::<i64>::empty()) == 1);
    if b.len() == 0 {
        assert(a + b == a);
        assert(count_of(a) * 1 == count_of(a)) by (nonlinear_arith);
    } else {
        let front = b.drop_last();
        elements_are_multiplied(a, front, d);
        assert((a + b).drop_last() == a + front);
        assert((a + b).last() == b.last());
        if b.last() > 0 {
            let x = count_of(a) as int;
            let y = count_of(front) as int;
            let z = b.last() as int;
            assert((x * y) * z == x * (y * z)) by (nonlinear_arith);
        }
    }
    if d > 0 {
        assert(1 * (d as nat) == d as nat);
    }
}

/// Whether a kernel is launched element by element.
pub open spec fn by_element(op: OpKind) -> bool {
    match op {
        OpKind::ReduceSum | OpKind::ReduceMean | OpKind::ReduceMax | OpKind::MatMul | OpKind::Softmax
        | OpKind::LayerNorm | OpKind::Conv | OpKind::Constant | OpKind::Placeholder | OpKind::Return =>
            false,
        _ => true,
    }
}

/// A launch element by element has a thread for each element of the first output
/// and no block that has nothing to do; a reduction has a block for each result;
/// a softmax or a normalization has one for each row.
pub proof fn launches_are_tight(k: KernelModel, arch: GpuArch)
    requires
        0 < k.out_len() <= u32::MAX,
        k.outputs.len() > 0,
    ensures
        ({
            let l = k.launched(arch);
            let threads = l.block.0 * l.block.1 * l.block.2;
            let blocks = l.grid.0 * l.grid.1 * l.grid.2;
            &&& by_element(k.op) ==> threads == 256 && (blocks - 1) * threads < k.out_len() <= blocks
                * threads
            &&& k.op == OpKind::ReduceSum || k.op == OpKind::ReduceMean || k.op == OpKind::ReduceMax
                ==> blocks == k.out_len()
            &&& (k.op == OpKind::Softmax || k.op == OpKind::LayerNorm) && k.outputs[0].dims.len() > 0
                && 0 < k.outputs[0].dims[0] <= u32::MAX ==> blocks == k.outputs[0].dims[0]
        }),
{
    let l = k.launched(arch);
    assert(l.grid.0 * l.grid.1 * l.grid.2 == l.grid.0 * l.grid.1 * l.grid.2);
    if by_element(k.op) {
        let n = k.out_len() as int;
        let b = l.grid.0 as int;
        assert(l.grid.1 == 1 && l.grid.2 == 1 && l.block.1 == 1 && l.block.2 == 1);
        assert(b == (n + 255) / 256);
        assert(b * 1 * 1 == b) by (nonlinear_arith);
        assert((b - 1) * 256 < n <= b * 256);
    } else if k.op == OpKind::ReduceSum || k.op == OpKind::ReduceMean || k.op == OpKind::ReduceMax
        || k.op == OpKind::Softmax || k.op == OpKind::LayerNorm {
        let b = l.grid.0 as int;
        assert(l.grid.1 == 1 && l.grid.2 == 1);
        assert(b * 1 * 1 == b) by (nonlinear_arith);
    }
}

/// Only products and convolutions are launched by what the architecture has.
pub proof fn launches_depend_on_little(k: KernelModel, a: GpuArch, b: GpuArch)
    requires
        k.op != OpKind::MatMul,
        k.op != OpKind::Conv,
    ensures
        k.launched(a) == k.launched(b),
{
}

} // verus!
