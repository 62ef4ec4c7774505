//! Kernels of a graph: one for each node, with its operands and attributes.

use vstd::prelude::*;
use crate::base::{DType, OpKind, TypeTag, ValueId, numbered};
use crate::bytes::{le_value, signed};
use crate::graph::{Graph, GraphModel, NodeView};
use crate::storage::{AttrEntry, AttrKey, AttrTag, StorageModel, ints_of, unpack_words};
use crate::backend::spec::{
    AttrsModel, KernelAttrs, KernelModel, KernelSpec, TensorModel, TensorSpec, copy_ints, kernel_models,
    tensor_models,
};
use crate::text::{dec, dec_is_digits, dec_tells_apart, push_dec};

verus! {

/// The short name of an operator, as it stands in kernel names.
pub open spec fn short_name(op: OpKind) -> Seq<char> {
    match op {
        OpKind::Add => "add"@,
        OpKind::Sub => "sub"@,
        OpKind::Mul => "mul"@,
        OpKind::Div => "div"@,
        OpKind::MatMul => "matmul"@,
        OpKind::Relu => "relu"@,
        OpKind::Gelu => "gelu"@,
        OpKind::Sigmoid => "sigmoid"@,
        OpKind::Tanh => "tanh"@,
        OpKind::Softmax => "softmax"@,
        OpKind::LayerNorm => "layernorm"@,
        OpKind::Conv => "conv"@,
        OpKind::Pool => "pool"@,
        OpKind::Reshape => "reshape"@,
        OpKind::Transpose => "transpose"@,
        OpKind::Concat => "concat"@,
        OpKind::Slice => "slice"@,
        OpKind::Constant => "const"@,
        OpKind::Placeholder => "placeholder"@,
        OpKind::Return => "ret"@,
        OpKind::Sqrt => "sqrt"@,
        OpKind::Exp => "exp"@,
        OpKind::Pow => "pow"@,
        OpKind::ReduceSum => "reduce_sum"@,
        OpKind::ReduceMean => "reduce_mean"@,
        OpKind::ReduceMax => "reduce_max"@,
        OpKind::Rsqrt => "rsqrt"@,
        OpKind::Reciprocal => "reciprocal"@,
        OpKind::Abs => "abs"@,
        OpKind::Log => "log"@,
        OpKind::Fused => "fused"@,
        OpKind::Custom => "custom"@,
    }
}

pub fn op_short_name(op: OpKind) -> (r: &'static str)
    ensures
        r@ == short_name(op),
{
    match op {
        OpKind::Add => "add",
        OpKind::Sub => "sub",
        OpKind::Mul => "mul",
        OpKind::Div => "div",
        OpKind::MatMul => "matmul",
        OpKind::Relu => "relu",
        OpKind::Gelu => "gelu",
        OpKind::Sigmoid => "sigmoid",
        OpKind::Tanh => "tanh",
        OpKind::Softmax => "softmax",
        OpKind::LayerNorm => "layernorm",
        OpKind::Conv => "conv",
        OpKind::Pool => "pool",
        OpKind::Reshape => "reshape",
        OpKind::Transpose => "transpose",
        OpKind::Concat => "concat",
        OpKind::Slice => "slice",
        OpKind::Constant => "const",
        OpKind::Placeholder => "placeholder",
        OpKind::Return => "ret",
        OpKind::Sqrt => "sqrt",
        OpKind::Exp => "exp",
        OpKind::Pow => "pow",
        OpKind::ReduceSum => "reduce_sum",
        OpKind::ReduceMean => "reduce_mean",
        OpKind::ReduceMax => "reduce_max",
        OpKind::Rsqrt => "rsqrt",
        OpKind::Reciprocal => "reciprocal",
        OpKind::Abs => "abs",
        OpKind::Log => "log",
        OpKind::Fused => "fused",
        OpKind::Custom => "custom",
    }
}

/// The tensor that a value is; one of unknown type counts as a float, and one
/// without a name is named after its number.
pub open spec fn tensor_of(m: StorageModel, v: u32, is_input: bool) -> TensorModel {
    TensorModel {
        name: match m.value_name(v as int) {
            Some(n) => n,
            None => "t"@ + dec(v as nat),
        },
        dims: m.value_shape(v as int),
        dtype: match TypeTag::of_tag(m.values[v as int].type_tag) {
            Some(t) => t.elem(),
            None => DType::F32,
        },
        is_input,
    }
}

/// The tensors that values are.
pub open spec fn tensors_of(m: StorageModel, vs: Seq<u32>, is_input: bool) -> Seq<TensorModel> {
    Seq::new(vs.len(), |i: int| tensor_of(m, vs[i], is_input))
}

/// Whether what kernels read of an attribute entry is there.
pub open spec fn entry_readable(m: StorageModel, e: AttrEntry) -> bool {
    &&& e.tag == AttrTag::Int.tag() && (e.key == AttrKey::Axis.tag() || e.key == AttrKey::Groups.tag())
        ==> m.number_ok(e)
    &&& e.tag == AttrTag::Float.tag() && (e.key == AttrKey::Epsilon.tag() || e.key
        == AttrKey::Value.tag()) ==> m.number_ok(e)
    &&& e.tag == AttrTag::FloatArray.tag() && e.key == AttrKey::Value.tag() ==> m.array_ok(e)
    &&& e.tag == AttrTag::IntArray.tag() && (e.key == AttrKey::Perm.tag() || e.key
        == AttrKey::Shape.tag() || e.key == AttrKey::Strides.tag() || e.key == AttrKey::Padding.tag()
        || e.key == AttrKey::Dilation.tag()) ==> m.array_ok(e)
}

/// Whether attribute entries can be read.
pub open spec fn entries_readable(m: StorageModel, entries: Seq<AttrEntry>) -> bool {
    forall|i: int| 0 <= i < entries.len() ==> entry_readable(m, #[trigger] entries[i])
}

/// Whether a value is there, with its shape and its name.
pub open spec fn tensor_readable(m: StorageModel, v: u32) -> bool {
    v < m.values.len() && m.shape_ok(v as int) && m.name_ok(v as int)
}

/// Whether values are.
pub open spec fn tensors_readable(m: StorageModel, vs: Seq<u32>) -> bool {
    forall|i: int| 0 <= i < vs.len() ==> tensor_readable(m, #[trigger] vs[i])
}

impl AttrsModel {
    /// With what an attribute entry says, if kernels read it.
    pub open spec fn reading(self, m: StorageModel, e: AttrEntry) -> AttrsModel {
        let number = signed(le_value(m.attr_bytes(e, 8)) as u64);
        let bits = le_value(m.attr_bytes(e, 8)) as u64;
        let words = unpack_words(m.attr_bytes(e, e.data_len as int));
        if e.key == AttrKey::Axis.tag() && e.tag == AttrTag::Int.tag() {
            AttrsModel { axis: Some(number), ..self }
        } else if e.key == AttrKey::Epsilon.tag() && e.tag == AttrTag::Float.tag() {
            AttrsModel { epsilon: Some(bits), ..self }
        } else if e.key == AttrKey::Value.tag() && e.tag == AttrTag::Float.tag() {
            AttrsModel { value: Some(bits), ..self }
        } else if e.key == AttrKey::Value.tag() && e.tag == AttrTag::FloatArray.tag() {
            AttrsModel { tensor_data: words, ..self }
        } else if e.key == AttrKey::Perm.tag() && e.tag == AttrTag::IntArray.tag() {
            AttrsModel { perm: ints_of(words), ..self }
        } else if e.key == AttrKey::Shape.tag() && e.tag == AttrTag::IntArray.tag() {
            AttrsModel { shape: ints_of(words), ..self }
        } else if e.key == AttrKey::Strides.tag() && e.tag == AttrTag::IntArray.tag() {
            AttrsModel {
                strides: ints_of(words),
                conv_stride: ints_of(words),
                pool_stride: ints_of(words),
                ..self
            }
        } else if e.key == AttrKey::Groups.tag() && e.tag == AttrTag::Int.tag() {
            AttrsModel { conv_groups: Some(number), ..self }
        } else if e.key == AttrKey::Padding.tag() && e.tag == AttrTag::IntArray.tag() {
            AttrsModel { conv_padding: ints_of(words), pool_padding: ints_of(words), ..self }
        } else if e.key == AttrKey::Dilation.tag() && e.tag == AttrTag::IntArray.tag() {
            AttrsModel { conv_dilation: ints_of(words), ..self }
        } else {
            self
        }
    }

    /// What attribute entries say; of two that say the same, the later counts.
    pub open spec fn read(m: StorageModel, entries: Seq<AttrEntry>) -> AttrsModel
        decreases entries.len(),
    {
        if entries.len() == 0 {
            AttrsModel::none()
        } else {
            AttrsModel::read(m, entries.drop_last()).reading(m, entries.last())
        }
    }
}

/// The kernel of a node.
pub open spec fn kernel_of(m: StorageModel, node: u32, kind: OpKind) -> KernelModel {
    let outputs = tensors_of(m, m.node_outputs(node as int), false);
    let read = AttrsModel::read(m, m.node_attrs(node as int));
    KernelModel {
        name: "neutron_"@ + short_name(kind) + "_"@ + dec(node as nat),
        op: kind,
        inputs: tensors_of(m, m.node_inputs(node as int), true),
        outputs,
        attrs: if kind == OpKind::Custom {
            AttrsModel { custom_op_type: "unknown"@, ..read }
        } else {
            read
        },
        dtype: if outputs.len() == 0 {
            DType::F32
        } else {
            outputs[0].dtype
        },
        node_idx: node,
    }
}

impl GraphModel {
    /// The kernels of the first `n` nodes. Nodes with unknown operators have none.
    pub open spec fn kernels(self, n: nat) -> Seq<KernelModel>
        decreases n,
    {
        if n == 0 {
            Seq::empty()
        } else {
            match self.kind(n - 1) {
                Some(kind) => self.kernels((n - 1) as nat).push(
                    kernel_of(self.storage, (n - 1) as u32, kind),
                ),
                None => self.kernels((n - 1) as nat),
            }
        }
    }

    /// The kernels of all nodes.
    pub open spec fn all_kernels(self) -> Seq<KernelModel> {
        self.kernels(self.storage.nodes.len())
    }

    /// Whether what the kernel of a node is made from can be read: its operands,
    /// which are values of the graph, and its attributes.
    pub open spec fn kernel_readable(self, node: int) -> bool {
        &&& self.operands_readable(node)
        &&& self.storage.attrs_ok(node)
        &&& tensors_readable(self.storage, self.storage.node_inputs(node))
        &&& tensors_readable(self.storage, self.storage.node_outputs(node))
        &&& entries_readable(self.storage, self.storage.node_attrs(node))
    }

    /// Whether the kernels of a graph can be made: those of every node with a
    /// known operator.
    pub open spec fn extractable(self) -> bool {
        &&& self.storage.nodes.len() <= u32::MAX
        &&& forall|i: int|
            0 <= i < self.storage.nodes.len() && self.kind(i) is Some
                ==> #[trigger] self.kernel_readable(i)
    }
}

/// The kernels of a graph, in the order of its nodes.
pub fn extract_kernels(graph: &Graph) -> (r: Vec<KernelSpec>)
    requires
        graph@.extractable(),
    ensures
        kernel_models(r@) == graph@.all_kernels(),
{
    let ids = graph.node_ids();
    let mut specs: Vec<KernelSpec> = Vec::new();
    let mut k: usize = 0;
    while k < ids.len()
        invariant
            k <= ids@.len(),
            graph@.extractable(),
            ids@.len() == graph@.storage.nodes.len(),
            forall|i: int| 0 <= i < ids@.len() ==> ids@[i] == i,
            kernel_models(specs@) == graph@.kernels(k as nat),
        decreases ids@.len() - k,
    {
        match graph.node(ids[k]) {
            Ok(node) => {
                assert(graph@.kernel_readable(k as int));
                let spec = extract_one(graph, &node, k as u32);
                let ghost before = specs@;
                specs.push(spec);
                assert(kernel_models(specs@) == kernel_models(before).push(spec@));
            },
            Err(_) => {},
        }
        k += 1;
    }
    specs
}

fn extract_one(graph: &Graph, node: &NodeView, idx: u32) -> (r: KernelSpec)
    requires
        node.id == idx,
        idx < graph@.storage.nodes.len(),
        node.storage@ == graph@.storage,
        graph@.kernel_readable(idx as int),
    ensures
        r@ == kernel_of(graph@.storage, idx, node.kind),
{
    let inputs = extract_tensors(graph, node.inputs(), true);
    let outputs = extract_tensors(graph, node.outputs(), false);
    let attrs = extract_attrs(node);
    let dtype = if outputs.len() == 0 {
        DType::F32
    } else {
        outputs[0].dtype
    };
    assert(outputs@.len() > 0 ==> tensor_models(outputs@)[0].dtype == outputs@[0].dtype);
    let mut name = "neutron_".to_owned();
    name.append(op_short_name(node.kind));
    name.append("_");
    push_dec(&mut name, idx as u64);
    KernelSpec { name, op: node.kind, inputs, outputs, attrs, dtype, node_idx: idx }
}

fn extract_tensors(graph: &Graph, vs: &[ValueId], is_input: bool) -> (r: Vec<TensorSpec>)
    requires
        tensors_readable(graph@.storage, vs@),
    ensures
        tensor_models(r@) == tensors_of(graph@.storage, vs@, is_input),
{
    let mut out: Vec<TensorSpec> = Vec::new();
    let mut k: usize = 0;
    while k < vs.len()
        invariant
            k <= vs@.len(),
            tensors_readable(graph@.storage, vs@),
            out@.len() == k,
            forall|i: int|
                0 <= i < k ==> (#[trigger] out@[i])@ == tensor_of(graph@.storage, vs@[i], is_input),
        decreases vs@.len() - k,
    {
        assert(tensor_readable(graph@.storage, vs@[k as int]));
        out.push(extract_tensor(graph, vs[k], is_input));
        k += 1;
    }
    assert(tensor_models(out@) == tensors_of(graph@.storage, vs@, is_input));
    out
}

fn extract_tensor(graph: &Graph, vid: ValueId, is_input: bool) -> (r: TensorSpec)
    requires
        tensor_readable(graph@.storage, vid),
    ensures
        r@ == tensor_of(graph@.storage, vid, is_input),
{
    let dtype = match TypeTag::from_u8(graph.storage.value_hdr[vid as usize].type_tag) {
        Ok(t) => t.dtype(),
        Err(_) => DType::F32,
    };
    let mut dims: Vec<i64> = Vec::new();
    dims.extend_from_slice(graph.storage.value_shape(vid));
    assert(dims@ == graph@.storage.value_shape(vid as int));
    let name = match graph.storage.value_name(vid) {
        Some(s) => s.to_owned(),
        None => numbered("t", vid as u64),
    };
    TensorSpec { name, dims, dtype, is_input }
}

fn extract_attrs(node: &NodeView) -> (r: KernelAttrs)
    requires
        node.id < node.storage@.nodes.len(),
        node.storage@.attrs_ok(node.id as int),
        entries_readable(node.storage@, node.storage@.node_attrs(node.id as int)),
    ensures
        ({
            let read = AttrsModel::read(node.storage@, node.storage@.node_attrs(node.id as int));
            r@ == if node.kind == OpKind::Custom {
                AttrsModel { custom_op_type: "unknown"@, ..read }
            } else {
                read
            }
        }),
{
    let ghost m = node.storage@;
    let entries = node.attrs();
    let mut attrs = KernelAttrs::default();
    let mut k: usize = 0;
    while k < entries.len()
        invariant
            k <= entries@.len(),
            m == node.storage@,
            entries_readable(m, entries@),
            attrs@ == AttrsModel::read(m, entries@.take(k as int)),
        decreases entries@.len() - k,
    {
        let e = entries[k];
        assert(entry_readable(m, entries@[k as int]));
        assert(entries@.take(k + 1).drop_last() == entries@.take(k as int));
        let ghost before = attrs@;
        if e.key == AttrKey::Axis.code() && e.tag == AttrTag::Int.code() {
            attrs.axis = Some(node.storage.attr_int(&e));
        } else if e.key == AttrKey::Epsilon.code() && e.tag == AttrTag::Float.code() {
            attrs.epsilon = Some(node.storage.attr_float(&e));
        } else if e.key == AttrKey::Value.code() && e.tag == AttrTag::Float.code() {
            attrs.value = Some(node.storage.attr_float(&e));
        } else if e.key == AttrKey::Value.code() && e.tag == AttrTag::FloatArray.code() {
            attrs.tensor_data = node.storage.attr_float_array(&e);
        } else if e.key == AttrKey::Perm.code() && e.tag == AttrTag::IntArray.code() {
            attrs.perm = node.storage.attr_int_array(&e);
        } else if e.key == AttrKey::Shape.code() && e.tag == AttrTag::IntArray.code() {
            attrs.shape = node.storage.attr_int_array(&e);
        } else if e.key == AttrKey::Strides.code() && e.tag == AttrTag::IntArray.code() {
            let strides = node.storage.attr_int_array(&e);
            attrs.conv_stride = copy_ints(&strides);
            attrs.pool_stride = copy_ints(&strides);
            attrs.strides = strides;
        } else if e.key == AttrKey::Groups.code() && e.tag == AttrTag::Int.code() {
            attrs.conv_groups = Some(node.storage.attr_int(&e));
        } else if e.key == AttrKey::Padding.code() && e.tag == AttrTag::IntArray.code() {
            let padding = node.storage.attr_int_array(&e);
            attrs.pool_padding = copy_ints(&padding);
            attrs.conv_padding = padding;
        } else if e.key == AttrKey::Dilation.code() && e.tag == AttrTag::IntArray.code() {
            attrs.conv_dilation = node.storage.attr_int_array(&e);
        }
        assert(attrs@ == before.reading(m, e));
        k += 1;
    }
    assert(entries@.take(k as int) == entries@);
    if node.kind == OpKind::Custom {
        attrs.custom_op_type = "unknown".to_owned();
    }
    attrs
}

/// Every node with a known operator has a kernel, in order: the kernel of a
/// node stands behind those of the known nodes before it.
pub proof fn kernel_of_every_node(g: GraphModel, n: nat, i: nat)
    requires
        i < n <= g.storage.nodes.len(),
        g.kind(i as int) is Some,
    ensures
        g.kernels(i).len() < g.kernels(n).len(),
        g.kernels(n)[g.kernels(i).len() as int] == kernel_of(
            g.storage,
            i as u32,
            g.kind(i as int)->0,
        ),
    decreases n,
{
    if n > i + 1 {
        kernel_of_every_node(g, (n - 1) as nat, i);
    }
}

/// Kernels stand in the order of their nodes, so no two share a node.
pub proof fn kernels_follow_nodes(g: GraphModel, n: nat, a: int, b: int)
    requires
        n <= g.storage.nodes.len() <= u32::MAX,
        0 <= a < b < g.kernels(n).len(),
    ensures
        g.kernels(n)[a].node_idx < g.kernels(n)[b].node_idx < n,
    decreases n,
{
    if g.kind(n - 1) is Some && b == g.kernels(n).len() - 1 {
        kernel_nodes_below(g, (n - 1) as nat, a);
    } else {
        kernels_follow_nodes(g, (n - 1) as nat, a, b);
    }
}

/// The kernels of the first `n` nodes are of nodes below `n`.
proof fn kernel_nodes_below(g: GraphModel, n: nat, a: int)
    requires
        n <= g.storage.nodes.len() <= u32::MAX,
        0 <= a < g.kernels(n).len(),
    ensures
        g.kernels(n)[a].node_idx < n,
    decreases n,
{
    if g.kind(n - 1) is Some && a == g.kernels(n).len() - 1 {
    } else {
        kernel_nodes_below(g, (n - 1) as nat, a);
    }
}

/// No two kernels of a graph have the same name.
pub proof fn kernel_names_differ(g: GraphModel, n: nat, a: int, b: int)
    requires
        n <= g.storage.nodes.len() <= u32::MAX,
        0 <= a < b < g.kernels(n).len(),
    ensures
        g.kernels(n)[a].name != g.kernels(n)[b].name,
{
    kernels_follow_nodes(g, n, a, b);
    kernel_name_ends(g, n, a);
    kernel_name_ends(g, n, b);
    let x = g.kernels(n)[a];
    let y = g.kernels(n)[b];
    if x.name == y.name {
        let s = dec(x.node_idx as nat);
        let t = dec(y.node_idx as nat);
        dec_is_digits(x.node_idx as nat);
        dec_is_digits(y.node_idx as nat);
        reveal_strlit("_");
        let p = "neutron_"@ + short_name(x.op) + "_"@;
        let q = "neutron_"@ + short_name(y.op) + "_"@;
        assert(p.last() == '_' && q.last() == '_');
        assert(p + s == q + t);
        assert(p.len() + s.len() == (q + t).len());
        if s.len() < t.len() {
            assert((p + s)[p.len() - 1] == '_');
            assert((q + t)[p.len() - 1] == t[p.len() - 1 - q.len()]);
        } else if t.len() < s.len() {
            assert((q + t)[q.len() - 1] == '_');
            assert((p + s)[q.len() - 1] == s[q.len() - 1 - p.len()]);
        } else {
            assert((p + s).skip(p.len() as int) == s);
            assert((q + t).skip(q.len() as int) == t);
            dec_tells_apart(x.node_idx as nat, y.node_idx as nat);
        }
    }
}

/// A kernel is named after its operator and its node.
proof fn kernel_name_ends(g: GraphModel, n: nat, a: int)
    requires
        n <= g.storage.nodes.len() <= u32::MAX,
        0 <= a < g.kernels(n).len(),
    ensures
        g.kernels(n)[a].name == "neutron_"@ + short_name(g.kernels(n)[a].op) + "_"@ + dec(
            g.kernels(n)[a].node_idx as nat,
        ),
    decreases n,
{
    if !(g.kind(n - 1) is Some && a == g.kernels(n).len() - 1) {
        kernel_name_ends(g, (n - 1) as nat, a);
    }
}

} // verus!
