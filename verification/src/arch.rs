//! Target descriptions, and lowering of graphs to native operations.

use vstd::prelude::*;
use crate::base::{OpKind, Result, ValueId};
use crate::common::Target;
use crate::graph::{Graph, GraphModel};

verus! {

/// A CUDA device.
#[derive(Debug, Clone, Copy)]
pub struct CudaDesc {
    pub compute_capability: (u32, u32),
    pub shared_mem_bytes: usize,
    pub registers_per_sm: u32,
    pub max_registers_per_thread: u32,
    pub warp_size: u32,
}

impl Default for CudaDesc {
    fn default() -> (r: Self)
        ensures
            r.compute_capability == (8u32, 0u32),
            r.shared_mem_bytes == 48 * 1024,
            r.registers_per_sm == 65536,
            r.max_registers_per_thread == 255,
            r.warp_size == 32,
    {
        CudaDesc {
            compute_capability: (8, 0),
            shared_mem_bytes: 48 * 1024,
            registers_per_sm: 65536,
            max_registers_per_thread: 255,
            warp_size: 32,
        }
    }
}

/// A model of Ascend NPU.
#[derive(Debug, Clone, Copy, PartialEq, Eq, Structural)]
pub enum NpuSoc {
    Ascend910B1,
    Ascend910B3,
    Ascend310P3,
}

/// An Ascend NPU.
#[derive(Debug, Clone, Copy)]
pub struct NpuDesc {
    pub soc_version: NpuSoc,
    pub aicore_count: u32,
    pub vector_regs: u32,
    pub ub_bytes: usize,
}

impl Default for NpuDesc {
    fn default() -> (r: Self)
        ensures
            r.soc_version == NpuSoc::Ascend910B1,
            r.aicore_count == 32,
            r.vector_regs == 256,
            r.ub_bytes == 256 * 1024,
    {
        NpuDesc {
            soc_version: NpuSoc::Ascend910B1,
            aicore_count: 32,
            vector_regs: 256,
            ub_bytes: 256 * 1024,
        }
    }
}

/// A native operation.
#[derive(Debug)]
pub enum ArchOp {
    KernelCall { name: String, inputs: Vec<ValueId>, outputs: Vec<ValueId> },
    Load { addr: ValueId, dst: ValueId },
    Store { addr: ValueId, src: ValueId },
}

/// What a native operation says.
#[verifier::ext_equal]
pub enum ArchOpModel {
    KernelCall { name: Seq<char>, inputs: Seq<u32>, outputs: Seq<u32> },
    Load { addr: u32, dst: u32 },
    Store { addr: u32, src: u32 },
}

impl View for ArchOp {
    type V = ArchOpModel;

    open spec fn view(&self) -> ArchOpModel {
        match self {
            ArchOp::KernelCall { name, inputs, outputs } => ArchOpModel::KernelCall {
                name: name@,
                inputs: inputs@,
                outputs: outputs@,
            },
            ArchOp::Load { addr, dst } => ArchOpModel::Load { addr: *addr, dst: *dst },
            ArchOp::Store { addr, src } => ArchOpModel::Store { addr: *addr, src: *src },
        }
    }
}

impl Clone for ArchOp {
    fn clone(&self) -> (r: Self)
        ensures
            r@ == self@,
    {
        match self {
            ArchOp::KernelCall { name, inputs, outputs } => {
                let ins: Vec<ValueId> = inputs.clone();
                let outs: Vec<ValueId> = outputs.clone();
                assert(ins@ == inputs@ && outs@ == outputs@);
                ArchOp::KernelCall { name: name.clone(), inputs: ins, outputs: outs }
            },
            ArchOp::Load { addr, dst } => ArchOp::Load { addr: *addr, dst: *dst },
            ArchOp::Store { addr, src } => ArchOp::Store { addr: *addr, src: *src },
        }
    }
}

/// What the operations of a sequence say.
pub open spec fn op_models(s: Seq<ArchOp>) -> Seq<ArchOpModel> {
    Seq::new(s.len(), |i: int| s[i]@)
}

/// A lowered graph.
#[derive(Debug)]
pub struct ArchGraph {
    pub ops: Vec<ArchOp>,
    pub target: Target,
}

impl Default for ArchGraph {
    fn default() -> (r: Self)
        ensures
            r@ == Seq::<ArchOpModel>::empty(),
            r.target == Target::Cuda,
    {
        ArchGraph::new(Target::Cuda)
    }
}

impl View for ArchGraph {
    type V = Seq<ArchOpModel>;

    open spec fn view(&self) -> Seq<ArchOpModel> {
        op_models(self.ops@)
    }
}

impl ArchGraph {
    pub fn new(target: Target) -> (r: Self)
        ensures
            r@ == Seq::<ArchOpModel>::empty(),
            r.target == target,
    {
        let r = ArchGraph { ops: Vec::new(), target };
        assert(r@ == Seq::<ArchOpModel>::empty());
        r
    }

    pub fn add(&mut self, op: ArchOp)
        ensures
            final(self)@ == old(self)@.push(op@),
            final(self).target == old(self).target,
    {
        self.ops.push(op);
        assert(self@ == old(self)@.push(op@));
    }

    pub fn len(&self) -> (r: usize)
        ensures
            r == self@.len(),
    {
        self.ops.len()
    }

    pub fn is_empty(&self) -> (r: bool)
        ensures
            r == (self@.len() == 0),
    {
        self.ops.len() == 0
    }
}

/// The native name of an operator.
pub open spec fn native(kind: OpKind) -> Seq<char> {
    match kind {
        OpKind::MatMul => "mma"@,
        OpKind::Add => "add"@,
        OpKind::Sub => "sub"@,
        OpKind::Mul => "mul"@,
        OpKind::Div => "div"@,
        OpKind::Relu => "relu"@,
        OpKind::Gelu => "gelu"@,
        OpKind::Sigmoid => "sigmoid"@,
        OpKind::Tanh => "tanh"@,
        OpKind::Softmax => "softmax"@,
        OpKind::LayerNorm => "layer_norm"@,
        OpKind::Conv => "conv"@,
        OpKind::Sqrt => "sqrt"@,
        OpKind::Rsqrt => "rsqrt"@,
        OpKind::Reciprocal => "reciprocal"@,
        OpKind::Abs => "abs"@,
        OpKind::Log => "log"@,
        OpKind::Exp => "exp"@,
        OpKind::Pow => "pow"@,
        OpKind::ReduceSum => "reduce_sum"@,
        OpKind::ReduceMean => "reduce_mean"@,
        OpKind::ReduceMax => "reduce_max"@,
        OpKind::Reshape => "reshape"@,
        OpKind::Transpose => "transpose"@,
        OpKind::Concat => "concat"@,
        OpKind::Slice => "slice"@,
        OpKind::Pool => "pool"@,
        OpKind::Constant => "const"@,
        OpKind::Placeholder => "load"@,
        OpKind::Return => "store"@,
        OpKind::Fused => "fused"@,
        OpKind::Custom => "custom"@,
    }
}

/// The native name of an operator.
pub fn native_name(kind: OpKind) -> (r: &'static str)
    ensures
        r@ == native(kind),
{
    match kind {
        OpKind::MatMul => "mma",
        OpKind::Add => "add",
        OpKind::Sub => "sub",
        OpKind::Mul => "mul",
        OpKind::Div => "div",
        OpKind::Relu => "relu",
        OpKind::Gelu => "gelu",
        OpKind::Sigmoid => "sigmoid",
        OpKind::Tanh => "tanh",
        OpKind::Softmax => "softmax",
        OpKind::LayerNorm => "layer_norm",
        OpKind::Conv => "conv",
        OpKind::Sqrt => "sqrt",
        OpKind::Rsqrt => "rsqrt",
        OpKind::Reciprocal => "reciprocal",
        OpKind::Abs => "abs",
        OpKind::Log => "log",
        OpKind::Exp => "exp",
        OpKind::Pow => "pow",
        OpKind::ReduceSum => "reduce_sum",
        OpKind::ReduceMean => "reduce_mean",
        OpKind::ReduceMax => "reduce_max",
        OpKind::Reshape => "reshape",
        OpKind::Transpose => "transpose",
        OpKind::Concat => "concat",
        OpKind::Slice => "slice",
        OpKind::Pool => "pool",
        OpKind::Constant => "const",
        OpKind::Placeholder => "load",
        OpKind::Return => "store",
        OpKind::Fused => "fused",
        OpKind::Custom => "custom",
    }
}

/// The native operation of a node: a call with the operands of the node.
pub open spec fn lowered_node(g: GraphModel, i: int) -> ArchOpModel {
    ArchOpModel::KernelCall {
        name: native(g.kind(i)->0),
        inputs: g.storage.node_inputs(i),
        outputs: g.storage.node_outputs(i),
    }
}

/// The native operations of the first `n` nodes, in order.
pub open spec fn lowered(g: GraphModel, n: nat) -> Seq<ArchOpModel> {
    Seq::new(n, |i: int| lowered_node(g, i))
}

/// Whether the operators of the first `n` nodes are known.
pub open spec fn kinds_known(g: GraphModel, n: nat) -> bool {
    forall|i: int| 0 <= i < n ==> #[trigger] g.kind(i) is Some
}

/// Whether a graph can be lowered: the operands of the nodes before the first one
/// whose operator is not known can be read.
pub open spec fn lowerable(g: GraphModel) -> bool {
    &&& g.storage.nodes.len() <= u32::MAX
    &&& forall|i: int|
        0 <= i < g.storage.nodes.len() && kinds_known(g, (i + 1) as nat)
            ==> #[trigger] g.operands_readable(i)
}

/// Lowers a graph: one native operation for each node, in order. Fails on the
/// first node whose operator is not known.
pub fn lower(graph: &Graph, target: Target) -> (r: Result<ArchGraph>)
    requires
        lowerable(graph@),
    ensures
        match r {
            Ok(a) => {
                &&& a.target == target
                &&& kinds_known(graph@, graph@.storage.nodes.len())
                &&& a@ == lowered(graph@, graph@.storage.nodes.len())
            },
            Err(e) => exists|i: u32|
                {
                    &&& i < graph@.storage.nodes.len()
                    &&& #[trigger] graph@.node_error(i) == Some(e@)
                    &&& kinds_known(graph@, i as nat)
                },
        },
{
    let mut ag = ArchGraph::new(target);
    let n = graph.node_count() as u32;
    let mut i: u32 = 0;
    while i < n
        invariant
            i <= n,
            n == graph@.storage.nodes.len(),
            lowerable(graph@),
            ag.target == target,
            kinds_known(graph@, i as nat),
            ag@ == lowered(graph@, i as nat),
        decreases n - i,
    {
        match graph.node(i) {
            Err(e) => {
                assert(graph@.node_error(i) == Some(e@));
                return Err(e);
            },
            Ok(node) => {
                assert(kinds_known(graph@, (i + 1) as nat));
                assert(graph@.operands_readable(i as int));
                let mut inputs: Vec<ValueId> = Vec::new();
                inputs.extend_from_slice(node.inputs());
                let mut outputs: Vec<ValueId> = Vec::new();
                outputs.extend_from_slice(node.outputs());
                let op = ArchOp::KernelCall {
                    name: native_name(node.kind).to_owned(),
                    inputs,
                    outputs,
                };
                assert(op@ == lowered_node(graph@, i as int));
                ag.add(op);
                assert(ag@ == lowered(graph@, (i + 1) as nat));
            },
        }
        i += 1;
    }
    Ok(ag)
}

} // verus!
