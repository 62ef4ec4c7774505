//! ONNX models as graphs.

use vstd::prelude::*;
use crate::base::{DType, ErrorModel, NodeId, OpKind, Result, Type, TypeModel, ValueId};
use crate::frontend::messages::{
    AttrInfo, AttrInfoModel, AttrValue, AttrValueModel, ModelInfo, ModelInfoModel, NodeInfo,
    NodeInfoModel, TensorInfo, TensorInfoModel, attr_models, attributes_below, model_of, node_models,
    parse_model, tensor_models,
};
use crate::frontend::names::{Names, registered};
use crate::graph::{AttrModel, Graph, GraphModel};
use crate::storage::{AttrKey, AttrTag, pack_words};
use crate::text::{chars_of, str_eq, texts};

verus! {

/// The operator that an ONNX operator name stands for; names that are not
/// known stand for a custom operator.
pub open spec fn op_for(name: Seq<char>) -> OpKind {
    if name == "Add"@ {
        OpKind::Add
    } else if name == "Sub"@ {
        OpKind::Sub
    } else if name == "Mul"@ {
        OpKind::Mul
    } else if name == "Div"@ {
        OpKind::Div
    } else if name == "MatMul"@ || name == "Gemm"@ {
        OpKind::MatMul
    } else if name == "Relu"@ {
        OpKind::Relu
    } else if name == "Gelu"@ {
        OpKind::Gelu
    } else if name == "Sigmoid"@ {
        OpKind::Sigmoid
    } else if name == "Tanh"@ {
        OpKind::Tanh
    } else if name == "Softmax"@ {
        OpKind::Softmax
    } else if name == "LayerNormalization"@ || name == "InstanceNormalization"@ {
        OpKind::LayerNorm
    } else if name == "Conv"@ {
        OpKind::Conv
    } else if name == "MaxPool"@ || name == "AveragePool"@ || name == "GlobalAveragePool"@ {
        OpKind::Pool
    } else if name == "Reshape"@ {
        OpKind::Reshape
    } else if name == "Transpose"@ {
        OpKind::Transpose
    } else if name == "Concat"@ {
        OpKind::Concat
    } else if name == "Slice"@ {
        OpKind::Slice
    } else if name == "Sqrt"@ {
        OpKind::Sqrt
    } else if name == "Exp"@ {
        OpKind::Exp
    } else if name == "Pow"@ {
        OpKind::Pow
    } else if name == "Abs"@ {
        OpKind::Abs
    } else if name == "Log"@ {
        OpKind::Log
    } else if name == "Reciprocal"@ {
        OpKind::Reciprocal
    } else if name == "ReduceSum"@ || name == "ReduceL1"@ || name == "ReduceL2"@ {
        OpKind::ReduceSum
    } else if name == "ReduceMean"@ {
        OpKind::ReduceMean
    } else if name == "ReduceMax"@ {
        OpKind::ReduceMax
    } else {
        OpKind::Custom
    }
}

/// The operator that an ONNX operator name stands for.
pub fn map_op_type(op_type: &str) -> (r: OpKind)
    ensures
        r == op_for(op_type@),
{
    if str_eq(op_type, "Add") {
        OpKind::Add
    } else if str_eq(op_type, "Sub") {
        OpKind::Sub
    } else if str_eq(op_type, "Mul") {
        OpKind::Mul
    } else if str_eq(op_type, "Div") {
        OpKind::Div
    } else if str_eq(op_type, "MatMul") || str_eq(op_type, "Gemm") {
        OpKind::MatMul
    } else if str_eq(op_type, "Relu") {
        OpKind::Relu
    } else if str_eq(op_type, "Gelu") {
        OpKind::Gelu
    } else if str_eq(op_type, "Sigmoid") {
        OpKind::Sigmoid
    } else if str_eq(op_type, "Tanh") {
        OpKind::Tanh
    } else if str_eq(op_type, "Softmax") {
        OpKind::Softmax
    } else if str_eq(op_type, "LayerNormalization") || str_eq(op_type, "InstanceNormalization") {
        OpKind::LayerNorm
    } else if str_eq(op_type, "Conv") {
        OpKind::Conv
    } else if str_eq(op_type, "MaxPool") || str_eq(op_type, "AveragePool") || str_eq(
        op_type,
        "GlobalAveragePool",
    ) {
        OpKind::Pool
    } else if str_eq(op_type, "Reshape") {
        OpKind::Reshape
    } else if str_eq(op_type, "Transpose") {
        OpKind::Transpose
    } else if str_eq(op_type, "Concat") {
        OpKind::Concat
    } else if str_eq(op_type, "Slice") {
        OpKind::Slice
    } else if str_eq(op_type, "Sqrt") {
        OpKind::Sqrt
    } else if str_eq(op_type, "Exp") {
        OpKind::Exp
    } else if str_eq(op_type, "Pow") {
        OpKind::Pow
    } else if str_eq(op_type, "Abs") {
        OpKind::Abs
    } else if str_eq(op_type, "Log") {
        OpKind::Log
    } else if str_eq(op_type, "Reciprocal") {
        OpKind::Reciprocal
    } else if str_eq(op_type, "ReduceSum") || str_eq(op_type, "ReduceL1") || str_eq(
        op_type,
        "ReduceL2",
    ) {
        OpKind::ReduceSum
    } else if str_eq(op_type, "ReduceMean") {
        OpKind::ReduceMean
    } else if str_eq(op_type, "ReduceMax") {
        OpKind::ReduceMax
    } else {
        OpKind::Custom
    }
}

/// Whether an operator is a reduction.
pub open spec fn reduces(kind: OpKind) -> bool {
    kind == OpKind::ReduceSum || kind == OpKind::ReduceMean || kind == OpKind::ReduceMax
}

/// What an attribute of a node with the given operator sets, if anything. Of
/// several axes the first one counts.
pub open spec fn setting(kind: OpKind, a: AttrInfoModel) -> Option<(AttrKey, AttrModel)> {
    match a.value {
        AttrValueModel::Int(v) => if (reduces(kind) || kind == OpKind::Concat) && a.name == "axis"@ {
            Some((AttrKey::Axis, AttrModel::Int(v)))
        } else {
            None
        },
        AttrValueModel::Float(v) => if kind == OpKind::LayerNorm && a.name == "epsilon"@ {
            Some((AttrKey::Epsilon, AttrModel::Float(v)))
        } else {
            None
        },
        AttrValueModel::Ints(v) => if reduces(kind) && a.name == "axes"@ && v.len() > 0 {
            Some((AttrKey::Axis, AttrModel::Int(v[0])))
        } else if kind == OpKind::Transpose && a.name == "perm"@ {
            Some((AttrKey::Perm, AttrModel::IntArray(v)))
        } else if kind == OpKind::Reshape && a.name == "shape"@ {
            Some((AttrKey::Shape, AttrModel::IntArray(v)))
        } else {
            None
        },
        AttrValueModel::Absent => None,
    }
}

/// A graph after the attributes of a node were set, in order.
pub open spec fn with_attributes(
    g: GraphModel,
    node: int,
    kind: OpKind,
    attrs: Seq<AttrInfoModel>,
) -> GraphModel
    decreases attrs.len(),
{
    if attrs.len() == 0 {
        g
    } else {
        let before = with_attributes(g, node, kind, attrs.drop_last());
        match setting(kind, attrs.last()) {
            Some((key, value)) => before.with_attr(node, key, value),
            None => before,
        }
    }
}

fn is_reduction(kind: OpKind) -> (r: bool)
    ensures
        r == reduces(kind),
{
    kind == OpKind::ReduceSum || kind == OpKind::ReduceMean || kind == OpKind::ReduceMax
}

fn apply_attribute(g: &mut Graph, nid: NodeId, kind: OpKind, attr: &AttrInfo)
    requires
        nid < old(g)@.storage.nodes.len(),
        old(g)@.storage.nodes[nid as int].attrs_len < u32::MAX,
    ensures
        final(g)@ == (match setting(kind, attr@) {
            Some((key, value)) => old(g)@.with_attr(nid as int, key, value),
            None => old(g)@,
        }),
{
    let name = attr.name.as_str();
    match &attr.value {
        AttrValue::Int(v) => {
            if (is_reduction(kind) || kind == OpKind::Concat) && str_eq(name, "axis") {
                g.storage.add_attr_int(nid, AttrKey::Axis, *v);
            }
        },
        AttrValue::Float(v) => {
            if kind == OpKind::LayerNorm && str_eq(name, "epsilon") {
                g.storage.add_attr_float(nid, AttrKey::Epsilon, *v);
            }
        },
        AttrValue::Ints(v) => {
            if is_reduction(kind) && str_eq(name, "axes") && v.len() > 0 {
                g.storage.add_attr_int(nid, AttrKey::Axis, v[0]);
            } else if kind == OpKind::Transpose && str_eq(name, "perm") {
                g.storage.add_attr_int_array(nid, AttrKey::Perm, v.as_slice());
            } else if kind == OpKind::Reshape && str_eq(name, "shape") {
                g.storage.add_attr_int_array(nid, AttrKey::Shape, v.as_slice());
            }
        },
        AttrValue::Absent => {},
    }
}

fn apply_attributes(g: &mut Graph, nid: NodeId, kind: OpKind, attrs: &Vec<AttrInfo>)
    requires
        nid < old(g)@.storage.nodes.len(),
        old(g)@.storage.nodes[nid as int].attrs_len + attrs@.len() <= u32::MAX,
    ensures
        final(g)@ == with_attributes(old(g)@, nid as int, kind, attr_models(attrs@)),
        final(g)@.storage.nodes.len() == old(g)@.storage.nodes.len(),
{
    let mut k: usize = 0;
    while k < attrs.len()
        invariant
            k <= attrs@.len(),
            nid < g@.storage.nodes.len(),
            g@.storage.nodes.len() == old(g)@.storage.nodes.len(),
            old(g)@.storage.nodes[nid as int].attrs_len + attrs@.len() <= u32::MAX,
            g@.storage.nodes[nid as int].attrs_len <= old(g)@.storage.nodes[nid as int].attrs_len + k,
            g@ == with_attributes(old(g)@, nid as int, kind, attr_models(attrs@).take(k as int)),
        decreases attrs@.len() - k,
    {
        assert(attr_models(attrs@).take(k + 1).drop_last() == attr_models(attrs@).take(k as int));
        apply_attribute(g, nid, kind, &attrs[k]);
        k += 1;
    }
    assert(attr_models(attrs@).take(k as int) == attr_models(attrs@));
}

/// The type of a value of which only the rank is known.
pub open spec fn unknown_dims(rank: nat) -> TypeModel {
    TypeModel { elem: DType::F32, dims: Some(Seq::new(rank, |i: int| -1i64)) }
}

pub(crate) fn unknown_type(rank: usize) -> (r: Type)
    ensures
        r@ == unknown_dims(rank as nat),
{
    let mut dims: Vec<i64> = Vec::new();
    let mut k: usize = 0;
    while k < rank
        invariant
            k <= rank,
            dims@ == Seq::new(k as nat, |i: int| -1i64),
        decreases rank - k,
    {
        dims.push(-1);
        k += 1;
        assert(Seq::new(k as nat, |i: int| -1i64) == Seq::new((k - 1) as nat, |i: int| -1i64).push(
            -1i64,
        ));
    }
    Type::Tensor { dtype: DType::F32, dims }
}

/// The code points of a text.
pub open spec fn code_points(s: Seq<char>) -> Seq<i64> {
    Seq::new(s.len(), |i: int| s[i] as i64)
}

fn code_points_of(s: &str) -> (r: Vec<i64>)
    ensures
        r@ == code_points(s@),
{
    let cs = chars_of(s);
    let mut out: Vec<i64> = Vec::new();
    let mut k: usize = 0;
    while k < cs.len()
        invariant
            k <= cs@.len(),
            out@ == code_points(cs@.take(k as int)),
        decreases cs@.len() - k,
    {
        out.push(cs[k] as i64);
        k += 1;
        assert(code_points(cs@.take(k as int)) == code_points(cs@.take(k - 1)).push(
            cs@[k - 1] as i64,
        ));
    }
    assert(cs@.take(k as int) == cs@);
    out
}

/// A graph under construction, with what the names of its values stand for.
#[verifier::ext_equal]
pub struct Build {
    pub graph: GraphModel,
    pub names: Map<Seq<char>, u32>,
}

impl Build {
    /// The identifier that the next value gets.
    pub open spec fn next_value(self) -> u32 {
        self.graph.storage.values.len() as u32
    }

    /// The identifier that the next node gets.
    pub open spec fn next_node(self) -> u32 {
        self.graph.storage.nodes.len() as u32
    }

    /// With one more value under a name, unless the name is taken.
    pub open spec fn with_value(self, ty: TypeModel, name: Seq<char>, def: u32) -> Build {
        Build {
            graph: self.graph.with_typed(ty, Some(name), def),
            names: registered(self.names, name, self.next_value()),
        }
    }

    /// With one more input of the graph.
    pub open spec fn with_input(self, name: Seq<char>) -> Build {
        let b = self.with_value(unknown_dims(2), name, u32::MAX);
        Build { graph: b.graph.marking_input(self.next_value()), ..b }
    }

    /// With a tensor: a constant node if its elements are known, else a value
    /// that no node defines. A tensor whose name is taken is left out.
    pub open spec fn with_tensor(self, t: TensorInfoModel) -> Build {
        if self.names.contains_key(t.name) {
            self
        } else if t.values.len() > 0 && (t.data_type == 1 || t.data_type == 11) {
            let node = self.next_node();
            let out = self.next_value();
            let b = Build { graph: self.graph.with_node(OpKind::Constant), ..self }.with_value(
                TypeModel { elem: DType::F32, dims: Some(t.dims) },
                t.name,
                node,
            );
            let g = b.graph.with_outputs(node as int, seq![out]);
            Build {
                graph: if t.values.len() == 1 {
                    g.with_attr(node as int, AttrKey::Value, AttrModel::Float(t.values[0]))
                } else {
                    g.storing(
                        g.storage.with_attr(
                            node as int,
                            AttrKey::Value,
                            AttrTag::FloatArray,
                            pack_words(t.values),
                        ),
                    )
                },
                ..b
            }
        } else {
            self.with_value(unknown_dims(1), t.name, u32::MAX)
        }
    }

    /// With the outputs of a node, in order.
    pub open spec fn with_outputs(self, names: Seq<Seq<char>>, node: u32) -> Build
        decreases names.len(),
    {
        if names.len() == 0 {
            self
        } else {
            self.with_outputs(names.drop_last(), node).with_value(
                unknown_dims(2),
                names.last(),
                node,
            )
        }
    }

    /// The values that names stand for; the largest number for unknown names.
    pub open spec fn resolved(self, names: Seq<Seq<char>>) -> Seq<u32> {
        Seq::new(
            names.len(),
            |i: int|
                if self.names.contains_key(names[i]) {
                    self.names[names[i]]
                } else {
                    u32::MAX
                },
        )
    }

    /// With a node, its outputs and its attributes. The name of an unknown
    /// operator is kept as an attribute.
    pub open spec fn with_node(self, n: NodeInfoModel) -> Build {
        let kind = op_for(n.op_type);
        let node = self.next_node();
        let added = self.graph.with_node(kind);
        let b = Build {
            graph: if kind == OpKind::Custom {
                added.with_attr(
                    node as int,
                    AttrKey::Shape,
                    AttrModel::IntArray(code_points(n.op_type)),
                )
            } else {
                added
            },
            ..self
        }.with_outputs(n.outputs, node);
        Build {
            graph: with_attributes(
                b.graph.with_outputs(node as int, b.resolved(n.outputs)),
                node as int,
                kind,
                n.attributes,
            ),
            ..b
        }
    }

    /// With inputs of the graph, in order.
    pub open spec fn with_inputs(self, names: Seq<Seq<char>>) -> Build
        decreases names.len(),
    {
        if names.len() == 0 {
            self
        } else {
            self.with_inputs(names.drop_last()).with_input(names.last())
        }
    }

    /// With tensors, in order.
    pub open spec fn with_tensors(self, ts: Seq<TensorInfoModel>) -> Build
        decreases ts.len(),
    {
        if ts.len() == 0 {
            self
        } else {
            self.with_tensors(ts.drop_last()).with_tensor(ts.last())
        }
    }

    /// With nodes, in order.
    pub open spec fn with_nodes(self, ns: Seq<NodeInfoModel>) -> Build
        decreases ns.len(),
    {
        if ns.len() == 0 {
            self
        } else {
            self.with_nodes(ns.drop_last()).with_node(ns.last())
        }
    }

    /// With the inputs of the nodes `ns`, whose identifiers start at `first`.
    pub open spec fn connecting(self, first: int, ns: Seq<NodeInfoModel>) -> Build
        decreases ns.len(),
    {
        if ns.len() == 0 {
            self
        } else {
            let b = self.connecting(first, ns.drop_last());
            Build {
                graph: b.graph.with_inputs(
                    first + ns.len() - 1,
                    self.resolved(ns.last().inputs),
                ),
                ..b
            }
        }
    }

    /// With those outputs of the graph that stand for a value.
    pub open spec fn marking_outputs(self, names: Seq<Seq<char>>) -> Build
        decreases names.len(),
    {
        if names.len() == 0 {
            self
        } else {
            let b = self.marking_outputs(names.drop_last());
            if self.names.contains_key(names.last()) {
                Build { graph: b.graph.marking_output(self.names[names.last()]), ..b }
            } else {
                b
            }
        }
    }
}

/// The name of the graph of a model.
pub open spec fn graph_name(m: ModelInfoModel) -> Seq<char> {
    match m.graph_name {
        Some(s) => s,
        None => "onnx"@,
    }
}

/// A model after its inputs and tensors were added.
pub open spec fn prepared(m: ModelInfoModel) -> Build {
    Build { graph: GraphModel::empty(graph_name(m)), names: Map::empty() }.with_inputs(
        m.inputs,
    ).with_tensors(m.initializers)
}

/// The graph of a model. Values are found by name, and the first value under
/// a name counts; nodes may use values that are defined behind them.
pub open spec fn graph_of(m: ModelInfoModel) -> GraphModel {
    let p = prepared(m);
    p.with_nodes(m.nodes).connecting(p.graph.storage.nodes.len() as int, m.nodes).marking_outputs(
        m.outputs,
    ).graph
}

struct Builder {
    graph: Graph,
    names: Names,
}

impl Builder {
    spec fn view(&self) -> Build {
        Build { graph: self.graph@, names: self.names@ }
    }

    fn add_value(&mut self, ty: Type, name: &str, def: NodeId) -> (r: ValueId)
        ensures
            r == old(self)@.next_value(),
            final(self)@ == old(self)@.with_value(ty@, name@, def),
    {
        let v = self.graph.add_value(ty, Some(name), def);
        self.names.register(name, v);
        v
    }

    fn add_input(&mut self, name: &str)
        ensures
            final(self)@ == old(self)@.with_input(name@),
            final(self)@.graph.storage.nodes == old(self)@.graph.storage.nodes,
    {
        let v = self.add_value(unknown_type(2), name, u32::MAX);
        self.graph.mark_input(v);
    }

    fn add_tensor(&mut self, t: &TensorInfo)
        requires
            old(self)@.graph.storage.nodes.len() < u32::MAX,
        ensures
            final(self)@ == old(self)@.with_tensor(t@),
            final(self)@.graph.storage.nodes.len() <= old(self)@.graph.storage.nodes.len() + 1,
    {
        let name = t.name.as_str();
        if self.names.get(name).is_some() {
            return ;
        }
        if t.values.len() > 0 && (t.data_type == 1 || t.data_type == 11) {
            let node = self.graph.add_node(OpKind::Constant);
            let ghost added = self@;
            let mut dims: Vec<i64> = Vec::new();
            dims.extend_from_slice(t.dims.as_slice());
            assert(dims@ == t.dims@);
            let out = self.add_value(Type::Tensor { dtype: DType::F32, dims }, name, node);
            let outs: Vec<ValueId> = vec![out];
            assert(outs@ == seq![out]);
            self.graph.storage.set_node_outputs(node, outs.as_slice());
            if t.values.len() == 1 {
                self.graph.storage.add_attr_float(node, AttrKey::Value, t.values[0]);
            } else {
                self.graph.storage.add_attr_float_array(node, AttrKey::Value, t.values.as_slice());
            }
        } else {
            let v = self.add_value(unknown_type(1), name, u32::MAX);
        }
    }

    fn resolve(&self, names: &Vec<String>) -> (r: Vec<ValueId>)
        ensures
            r@ == self@.resolved(texts(names@)),
    {
        let mut out: Vec<ValueId> = Vec::new();
        let mut k: usize = 0;
        while k < names.len()
            invariant
                k <= names@.len(),
                out@ == self@.resolved(texts(names@)).take(k as int),
            decreases names@.len() - k,
        {
            let v = match self.names.get(names[k].as_str()) {
                Some(v) => v,
                None => u32::MAX,
            };
            out.push(v);
            k += 1;
            assert(self@.resolved(texts(names@)).take(k as int) == self@.resolved(
                texts(names@),
            ).take(k - 1).push(self@.resolved(texts(names@))[k - 1]));
        }
        assert(self@.resolved(texts(names@)).take(k as int) == self@.resolved(texts(names@)));
        out
    }

    fn add_outputs(&mut self, names: &Vec<String>, node: NodeId)
        ensures
            final(self)@ == old(self)@.with_outputs(texts(names@), node),
            final(self)@.graph.storage.nodes == old(self)@.graph.storage.nodes,
    {
        let mut k: usize = 0;
        while k < names.len()
            invariant
                k <= names@.len(),
                self@ == old(self)@.with_outputs(texts(names@).take(k as int), node),
                self@.graph.storage.nodes == old(self)@.graph.storage.nodes,
            decreases names@.len() - k,
        {
            assert(texts(names@).take(k + 1).drop_last() == texts(names@).take(k as int));
            let v = self.add_value(unknown_type(2), names[k].as_str(), node);
            k += 1;
        }
        assert(texts(names@).take(k as int) == texts(names@));
    }

    fn add_node(&mut self, n: &NodeInfo)
        requires
            old(self)@.graph.storage.nodes.len() < u32::MAX,
            n.attributes@.len() < u32::MAX,
        ensures
            final(self)@ == old(self)@.with_node(n@),
            final(self)@.graph.storage.nodes.len() == old(self)@.graph.storage.nodes.len() + 1,
    {
        let kind = map_op_type(n.op_type.as_str());
        let node = self.graph.add_node(kind);
        if kind == OpKind::Custom {
            let codes = code_points_of(n.op_type.as_str());
            self.graph.storage.add_attr_int_array(node, AttrKey::Shape, codes.as_slice());
        }
        self.add_outputs(&n.outputs, node);
        let outs = self.resolve(&n.outputs);
        self.graph.storage.set_node_outputs(node, outs.as_slice());
        apply_attributes(&mut self.graph, node, kind, &n.attributes);
    }
}

/// Builds the graph of a model. Node identifiers have to fit their type.
pub fn build_graph(m: &ModelInfo) -> (r: Graph)
    requires
        m.nodes@.len() + m.initializers@.len() < u32::MAX,
        attributes_below(m.nodes@, (u32::MAX - 1) as nat),
    ensures
        r@ == graph_of(m@),
{
    let name: &str = match &m.graph_name {
        Some(s) => s.as_str(),
        None => "onnx",
    };
    let mut b = Builder { graph: Graph::new(name), names: Names::new() };
    let ghost start = b@;
    assert(start == (Build { graph: GraphModel::empty(graph_name(m@)), names: Map::empty() }));
    let mut k: usize = 0;
    while k < m.inputs.len()
        invariant
            k <= m.inputs@.len(),
            b@ == start.with_inputs(texts(m.inputs@).take(k as int)),
            b@.graph.storage.nodes.len() == 0,
        decreases m.inputs@.len() - k,
    {
        assert(texts(m.inputs@).take(k + 1).drop_last() == texts(m.inputs@).take(k as int));
        b.add_input(m.inputs[k].as_str());
        k += 1;
    }
    assert(texts(m.inputs@).take(k as int) == texts(m.inputs@));
    let ghost with_inputs = b@;
    let mut k: usize = 0;
    while k < m.initializers.len()
        invariant
            k <= m.initializers@.len(),
            m.nodes@.len() + m.initializers@.len() < u32::MAX,
            b@ == with_inputs.with_tensors(tensor_models(m.initializers@).take(k as int)),
            b@.graph.storage.nodes.len() <= k,
        decreases m.initializers@.len() - k,
    {
        assert(tensor_models(m.initializers@).take(k + 1).drop_last() == tensor_models(
            m.initializers@,
        ).take(k as int));
        b.add_tensor(&m.initializers[k]);
        k += 1;
    }
    assert(tensor_models(m.initializers@).take(k as int) == tensor_models(m.initializers@));
    assert(b@ == prepared(m@));
    let first: u32 = b.graph.node_count() as u32;
    let ghost p = b@;
    let mut k: usize = 0;
    while k < m.nodes.len()
        invariant
            k <= m.nodes@.len(),
            m.nodes@.len() + m.initializers@.len() < u32::MAX,
            attributes_below(m.nodes@, (u32::MAX - 1) as nat),
            first <= m.initializers@.len(),
            b@ == p.with_nodes(node_models(m.nodes@).take(k as int)),
            b@.graph.storage.nodes.len() == first + k,
        decreases m.nodes@.len() - k,
    {
        assert(node_models(m.nodes@).take(k + 1).drop_last() == node_models(m.nodes@).take(
            k as int,
        ));
        b.add_node(&m.nodes[k]);
        k += 1;
    }
    assert(node_models(m.nodes@).take(k as int) == node_models(m.nodes@));
    let ghost all = b@;
    let mut k: usize = 0;
    while k < m.nodes.len()
        invariant
            k <= m.nodes@.len(),
            m.nodes@.len() + m.initializers@.len() < u32::MAX,
            first <= m.initializers@.len(),
            b@ == all.connecting(first as int, node_models(m.nodes@).take(k as int)),
            b@.names == all.names,
            b@.graph.storage.nodes.len() == first + m.nodes@.len(),
        decreases m.nodes@.len() - k,
    {
        assert(node_models(m.nodes@).take(k + 1).drop_last() == node_models(m.nodes@).take(
            k as int,
        ));
        let inputs = b.resolve(&m.nodes[k].inputs);
        assert(b@.resolved(texts(m.nodes@[k as int].inputs@)) == all.resolved(
            texts(m.nodes@[k as int].inputs@),
        ));
        b.graph.storage.set_node_inputs(first + k as u32, inputs.as_slice());
        k += 1;
    }
    assert(node_models(m.nodes@).take(k as int) == node_models(m.nodes@));
    let ghost connected = b@;
    let mut k: usize = 0;
    while k < m.outputs.len()
        invariant
            k <= m.outputs@.len(),
            b@ == connected.marking_outputs(texts(m.outputs@).take(k as int)),
            b@.names == connected.names,
        decreases m.outputs@.len() - k,
    {
        assert(texts(m.outputs@).take(k + 1).drop_last() == texts(m.outputs@).take(k as int));
        if let Some(v) = b.names.get(m.outputs[k].as_str()) {
            b.graph.mark_output(v);
        }
        k += 1;
    }
    assert(texts(m.outputs@).take(k as int) == texts(m.outputs@));
    b.graph
}

/// Reads an ONNX model as a graph; no bytes stand for an empty graph. Node
/// identifiers have to fit their type, so the model takes less than four
/// gigabytes.
pub fn parse(bytes: &[u8]) -> (r: Result<Graph>)
    requires
        bytes@.len() < u32::MAX,
        bytes@.len() + 8 <= usize::MAX,
    ensures
        match r {
            Ok(g) => if bytes@.len() == 0 {
                g@ == GraphModel::empty("onnx"@)
            } else {
                model_of(bytes@) is Ok && g@ == graph_of(model_of(bytes@)->Ok_0)
            },
            Err(e) => bytes@.len() > 0 && model_of(bytes@) == Err::<ModelInfoModel, ErrorModel>(e@),
        },
{
    if bytes.len() == 0 {
        return Ok(Graph::new("onnx"));
    }
    match parse_model(bytes) {
        Ok(m) => Ok(build_graph(&m)),
        Err(e) => Err(e),
    }
}

} // verus!
