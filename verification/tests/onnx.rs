use neutron::base::{NodeId, OpKind};
use neutron::frontend::onnx::{map_op_type, parse};
use neutron::graph::Graph;
use neutron::storage::{AttrKey, AttrTag};

fn build_minimal_onnx() -> Vec<u8> {
    let mut buf = Vec::new();
    let node = {
        let mut n = Vec::new();
        write_string_field(&mut n, 1, "x"); // input
        write_string_field(&mut n, 2, "y"); // output
        write_string_field(&mut n, 3, "Relu"); // op_type
        n
    };
    let vi_x = {
        let mut v = Vec::new();
        write_string_field(&mut v, 1, "x");
        v
    };
    let vi_y = {
        let mut v = Vec::new();
        write_string_field(&mut v, 1, "y");
        v
    };
    let graph = {
        let mut g = Vec::new();
        write_len_field(&mut g, 1, &node); // node
        write_len_field(&mut g, 11, &vi_x); // input
        write_len_field(&mut g, 12, &vi_y); // output
        g
    };
    write_len_field(&mut buf, 7, &graph);
    buf
}

fn write_varint(buf: &mut Vec<u8>, mut v: u64) {
    while v >= 0x80 {
        buf.push((v as u8 & 0x7F) | 0x80);
        v >>= 7;
    }
    buf.push(v as u8);
}

fn write_tag(buf: &mut Vec<u8>, field: u32, wt: u8) {
    write_varint(buf, ((field as u64) << 3) | (wt as u64));
}

fn write_string_field(buf: &mut Vec<u8>, field: u32, s: &str) {
    write_tag(buf, field, 2);
    write_varint(buf, s.len() as u64);
    buf.extend_from_slice(s.as_bytes());
}

fn write_len_field(buf: &mut Vec<u8>, field: u32, inner: &[u8]) {
    write_tag(buf, field, 2);
    write_varint(buf, inner.len() as u64);
    buf.extend_from_slice(inner);
}

#[test]
fn parses_minimal_onnx() {
    let bytes = build_minimal_onnx();
    let g = parse(&bytes).unwrap();
    assert_eq!(g.name, "onnx");
    let kinds: Vec<OpKind> = g.node_ids().into_iter().map(|id| g.node(id).unwrap().kind).collect();
    assert!(kinds.contains(&OpKind::Relu), "应有 Relu 节点");
    assert_eq!(g.inputs().len(), 1);
    assert_eq!(g.outputs().len(), 1);
}

#[test]
fn empty_input_returns_empty_graph() {
    let g = parse(&[]).unwrap();
    assert_eq!(g.node_count(), 0);
}

#[test]
fn onnx_unknown_op_becomes_custom() {
    let node = {
        let mut n = Vec::new();
        write_string_field(&mut n, 1, "x");
        write_string_field(&mut n, 2, "y");
        write_string_field(&mut n, 3, "FooBar");
        n
    };
    let graph = {
        let mut g = Vec::new();
        write_len_field(&mut g, 1, &node);
        g
    };
    let mut buf = Vec::new();
    write_len_field(&mut buf, 7, &graph);
    let parsed = parse(&buf).unwrap();
    let kinds: Vec<OpKind> = parsed
        .node_ids()
        .into_iter()
        .map(|id| parsed.node(id).unwrap().kind)
        .collect();
    assert!(kinds.contains(&OpKind::Custom), "未知算子应映射成 Custom");
}

#[test]
fn maps_common_ops() {
    assert_eq!(map_op_type("Add"), OpKind::Add);
    assert_eq!(map_op_type("MatMul"), OpKind::MatMul);
    assert_eq!(map_op_type("Softmax"), OpKind::Softmax);
    assert_eq!(map_op_type("LayerNormalization"), OpKind::LayerNorm);
    assert_eq!(map_op_type("ReduceMean"), OpKind::ReduceMean);
    assert_eq!(map_op_type("WhateverUnknown"), OpKind::Custom);
}

fn write_fixed32_field(buf: &mut Vec<u8>, field: u32, val: f32) {
    write_tag(buf, field, 5);
    buf.extend_from_slice(&val.to_le_bytes());
}

fn build_attr_int(name: &str, value: i64) -> Vec<u8> {
    let mut a = Vec::new();
    write_string_field(&mut a, 1, name); // name
    write_tag(&mut a, 5, 0); // field=5(i), wt=0(varint)
    write_varint(&mut a, value as u64);
    a
}

fn build_attr_float(name: &str, value: f32) -> Vec<u8> {
    let mut a = Vec::new();
    write_string_field(&mut a, 1, name); // name
    write_fixed32_field(&mut a, 4, value); // f (field 4, FIXED32)
    a
}

fn build_attr_ints(name: &str, values: &[i64]) -> Vec<u8> {
    let mut a = Vec::new();
    write_string_field(&mut a, 1, name); // name
    let mut payload = Vec::new();
    for &v in values {
        write_varint(&mut payload, v as u64);
    }
    write_len_field(&mut a, 21, &payload);
    a
}

fn build_node_with_attrs(
    op_type: &str,
    inputs: &[&str],
    outputs: &[&str],
    attrs: &[Vec<u8>],
) -> Vec<u8> {
    let mut n = Vec::new();
    for &i in inputs {
        write_string_field(&mut n, 1, i);
    }
    for &o in outputs {
        write_string_field(&mut n, 2, o);
    }
    write_string_field(&mut n, 3, op_type);
    for attr in attrs {
        write_len_field(&mut n, 5, attr); // NodeProto.attribute = field 5
    }
    n
}

fn read_axis_attr(g: &Graph, nid: NodeId) -> Option<i64> {
    for e in g.node(nid).ok()?.attrs() {
        if e.key == AttrKey::Axis.code()
            && e.tag == AttrTag::Int.code()
        {
            return Some(g.node(nid).unwrap().storage.attr_int(e));
        }
    }
    None
}

fn read_epsilon_attr(g: &Graph, nid: NodeId) -> Option<f64> {
    for e in g.node(nid).ok()?.attrs() {
        if e.key == AttrKey::Epsilon.code()
            && e.tag == AttrTag::Float.code()
        {
            return Some(f64::from_bits(g.node(nid).unwrap().storage.attr_float(e)));
        }
    }
    None
}

fn read_perm_attr(g: &Graph, nid: NodeId) -> Option<Vec<i64>> {
    for e in g.node(nid).ok()?.attrs() {
        if e.key == AttrKey::Perm.code()
            && e.tag == AttrTag::IntArray.code()
        {
            return Some(g.node(nid).unwrap().storage.attr_int_array(e).to_vec());
        }
    }
    None
}

#[test]
fn parses_reduce_axes_attribute() {
    let attr = build_attr_ints("axes", &[1]);
    let node = build_node_with_attrs("ReduceMean", &["x"], &["y"], &[attr]);
    let graph = {
        let mut g = Vec::new();
        write_len_field(&mut g, 1, &node);
        g
    };
    let mut buf = Vec::new();
    write_len_field(&mut buf, 7, &graph);
    let g = parse(&buf).unwrap();
    let rs: Vec<_> = g
        .node_ids()
        .into_iter()
        .filter(|&id| g.node(id).unwrap().kind == OpKind::ReduceMean)
        .collect();
    assert_eq!(rs.len(), 1);
    assert_eq!(
        read_axis_attr(&g, rs[0]),
        Some(1),
        "axes=[1] 应映射到 Axis=1"
    );
}

#[test]
fn parses_concat_axis_attribute() {
    let attr = build_attr_int("axis", 0);
    let node = build_node_with_attrs("Concat", &["a", "b"], &["y"], &[attr]);
    let graph = {
        let mut g = Vec::new();
        write_len_field(&mut g, 1, &node);
        g
    };
    let mut buf = Vec::new();
    write_len_field(&mut buf, 7, &graph);
    let g = parse(&buf).unwrap();
    let cc: Vec<_> = g
        .node_ids()
        .into_iter()
        .filter(|&id| g.node(id).unwrap().kind == OpKind::Concat)
        .collect();
    assert_eq!(cc.len(), 1);
    assert_eq!(read_axis_attr(&g, cc[0]), Some(0), "axis=0 应映射到 Axis=0");
}

#[test]
fn parses_layernorm_epsilon_attribute() {
    let attr = build_attr_float("epsilon", 1e-5);
    let node = build_node_with_attrs("LayerNormalization", &["x"], &["y"], &[attr]);
    let graph = {
        let mut g = Vec::new();
        write_len_field(&mut g, 1, &node);
        g
    };
    let mut buf = Vec::new();
    write_len_field(&mut buf, 7, &graph);
    let g = parse(&buf).unwrap();
    let ln: Vec<_> = g
        .node_ids()
        .into_iter()
        .filter(|&id| g.node(id).unwrap().kind == OpKind::LayerNorm)
        .collect();
    assert_eq!(ln.len(), 1);
    let eps = read_epsilon_attr(&g, ln[0]).expect("应有 Epsilon attr");
    assert!((eps - 1e-5).abs() < 1e-9, "epsilon 应为 1e-5，实际 {eps}");
}

#[test]
fn parses_transpose_perm_attribute() {
    let attr = build_attr_ints("perm", &[1, 0, 2]);
    let node = build_node_with_attrs("Transpose", &["x"], &["y"], &[attr]);
    let graph = {
        let mut g = Vec::new();
        write_len_field(&mut g, 1, &node);
        g
    };
    let mut buf = Vec::new();
    write_len_field(&mut buf, 7, &graph);
    let g = parse(&buf).unwrap();
    let tp: Vec<_> = g
        .node_ids()
        .into_iter()
        .filter(|&id| g.node(id).unwrap().kind == OpKind::Transpose)
        .collect();
    assert_eq!(tp.len(), 1);
    assert_eq!(
        read_perm_attr(&g, tp[0]),
        Some(vec![1, 0, 2]),
        "perm=[1,0,2] 应映射到 Perm=[1,0,2]"
    );
}

#[test]
fn unknown_attribute_ignored() {
    let attr = build_attr_int("keepdims", 1);
    let node = build_node_with_attrs("ReduceMean", &["x"], &["y"], &[attr]);
    let graph = {
        let mut g = Vec::new();
        write_len_field(&mut g, 1, &node);
        g
    };
    let mut buf = Vec::new();
    write_len_field(&mut buf, 7, &graph);
    let g = parse(&buf).unwrap();
    let rs: Vec<_> = g
        .node_ids()
        .into_iter()
        .filter(|&id| g.node(id).unwrap().kind == OpKind::ReduceMean)
        .collect();
    assert_eq!(rs.len(), 1);
    assert_eq!(read_axis_attr(&g, rs[0]), None, "未知属性应被忽略");
}

fn write_varint_field(buf: &mut Vec<u8>, field: u32, value: u64) {
    write_tag(buf, field, 0);
    write_varint(buf, value);
}

fn write_packed_int64_field(buf: &mut Vec<u8>, field: u32, values: &[i64]) {
    let mut payload = Vec::new();
    for &v in values {
        write_varint(&mut payload, v as u64);
    }
    write_len_field(buf, field, &payload);
}

fn write_packed_float_field(buf: &mut Vec<u8>, field: u32, values: &[f32]) {
    let mut payload = Vec::new();
    for &v in values {
        payload.extend_from_slice(&v.to_le_bytes());
    }
    write_len_field(buf, field, &payload);
}

fn write_bytes_field(buf: &mut Vec<u8>, field: u32, data: &[u8]) {
    write_len_field(buf, field, data);
}

fn build_tensor_float_raw(name: &str, dims: &[i64], values: &[f32]) -> Vec<u8> {
    let mut t = Vec::new();
    write_packed_int64_field(&mut t, 1, dims); // dims
    write_varint_field(&mut t, 2, 1); // data_type = 1 (FLOAT)
    write_string_field(&mut t, 8, name); // name
    let mut raw = Vec::new();
    for &v in values {
        raw.extend_from_slice(&v.to_le_bytes());
    }
    write_bytes_field(&mut t, 9, &raw); // raw_data
    t
}

fn build_tensor_float_data(name: &str, dims: &[i64], values: &[f32]) -> Vec<u8> {
    let mut t = Vec::new();
    write_packed_int64_field(&mut t, 1, dims); // dims
    write_varint_field(&mut t, 2, 1); // data_type = 1 (FLOAT)
    write_string_field(&mut t, 8, name); // name
    write_packed_float_field(&mut t, 4, values); // float_data
    t
}

fn build_tensor_int32(name: &str, dims: &[i64], values: &[i32]) -> Vec<u8> {
    let mut t = Vec::new();
    write_packed_int64_field(&mut t, 1, dims); // dims
    write_varint_field(&mut t, 2, 6); // data_type = 6 (INT32)
    write_string_field(&mut t, 8, name); // name
    let mut raw = Vec::new();
    for &v in values {
        raw.extend_from_slice(&v.to_le_bytes());
    }
    write_bytes_field(&mut t, 9, &raw); // raw_data
    t
}

fn read_value_float_array(g: &Graph, nid: NodeId) -> Option<Vec<f64>> {
    for e in g.node(nid).ok()?.attrs() {
        if e.key == AttrKey::Value.code()
            && e.tag == AttrTag::FloatArray.code()
        {
            let bits = g.node(nid).unwrap().storage.attr_float_array(e);
            return Some(bits.into_iter().map(f64::from_bits).collect());
        }
    }
    None
}

#[test]
fn parses_initializer_float_raw_data() {
    let vals = [1.0f32, 2.0, 3.0, 4.0, 5.0, 6.0];
    let tensor = build_tensor_float_raw("w", &[2, 3], &vals);
    let graph = {
        let mut g = Vec::new();
        write_len_field(&mut g, 5, &tensor); // initializer
        g
    };
    let mut buf = Vec::new();
    write_len_field(&mut buf, 7, &graph);
    let g = parse(&buf).unwrap();
    let consts: Vec<_> = g
        .node_ids()
        .into_iter()
        .filter(|&id| g.node(id).unwrap().kind == OpKind::Constant)
        .collect();
    assert_eq!(consts.len(), 1, "FLOAT initializer 应映射成 Constant 节点");
    let n = g.node(consts[0]).unwrap();
    let out = n.outputs()[0];
    assert_eq!(
        g.value(out).unwrap().shape(),
        &[2, 3],
        "shape 应为 dims [2,3]"
    );
    let data = read_value_float_array(&g, consts[0]).expect("应有 FloatArray Value");
    assert_eq!(data, vec![1.0, 2.0, 3.0, 4.0, 5.0, 6.0]);
}

#[test]
fn parses_initializer_scalar_constant_value() {
    let tensor = build_tensor_float_raw("c", &[1], &[2.5f32]);
    let graph = {
        let mut g = Vec::new();
        write_len_field(&mut g, 5, &tensor);
        g
    };
    let mut buf = Vec::new();
    write_len_field(&mut buf, 7, &graph);
    let g = parse(&buf).unwrap();
    let consts: Vec<_> = g
        .node_ids()
        .into_iter()
        .filter(|&id| g.node(id).unwrap().kind == OpKind::Constant)
        .collect();
    assert_eq!(consts.len(), 1);
    let cv = g.node(consts[0]).unwrap().constant_value().map(f64::from_bits);
    assert_eq!(cv, Some(2.5), "单元素张量应能通过 constant_value() 取值");
}

#[test]
fn parses_initializer_float_data_packed() {
    let vals = [0.5f32, 1.5, 2.5, 3.5];
    let tensor = build_tensor_float_data("b", &[4], &vals);
    let graph = {
        let mut g = Vec::new();
        write_len_field(&mut g, 5, &tensor);
        g
    };
    let mut buf = Vec::new();
    write_len_field(&mut buf, 7, &graph);
    let g = parse(&buf).unwrap();
    let consts: Vec<_> = g
        .node_ids()
        .into_iter()
        .filter(|&id| g.node(id).unwrap().kind == OpKind::Constant)
        .collect();
    assert_eq!(consts.len(), 1);
    let data = read_value_float_array(&g, consts[0]).expect("应有 FloatArray");
    assert_eq!(data, vec![0.5, 1.5, 2.5, 3.5]);
    assert_eq!(
        g.node(consts[0]).unwrap().outputs().len(),
        1,
        "应有 1 个输出"
    );
}

#[test]
fn parses_initializer_non_float_degrades() {
    let tensor = build_tensor_int32("idx", &[3], &[1, 2, 3]);
    let graph = {
        let mut g = Vec::new();
        write_len_field(&mut g, 5, &tensor);
        g
    };
    let mut buf = Vec::new();
    write_len_field(&mut buf, 7, &graph);
    let g = parse(&buf).unwrap();
    let consts: Vec<_> = g
        .node_ids()
        .into_iter()
        .filter(|&id| g.node(id).unwrap().kind == OpKind::Constant)
        .collect();
    assert!(consts.is_empty(), "INT32 initializer 不应建 Constant 节点");
}

#[test]
fn initializer_value_is_usable_by_node() {
    let tensor = build_tensor_float_raw("one", &[1], &[1.0f32]);
    let node = {
        let mut n = Vec::new();
        write_string_field(&mut n, 1, "x"); // input
        write_string_field(&mut n, 1, "one"); // input（initializer）
        write_string_field(&mut n, 2, "y"); // output
        write_string_field(&mut n, 3, "Mul"); // op_type
        n
    };
    let vi_x = {
        let mut v = Vec::new();
        write_string_field(&mut v, 1, "x");
        v
    };
    let vi_y = {
        let mut v = Vec::new();
        write_string_field(&mut v, 1, "y");
        v
    };
    let graph = {
        let mut g = Vec::new();
        write_len_field(&mut g, 1, &node); // node
        write_len_field(&mut g, 5, &tensor); // initializer
        write_len_field(&mut g, 11, &vi_x); // input
        write_len_field(&mut g, 12, &vi_y); // output
        g
    };
    let mut buf = Vec::new();
    write_len_field(&mut buf, 7, &graph);
    let g = parse(&buf).unwrap();
    let mul: Vec<_> = g
        .node_ids()
        .into_iter()
        .filter(|&id| g.node(id).unwrap().kind == OpKind::Mul)
        .collect();
    assert_eq!(mul.len(), 1);
    let ins = g.node(mul[0]).unwrap().inputs();
    assert_eq!(ins.len(), 2);
    assert_ne!(ins[1], u32::MAX, "initializer value 应被节点引用");
    let def = g.value(ins[1]).unwrap().def_node();
    assert_eq!(
        g.node(def).unwrap().kind,
        OpKind::Constant,
        "Mul 的第二个 input 应定义在 Constant 节点"
    );
    assert_eq!(g.node(def).unwrap().constant_value().map(f64::from_bits), Some(1.0));
}

#[test]
fn map_op_type_aliases_and_pools() {
    assert_eq!(map_op_type("Gemm"), OpKind::MatMul);
    assert_eq!(map_op_type("InstanceNormalization"), OpKind::LayerNorm);
    assert_eq!(map_op_type("MaxPool"), OpKind::Pool);
    assert_eq!(map_op_type("AveragePool"), OpKind::Pool);
    assert_eq!(map_op_type("GlobalAveragePool"), OpKind::Pool);
    assert_eq!(map_op_type("ReduceL1"), OpKind::ReduceSum);
    assert_eq!(map_op_type("ReduceL2"), OpKind::ReduceSum);
}

#[test]
fn map_op_type_all_elementary_and_unary() {
    assert_eq!(map_op_type("Sub"), OpKind::Sub);
    assert_eq!(map_op_type("Mul"), OpKind::Mul);
    assert_eq!(map_op_type("Div"), OpKind::Div);
    assert_eq!(map_op_type("Pow"), OpKind::Pow);
    assert_eq!(map_op_type("Relu"), OpKind::Relu);
    assert_eq!(map_op_type("Gelu"), OpKind::Gelu);
    assert_eq!(map_op_type("Sigmoid"), OpKind::Sigmoid);
    assert_eq!(map_op_type("Tanh"), OpKind::Tanh);
    assert_eq!(map_op_type("Sqrt"), OpKind::Sqrt);
    assert_eq!(map_op_type("Exp"), OpKind::Exp);
    assert_eq!(map_op_type("Log"), OpKind::Log);
    assert_eq!(map_op_type("Abs"), OpKind::Abs);
    assert_eq!(map_op_type("Reciprocal"), OpKind::Reciprocal);
    assert_eq!(map_op_type("Conv"), OpKind::Conv);
    assert_eq!(map_op_type("Reshape"), OpKind::Reshape);
    assert_eq!(map_op_type("Transpose"), OpKind::Transpose);
    assert_eq!(map_op_type("Concat"), OpKind::Concat);
    assert_eq!(map_op_type("Slice"), OpKind::Slice);
    assert_eq!(map_op_type("ReduceMax"), OpKind::ReduceMax);
    assert_eq!(map_op_type("ReduceSum"), OpKind::ReduceSum);
}

fn read_shape_attr(g: &Graph, nid: NodeId) -> Option<Vec<i64>> {
    for e in g.node(nid).ok()?.attrs() {
        if e.key == AttrKey::Shape.code()
            && e.tag == AttrTag::IntArray.code()
        {
            return Some(g.node(nid).unwrap().storage.attr_int_array(e).to_vec());
        }
    }
    None
}

#[test]
fn parses_reshape_shape_attribute() {
    let attr = build_attr_ints("shape", &[2, 3, 4]);
    let node = build_node_with_attrs("Reshape", &["x"], &["y"], &[attr]);
    let graph = {
        let mut g = Vec::new();
        write_len_field(&mut g, 1, &node);
        g
    };
    let mut buf = Vec::new();
    write_len_field(&mut buf, 7, &graph);
    let g = parse(&buf).unwrap();
    let rs: Vec<_> = g
        .node_ids()
        .into_iter()
        .filter(|&id| g.node(id).unwrap().kind == OpKind::Reshape)
        .collect();
    assert_eq!(rs.len(), 1);
    assert_eq!(
        read_shape_attr(&g, rs[0]),
        Some(vec![2, 3, 4]),
        "Reshape shape=[2,3,4] 应映射到 AttrKey::Shape"
    );
}

#[test]
fn parses_reduce_axes_takes_first() {
    let attr = build_attr_ints("axes", &[1, 2, 3]);
    let node = build_node_with_attrs("ReduceSum", &["x"], &["y"], &[attr]);
    let graph = {
        let mut g = Vec::new();
        write_len_field(&mut g, 1, &node);
        g
    };
    let mut buf = Vec::new();
    write_len_field(&mut buf, 7, &graph);
    let g = parse(&buf).unwrap();
    let rs: Vec<_> = g
        .node_ids()
        .into_iter()
        .filter(|&id| g.node(id).unwrap().kind == OpKind::ReduceSum)
        .collect();
    assert_eq!(rs.len(), 1);
    assert_eq!(read_axis_attr(&g, rs[0]), Some(1), "axes 多元素应取首元素");
}

#[test]
fn multi_node_chain_dataflow() {
    let n1 = {
        let mut n = Vec::new();
        write_string_field(&mut n, 1, "x");
        write_string_field(&mut n, 2, "t");
        write_string_field(&mut n, 3, "Relu");
        n
    };
    let n2 = {
        let mut n = Vec::new();
        write_string_field(&mut n, 1, "t");
        write_string_field(&mut n, 2, "y");
        write_string_field(&mut n, 3, "Sqrt");
        n
    };
    let graph = {
        let mut g = Vec::new();
        write_len_field(&mut g, 1, &n1);
        write_len_field(&mut g, 1, &n2);
        g
    };
    let mut buf = Vec::new();
    write_len_field(&mut buf, 7, &graph);
    let g = parse(&buf).unwrap();
    assert_eq!(g.node_count(), 2);
    let relu: Vec<_> = g
        .node_ids()
        .into_iter()
        .filter(|&id| g.node(id).unwrap().kind == OpKind::Relu)
        .collect();
    let sqrt: Vec<_> = g
        .node_ids()
        .into_iter()
        .filter(|&id| g.node(id).unwrap().kind == OpKind::Sqrt)
        .collect();
    assert_eq!(relu.len(), 1);
    assert_eq!(sqrt.len(), 1);
    let sqrt_inputs = g.node(sqrt[0]).unwrap().inputs();
    let relu_outputs = g.node(relu[0]).unwrap().outputs();
    assert!(!sqrt_inputs.is_empty(), "Sqrt 应有 input");
    assert!(!relu_outputs.is_empty(), "Relu 应有 output");
    assert_eq!(
        sqrt_inputs[0], relu_outputs[0],
        "Sqrt 的 input 应等于 Relu 的 output（数据流连接）"
    );
}

#[test]
fn multiple_initializers_become_multiple_constants() {
    let t1 = build_tensor_float_raw("w1", &[2], &[1.0f32, 2.0]);
    let t2 = build_tensor_float_raw("w2", &[3], &[3.0f32, 4.0, 5.0]);
    let graph = {
        let mut g = Vec::new();
        write_len_field(&mut g, 5, &t1);
        write_len_field(&mut g, 5, &t2);
        g
    };
    let mut buf = Vec::new();
    write_len_field(&mut buf, 7, &graph);
    let g = parse(&buf).unwrap();
    let consts: Vec<_> = g
        .node_ids()
        .into_iter()
        .filter(|&id| g.node(id).unwrap().kind == OpKind::Constant)
        .collect();
    assert_eq!(consts.len(), 2, "2 个 initializer 应生成 2 个 Constant");
}

#[test]
fn binary_op_with_two_graph_inputs() {
    let node = {
        let mut n = Vec::new();
        write_string_field(&mut n, 1, "x");
        write_string_field(&mut n, 1, "y");
        write_string_field(&mut n, 2, "z");
        write_string_field(&mut n, 3, "Add");
        n
    };
    let vi_x = {
        let mut v = Vec::new();
        write_string_field(&mut v, 1, "x");
        v
    };
    let vi_y = {
        let mut v = Vec::new();
        write_string_field(&mut v, 1, "y");
        v
    };
    let vi_z = {
        let mut v = Vec::new();
        write_string_field(&mut v, 1, "z");
        v
    };
    let graph = {
        let mut g = Vec::new();
        write_len_field(&mut g, 1, &node);
        write_len_field(&mut g, 11, &vi_x);
        write_len_field(&mut g, 11, &vi_y);
        write_len_field(&mut g, 12, &vi_z);
        g
    };
    let mut buf = Vec::new();
    write_len_field(&mut buf, 7, &graph);
    let g = parse(&buf).unwrap();
    let adds: Vec<_> = g
        .node_ids()
        .into_iter()
        .filter(|&id| g.node(id).unwrap().kind == OpKind::Add)
        .collect();
    assert_eq!(adds.len(), 1);
    let ins = g.node(adds[0]).unwrap().inputs();
    assert_eq!(ins.len(), 2, "Add 应有 2 个 input");
    assert_ne!(ins[0], u32::MAX, "input 0 应是有效 value");
    assert_ne!(ins[1], u32::MAX, "input 1 应是有效 value");
    assert_eq!(g.inputs().len(), 2, "图应有 2 个输入 x 和 y");
}
