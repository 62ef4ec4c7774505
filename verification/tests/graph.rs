use std::collections::HashSet;

use neutron::arch::{lower, native_name, CudaDesc, NpuDesc, NpuSoc};
use neutron::base::{Attr, DType, NeutronError, OpKind, Operation, Type, TypeTag};
use neutron::common::{dump_graph, Arena, Config, OptLevel, Printer, RegAllocMode, Target};
use neutron::graph::Graph;
use neutron::storage::{AttrKey, AttrTag};

fn tensor(dims: Vec<i64>) -> Type {
    Type::Tensor { dtype: DType::F32, dims }
}

/// x -> relu -> r -> sqrt -> out
fn chain() -> Graph {
    let mut g = Graph::new("chain");
    let x = g.add_input(tensor(vec![4, 8]), Some("x"));
    g.mark_input(x);
    let relu = g.add_node(OpKind::Relu);
    let r = g.add_value(tensor(vec![4, 8]), Some("r"), relu);
    g.storage.set_node_inputs(relu, &[x]);
    g.storage.set_node_outputs(relu, &[r]);
    let sqrt = g.add_node(OpKind::Sqrt);
    let out = g.add_value(tensor(vec![4, 8]), None, sqrt);
    g.storage.set_node_inputs(sqrt, &[r]);
    g.storage.set_node_outputs(sqrt, &[out]);
    g.mark_output(out);
    g
}

#[test]
fn error_messages_name_their_stage() {
    let s = || "x".to_string();
    assert_eq!(NeutronError::Ir(s()).message(), "IR 错误: x");
    assert_eq!(NeutronError::Frontend(s()).message(), "前端错误: x");
    assert_eq!(NeutronError::Opt(s()).message(), "优化错误: x");
    assert_eq!(NeutronError::Backend(s()).message(), "后端/lowering 错误: x");
    assert_eq!(NeutronError::Isel(s()).message(), "指令选择错误: x");
    assert_eq!(NeutronError::Lisp(s()).message(), "Lisp 解释器错误: x");
    assert_eq!(NeutronError::Other(s()).message(), "其他: x");
}

#[test]
fn operator_numbers_round_trip() {
    for v in 0..=255u8 {
        match OpKind::from_u8(v) {
            Ok(k) => assert_eq!(k.code(), v),
            Err(e) => {
                assert!(v > 30 && v != 64, "{v}");
                assert_eq!(e.message(), format!("IR 错误: 未知 op tag: {v}"));
            }
        }
    }
    assert_eq!(OpKind::Custom.code(), 64);
    assert_eq!(OpKind::LayerNorm.name(), "LayerNorm");
}

#[test]
fn type_numbers_tell_tensors() {
    for (dt, n) in [
        (DType::F32, 0u8),
        (DType::F16, 1),
        (DType::BF16, 2),
        (DType::I64, 3),
        (DType::I32, 4),
        (DType::Bool, 5),
    ] {
        assert_eq!(DType::from_u8(n).unwrap(), dt);
        let scalar = TypeTag::from_dtype(dt, false);
        let t = TypeTag::from_dtype(dt, true);
        assert_eq!(scalar.code(), n);
        assert_eq!(t.code(), 0x80 + n);
        assert!(t.is_tensor() && !scalar.is_tensor());
        assert_eq!(t.dtype(), dt);
        assert_eq!(TypeTag::from_u8(0x80 + n).unwrap(), t);
    }
    assert_eq!(DType::from_u8(6).unwrap_err().message(), "IR 错误: 未知 dtype tag: 6");
    assert_eq!(TypeTag::from_u8(0x86).unwrap_err().message(), "IR 错误: 未知 type tag: 0x86");
    assert_eq!(Type::Scalar(DType::I64).to_tag(), TypeTag::ScalarI64);
}

#[test]
fn nodes_and_values_out_of_range_are_errors() {
    let g = chain();
    assert_eq!(g.node(2).unwrap_err().message(), "IR 错误: 节点 ID 2 越界");
    assert_eq!(g.value(3).unwrap_err().message(), "IR 错误: 值 ID 3 越界");
    assert_eq!(g.node(0).unwrap().kind, OpKind::Relu);
    assert_eq!(g.value(1).unwrap().name(), Some("r"));
    assert_eq!(g.value(1).unwrap().def_node(), 0);
    assert_eq!(g.value(0).unwrap().def_node(), u32::MAX);
    assert_eq!(g.value(2).unwrap().name(), None);
    assert_eq!(g.value(2).unwrap().shape(), &[4, 8]);
}

#[test]
fn unknown_numbers_in_headers_are_errors() {
    let mut g = chain();
    g.storage.node_hdr[1].op_tag = 99;
    g.storage.value_hdr[1].type_tag = 0x42;
    assert_eq!(g.node(1).unwrap_err().message(), "IR 错误: 未知 op tag: 99");
    assert_eq!(g.value(1).unwrap_err().message(), "IR 错误: 未知 type tag: 0x42");
    assert_eq!(
        lower(&g, Target::Cuda).unwrap_err().message(),
        "IR 错误: 未知 op tag: 99"
    );
}

#[test]
fn attributes_of_every_layout_are_read_back() {
    let mut g = chain();
    g.add_attr(0, AttrKey::Axis, Attr::Int(-1));
    g.add_attr(0, AttrKey::Epsilon, Attr::Float(0.5f64.to_bits()));
    g.add_attr(0, AttrKey::TransposeA, Attr::Bool(true));
    g.add_attr(0, AttrKey::Perm, Attr::IntArray(vec![2, 0, -7]));
    let n = g.node(0).unwrap();
    let es = n.attrs();
    assert_eq!(es.len(), 4);
    assert_eq!(es[0].key, AttrKey::Axis.code());
    assert_eq!(n.storage.attr_int(&es[0]), -1);
    assert_eq!(f64::from_bits(n.storage.attr_float(&es[1])), 0.5);
    assert!(n.storage.attr_bool(&es[2]));
    assert_eq!(es[3].tag, AttrTag::IntArray.code());
    assert_eq!(n.storage.attr_int_array(&es[3]), vec![2, 0, -7]);
    assert!(g.node(1).unwrap().attrs().is_empty());
}

#[test]
fn constants_hold_their_value() {
    let mut g = Graph::new("constant");
    let (node, value) = g.add_constant_f64(2.25f64.to_bits());
    let n = g.node(node).unwrap();
    assert_eq!(n.kind, OpKind::Constant);
    assert_eq!(n.outputs(), &[value]);
    assert_eq!(n.constant_value().map(f64::from_bits), Some(2.25));
    assert!(!g.value(value).unwrap().is_tensor());
    assert_eq!(chain().node(0).unwrap().constant_value(), None);
}

#[test]
fn compaction_drops_nodes_and_renames_operands() {
    let g = chain();
    let removed: HashSet<u32> = [0].into_iter().collect();
    let (c, nodes, values) = g.compact(&removed);
    assert_eq!(c.name, "chain");
    assert_eq!(c.node_count(), 1);
    assert_eq!(c.node(0).unwrap().kind, OpKind::Sqrt);
    assert_eq!(nodes.get(&1), Some(&0));
    assert_eq!(nodes.get(&0), None);
    assert_eq!(values.get(&2), Some(&0));
    assert_eq!(values.get(&0), Some(&1));
    assert_eq!(values.get(&1), None);
    assert!(c.node(0).unwrap().inputs().is_empty());
    assert_eq!(c.node(0).unwrap().outputs(), &[0]);
    assert_eq!(c.inputs(), &[1]);
    assert_eq!(c.outputs(), &[0]);
    assert_eq!(c.value(1).unwrap().name(), Some("x"));
    assert!(c.is_well_formed());
    assert!(c.is_extractable());
}

#[test]
fn compaction_that_removes_nothing_keeps_the_chain() {
    let g = chain();
    let (c, nodes, values) = g.compact(&HashSet::new());
    assert_eq!(nodes.len(), 2);
    assert_eq!(values.len(), 3);
    let relu_out = c.node(0).unwrap().outputs()[0];
    assert_eq!(c.node(1).unwrap().inputs(), &[relu_out]);
    assert_eq!(c.value(relu_out).unwrap().name(), Some("r"));
}

#[test]
fn dump_shows_nodes_and_errors() {
    let mut g = chain();
    assert_eq!(
        dump_graph(&g),
        "graph \"chain\" {\n  // 2 nodes, 3 values, 1 inputs, 1 outputs\n    n0 = Relu(%0) -> [%1]\n    n1 = Sqrt(%1) -> [%2]\n}\n"
    );
    g.storage.node_hdr[1].op_tag = 77;
    assert!(dump_graph(&g).contains("    n1 = <err: IR 错误: 未知 op tag: 77>\n"));
}

#[test]
fn summaries_count_what_there_is() {
    let g = chain();
    assert_eq!(
        g.summary(),
        "Graph { name: \"chain\", raw: StorageGraph { node_count: 2, value_count: 3, edge_count: 4, attr_count: 0, input_count: 1, output_count: 1 } }"
    );
    assert_eq!(Graph::new("a\"b").summary().contains("name: \"a\\\"b\""), true);
}

#[test]
fn malformed_graphs_are_recognized() {
    let mut g = chain();
    assert!(g.is_well_formed() && g.is_extractable());
    g.storage.set_node_inputs(1, &[7]);
    assert!(g.is_well_formed() && !g.is_extractable());
    g.storage.node_hdr[0].inputs_off = 100;
    assert!(!g.is_well_formed());
}

#[test]
fn ids_count_up() {
    let g = chain();
    assert_eq!(g.node_ids(), vec![0, 1]);
    assert_eq!(g.value_ids(), vec![0, 1, 2]);
}

#[test]
fn arena_keeps_items_in_place() {
    let mut a: Arena<&str> = Arena::new();
    assert!(a.is_empty());
    assert_eq!(a.allocate("x"), 0);
    assert_eq!(a.allocate("y"), 1);
    *a.get_mut(0).unwrap() = "z";
    assert_eq!(a.get(0), Some(&"z"));
    assert_eq!(a.get(1), Some(&"y"));
    assert_eq!(a.get(2), None);
    assert_eq!(a.get_mut(2), None);
    assert_eq!(a.len(), 2);
}

#[test]
fn printer_indents_by_two() {
    let mut p = Printer::new();
    p.dedent();
    p.line("a");
    p.indent();
    p.indent();
    p.line("b");
    p.dedent();
    p.line("");
    assert_eq!(p.finish(), "a\n    b\n  \n");
}

#[test]
fn defaults_are_as_documented() {
    let c = Config::default();
    assert_eq!(c.target, Target::Cuda);
    assert_eq!(c.opt_level, OptLevel::O2);
    assert!(!c.dump_ir && !c.trace_isel && !c.algebra_unsafe_opts);
    assert_eq!(c.regalloc_mode, RegAllocMode::Standard);
    let d = CudaDesc::default();
    assert_eq!(d.compute_capability.0, 8);
    let n = NpuDesc::default();
    assert_eq!(n.soc_version, NpuSoc::Ascend910B1);
    assert_eq!(n.aicore_count, 32);
    let o = Operation::new(OpKind::Pow);
    assert_eq!(o.kind, OpKind::Pow);
    assert!(o.inputs.is_empty() && o.outputs.is_empty());
    assert_eq!(native_name(OpKind::MatMul), "mma");
    assert_eq!(native_name(OpKind::Placeholder), "load");
    assert_eq!(native_name(OpKind::Return), "store");
}

#[test]
fn nodes_are_added_with_their_operands() {
    let mut g = chain();
    let n = g.add_node_with(OpKind::Add, &[0, 1, 0], &[2]);
    assert_eq!(n, 2);
    let node = g.node(n).unwrap();
    assert_eq!(node.kind, OpKind::Add);
    assert_eq!(g.storage.node_inputs(n), &[0, 1, 0]);
    assert_eq!(g.storage.node_outputs(n), &[2]);
    assert_eq!(g.storage.node_inputs(1), &[1]);
}

#[test]
fn compaction_copies_values_one_for_one() {
    let mut g = chain();
    let s = g.add_value(Type::Scalar(DType::F32), Some("alone"), u32::MAX);
    let (c, nodes, values) = g.compact(&HashSet::new());
    assert_eq!(values.get(&s), None);
    assert_eq!(values.len(), c.storage.value_count());
    let mut copies: Vec<u32> = values.values().copied().collect();
    copies.sort();
    assert_eq!(copies, vec![0, 1, 2]);
    for (old, new) in &values {
        let (a, b) = (g.value(*old).unwrap(), c.value(*new).unwrap());
        assert_eq!(a.type_tag, b.type_tag);
        assert_eq!(a.shape(), b.shape());
        assert_eq!(a.name(), b.name());
        let def = match a.def_node() {
            u32::MAX => u32::MAX,
            n => nodes[&n],
        };
        assert_eq!(b.def_node(), def);
    }
}
