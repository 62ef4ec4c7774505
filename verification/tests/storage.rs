use neutron::storage::{AttrKey, AttrTag, StorageGraph};

#[test]
fn attr_key_roundtrip_all_variants() {
    let all = [
        AttrKey::Strides,
        AttrKey::Padding,
        AttrKey::Dilation,
        AttrKey::Groups,
        AttrKey::Axis,
        AttrKey::Alpha,
        AttrKey::Beta,
        AttrKey::TransposeA,
        AttrKey::TransposeB,
        AttrKey::Epsilon,
        AttrKey::Shape,
        AttrKey::Value,
        AttrKey::Perm,
        AttrKey::Custom,
    ];
    for k in all {
        let v = k.code();
        let back = AttrKey::from_u8(v).expect("from_u8 应返回 Some");
        assert_eq!(
            back, k,
            "AttrKey 往返失败: {} -> {} -> {:?}",
            k.code(), v, back
        );
    }
}

#[test]
fn attr_key_from_u8_unknown_returns_none() {
    assert!(AttrKey::from_u8(13).is_none());
    assert!(AttrKey::from_u8(100).is_none());
    assert!(AttrKey::from_u8(254).is_none());
}

#[test]
fn attr_tag_roundtrip_all_variants() {
    for tag in [
        AttrTag::Int,
        AttrTag::Float,
        AttrTag::Bool,
        AttrTag::IntArray,
        AttrTag::FloatArray,
    ] {
        let v = tag.code();
        let back = AttrTag::from_u8(v).expect("AttrTag::from_u8 应返回 Some");
        assert_eq!(back.code(), v);
    }
}

#[test]
fn alloc_node_value_increasing_ids() {
    let mut g = StorageGraph::new();
    let n0 = g.alloc_node(1);
    let n1 = g.alloc_node(2);
    let v0 = g.alloc_value(0, 0, 0, u32::MAX, n0);
    let v1 = g.alloc_value(0, 0, 0, u32::MAX, n1);
    assert_eq!(n0, 0);
    assert_eq!(n1, 1);
    assert_eq!(v0, 0);
    assert_eq!(v1, 1);
    assert_eq!(g.node_count(), 2);
    assert_eq!(g.value_count(), 2);
}

#[test]
fn set_and_read_node_inputs_outputs() {
    let mut g = StorageGraph::new();
    let n = g.alloc_node(1);
    let v0 = g.alloc_value(0, 0, 0, u32::MAX, n);
    let v1 = g.alloc_value(0, 0, 0, u32::MAX, n);
    let v2 = g.alloc_value(0, 0, 0, u32::MAX, n);

    g.set_node_inputs(n, &[v0, v1]);
    g.set_node_outputs(n, &[v2]);

    assert_eq!(g.node_inputs(n), &[v0, v1]);
    assert_eq!(g.node_outputs(n), &[v2]);
}

#[test]
fn multiple_nodes_share_edges_pool() {
    let mut g = StorageGraph::new();
    let n0 = g.alloc_node(1);
    let n1 = g.alloc_node(2);
    let v0 = g.alloc_value(0, 0, 0, u32::MAX, n0);
    let v1 = g.alloc_value(0, 0, 0, u32::MAX, n1);

    g.set_node_inputs(n0, &[v0, v0]);
    g.set_node_inputs(n1, &[v1]);

    assert_eq!(g.node_inputs(n0), &[v0, v0]);
    assert_eq!(g.node_inputs(n1), &[v1]);
}

#[test]
fn attr_int_roundtrip() {
    let mut g = StorageGraph::new();
    let n = g.alloc_node(1);
    g.add_attr_int(n, AttrKey::Axis, 42);
    g.add_attr_int(n, AttrKey::Groups, 1);

    let attrs = g.node_attrs(n);
    assert_eq!(attrs.len(), 2);

    let axis_val = g.attr_int(&attrs[0]);
    let groups_val = g.attr_int(&attrs[1]);
    assert_eq!(axis_val, 42);
    assert_eq!(groups_val, 1);
}

#[test]
fn attr_float_roundtrip() {
    let mut g = StorageGraph::new();
    let n = g.alloc_node(1);
    g.add_attr_float(n, AttrKey::Epsilon, 1e-5f64.to_bits());
    g.add_attr_float(n, AttrKey::Value, 42.625f64.to_bits());

    let attrs = g.node_attrs(n);
    assert_eq!(attrs.len(), 2);
    assert!((f64::from_bits(g.attr_float(&attrs[0])) - 1e-5).abs() < 1e-12);
    assert!((f64::from_bits(g.attr_float(&attrs[1])) - 42.625).abs() < 1e-12);
}

#[test]
fn attr_bool_roundtrip() {
    let mut g = StorageGraph::new();
    let n = g.alloc_node(1);
    g.add_attr_bool(n, AttrKey::TransposeA, true);
    g.add_attr_bool(n, AttrKey::TransposeB, false);

    let attrs = g.node_attrs(n);
    assert!(g.attr_bool(&attrs[0]));
    assert!(!g.attr_bool(&attrs[1]));
}

#[test]
fn attr_int_array_roundtrip() {
    let mut g = StorageGraph::new();
    let n = g.alloc_node(1);
    let vals = vec![1i64, 2, 3, -4, 100];
    g.add_attr_int_array(n, AttrKey::Perm, &vals);

    let attrs = g.node_attrs(n);
    assert_eq!(attrs.len(), 1);
    let read = g.attr_int_array(&attrs[0]);
    assert_eq!(read, &vals[..]);
}

#[test]
fn attr_float_array_roundtrip() {
    let mut g = StorageGraph::new();
    let n = g.alloc_node(1);
    let vals = vec![1.5f64, 2.5, -0.5, 100.0];
    let bits: Vec<u64> = vals.iter().map(|v| v.to_bits()).collect();
    g.add_attr_float_array(n, AttrKey::Value, &bits);

    let attrs = g.node_attrs(n);
    assert_eq!(attrs.len(), 1);
    let read = g.attr_float_array(&attrs[0]);
    assert_eq!(read.len(), vals.len());
    for (a, b) in read.iter().zip(vals.iter()) {
        assert!((f64::from_bits(*a) - b).abs() < 1e-12);
    }
}

#[test]
fn value_shape_and_name_roundtrip() {
    let mut g = StorageGraph::new();
    let n = g.alloc_node(1);
    let shape_off = g.add_shape(&[16, 3, 64, 64]);
    let name_off = g.add_name(Some("input_tensor"));
    let v = g.alloc_value(0, 4, shape_off, name_off, n);

    let shape = g.value_shape(v);
    assert_eq!(shape, &[16, 3, 64, 64]);

    let name = g.value_name(v);
    assert_eq!(name, Some("input_tensor"));
}

#[test]
fn value_name_none_returns_none() {
    let mut g = StorageGraph::new();
    let n = g.alloc_node(1);
    let off = g.add_name(None);
    assert_eq!(off, u32::MAX);
    let v = g.alloc_value(0, 0, 0, u32::MAX, n);
    assert_eq!(g.value_name(v), None);
}

#[test]
fn set_value_shape_updates_rank_and_offset() {
    let mut g = StorageGraph::new();
    let n = g.alloc_node(1);
    let shape_off = g.add_shape(&[4, 5]);
    let v = g.alloc_value(0, 2, shape_off, u32::MAX, n);
    assert_eq!(g.value_shape(v), &[4, 5]);

    g.set_value_shape(v, &[2, 3, 4]);
    assert_eq!(g.value_shape(v), &[2, 3, 4]);
}

#[test]
fn value_def_returns_defining_node() {
    let mut g = StorageGraph::new();
    let n0 = g.alloc_node(1);
    let n1 = g.alloc_node(2);
    let v0 = g.alloc_value(0, 0, 0, u32::MAX, n0);
    let v1 = g.alloc_value(0, 0, 0, u32::MAX, n1);
    assert_eq!(g.value_def(v0), n0);
    assert_eq!(g.value_def(v1), n1);
}

#[test]
fn new_node_parent_region_is_max() {
    let mut g = StorageGraph::new();
    let n = g.alloc_node(1);
    assert_eq!(g.node_hdr[n as usize].parent_region, u32::MAX);
}

#[test]
fn add_name_appends_null_terminated() {
    let mut g = StorageGraph::new();
    let off1 = g.add_name(Some("foo"));
    let off2 = g.add_name(Some("bar"));
    assert_eq!(&g.name_data, b"foo\0bar\0");
    assert_eq!(off1, 0);
    assert_eq!(off2, 4);
}

#[test]
fn names_are_read_back_after_other_calls() {
    let mut g = StorageGraph::new();
    let mut values = Vec::new();
    for name in [Some("a"), Some(""), None, Some("é b")] {
        let off = g.add_name(name);
        values.push((g.alloc_value(1, 0, 0, off, u32::MAX), name));
    }
    let n = g.alloc_node(0);
    g.add_name(Some("later"));
    g.set_node_inputs(n, &[0, 1]);
    g.add_attr_bool(n, AttrKey::Axis, true);
    g.add_shape(&[7, 8]);
    g.set_value_shape(values[0].0, &[2, 3, 4]);
    for (v, name) in values {
        assert_eq!(g.value_name(v), name);
    }
    assert_eq!(g.value_shape(0), &[2, 3, 4]);
}

#[test]
fn attributes_are_listed_one_for_each_call() {
    let mut g = StorageGraph::new();
    let a = g.alloc_node(0);
    g.add_attr_int(a, AttrKey::Axis, -1);
    g.add_attr_int_array(a, AttrKey::Perm, &[1, 0]);
    let b = g.alloc_node(1);
    let c = g.alloc_node(2);
    g.set_node_outputs(a, &[5]);
    g.add_attr_float(b, AttrKey::Epsilon, 1.5f64.to_bits());
    g.add_name(Some("x"));
    g.add_attr_bool(b, AttrKey::Axis, true);
    let listed = |n: u32| -> Vec<(u8, u8)> {
        g.node_attrs(n).iter().map(|e| (e.key, e.tag)).collect()
    };
    assert_eq!(
        listed(a),
        vec![
            (AttrKey::Axis.code(), AttrTag::Int.code()),
            (AttrKey::Perm.code(), AttrTag::IntArray.code()),
        ]
    );
    assert_eq!(
        listed(b),
        vec![
            (AttrKey::Epsilon.code(), AttrTag::Float.code()),
            (AttrKey::Axis.code(), AttrTag::Bool.code()),
        ]
    );
    assert!(listed(c).is_empty());
    assert_eq!(g.attr_int(&g.node_attrs(a)[0]), -1);
    assert_eq!(g.attr_int_array(&g.node_attrs(a)[1]), vec![1, 0]);
    assert!(g.attr_bool(&g.node_attrs(b)[1]));
}

#[test]
fn parts_are_read_without_the_others() {
    let mut g = StorageGraph::new();
    let off = g.add_name(Some("n"));
    let v = g.alloc_value(1, 9, 500, off, 3);
    assert_eq!(g.value_name(v), Some("n"));
    assert_eq!(g.value_def(v), 3);
    let w = g.alloc_value(1, 0, 0, 77, 3);
    assert!(g.value_shape(w).is_empty());
    let n = g.alloc_node(0);
    g.set_node_inputs(n, &[v]);
    g.node_hdr[n as usize].outputs_off = 99;
    g.node_hdr[n as usize].attrs_len = 99;
    assert_eq!(g.node_inputs(n), &[v]);
    g.node_hdr[n as usize].outputs_off = 0;
    g.node_hdr[n as usize].inputs_len = 99;
    assert!(g.node_outputs(n).is_empty());
}
